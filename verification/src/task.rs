use vstd::prelude::*;
use vstd::string::StrSliceExecFns;
use vstd::string::StringExecFns;

use crate::message::DownloadOutcome;
use crate::message::DownloadProgress;
use crate::message::Format;
use crate::progress::opt_view;
use crate::progress::parse_progress_line;
use crate::progress::spec_parse_line;
use crate::settings::AdvancedSettings;
use crate::text::contains_ci;
use crate::text::i32_to_string;
use crate::text::join_newline;
use crate::text::lemma_views_of_push;
use crate::text::spec_contains_ci;
use crate::text::spec_i32_string;
use crate::text::spec_join_nl;
use crate::text::spec_split_ws;
use crate::text::split_ws;
use crate::text::str_eq;
use crate::text::views_of;

verus! {

/// One download request: the target address, the chosen format, and a
/// snapshot of the settings taken when the request was made.
#[derive(Debug)]
pub struct DownloadTask {
    pub url: String,
    pub format: Format,
    pub settings: AdvancedSettings,
}

/// A program name and the arguments to hand it, ready to be spawned.
#[derive(Debug)]
pub struct CommandLine {
    pub program: String,
    pub args: Vec<String>,
}

// ---------------------------------------------------------------------------
// The argument list, section by section
// ---------------------------------------------------------------------------

/// The arguments that pick the container or audio format.
pub open spec fn spec_format_args(f: Format) -> Seq<Seq<char>> {
    match f {
        Format::Default => Seq::empty(),
        Format::Mp4 => seq!["--merge-output-format"@, "mp4"@],
        Format::Mkv => seq!["--merge-output-format"@, "mkv"@],
        Format::Mp3 => seq!["-x"@, "--audio-format"@, "mp3"@],
        Format::Aac => seq!["-x"@, "--audio-format"@, "aac"@],
    }
}

/// The arguments that choose where and under what name output lands.
pub open spec fn spec_output_args(s: AdvancedSettings) -> Seq<Seq<char>> {
    if s.output_directory@.len() > 0 {
        seq!["-o"@, s.output_directory@ + "/"@ + s.filename_template@]
    } else if s.filename_template@ != "%(title)s.%(ext)s"@ {
        seq!["-o"@, s.filename_template@]
    } else {
        Seq::empty()
    }
}

/// The quality filter, when one is set.
pub open spec fn spec_quality_args(s: AdvancedSettings) -> Seq<Seq<char>> {
    if s.preferred_quality@.len() > 0 {
        seq!["-f"@, s.preferred_quality@]
    } else {
        Seq::empty()
    }
}

/// The subtitle arguments, when subtitles are wanted.
pub open spec fn spec_subtitle_args(s: AdvancedSettings) -> Seq<Seq<char>> {
    if s.download_subtitles {
        seq!["--write-subs"@] + (if s.subtitle_languages@.len() > 0 {
            seq!["--sub-langs"@, s.subtitle_languages@]
        } else {
            Seq::empty()
        }) + (if s.embed_subtitles {
            seq!["--embed-subs"@]
        } else {
            Seq::empty()
        })
    } else {
        Seq::empty()
    }
}

/// The metadata-embedding arguments.
pub open spec fn spec_metadata_args(s: AdvancedSettings) -> Seq<Seq<char>> {
    (if s.embed_thumbnail {
        seq!["--embed-thumbnail"@]
    } else {
        Seq::empty()
    }) + (if s.embed_metadata {
        seq!["--embed-metadata"@]
    } else {
        Seq::empty()
    })
}

/// The content-filtering arguments; an empty category list falls back to
/// the plain `sponsor` category.
pub open spec fn spec_sponsorblock_args(s: AdvancedSettings) -> Seq<Seq<char>> {
    if s.enable_sponsorblock {
        seq!["--sponsorblock-remove"@] + seq![
            if s.sponsorblock_categories@.len() > 0 {
                s.sponsorblock_categories@
            } else {
                "sponsor"@
            },
        ]
    } else {
        Seq::empty()
    }
}

/// The proxy, rate-limit and concurrency arguments.
pub open spec fn spec_network_args(s: AdvancedSettings) -> Seq<Seq<char>> {
    (if s.proxy@.len() > 0 {
        seq!["--proxy"@, s.proxy@]
    } else {
        Seq::empty()
    }) + (if s.rate_limit@.len() > 0 {
        seq!["--limit-rate"@, s.rate_limit@]
    } else {
        Seq::empty()
    }) + (if s.concurrent_fragments@.len() > 0 && s.concurrent_fragments@ != "1"@ {
        seq!["--concurrent-fragments"@, s.concurrent_fragments@]
    } else {
        Seq::empty()
    })
}

/// The cookie-file argument, when one is set.
pub open spec fn spec_cookies_args(s: AdvancedSettings) -> Seq<Seq<char>> {
    if s.cookies_file@.len() > 0 {
        seq!["--cookies"@, s.cookies_file@]
    } else {
        Seq::empty()
    }
}

/// The JavaScript-runtime argument, when one is set.
pub open spec fn spec_js_args(s: AdvancedSettings) -> Seq<Seq<char>> {
    if s.js_runtimes@.len() > 0 {
        seq!["--js-runtimes"@, s.js_runtimes@]
    } else {
        Seq::empty()
    }
}

/// The free-form extra arguments, split on whitespace.
pub open spec fn spec_extra_args(s: AdvancedSettings) -> Seq<Seq<char>> {
    if s.extra_arguments@.len() > 0 {
        spec_split_ws(s.extra_arguments@)
    } else {
        Seq::empty()
    }
}

/// The program to spawn: the configured path, or the well-known name.
pub open spec fn spec_program(s: AdvancedSettings) -> Seq<char> {
    if s.ytdlp_path@.len() == 0 {
        "yt-dlp"@
    } else {
        s.ytdlp_path@
    }
}

/// The whole argument list of a request, the target address last.
pub open spec fn spec_build_args(t: DownloadTask) -> Seq<Seq<char>> {
    seq!["--progress-template"@, "download:%(progress)j"@, "--newline"@]
        + spec_format_args(t.format) + spec_output_args(t.settings) + spec_quality_args(t.settings)
        + spec_subtitle_args(t.settings) + spec_metadata_args(t.settings)
        + spec_sponsorblock_args(t.settings) + spec_network_args(t.settings) + spec_cookies_args(
        t.settings,
    ) + spec_js_args(t.settings) + spec_extra_args(t.settings) + seq![t.url@]
}

// ---------------------------------------------------------------------------
// Building the argument list
// ---------------------------------------------------------------------------

fn push_arg(args: &mut Vec<String>, a: String)
    ensures
        views_of(final(args)@) == views_of(old(args)@).push(a@),
{
    proof {
        lemma_views_of_push(args@, a);
    }
    args.push(a);
}

fn push_str_arg(args: &mut Vec<String>, a: &str)
    ensures
        views_of(final(args)@) == views_of(old(args)@).push(a@),
{
    push_arg(args, a.to_owned());
}

fn add_format_args(args: &mut Vec<String>, format: Format)
    ensures
        views_of(final(args)@) == views_of(old(args)@) + spec_format_args(format),
{
    match format {
        Format::Default => {},
        Format::Mp4 => {
            push_str_arg(args, "--merge-output-format");
            push_str_arg(args, "mp4");
        },
        Format::Mkv => {
            push_str_arg(args, "--merge-output-format");
            push_str_arg(args, "mkv");
        },
        Format::Mp3 => {
            push_str_arg(args, "-x");
            push_str_arg(args, "--audio-format");
            push_str_arg(args, "mp3");
        },
        Format::Aac => {
            push_str_arg(args, "-x");
            push_str_arg(args, "--audio-format");
            push_str_arg(args, "aac");
        },
    }
    proof {
        assert(views_of(args@) =~= views_of(old(args)@) + spec_format_args(format));
    }
}

fn add_output_args(args: &mut Vec<String>, s: &AdvancedSettings)
    ensures
        views_of(final(args)@) == views_of(old(args)@) + spec_output_args(*s),
{
    if !s.output_directory.as_str().is_empty() {
        let mut path = s.output_directory.clone();
        path.append("/");
        path.append(s.filename_template.as_str());
        push_str_arg(args, "-o");
        push_arg(args, path);
    } else if !str_eq(s.filename_template.as_str(), "%(title)s.%(ext)s") {
        push_str_arg(args, "-o");
        push_arg(args, s.filename_template.clone());
    }
    proof {
        assert(views_of(args@) =~= views_of(old(args)@) + spec_output_args(*s));
    }
}

fn add_quality_args(args: &mut Vec<String>, s: &AdvancedSettings)
    ensures
        views_of(final(args)@) == views_of(old(args)@) + spec_quality_args(*s),
{
    if !s.preferred_quality.as_str().is_empty() {
        push_str_arg(args, "-f");
        push_arg(args, s.preferred_quality.clone());
    }
    proof {
        assert(views_of(args@) =~= views_of(old(args)@) + spec_quality_args(*s));
    }
}

fn add_subtitle_args(args: &mut Vec<String>, s: &AdvancedSettings)
    ensures
        views_of(final(args)@) == views_of(old(args)@) + spec_subtitle_args(*s),
{
    if s.download_subtitles {
        push_str_arg(args, "--write-subs");
        if !s.subtitle_languages.as_str().is_empty() {
            push_str_arg(args, "--sub-langs");
            push_arg(args, s.subtitle_languages.clone());
        }
        if s.embed_subtitles {
            push_str_arg(args, "--embed-subs");
        }
    }
    proof {
        assert(views_of(args@) =~= views_of(old(args)@) + spec_subtitle_args(*s));
    }
}

fn add_metadata_args(args: &mut Vec<String>, s: &AdvancedSettings)
    ensures
        views_of(final(args)@) == views_of(old(args)@) + spec_metadata_args(*s),
{
    if s.embed_thumbnail {
        push_str_arg(args, "--embed-thumbnail");
    }
    if s.embed_metadata {
        push_str_arg(args, "--embed-metadata");
    }
    proof {
        assert(views_of(args@) =~= views_of(old(args)@) + spec_metadata_args(*s));
    }
}

fn add_sponsorblock_args(args: &mut Vec<String>, s: &AdvancedSettings)
    ensures
        views_of(final(args)@) == views_of(old(args)@) + spec_sponsorblock_args(*s),
{
    if s.enable_sponsorblock {
        push_str_arg(args, "--sponsorblock-remove");
        if !s.sponsorblock_categories.as_str().is_empty() {
            push_arg(args, s.sponsorblock_categories.clone());
        } else {
            push_str_arg(args, "sponsor");
        }
    }
    proof {
        assert(views_of(args@) =~= views_of(old(args)@) + spec_sponsorblock_args(*s));
    }
}

fn add_network_args(args: &mut Vec<String>, s: &AdvancedSettings)
    ensures
        views_of(final(args)@) == views_of(old(args)@) + spec_network_args(*s),
{
    if !s.proxy.as_str().is_empty() {
        push_str_arg(args, "--proxy");
        push_arg(args, s.proxy.clone());
    }
    if !s.rate_limit.as_str().is_empty() {
        push_str_arg(args, "--limit-rate");
        push_arg(args, s.rate_limit.clone());
    }
    if !s.concurrent_fragments.as_str().is_empty() && !str_eq(
        s.concurrent_fragments.as_str(),
        "1",
    ) {
        push_str_arg(args, "--concurrent-fragments");
        push_arg(args, s.concurrent_fragments.clone());
    }
    proof {
        assert(views_of(args@) =~= views_of(old(args)@) + spec_network_args(*s));
    }
}

fn add_cookies_args(args: &mut Vec<String>, s: &AdvancedSettings)
    ensures
        views_of(final(args)@) == views_of(old(args)@) + spec_cookies_args(*s),
{
    if !s.cookies_file.as_str().is_empty() {
        push_str_arg(args, "--cookies");
        push_arg(args, s.cookies_file.clone());
    }
    proof {
        assert(views_of(args@) =~= views_of(old(args)@) + spec_cookies_args(*s));
    }
}

fn add_js_args(args: &mut Vec<String>, s: &AdvancedSettings)
    ensures
        views_of(final(args)@) == views_of(old(args)@) + spec_js_args(*s),
{
    if !s.js_runtimes.as_str().is_empty() {
        push_str_arg(args, "--js-runtimes");
        push_arg(args, s.js_runtimes.clone());
    }
    proof {
        assert(views_of(args@) =~= views_of(old(args)@) + spec_js_args(*s));
    }
}

fn add_extra_args(args: &mut Vec<String>, s: &AdvancedSettings)
    ensures
        views_of(final(args)@) == views_of(old(args)@) + spec_extra_args(*s),
{
    if !s.extra_arguments.as_str().is_empty() {
        let words = split_ws(s.extra_arguments.as_str());
        let mut i: usize = 0;
        while i < words.len()
            invariant
                i <= words@.len(),
                views_of(words@) == spec_split_ws(s.extra_arguments@),
                views_of(args@) == views_of(old(args)@) + views_of(words@).take(i as int),
            decreases words@.len() - i,
        {
            push_arg(args, words[i].clone());
            proof {
                assert(views_of(words@).take(i as int + 1) =~= views_of(words@).take(
                    i as int,
                ).push(words@[i as int]@));
                assert(views_of(args@) =~= views_of(old(args)@) + views_of(words@).take(
                    i as int + 1,
                ));
            }
            i += 1;
        }
        proof {
            assert(views_of(words@).take(words@.len() as int) =~= views_of(words@));
        }
    }
    proof {
        assert(views_of(args@) =~= views_of(old(args)@) + spec_extra_args(*s));
    }
}

impl DownloadTask {
    /// Capture one download request.
    pub fn new(url: String, format: Format, settings: AdvancedSettings) -> (r: Self)
        ensures
            r.url == url,
            r.format == format,
            r.settings == settings,
    {
        DownloadTask { url, format, settings }
    }

    /// The command line that asks the worker process to carry out this
    /// request: machine-readable progress, the chosen format, output,
    /// quality, subtitle, metadata, filtering, network and cookie options,
    /// the free-form extras, and the target address last.
    pub fn build_command(&self) -> (r: CommandLine)
        ensures
            r.program@ == spec_program(self.settings),
            views_of(r.args@) == spec_build_args(*self),
    {
        let program = if self.settings.ytdlp_path.as_str().is_empty() {
            "yt-dlp".to_owned()
        } else {
            self.settings.ytdlp_path.clone()
        };
        let mut args: Vec<String> = Vec::new();
        proof {
            assert(views_of(args@) =~= Seq::<Seq<char>>::empty());
        }
        push_str_arg(&mut args, "--progress-template");
        push_str_arg(&mut args, "download:%(progress)j");
        push_str_arg(&mut args, "--newline");
        proof {
            assert(views_of(args@) =~= seq![
                "--progress-template"@,
                "download:%(progress)j"@,
                "--newline"@,
            ]);
        }
        add_format_args(&mut args, self.format);
        add_output_args(&mut args, &self.settings);
        add_quality_args(&mut args, &self.settings);
        add_subtitle_args(&mut args, &self.settings);
        add_metadata_args(&mut args, &self.settings);
        add_sponsorblock_args(&mut args, &self.settings);
        add_network_args(&mut args, &self.settings);
        add_cookies_args(&mut args, &self.settings);
        add_js_args(&mut args, &self.settings);
        add_extra_args(&mut args, &self.settings);
        push_arg(&mut args, self.url.clone());
        proof {
            assert(views_of(args@) =~= spec_build_args(*self));
        }
        CommandLine { program, args }
    }
}

// ---------------------------------------------------------------------------
// Aggregating what the runner observes
// ---------------------------------------------------------------------------

/// The file name to remember after seeing one parsed event: the name a
/// `Downloading` event carries, else whatever was remembered before.
pub open spec fn spec_filename_after(prev: String, r: Option<DownloadProgress>) -> String {
    match r {
        Option::Some(DownloadProgress::Downloading { filename, .. }) => filename,
        _ => prev,
    }
}

/// The message of a failed run: the accumulated error lines joined with
/// newlines, or, when none were caught, a fallback naming the exit code.
pub open spec fn spec_failure_message(errors: Seq<Seq<char>>, exit_code: Option<i32>) -> Seq<char> {
    if errors.len() == 0 {
        "yt-dlp exited with code: "@ + spec_exit_code_text(exit_code)
    } else {
        spec_join_nl(errors)
    }
}

/// An optional exit code written out the way a debugger would.
pub open spec fn spec_exit_code_text(exit_code: Option<i32>) -> Seq<char> {
    match exit_code {
        Option::Some(c) => "Some("@ + spec_i32_string(c as int) + ")"@,
        Option::None => "None"@,
    }
}

/// True when `r` is a failure carrying exactly the message `msg`.
pub open spec fn is_failure_with(r: DownloadOutcome, msg: Seq<char>) -> bool {
    match r {
        DownloadOutcome::Failure { message } => message@ == msg,
        _ => false,
    }
}

/// What one run of the worker process has shown so far: the file name
/// last seen in a `Downloading` event, and every error line caught on the
/// error stream.
#[derive(Debug)]
pub struct RunnerState {
    pub last_filename: String,
    pub error_lines: Vec<String>,
}

impl RunnerState {
    /// A fresh run: no file name seen, no errors caught.
    pub fn new() -> (r: Self)
        ensures
            r.last_filename@ == Seq::<char>::empty(),
            r.error_lines@ == Seq::<String>::empty(),
    {
        RunnerState { last_filename: String::new(), error_lines: Vec::new() }
    }

    /// Take in one line of the worker's standard output: parse it, and
    /// remember the file name when the line names one.
    pub fn on_stdout_line(&mut self, line: &str) -> (r: Option<DownloadProgress>)
        ensures
            opt_view(r) == spec_parse_line(line@),
            final(self).error_lines == old(self).error_lines,
            final(self).last_filename == spec_filename_after(old(self).last_filename, r),
    {
        let r = parse_progress_line(line);
        match &r {
            Option::Some(DownloadProgress::Downloading { filename, .. }) => {
                self.last_filename = filename.clone();
            },
            _ => {},
        }
        r
    }

    /// Take in one line of the worker's standard error: parse it, and
    /// keep the line verbatim when it speaks of an error.
    pub fn on_stderr_line(&mut self, line: &str) -> (r: Option<DownloadProgress>)
        ensures
            opt_view(r) == spec_parse_line(line@),
            final(self).last_filename == old(self).last_filename,
            spec_contains_ci(line@, "error"@) ==> views_of(final(self).error_lines@) == views_of(
                old(self).error_lines@,
            ).push(line@),
            !spec_contains_ci(line@, "error"@) ==> final(self).error_lines == old(
                self,
            ).error_lines,
    {
        let r = parse_progress_line(line);
        if contains_ci(line, "error") {
            let owned = line.to_owned();
            proof {
                lemma_views_of_push(self.error_lines@, owned);
            }
            self.error_lines.push(owned);
        }
        r
    }

    /// The terminal outcome of the run: on a clean exit, success with the
    /// last file name seen; otherwise failure, with the caught error lines
    /// or a fallback message naming the exit code.
    pub fn outcome(&self, exit_success: bool, exit_code: Option<i32>) -> (r: DownloadOutcome)
        ensures
            exit_success ==> r == (DownloadOutcome::Success { output_path: self.last_filename }),
            !exit_success ==> is_failure_with(
                r,
                spec_failure_message(views_of(self.error_lines@), exit_code),
            ),
    {
        if exit_success {
            DownloadOutcome::Success { output_path: self.last_filename.clone() }
        } else if self.error_lines.len() == 0 {
            let mut m = "yt-dlp exited with code: ".to_owned();
            match exit_code {
                Option::Some(c) => {
                    m.append("Some(");
                    let digits = i32_to_string(c);
                    m.append(digits.as_str());
                    m.append(")");
                },
                Option::None => {
                    m.append("None");
                },
            }
            proof {
                assert(m@ =~= "yt-dlp exited with code: "@ + spec_exit_code_text(exit_code));
                assert(views_of(self.error_lines@).len() == 0);
            }
            DownloadOutcome::Failure { message: m }
        } else {
            proof {
                assert(views_of(self.error_lines@).len() > 0);
            }
            DownloadOutcome::Failure { message: join_newline(&self.error_lines) }
        }
    }
}

} // verus!
