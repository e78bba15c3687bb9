use yt_dlgui::message::DownloadOutcome;
use yt_dlgui::message::Format;
use yt_dlgui::settings::AdvancedSettings;
use yt_dlgui::task::DownloadTask;
use yt_dlgui::task::RunnerState;

fn args_of(task: &DownloadTask) -> Vec<String> {
    task.build_command().args
}

#[test]
fn default_command_line_is_minimal() {
    let task = DownloadTask::new(
        "https://example.com/v".to_string(),
        Format::Default,
        AdvancedSettings::default(),
    );
    let cmd = task.build_command();
    assert_eq!(cmd.program, "yt-dlp");
    assert_eq!(
        cmd.args,
        vec![
            "--progress-template",
            "download:%(progress)j",
            "--newline",
            "https://example.com/v",
        ]
    );
}

#[test]
fn url_always_comes_last() {
    let mut settings = AdvancedSettings::default();
    settings.proxy = "socks5://localhost:9050".to_string();
    let task = DownloadTask::new("https://example.com/v".to_string(), Format::Mp4, settings);
    let args = args_of(&task);
    assert_eq!(args.last().unwrap(), "https://example.com/v");
}

#[test]
fn format_flags_follow_the_choice() {
    let url = "u".to_string();
    let s = AdvancedSettings::default();
    let mp4 = args_of(&DownloadTask::new(url.clone(), Format::Mp4, s.clone()));
    assert!(mp4.windows(2).any(|w| w == ["--merge-output-format", "mp4"]));
    let mkv = args_of(&DownloadTask::new(url.clone(), Format::Mkv, s.clone()));
    assert!(mkv.windows(2).any(|w| w == ["--merge-output-format", "mkv"]));
    let mp3 = args_of(&DownloadTask::new(url.clone(), Format::Mp3, s.clone()));
    assert!(mp3.contains(&"-x".to_string()));
    assert!(mp3.windows(2).any(|w| w == ["--audio-format", "mp3"]));
    let aac = args_of(&DownloadTask::new(url, Format::Aac, s));
    assert!(aac.windows(2).any(|w| w == ["--audio-format", "aac"]));
}

#[test]
fn output_directory_joins_the_template() {
    let mut s = AdvancedSettings::default();
    s.output_directory = "/tmp/videos".to_string();
    let args = args_of(&DownloadTask::new("u".to_string(), Format::Default, s));
    assert!(args
        .windows(2)
        .any(|w| w == ["-o", "/tmp/videos/%(title)s.%(ext)s"]));
}

#[test]
fn changed_template_alone_is_passed() {
    let mut s = AdvancedSettings::default();
    s.filename_template = "%(id)s.%(ext)s".to_string();
    let args = args_of(&DownloadTask::new("u".to_string(), Format::Default, s));
    assert!(args.windows(2).any(|w| w == ["-o", "%(id)s.%(ext)s"]));
}

#[test]
fn subtitle_flags_only_when_wanted() {
    let mut s = AdvancedSettings::default();
    s.download_subtitles = true;
    s.embed_subtitles = true;
    let args = args_of(&DownloadTask::new("u".to_string(), Format::Default, s));
    assert!(args.contains(&"--write-subs".to_string()));
    assert!(args.windows(2).any(|w| w == ["--sub-langs", "en"]));
    assert!(args.contains(&"--embed-subs".to_string()));

    let off = args_of(&DownloadTask::new(
        "u".to_string(),
        Format::Default,
        AdvancedSettings::default(),
    ));
    assert!(!off.contains(&"--write-subs".to_string()));
}

#[test]
fn empty_sponsorblock_categories_default_to_sponsor() {
    let mut s = AdvancedSettings::default();
    s.enable_sponsorblock = true;
    s.sponsorblock_categories = String::new();
    let args = args_of(&DownloadTask::new("u".to_string(), Format::Default, s));
    assert!(args
        .windows(2)
        .any(|w| w == ["--sponsorblock-remove", "sponsor"]));
}

#[test]
fn concurrent_fragments_of_one_is_omitted() {
    let one = args_of(&DownloadTask::new(
        "u".to_string(),
        Format::Default,
        AdvancedSettings::default(),
    ));
    assert!(!one.contains(&"--concurrent-fragments".to_string()));

    let mut s = AdvancedSettings::default();
    s.concurrent_fragments = "4".to_string();
    let four = args_of(&DownloadTask::new("u".to_string(), Format::Default, s));
    assert!(four.windows(2).any(|w| w == ["--concurrent-fragments", "4"]));
}

#[test]
fn extra_arguments_are_split_on_whitespace() {
    let mut s = AdvancedSettings::default();
    s.extra_arguments = "  --no-mtime   --retries 3 ".to_string();
    let args = args_of(&DownloadTask::new("u".to_string(), Format::Default, s));
    assert!(args
        .windows(3)
        .any(|w| w == ["--no-mtime", "--retries", "3"]));
}

#[test]
fn configured_path_replaces_the_default_program() {
    let mut s = AdvancedSettings::default();
    s.ytdlp_path = "/opt/tools/yt-dlp-nightly".to_string();
    let cmd = DownloadTask::new("u".to_string(), Format::Default, s).build_command();
    assert_eq!(cmd.program, "/opt/tools/yt-dlp-nightly");
}

#[test]
fn runner_remembers_the_last_filename() {
    let mut state = RunnerState::new();
    let _ = state.on_stdout_line(r#"{"status":"downloading","_percent_str":"10%","filename":"a.mp4"}"#);
    let _ = state.on_stdout_line(r#"{"status":"downloading","_percent_str":"90%","filename":"video.mp4"}"#);
    let _ = state.on_stdout_line("random unrelated text");
    match state.outcome(true, Some(0)) {
        DownloadOutcome::Success { output_path } => assert_eq!(output_path, "video.mp4"),
        other => panic!("wrong outcome: {:?}", other),
    }
}

#[test]
fn clean_exit_without_any_event_succeeds_with_empty_name() {
    let state = RunnerState::new();
    match state.outcome(true, Some(0)) {
        DownloadOutcome::Success { output_path } => assert_eq!(output_path, ""),
        other => panic!("wrong outcome: {:?}", other),
    }
}

#[test]
fn failed_exit_without_errors_names_the_code() {
    let state = RunnerState::new();
    match state.outcome(false, Some(7)) {
        DownloadOutcome::Failure { message } => {
            assert_eq!(message, "yt-dlp exited with code: Some(7)");
            assert!(message.contains("7"));
        }
        other => panic!("wrong outcome: {:?}", other),
    }
}

#[test]
fn failed_exit_without_a_code_says_so() {
    let state = RunnerState::new();
    match state.outcome(false, None) {
        DownloadOutcome::Failure { message } => {
            assert_eq!(message, "yt-dlp exited with code: None");
        }
        other => panic!("wrong outcome: {:?}", other),
    }
}

#[test]
fn failed_exit_joins_the_caught_error_lines() {
    let mut state = RunnerState::new();
    let _ = state.on_stderr_line("ERROR: no formats found");
    let _ = state.on_stderr_line("just a warning");
    let _ = state.on_stderr_line("error: giving up");
    match state.outcome(false, Some(1)) {
        DownloadOutcome::Failure { message } => {
            assert_eq!(message, "ERROR: no formats found\nerror: giving up");
        }
        other => panic!("wrong outcome: {:?}", other),
    }
}

#[test]
fn stderr_lines_still_feed_the_parser() {
    let mut state = RunnerState::new();
    let parsed = state.on_stderr_line("[Merger] Merging formats into mp4");
    assert!(parsed.is_some());
}
