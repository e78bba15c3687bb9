use vstd::prelude::*;
use vstd::string::StrSliceExecFns;
use vstd::string::StringExecFns;

use crate::fraction::Fraction;
use crate::message::DownloadProgress;
use crate::message::ProgressView;
use crate::text::contains_ci;
use crate::text::eq_ci;
use crate::text::lemma_contains_ci_insensitive;
use crate::text::lemma_dec_scan_bounds;
use crate::text::parse_decimal_u64;
use crate::text::spec_contains_ci;
use crate::text::spec_parse_dec_u64;
use crate::text::spec_trim;
use crate::text::str_eq;
use crate::text::trim_str;

verus! {

/// The optional fields of one structured progress record, as the worker
/// process writes them on a single line.
#[derive(Debug)]
pub struct ProgressRecord {
    pub status: Option<String>,
    pub percent_str: Option<String>,
    pub speed_str: Option<String>,
    pub eta_str: Option<String>,
    pub filename: Option<String>,
    pub downloaded_bytes: Option<u64>,
    pub total_bytes: Option<u64>,
    pub total_bytes_estimate: Option<u64>,
}

/// What the structured decoder yields on a given line. The decode is done
/// by an outside library; all that is assumed of it is that the result is
/// a function of the line's characters alone.
pub uninterp spec fn record_of(line: Seq<char>) -> Option<ProgressRecord>;

/// Relies on serde_json::from_str and on serde_json::Value::get,
/// Value::as_str and Value::as_u64: reading a line as a JSON record and
/// picking string and integer fields out of it depend on the line's
/// characters alone, and fail on anything that is not such a record.
#[verifier::external_body]
fn decode_record(line: &str) -> (r: Option<ProgressRecord>)
    ensures
        r == record_of(line@),
{
    let v: serde_json::Value = serde_json::from_str(line).ok()?;
    let s = |k: &str| v.get(k).and_then(serde_json::Value::as_str).map(String::from);
    let n = |k: &str| v.get(k).and_then(serde_json::Value::as_u64);
    Some(ProgressRecord {
        status: s("status"),
        percent_str: s("_percent_str"),
        speed_str: s("_speed_str"),
        eta_str: s("_eta_str"),
        filename: s("filename"),
        downloaded_bytes: n("downloaded_bytes"),
        total_bytes: n("total_bytes"),
        total_bytes_estimate: n("total_bytes_estimate"),
    })
}

// ---------------------------------------------------------------------------
// The fraction of a record
// ---------------------------------------------------------------------------

/// `s` with every trailing percent sign dropped.
pub open spec fn strip_pct_rec(s: Seq<char>) -> Seq<char>
    decreases s.len(),
{
    if s.len() > 0 && s.last() == '%' {
        strip_pct_rec(s.drop_last())
    } else {
        s
    }
}

/// A percent text read as a fraction of one: trimmed, trailing percent
/// signs dropped, the decimal value divided by one hundred.
pub open spec fn spec_percent_fraction(p: Seq<char>) -> Option<Fraction> {
    match spec_parse_dec_u64(strip_pct_rec(spec_trim(p))) {
        Option::Some(nd) => if nd.1 <= u64::MAX / 100 {
            Option::Some(Fraction { num: nd.0, den: (nd.1 * 100) as u64 })
        } else {
            Option::None
        },
        Option::None => Option::None,
    }
}

/// Read a percent text such as `"42.5%"` as a fraction of one.
pub fn parse_percent_str(p: &str) -> (r: Option<Fraction>)
    ensures
        r == spec_percent_fraction(p@),
{
    let t = trim_str(p);
    let n = t.unicode_len();
    proof {
        assert(t@.subrange(0, n as int) =~= t@);
    }
    let mut b: usize = n;
    while b > 0 && t.get_char(b - 1) == '%'
        invariant
            b <= n,
            n == t@.len(),
            strip_pct_rec(t@) == strip_pct_rec(t@.subrange(0, b as int)),
        decreases b,
    {
        proof {
            let u = t@.subrange(0, b as int);
            assert(u.last() == t@[b - 1]);
            assert(u.drop_last() =~= t@.subrange(0, b as int - 1));
        }
        b -= 1;
    }
    proof {
        let u = t@.subrange(0, b as int);
        if b > 0 {
            assert(u.last() == t@[b - 1]);
        }
        assert(strip_pct_rec(t@) == u);
    }
    let u = t.substring_char(0, b);
    match parse_decimal_u64(u) {
        Option::Some(nd) => {
            let (num, den) = nd;
            if den <= u64::MAX / 100 {
                Option::Some(Fraction { num, den: den * 100 })
            } else {
                Option::None
            }
        },
        Option::None => Option::None,
    }
}

/// The fraction of a record that carries no usable percent text: bytes
/// downloaded over bytes expected, or zero when no total is known.
pub open spec fn spec_bytes_fraction(rec: ProgressRecord) -> Fraction {
    let downloaded = match rec.downloaded_bytes {
        Option::Some(d) => d,
        Option::None => 0u64,
    };
    let total = match rec.total_bytes {
        Option::Some(tb) => tb,
        Option::None => match rec.total_bytes_estimate {
            Option::Some(e) => e,
            Option::None => 0u64,
        },
    };
    if total > 0 {
        Fraction { num: downloaded, den: total }
    } else {
        Fraction { num: 0u64, den: 1u64 }
    }
}

/// The fraction of a record: its percent text when that reads as a
/// decimal, else the ratio of its byte counts.
pub open spec fn spec_record_fraction(rec: ProgressRecord) -> Fraction {
    match rec.percent_str {
        Option::Some(p) => match spec_percent_fraction(p@) {
            Option::Some(f) => f,
            Option::None => spec_bytes_fraction(rec),
        },
        Option::None => spec_bytes_fraction(rec),
    }
}

fn bytes_fraction(rec: &ProgressRecord) -> (r: Fraction)
    ensures
        r == spec_bytes_fraction(*rec),
{
    let downloaded = match rec.downloaded_bytes {
        Option::Some(d) => d,
        Option::None => 0u64,
    };
    let total = match rec.total_bytes {
        Option::Some(tb) => tb,
        Option::None => match rec.total_bytes_estimate {
            Option::Some(e) => e,
            Option::None => 0u64,
        },
    };
    if total > 0 {
        Fraction { num: downloaded, den: total }
    } else {
        Fraction { num: 0, den: 1 }
    }
}

fn record_fraction(rec: &ProgressRecord) -> (r: Fraction)
    ensures
        r == spec_record_fraction(*rec),
{
    match &rec.percent_str {
        Option::Some(p) => match parse_percent_str(p.as_str()) {
            Option::Some(f) => f,
            Option::None => bytes_fraction(rec),
        },
        Option::None => bytes_fraction(rec),
    }
}

// ---------------------------------------------------------------------------
// Classifying a line
// ---------------------------------------------------------------------------

/// The view of an optional string, with a default.
pub open spec fn or_view(o: Option<String>, dflt: Seq<char>) -> Seq<char> {
    match o {
        Option::Some(s) => s@,
        Option::None => dflt,
    }
}

/// The view of an optional progress event.
pub open spec fn opt_view(o: Option<DownloadProgress>) -> Option<ProgressView> {
    match o {
        Option::Some(p) => Option::Some(p@),
        Option::None => Option::None,
    }
}

/// The event a decoded record stands for, if any: a download step with its
/// fraction and trimmed speed and eta texts, the end of the transfer, or a
/// reported error.
pub open spec fn spec_classify_record(rec: ProgressRecord) -> Option<ProgressView> {
    match rec.status {
        Option::Some(st) => if st@ == "downloading"@ {
            Option::Some(
                ProgressView::Downloading {
                    progress: spec_record_fraction(rec),
                    speed: spec_trim(or_view(rec.speed_str, "N/A"@)),
                    eta: spec_trim(or_view(rec.eta_str, "N/A"@)),
                    filename: or_view(rec.filename, "Unknown"@),
                },
            )
        } else if st@ == "finished"@ {
            Option::Some(ProgressView::PostProcessing { status: "Processing..."@ })
        } else if st@ == "error"@ {
            Option::Some(ProgressView::Error("Download failed"@))
        } else {
            Option::None
        },
        Option::None => Option::None,
    }
}

/// The event a decoded record stands for, if any.
pub fn classify_record(rec: &ProgressRecord) -> (r: Option<DownloadProgress>)
    ensures
        opt_view(r) == spec_classify_record(*rec),
{
    match &rec.status {
        Option::Some(st) => {
            if str_eq(st.as_str(), "downloading") {
                let progress = record_fraction(rec);
                let speed = match &rec.speed_str {
                    Option::Some(s) => trim_str(s.as_str()).to_owned(),
                    Option::None => trim_str("N/A").to_owned(),
                };
                let eta = match &rec.eta_str {
                    Option::Some(s) => trim_str(s.as_str()).to_owned(),
                    Option::None => trim_str("N/A").to_owned(),
                };
                let filename = match &rec.filename {
                    Option::Some(f) => f.clone(),
                    Option::None => "Unknown".to_owned(),
                };
                Option::Some(DownloadProgress::Downloading { progress, speed, eta, filename })
            } else if str_eq(st.as_str(), "finished") {
                Option::Some(
                    DownloadProgress::PostProcessing { status: "Processing...".to_owned() },
                )
            } else if str_eq(st.as_str(), "error") {
                Option::Some(DownloadProgress::Error("Download failed".to_owned()))
            } else {
                Option::None
            }
        },
        Option::None => Option::None,
    }
}

/// The event a free-text banner line stands for, if any: a post-processing
/// phase recognized by its tag, or a reported error repeated as written.
/// Matching is case-insensitive.
pub open spec fn spec_classify_plain(line: Seq<char>) -> Option<ProgressView> {
    if spec_contains_ci(line, "[merger]"@) || spec_contains_ci(line, "[ffmpeg]"@)
        || spec_contains_ci(line, "merging"@) {
        Option::Some(ProgressView::PostProcessing { status: "Merging formats..."@ })
    } else if spec_contains_ci(line, "[embedthumbnail]"@) {
        Option::Some(ProgressView::PostProcessing { status: "Embedding thumbnail..."@ })
    } else if spec_contains_ci(line, "[metadata]"@) {
        Option::Some(ProgressView::PostProcessing { status: "Writing metadata..."@ })
    } else if spec_contains_ci(line, "[sponsorblock]"@) {
        Option::Some(ProgressView::PostProcessing { status: "Removing sponsor segments..."@ })
    } else if spec_contains_ci(line, "error"@) {
        Option::Some(ProgressView::Error(line))
    } else {
        Option::None
    }
}

/// The event a free-text banner line stands for, if any.
pub fn classify_plain(line: &str) -> (r: Option<DownloadProgress>)
    ensures
        opt_view(r) == spec_classify_plain(line@),
{
    if contains_ci(line, "[merger]") || contains_ci(line, "[ffmpeg]") || contains_ci(
        line,
        "merging",
    ) {
        Option::Some(DownloadProgress::PostProcessing { status: "Merging formats...".to_owned() })
    } else if contains_ci(line, "[embedthumbnail]") {
        Option::Some(
            DownloadProgress::PostProcessing { status: "Embedding thumbnail...".to_owned() },
        )
    } else if contains_ci(line, "[metadata]") {
        Option::Some(DownloadProgress::PostProcessing { status: "Writing metadata...".to_owned() })
    } else if contains_ci(line, "[sponsorblock]") {
        Option::Some(
            DownloadProgress::PostProcessing { status: "Removing sponsor segments...".to_owned() },
        )
    } else if contains_ci(line, "error") {
        Option::Some(DownloadProgress::Error(line.to_owned()))
    } else {
        Option::None
    }
}

// ---------------------------------------------------------------------------
// The parser
// ---------------------------------------------------------------------------

/// What one output line of the worker process means: its structured
/// reading when it decodes as a record with a telling status, else its
/// reading as a free-text banner, else nothing.
pub open spec fn spec_parse_line(line: Seq<char>) -> Option<ProgressView> {
    match record_of(line) {
        Option::Some(rec) => match spec_classify_record(rec) {
            Option::Some(ev) => Option::Some(ev),
            Option::None => spec_classify_plain(line),
        },
        Option::None => spec_classify_plain(line),
    }
}

/// Parse one output line of the worker process into at most one event.
pub fn parse_progress_line(line: &str) -> (r: Option<DownloadProgress>)
    ensures
        opt_view(r) == spec_parse_line(line@),
{
    if let Option::Some(rec) = decode_record(line) {
        if let Option::Some(ev) = classify_record(&rec) {
            return Option::Some(ev);
        }
    }
    classify_plain(line)
}

// ---------------------------------------------------------------------------
// Laws of the parser
// ---------------------------------------------------------------------------

/// Every percent text that reads as a plain decimal yields exactly that
/// value divided by one hundred: the numerator is kept as it is, and the
/// denominator is scaled by one hundred.
pub proof fn lemma_percent_exact(p: Seq<char>, n: u64, d: u64)
    requires
        spec_parse_dec_u64(strip_pct_rec(spec_trim(p))) == Option::Some((n, d)),
        d <= u64::MAX / 100,
    ensures
        spec_percent_fraction(p) == Option::Some(Fraction { num: n, den: (d * 100) as u64 }),
{
}

/// Banner classification is case-insensitive: two lines that agree up to
/// ASCII case are read the same way — the same post-processing phase, or
/// both as errors (each carrying its own text), or both as nothing.
pub proof fn lemma_classify_plain_case_insensitive(l1: Seq<char>, l2: Seq<char>)
    requires
        l1.len() == l2.len(),
        forall|i: int| 0 <= i < l1.len() ==> eq_ci(#[trigger] l1[i], l2[i]),
    ensures
        match (spec_classify_plain(l1), spec_classify_plain(l2)) {
            (
                Option::Some(ProgressView::PostProcessing { status: s1 }),
                Option::Some(ProgressView::PostProcessing { status: s2 }),
            ) => s1 == s2,
            (Option::Some(ProgressView::Error(_)), Option::Some(ProgressView::Error(_))) => true,
            (Option::None, Option::None) => true,
            _ => false,
        },
{
    lemma_contains_ci_insensitive(l1, l2, "[merger]"@);
    lemma_contains_ci_insensitive(l1, l2, "[ffmpeg]"@);
    lemma_contains_ci_insensitive(l1, l2, "merging"@);
    lemma_contains_ci_insensitive(l1, l2, "[embedthumbnail]"@);
    lemma_contains_ci_insensitive(l1, l2, "[metadata]"@);
    lemma_contains_ci_insensitive(l1, l2, "[sponsorblock]"@);
    lemma_contains_ci_insensitive(l1, l2, "error"@);
}

// ---------------------------------------------------------------------------
// Every parsed fraction is well-formed
// ---------------------------------------------------------------------------

/// A fraction read from a percent text has a positive denominator.
proof fn lemma_percent_fraction_wf(p: Seq<char>)
    ensures
        spec_percent_fraction(p) matches Option::Some(f) ==> f.wf(),
{
    let t = strip_pct_rec(spec_trim(p));
    lemma_dec_scan_bounds(t, 0, 0, Option::None, false);
}

/// Every `Downloading` event the parser yields carries a well-formed
/// fraction, whatever the line said.
pub proof fn lemma_parsed_fraction_wf(line: Seq<char>)
    ensures
        spec_parse_line(line) matches Option::Some(ProgressView::Downloading { progress, .. })
            ==> progress.wf(),
{
    match record_of(line) {
        Option::Some(rec) => match rec.percent_str {
            Option::Some(p) => lemma_percent_fraction_wf(p@),
            Option::None => {},
        },
        Option::None => {},
    }
}

} // verus!
