use yt_dlgui::fraction::Fraction;
use yt_dlgui::message::DownloadProgress;
use yt_dlgui::progress::classify_record;
use yt_dlgui::progress::parse_percent_str;
use yt_dlgui::progress::parse_progress_line;
use yt_dlgui::progress::ProgressRecord;

fn empty_record() -> ProgressRecord {
    ProgressRecord {
        status: None,
        percent_str: None,
        speed_str: None,
        eta_str: None,
        filename: None,
        downloaded_bytes: None,
        total_bytes: None,
        total_bytes_estimate: None,
    }
}

#[test]
fn percent_string_is_value_over_one_hundred() {
    // "42.5" has one fractional digit: 425 tenths, over 10 * 100.
    let r = parse_percent_str("42.5%").unwrap();
    assert_eq!(r, Fraction { num: 425, den: 1000 });
    let r = parse_percent_str("50%").unwrap();
    assert_eq!(r, Fraction { num: 50, den: 100 });
    let r = parse_percent_str(" 100.0% ").unwrap();
    assert_eq!(r, Fraction { num: 1000, den: 1000 });
    let r = parse_percent_str("0.1%").unwrap();
    assert_eq!(r, Fraction { num: 1, den: 1000 });
}

#[test]
fn percent_string_rejects_non_decimals() {
    assert!(parse_percent_str("").is_none());
    assert!(parse_percent_str("%").is_none());
    assert!(parse_percent_str("N/A").is_none());
    assert!(parse_percent_str("1.2.3%").is_none());
    assert!(parse_percent_str("-5%").is_none());
}

#[test]
fn downloading_line_uses_percent_string() {
    let line = r#"{"status":"downloading","_percent_str":" 42.5%","_speed_str":" 1.2MiB/s ","_eta_str":"00:30","filename":"video.mp4"}"#;
    match parse_progress_line(line) {
        Some(DownloadProgress::Downloading { progress, speed, eta, filename }) => {
            assert_eq!(progress, Fraction { num: 425, den: 1000 });
            assert_eq!(speed, "1.2MiB/s");
            assert_eq!(eta, "00:30");
            assert_eq!(filename, "video.mp4");
        }
        other => panic!("wrong event: {:?}", other),
    }
}

#[test]
fn downloading_line_falls_back_to_byte_counts() {
    let line = r#"{"status":"downloading","downloaded_bytes":50,"total_bytes":200}"#;
    match parse_progress_line(line) {
        Some(DownloadProgress::Downloading { progress, speed, eta, filename }) => {
            // 50 / 200 == 0.25
            assert_eq!(progress, Fraction { num: 50, den: 200 });
            assert_eq!(speed, "N/A");
            assert_eq!(eta, "N/A");
            assert_eq!(filename, "Unknown");
        }
        other => panic!("wrong event: {:?}", other),
    }
}

#[test]
fn downloading_line_with_zero_total_is_zero() {
    let line = r#"{"status":"downloading","downloaded_bytes":50,"total_bytes":0}"#;
    match parse_progress_line(line) {
        Some(DownloadProgress::Downloading { progress, .. }) => {
            assert_eq!(progress, Fraction { num: 0, den: 1 });
        }
        other => panic!("wrong event: {:?}", other),
    }
}

#[test]
fn downloading_line_uses_total_estimate() {
    let line = r#"{"status":"downloading","downloaded_bytes":30,"total_bytes_estimate":120}"#;
    match parse_progress_line(line) {
        Some(DownloadProgress::Downloading { progress, .. }) => {
            assert_eq!(progress, Fraction { num: 30, den: 120 });
        }
        other => panic!("wrong event: {:?}", other),
    }
}

#[test]
fn finished_line_is_post_processing() {
    let line = r#"{"status":"finished","filename":"video.mp4"}"#;
    match parse_progress_line(line) {
        Some(DownloadProgress::PostProcessing { status }) => {
            assert_eq!(status, "Processing...");
        }
        other => panic!("wrong event: {:?}", other),
    }
}

#[test]
fn error_status_line_is_failure() {
    let line = r#"{"status":"error"}"#;
    match parse_progress_line(line) {
        Some(DownloadProgress::Error(message)) => {
            assert_eq!(message, "Download failed");
        }
        other => panic!("wrong event: {:?}", other),
    }
}

#[test]
fn unknown_status_falls_through_to_banners() {
    // A decodable record with a status the protocol does not know is
    // read as free text; this one names no banner either.
    let line = r#"{"status":"queued"}"#;
    assert!(parse_progress_line(line).is_none());
}

#[test]
fn merger_banner_is_merging() {
    match parse_progress_line("[Merger] Merging formats into mp4") {
        Some(DownloadProgress::PostProcessing { status }) => {
            assert_eq!(status, "Merging formats...");
        }
        other => panic!("wrong event: {:?}", other),
    }
}

#[test]
fn banner_matching_is_case_insensitive() {
    match parse_progress_line("[MERGER] MERGING FORMATS INTO MP4") {
        Some(DownloadProgress::PostProcessing { status }) => {
            assert_eq!(status, "Merging formats...");
        }
        other => panic!("wrong event: {:?}", other),
    }
}

#[test]
fn ffmpeg_and_merging_banners_are_merging() {
    for line in ["[ffmpeg] fixing container", "now merging streams"] {
        match parse_progress_line(line) {
            Some(DownloadProgress::PostProcessing { status }) => {
                assert_eq!(status, "Merging formats...");
            }
            other => panic!("wrong event for {:?}: {:?}", line, other),
        }
    }
}

#[test]
fn thumbnail_metadata_sponsorblock_banners() {
    let cases = [
        ("[EmbedThumbnail] writing thumbnail", "Embedding thumbnail..."),
        ("[Metadata] adding metadata", "Writing metadata..."),
        ("[SponsorBlock] found 2 segments", "Removing sponsor segments..."),
    ];
    for (line, expected) in cases {
        match parse_progress_line(line) {
            Some(DownloadProgress::PostProcessing { status }) => {
                assert_eq!(status, expected);
            }
            other => panic!("wrong event for {:?}: {:?}", line, other),
        }
    }
}

#[test]
fn error_banner_keeps_the_line() {
    match parse_progress_line("ERROR: unable to download webpage") {
        Some(DownloadProgress::Error(message)) => {
            assert_eq!(message, "ERROR: unable to download webpage");
        }
        other => panic!("wrong event: {:?}", other),
    }
}

#[test]
fn unrelated_line_is_nothing() {
    assert!(parse_progress_line("random unrelated text").is_none());
}

#[test]
fn empty_line_is_nothing() {
    assert!(parse_progress_line("").is_none());
}

#[test]
fn record_with_percent_takes_it_over_byte_counts() {
    let rec = ProgressRecord {
        status: Some("downloading".to_string()),
        percent_str: Some("25%".to_string()),
        downloaded_bytes: Some(1),
        total_bytes: Some(3),
        ..empty_record()
    };
    match classify_record(&rec) {
        Some(DownloadProgress::Downloading { progress, .. }) => {
            assert_eq!(progress, Fraction { num: 25, den: 100 });
        }
        other => panic!("wrong event: {:?}", other),
    }
}

#[test]
fn record_with_unreadable_percent_falls_back() {
    let rec = ProgressRecord {
        status: Some("downloading".to_string()),
        percent_str: Some("N/A".to_string()),
        downloaded_bytes: Some(1),
        total_bytes: Some(4),
        ..empty_record()
    };
    match classify_record(&rec) {
        Some(DownloadProgress::Downloading { progress, .. }) => {
            assert_eq!(progress, Fraction { num: 1, den: 4 });
        }
        other => panic!("wrong event: {:?}", other),
    }
}

#[test]
fn record_without_status_is_nothing() {
    assert!(classify_record(&empty_record()).is_none());
}
