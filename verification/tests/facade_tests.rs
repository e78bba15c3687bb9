use yt_dlgui::facade::App;
use yt_dlgui::facade::AppAction;
use yt_dlgui::facade::DownloadState;
use yt_dlgui::facade::WindowAnimation;
use yt_dlgui::fraction::Fraction;
use yt_dlgui::message::DownloadOutcome;
use yt_dlgui::message::DownloadProgress;
use yt_dlgui::message::Format;
use yt_dlgui::message::Message;
use yt_dlgui::message::SettingsField;
use yt_dlgui::settings::AdvancedSettings;

fn fresh() -> App {
    App::new(AdvancedSettings::default(), false)
}

#[test]
fn start_with_blank_url_does_nothing() {
    let mut app = fresh();
    let action = app.update(Message::UrlChanged("   ".to_string()));
    assert!(matches!(action, AppAction::Nothing));
    let action = app.update(Message::StartDownload);
    assert!(matches!(action, AppAction::Nothing));
    assert!(matches!(app.download_state, DownloadState::Idle));
    assert!(!app.session_active);
}

#[test]
fn start_shows_a_fresh_download_bar() {
    let mut app = fresh();
    let _ = app.update(Message::UrlChanged("https://example.com/v".to_string()));
    let action = app.update(Message::StartDownload);
    match action {
        AppAction::StartSession { task, cancel_previous } => {
            assert_eq!(task.url, "https://example.com/v");
            assert!(matches!(task.format, Format::Default));
            assert!(!cancel_previous);
        }
        other => panic!("wrong action: {:?}", other),
    }
    assert!(app.session_active);
    match &app.download_state {
        DownloadState::Downloading { progress, speed, eta, filename } => {
            assert_eq!(*progress, Fraction { num: 0, den: 1 });
            assert_eq!(speed, "Starting...");
            assert_eq!(eta, "N/A");
            assert_eq!(filename, "");
        }
        other => panic!("wrong state: {:?}", other),
    }
}

#[test]
fn starting_again_cancels_the_previous_session_first() {
    let mut app = fresh();
    let _ = app.update(Message::UrlChanged("https://example.com/a".to_string()));
    let _ = app.update(Message::StartDownload);
    assert!(app.session_active);

    let _ = app.update(Message::UrlChanged("https://example.com/b".to_string()));
    let action = app.update(Message::StartDownload);
    match action {
        AppAction::StartSession { task, cancel_previous } => {
            assert_eq!(task.url, "https://example.com/b");
            assert!(cancel_previous);
        }
        other => panic!("wrong action: {:?}", other),
    }
}

#[test]
fn url_submit_behaves_like_start() {
    let mut app = fresh();
    let _ = app.update(Message::UrlChanged("https://example.com/v".to_string()));
    let action = app.update(Message::UrlSubmit);
    assert!(matches!(action, AppAction::StartSession { .. }));
}

#[test]
fn cancel_signals_once_and_only_while_active() {
    let mut app = fresh();
    let _ = app.update(Message::UrlChanged("https://example.com/v".to_string()));
    let _ = app.update(Message::StartDownload);

    let action = app.update(Message::CancelDownload);
    assert!(matches!(action, AppAction::SignalCancel));
    let action = app.update(Message::CancelDownload);
    assert!(matches!(action, AppAction::Nothing));
}

#[test]
fn progress_events_update_the_shown_state() {
    let mut app = fresh();
    let _ = app.update(Message::UrlChanged("u".to_string()));
    let _ = app.update(Message::StartDownload);

    let _ = app.update(Message::DownloadProgress(DownloadProgress::Downloading {
        progress: Fraction { num: 1, den: 2 },
        speed: "3MiB/s".to_string(),
        eta: "00:10".to_string(),
        filename: "v.mp4".to_string(),
    }));
    match &app.download_state {
        DownloadState::Downloading { progress, filename, .. } => {
            assert_eq!(*progress, Fraction { num: 1, den: 2 });
            assert_eq!(filename, "v.mp4");
        }
        other => panic!("wrong state: {:?}", other),
    }

    let _ = app.update(Message::DownloadProgress(DownloadProgress::PostProcessing {
        status: "Merging formats...".to_string(),
    }));
    assert!(matches!(
        &app.download_state,
        DownloadState::PostProcessing { .. }
    ));

    let _ = app.update(Message::DownloadProgress(DownloadProgress::Error(
        "bad".to_string(),
    )));
    match &app.download_state {
        DownloadState::Error { message } => assert_eq!(message, "bad"),
        other => panic!("wrong state: {:?}", other),
    }
}

#[test]
fn success_outcome_completes() {
    let mut app = fresh();
    let _ = app.update(Message::UrlChanged("u".to_string()));
    let _ = app.update(Message::StartDownload);
    let _ = app.update(Message::DownloadComplete(DownloadOutcome::Success {
        output_path: "video.mp4".to_string(),
    }));
    assert!(!app.session_active);
    match &app.download_state {
        DownloadState::Completed { output_path } => assert_eq!(output_path, "video.mp4"),
        other => panic!("wrong state: {:?}", other),
    }
}

#[test]
fn failure_outcome_shows_the_message() {
    let mut app = fresh();
    let _ = app.update(Message::UrlChanged("u".to_string()));
    let _ = app.update(Message::StartDownload);
    let _ = app.update(Message::DownloadComplete(DownloadOutcome::Failure {
        message: "yt-dlp exited with code: Some(7)".to_string(),
    }));
    match &app.download_state {
        DownloadState::Error { message } => assert!(message.contains("7")),
        other => panic!("wrong state: {:?}", other),
    }
}

#[test]
fn cancelled_outcome_returns_to_idle_not_error() {
    let mut app = fresh();
    let _ = app.update(Message::UrlChanged("u".to_string()));
    let _ = app.update(Message::StartDownload);
    let _ = app.update(Message::CancelDownload);
    let _ = app.update(Message::DownloadComplete(DownloadOutcome::Cancelled));
    assert!(matches!(app.download_state, DownloadState::Idle));
    assert!(!app.session_active);
}

#[test]
fn stray_progress_while_idle_is_ignored() {
    let mut app = fresh();
    let action = app.update(Message::DownloadProgress(DownloadProgress::Downloading {
        progress: Fraction { num: 1, den: 2 },
        speed: "3MiB/s".to_string(),
        eta: "00:10".to_string(),
        filename: "v.mp4".to_string(),
    }));
    assert!(matches!(action, AppAction::Nothing));
    assert!(matches!(app.download_state, DownloadState::Idle));
    let action = app.update(Message::DownloadProgress(DownloadProgress::Error(
        "stray".to_string(),
    )));
    assert!(matches!(action, AppAction::Nothing));
    assert!(matches!(app.download_state, DownloadState::Idle));
}

#[test]
fn stray_completion_while_idle_is_ignored() {
    let mut app = fresh();
    let action = app.update(Message::DownloadComplete(DownloadOutcome::Success {
        output_path: "v.mp4".to_string(),
    }));
    assert!(matches!(action, AppAction::Nothing));
    assert!(matches!(app.download_state, DownloadState::Idle));
    let action = app.update(Message::DownloadComplete(DownloadOutcome::Failure {
        message: "stray".to_string(),
    }));
    assert!(matches!(action, AppAction::Nothing));
    assert!(matches!(app.download_state, DownloadState::Idle));
}

#[test]
fn cancelled_outcome_after_cancel_request_is_still_taken_in() {
    // A cancellation request releases the session slot at once, but the
    // state is still `Downloading`, so the session's own `Cancelled`
    // outcome is not stray: it must land and return the view to idle.
    let mut app = fresh();
    let _ = app.update(Message::UrlChanged("u".to_string()));
    let _ = app.update(Message::StartDownload);
    let _ = app.update(Message::CancelDownload);
    assert!(!app.session_active);
    assert!(matches!(
        &app.download_state,
        DownloadState::Downloading { .. }
    ));
    let _ = app.update(Message::DownloadComplete(DownloadOutcome::Cancelled));
    assert!(matches!(app.download_state, DownloadState::Idle));
}

#[test]
fn settings_dialog_edits_a_pending_copy() {
    let mut app = fresh();
    let _ = app.update(Message::OpenSettings);
    assert!(app.show_settings);
    let _ = app.update(Message::SettingsChanged(SettingsField::Proxy(
        "socks5://localhost:9050".to_string(),
    )));
    // The live settings are untouched until saved.
    assert_eq!(app.settings.proxy, "");
    let action = app.update(Message::SaveSettings);
    assert!(matches!(action, AppAction::Nothing));
    assert_eq!(app.settings.proxy, "socks5://localhost:9050");
    assert!(!app.show_settings);
}

#[test]
fn closing_the_dialog_discards_pending_edits() {
    let mut app = fresh();
    let _ = app.update(Message::OpenSettings);
    let _ = app.update(Message::SettingsChanged(SettingsField::Proxy(
        "p".to_string(),
    )));
    let _ = app.update(Message::CloseSettings);
    assert_eq!(app.settings.proxy, "");
    let _ = app.update(Message::SaveSettings);
    assert_eq!(app.settings.proxy, "");
}

#[test]
fn saving_with_persistence_asks_for_a_write() {
    let mut app = App::new(AdvancedSettings::default(), true);
    let _ = app.update(Message::OpenSettings);
    let _ = app.update(Message::SettingsChanged(SettingsField::RateLimit(
        "1M".to_string(),
    )));
    let action = app.update(Message::SaveSettings);
    match action {
        AppAction::PersistSettings(s) => assert_eq!(s.rate_limit, "1M"),
        other => panic!("wrong action: {:?}", other),
    }
}

#[test]
fn reset_defaults_fills_the_pending_copy() {
    let mut app = fresh();
    let _ = app.update(Message::OpenSettings);
    let _ = app.update(Message::SettingsChanged(SettingsField::SubtitleLanguages(
        "de".to_string(),
    )));
    let _ = app.update(Message::ResetDefaults);
    let action = app.update(Message::SaveSettings);
    assert!(matches!(action, AppAction::Nothing));
    assert_eq!(app.settings.subtitle_languages, "en");
}

#[test]
fn turning_persistence_off_wipes_the_stored_record() {
    let mut app = App::new(AdvancedSettings::default(), true);
    let action = app.update(Message::TogglePersistence(false));
    assert!(matches!(action, AppAction::ClearSettings));
    assert!(!app.persist_settings);
    let action = app.update(Message::TogglePersistence(true));
    assert!(matches!(action, AppAction::Nothing));
    assert!(app.persist_settings);
}

#[test]
fn default_settings_match_the_documented_values() {
    let s = AdvancedSettings::default();
    assert_eq!(s.output_directory, "");
    assert_eq!(s.filename_template, "%(title)s.%(ext)s");
    assert_eq!(s.subtitle_languages, "en");
    assert!(!s.download_subtitles);
    assert_eq!(s.sponsorblock_categories, "sponsor");
    assert!(!s.enable_sponsorblock);
    assert_eq!(s.concurrent_fragments, "1");
    assert_eq!(s.ytdlp_path, "yt-dlp");
    assert_eq!(s.extra_arguments, "");
}

#[test]
fn audio_formats_are_the_audio_ones() {
    assert!(Format::Mp3.is_audio());
    assert!(Format::Aac.is_audio());
    assert!(!Format::Default.is_audio());
    assert!(!Format::Mp4.is_audio());
    assert!(!Format::Mkv.is_audio());
}

#[test]
fn formats_have_their_shown_names() {
    assert_eq!(Format::Default.label(), "Default");
    assert_eq!(Format::Mp4.label(), "MP4");
    assert_eq!(Format::Mp3.label(), "MP3");
    assert_eq!(Format::Mkv.label(), "MKV");
    assert_eq!(Format::Aac.label(), "AAC");
}

#[test]
fn animation_needs_ticks_only_while_fading() {
    assert!(WindowAnimation::FadingIn.is_animating());
    assert!(WindowAnimation::FadingOut.is_animating());
    assert!(!WindowAnimation::Visible.is_animating());
}
