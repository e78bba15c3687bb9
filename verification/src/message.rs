use vstd::prelude::*;

use crate::fraction::Fraction;

verus! {

/// The media container or audio format the user asked for.
#[derive(Debug, Clone, Copy, PartialEq, Eq, Structural, Default)]
pub enum Format {
    #[default]
    Default,
    Mp4,
    Mp3,
    Mkv,
    Aac,
}

impl Format {
    /// True exactly for the audio-only formats.
    pub fn is_audio(&self) -> (r: bool)
        ensures
            r == (*self == Format::Mp3 || *self == Format::Aac),
    {
        matches!(self, Format::Mp3 | Format::Aac)
    }

    /// The name under which the format is shown.
    pub fn label(&self) -> (r: String)
        ensures
            r@ == self.spec_label(),
    {
        match self {
            Format::Default => "Default".to_owned(),
            Format::Mp4 => "MP4".to_owned(),
            Format::Mp3 => "MP3".to_owned(),
            Format::Mkv => "MKV".to_owned(),
            Format::Aac => "AAC".to_owned(),
        }
    }

    /// The shown name of each format.
    pub open spec fn spec_label(self) -> Seq<char> {
        match self {
            Format::Default => "Default"@,
            Format::Mp4 => "MP4"@,
            Format::Mp3 => "MP3"@,
            Format::Mkv => "MKV"@,
            Format::Aac => "AAC"@,
        }
    }
}

/// One structured notification about an in-flight download.
#[derive(Debug)]
pub enum DownloadProgress {
    Downloading { progress: Fraction, speed: String, eta: String, filename: String },
    PostProcessing { status: String },
    Error(String),
}

/// The mathematical shape of a progress event: strings become
/// character sequences.
pub enum ProgressView {
    Downloading { progress: Fraction, speed: Seq<char>, eta: Seq<char>, filename: Seq<char> },
    PostProcessing { status: Seq<char> },
    Error(Seq<char>),
}

impl View for DownloadProgress {
    type V = ProgressView;

    open spec fn view(&self) -> ProgressView {
        match self {
            DownloadProgress::Downloading { progress, speed, eta, filename } => {
                ProgressView::Downloading {
                    progress: *progress,
                    speed: speed@,
                    eta: eta@,
                    filename: filename@,
                }
            },
            DownloadProgress::PostProcessing { status } => {
                ProgressView::PostProcessing { status: status@ }
            },
            DownloadProgress::Error(message) => ProgressView::Error(message@),
        }
    }
}

/// The single terminal result of a download session.
#[derive(Debug)]
pub enum DownloadOutcome {
    Success { output_path: String },
    Failure { message: String },
    Cancelled,
}

/// The mathematical shape of an outcome.
pub enum OutcomeView {
    Success { output_path: Seq<char> },
    Failure { message: Seq<char> },
    Cancelled,
}

impl View for DownloadOutcome {
    type V = OutcomeView;

    open spec fn view(&self) -> OutcomeView {
        match self {
            DownloadOutcome::Success { output_path } => {
                OutcomeView::Success { output_path: output_path@ }
            },
            DownloadOutcome::Failure { message } => OutcomeView::Failure { message: message@ },
            DownloadOutcome::Cancelled => OutcomeView::Cancelled,
        }
    }
}

/// One field of the advanced settings record, together with its new value.
#[derive(Debug)]
pub enum SettingsField {
    OutputDirectory(String),
    FilenameTemplate(String),
    PreferredQuality(String),
    PreferredCodec(String),
    DownloadSubtitles(bool),
    SubtitleLanguages(String),
    EmbedSubtitles(bool),
    EmbedThumbnail(bool),
    EmbedMetadata(bool),
    EnableSponsorBlock(bool),
    SponsorBlockCategories(String),
    Proxy(String),
    RateLimit(String),
    ConcurrentFragments(String),
    CookiesFile(String),
    YtDlpPath(String),
    JsRuntimes(String),
    ExtraArguments(String),
}

/// A user intent or session event handed to the orchestration facade.
#[derive(Debug)]
pub enum Message {
    UrlChanged(String),
    UrlSubmit,
    FormatSelected(Format),
    StartDownload,
    CancelDownload,
    DownloadProgress(DownloadProgress),
    DownloadComplete(DownloadOutcome),
    OpenSettings,
    CloseSettings,
    SaveSettings,
    ResetDefaults,
    TogglePersistence(bool),
    SettingsChanged(SettingsField),
    ModalBackdropClicked,
}

} // verus!
