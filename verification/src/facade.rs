use vstd::prelude::*;
use vstd::string::StrSliceExecFns;

use crate::fraction::Fraction;
use crate::message::DownloadOutcome;
use crate::message::DownloadProgress;
use crate::message::Format;
use crate::message::Message;
use crate::settings::AdvancedSettings;
use crate::task::DownloadTask;
use crate::text::spec_trim;
use crate::text::trim_str;

verus! {

/// What the window is doing: fading in at start, steady, or fading out
/// before it closes.
#[derive(Debug, Clone, Copy, PartialEq, Eq, Structural)]
pub enum WindowAnimation {
    FadingIn,
    Visible,
    FadingOut,
}

impl WindowAnimation {
    /// Whether the window still needs periodic redraw ticks.
    pub fn is_animating(&self) -> (r: bool)
        ensures
            r == (*self == WindowAnimation::FadingIn || *self == WindowAnimation::FadingOut),
    {
        matches!(self, WindowAnimation::FadingIn | WindowAnimation::FadingOut)
    }
}

/// What the interface shows about the download.
#[derive(Debug)]
pub enum DownloadState {
    Idle,
    Downloading { progress: Fraction, speed: String, eta: String, filename: String },
    PostProcessing { status: String },
    Completed { output_path: String },
    Error { message: String },
}

/// The mathematical shape of the shown state.
pub enum StateView {
    Idle,
    Downloading { progress: Fraction, speed: Seq<char>, eta: Seq<char>, filename: Seq<char> },
    PostProcessing { status: Seq<char> },
    Completed { output_path: Seq<char> },
    Error { message: Seq<char> },
}

impl View for DownloadState {
    type V = StateView;

    open spec fn view(&self) -> StateView {
        match self {
            DownloadState::Idle => StateView::Idle,
            DownloadState::Downloading { progress, speed, eta, filename } => {
                StateView::Downloading {
                    progress: *progress,
                    speed: speed@,
                    eta: eta@,
                    filename: filename@,
                }
            },
            DownloadState::PostProcessing { status } => {
                StateView::PostProcessing { status: status@ }
            },
            DownloadState::Completed { output_path } => {
                StateView::Completed { output_path: output_path@ }
            },
            DownloadState::Error { message } => StateView::Error { message: message@ },
        }
    }
}

/// What the facade asks its surroundings to do after one message: spawn
/// a session (cancelling the active one first when there is one), signal
/// the active session to cancel, write the settings out, wipe them, or
/// nothing at all.
#[derive(Debug)]
pub enum AppAction {
    Nothing,
    StartSession { task: DownloadTask, cancel_previous: bool },
    SignalCancel,
    PersistSettings(AdvancedSettings),
    ClearSettings,
}

/// The orchestration facade: what the interface shows, the inputs the
/// user has typed, the settings, and whether a download session is
/// active. At most one session is ever active.
#[derive(Debug)]
pub struct App {
    pub url: String,
    pub format: Format,
    pub download_state: DownloadState,
    pub settings: AdvancedSettings,
    pub pending_settings: Option<AdvancedSettings>,
    pub show_settings: bool,
    pub persist_settings: bool,
    pub session_active: bool,
}

// ---------------------------------------------------------------------------
// The transition relation, message by message
// ---------------------------------------------------------------------------

/// The fields a start request does not touch.
pub open spec fn same_but_start(pre: App, post: App) -> bool {
    &&& post.url == pre.url
    &&& post.format == pre.format
    &&& post.settings == pre.settings
    &&& post.pending_settings == pre.pending_settings
    &&& post.show_settings == pre.show_settings
    &&& post.persist_settings == pre.persist_settings
}

/// A start request: with a blank address it does nothing; otherwise it
/// shows a fresh download bar, marks a session active, and asks for a new
/// session on a snapshot of the current inputs — cancelling the previous
/// session first exactly when one was active.
pub open spec fn start_rel(pre: App, post: App, action: AppAction) -> bool {
    if spec_trim(pre.url@).len() == 0 {
        post == pre && action == AppAction::Nothing
    } else {
        &&& same_but_start(pre, post)
        &&& post.session_active
        &&& post.download_state@ == (StateView::Downloading {
            progress: Fraction { num: 0u64, den: 1u64 },
            speed: "Starting..."@,
            eta: "N/A"@,
            filename: Seq::<char>::empty(),
        })
        &&& match action {
            AppAction::StartSession { task, cancel_previous } => {
                &&& task.url == pre.url
                &&& task.format == pre.format
                &&& task.settings == pre.settings
                &&& cancel_previous == pre.session_active
            },
            _ => false,
        }
    }
}

/// Idle with no session active: the facade has nothing in flight, so no
/// transition is defined for session events — a stray progress or
/// completion message is ignored. (After a cancellation request the
/// state is still `Downloading`, so the session's own `Cancelled`
/// outcome is not stray and is still taken in.)
pub open spec fn idle_without_session(pre: App) -> bool {
    pre.download_state is Idle && !pre.session_active
}

/// How one message moves the facade from `pre` to `post`, and what it
/// asks for. Each arm pins the new state and the action completely.
pub open spec fn update_rel(pre: App, msg: Message, post: App, action: AppAction) -> bool {
    match msg {
        Message::UrlChanged(u) => post == (App { url: u, ..pre }) && action == AppAction::Nothing,
        Message::UrlSubmit => start_rel(pre, post, action),
        Message::FormatSelected(f) => post == (App { format: f, ..pre }) && action
            == AppAction::Nothing,
        Message::StartDownload => start_rel(pre, post, action),
        Message::CancelDownload => {
            if pre.session_active {
                post == (App { session_active: false, ..pre }) && action == AppAction::SignalCancel
            } else {
                post == pre && action == AppAction::Nothing
            }
        },
        Message::DownloadProgress(p) => {
            &&& action == AppAction::Nothing
            &&& if idle_without_session(pre) {
                post == pre
            } else {
                match p {
                    DownloadProgress::Downloading { progress, speed, eta, filename } => post
                        == (App {
                        download_state: DownloadState::Downloading { progress, speed, eta, filename },
                        ..pre
                    }),
                    DownloadProgress::PostProcessing { status } => post == (App {
                        download_state: DownloadState::PostProcessing { status },
                        ..pre
                    }),
                    DownloadProgress::Error(m) => post == (App {
                        download_state: DownloadState::Error { message: m },
                        ..pre
                    }),
                }
            }
        },
        Message::DownloadComplete(outcome) => {
            &&& action == AppAction::Nothing
            &&& if idle_without_session(pre) {
                post == pre
            } else {
                match outcome {
                    DownloadOutcome::Success { output_path } => post == (App {
                        download_state: DownloadState::Completed { output_path },
                        session_active: false,
                        ..pre
                    }),
                    DownloadOutcome::Failure { message } => post == (App {
                        download_state: DownloadState::Error { message },
                        session_active: false,
                        ..pre
                    }),
                    DownloadOutcome::Cancelled => post == (App {
                        download_state: DownloadState::Idle,
                        session_active: false,
                        ..pre
                    }),
                }
            }
        },
        Message::OpenSettings => post == (App {
            pending_settings: Option::Some(pre.settings),
            show_settings: true,
            ..pre
        }) && action == AppAction::Nothing,
        Message::CloseSettings | Message::ModalBackdropClicked => post == (App {
            pending_settings: Option::None,
            show_settings: false,
            ..pre
        }) && action == AppAction::Nothing,
        Message::SaveSettings => {
            match pre.pending_settings {
                Option::Some(p) => {
                    &&& post == (App {
                        settings: p,
                        pending_settings: Option::None,
                        show_settings: false,
                        ..pre
                    })
                    &&& action == (if pre.persist_settings {
                        AppAction::PersistSettings(p)
                    } else {
                        AppAction::Nothing
                    })
                },
                Option::None => post == (App { show_settings: false, ..pre }) && action
                    == AppAction::Nothing,
            }
        },
        Message::ResetDefaults => {
            &&& action == AppAction::Nothing
            &&& match post.pending_settings {
                Option::Some(d) => d.is_default(),
                Option::None => false,
            }
            &&& post == (App { pending_settings: post.pending_settings, ..pre })
        },
        Message::TogglePersistence(enabled) => {
            &&& post == (App { persist_settings: enabled, ..pre })
            &&& action == (if !enabled {
                AppAction::ClearSettings
            } else {
                AppAction::Nothing
            })
        },
        Message::SettingsChanged(field) => {
            &&& action == AppAction::Nothing
            &&& match pre.pending_settings {
                Option::Some(p) => post == (App {
                    pending_settings: Option::Some(p.spec_apply(field)),
                    ..pre
                }),
                Option::None => post == pre,
            }
        },
    }
}

impl App {
    /// The facade as it first comes up: blank address, default format,
    /// nothing shown, no session, settings as given.
    pub fn new(settings: AdvancedSettings, persist_settings: bool) -> (r: App)
        ensures
            r.url@ == Seq::<char>::empty(),
            r.format == Format::Default,
            r.download_state is Idle,
            r.settings == settings,
            r.pending_settings is None,
            r.show_settings == false,
            r.persist_settings == persist_settings,
            r.session_active == false,
    {
        App {
            url: String::new(),
            format: Format::Default,
            download_state: DownloadState::Idle,
            settings,
            pending_settings: Option::None,
            show_settings: false,
            persist_settings,
            session_active: false,
        }
    }

    fn start_download(&mut self) -> (action: AppAction)
        ensures
            start_rel(*old(self), *final(self), action),
    {
        if trim_str(self.url.as_str()).is_empty() {
            return AppAction::Nothing;
        }
        let was_active = self.session_active;
        self.session_active = true;
        self.download_state = DownloadState::Downloading {
            progress: Fraction::zero(),
            speed: "Starting...".to_owned(),
            eta: "N/A".to_owned(),
            filename: String::new(),
        };
        let task = DownloadTask::new(self.url.clone(), self.format, self.settings.clone());
        AppAction::StartSession { task, cancel_previous: was_active }
    }

    /// Take in one message, move to the next state, and say what to do.
    pub fn update(&mut self, msg: Message) -> (action: AppAction)
        ensures
            update_rel(*old(self), msg, *final(self), action),
    {
        match msg {
            Message::UrlChanged(u) => {
                self.url = u;
                AppAction::Nothing
            },
            Message::UrlSubmit => self.start_download(),
            Message::FormatSelected(f) => {
                self.format = f;
                AppAction::Nothing
            },
            Message::StartDownload => self.start_download(),
            Message::CancelDownload => {
                if self.session_active {
                    self.session_active = false;
                    AppAction::SignalCancel
                } else {
                    AppAction::Nothing
                }
            },
            Message::DownloadProgress(p) => {
                if matches!(self.download_state, DownloadState::Idle) && !self.session_active {
                    return AppAction::Nothing;
                }
                match p {
                    DownloadProgress::Downloading { progress, speed, eta, filename } => {
                        self.download_state = DownloadState::Downloading {
                            progress,
                            speed,
                            eta,
                            filename,
                        };
                    },
                    DownloadProgress::PostProcessing { status } => {
                        self.download_state = DownloadState::PostProcessing { status };
                    },
                    DownloadProgress::Error(m) => {
                        self.download_state = DownloadState::Error { message: m };
                    },
                }
                AppAction::Nothing
            },
            Message::DownloadComplete(outcome) => {
                if matches!(self.download_state, DownloadState::Idle) && !self.session_active {
                    return AppAction::Nothing;
                }
                self.session_active = false;
                match outcome {
                    DownloadOutcome::Success { output_path } => {
                        self.download_state = DownloadState::Completed { output_path };
                    },
                    DownloadOutcome::Failure { message } => {
                        self.download_state = DownloadState::Error { message };
                    },
                    DownloadOutcome::Cancelled => {
                        self.download_state = DownloadState::Idle;
                    },
                }
                AppAction::Nothing
            },
            Message::OpenSettings => {
                self.pending_settings = Option::Some(self.settings.clone());
                self.show_settings = true;
                AppAction::Nothing
            },
            Message::CloseSettings | Message::ModalBackdropClicked => {
                self.pending_settings = Option::None;
                self.show_settings = false;
                AppAction::Nothing
            },
            Message::SaveSettings => {
                let pending = self.pending_settings.take();
                let mut action = AppAction::Nothing;
                match pending {
                    Option::Some(p) => {
                        if self.persist_settings {
                            action = AppAction::PersistSettings(p.clone());
                        }
                        self.settings = p;
                    },
                    Option::None => {},
                }
                self.show_settings = false;
                action
            },
            Message::ResetDefaults => {
                self.pending_settings = Option::Some(AdvancedSettings::default());
                AppAction::Nothing
            },
            Message::TogglePersistence(enabled) => {
                self.persist_settings = enabled;
                if !enabled {
                    AppAction::ClearSettings
                } else {
                    AppAction::Nothing
                }
            },
            Message::SettingsChanged(field) => {
                match &mut self.pending_settings {
                    Option::Some(p) => {
                        p.apply(field);
                    },
                    Option::None => {},
                }
                AppAction::Nothing
            },
        }
    }
}

/// Starting anew while a session is active cancels the old session
/// before the new one exists: the action that carries the new session's
/// task says to cancel the previous one first, so no event of the new
/// worker can reach the consumer before the old one is gone.
pub proof fn lemma_start_replaces_cancelled(pre: App, post: App, action: AppAction)
    requires
        pre.session_active,
        spec_trim(pre.url@).len() > 0,
        update_rel(pre, Message::StartDownload, post, action),
    ensures
        match action {
            AppAction::StartSession { cancel_previous, .. } => cancel_previous,
            _ => false,
        },
{
}

/// While idle with no active session, a stray progress or completion
/// message is ignored: the state stays exactly as it was and nothing is
/// asked for.
pub proof fn lemma_stray_events_ignored(pre: App, msg: Message, post: App, action: AppAction)
    requires
        idle_without_session(pre),
        msg is DownloadProgress || msg is DownloadComplete,
        update_rel(pre, msg, post, action),
    ensures
        post == pre,
        action == AppAction::Nothing,
{
}

/// Cancellation is never shown as an error: the `Cancelled` outcome
/// returns the interface to idle, with no session active and nothing
/// further asked for.
pub proof fn lemma_cancelled_returns_to_idle(pre: App, post: App, action: AppAction)
    requires
        update_rel(pre, Message::DownloadComplete(DownloadOutcome::Cancelled), post, action),
    ensures
        post.download_state is Idle,
        !post.session_active,
        action == AppAction::Nothing,
{
}

} // verus!
