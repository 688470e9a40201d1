//! Session and process orchestration for a push-to-talk dictation shell.
//!
//! The crate holds the decisions of the shell: which key combination a stored
//! shortcut stands for, when a recording starts and stops, how the global
//! hotkey is moved from one combination to another without ever leaving two
//! bound, and when the companion worker process is started, tracked and let
//! go. Everything that touches the windowing system, the disk or a child
//! process is left to the caller, which performs the actions these types hand
//! out and reports back what happened.

pub mod config;
pub mod keys;
pub mod layout;
pub mod manager;
pub mod registry;
pub mod session;
pub mod shell;
pub mod supervisor;
pub mod text;

pub use config::{ConfigView, ShortcutConfig};
pub use keys::{KeyCode, Modifier, Modifiers, Shortcut};
pub use manager::ShortcutManager;
pub use registry::{RebindError, RegistryAction, ShortcutRegistry};
pub use session::{HotkeyEdge, Notification, RecordingSession, Request, SessionState, TriggerMode};
pub use supervisor::{
    SpawnVerdict, StartDecision, StopDecision, SupervisorError, WorkerEvent, WorkerState,
    WorkerSupervisor,
};
