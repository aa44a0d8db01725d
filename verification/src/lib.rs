//! Start-up sequencing for a small always-on-top panel window.
//!
//! The crate holds the decisions of the start-up sequence: which host call
//! comes next, what each answer of the host leads to, and which failures are
//! tolerated. The host calls themselves are made by the embedding program,
//! which reports every answer back as an [`Event`].

pub mod bootstrap;
pub mod config;
pub mod failure;
pub mod trace;

pub use bootstrap::{Action, Bootstrap, CaptureCapability, Event, Phase, Setter, Stage};
pub use config::{main_window_label, LauncherMode, Plugin, WindowSpec};
pub use failure::Failure;
pub use trace::replay;
