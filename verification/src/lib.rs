//! Frame-driven session logic for an embedded native file-selection dialog.
//!
//! The native widget is driven by its host once per frame. This crate holds
//! the part of that protocol that can be stated and proved: which native call
//! may be issued in which state, what is handed to it, and how the transient
//! result of a confirmed dialog becomes owned data.
pub mod context;
pub mod dialog;
pub mod error;
pub mod laws;
pub mod path;
pub mod selection;
pub mod session;
pub mod text;

pub use context::{Context, ExtensionHint};
pub use dialog::FileDialog;
pub use error::DialogError;
pub use path::join_path;
pub use selection::Selection;
pub use session::{DisplayRequest, Frame, OpenRequest, Phase};
