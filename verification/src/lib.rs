//! Protocol core of a clipboard session speaking `wlr-data-control-unstable-v1`.
//!
//! The crate holds the decisions of such a session and none of its input or
//! output: which globals to bind, when to ask for an offer's contents and as
//! which type, what to answer a reader, and what to hand the caller. The
//! owner of the transport delivers events and carries out actions.

pub mod copy;
pub mod event;
pub mod interface;
pub mod laws;
pub mod message;
pub mod mime;
pub mod model;
pub mod paste;
pub mod step;
pub mod stream;
pub mod text;
pub mod watcher;

pub use copy::WlClipboardCopyStream;
pub use event::{Action, Event};
pub use message::{
    ClipBoardListenContext, ClipBoardListenMessage, WlClipboardListenerError, WlListenType,
};
pub use paste::WlClipboardPasteStream;
pub use step::{CopyStep, CopyWake, InitStep, InitWake, PasteStep, PasteWake};
pub use stream::WlClipboardListenerStream;
pub use watcher::{WaylandCopyError, WaylandCopyStream};
