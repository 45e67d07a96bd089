//! Client-side relay between a desktop front-end and a gRPC middleware.
//!
//! The library holds the decisions of the relay: the shared connection slot,
//! the request each command sends, how each reply or stream item becomes UI
//! events and a final result, and the cooperative stop handshake. The host
//! performs the calls and the emissions that those decisions name.
pub mod error;
pub mod chat;
pub mod download;
pub mod handle;
pub mod payload;
pub mod trace;
pub mod unary;
pub mod upload;

pub use error::{EmitKind, RelayError, RpcOp};
pub use chat::{chat_request, ChatEvent, ChatMessage, ChatPhase, ChatRelay, ChatRequest, ChatStep};
pub use handle::ClientSlot;
pub use payload::message_text;
pub use download::{download_request, DownloadEvent, DownloadPhase, DownloadProgress, DownloadRelay, DownloadRequest, DownloadStep};
pub use upload::{upload_progress, UploadEvent, UploadPhase, UploadProgress, UploadRelay, UploadReply, UploadStep};
pub use unary::{begin, finish, Command, Output, Reply, Request};
