//! Postgres Frontend and Backend Protocol.
//!
//! All communication is through a stream of messages. The first byte of a message identifies the message type,
//! and the next four bytes specify the length of the rest of the message (this length count includes itself,
//! but not the message-type byte). The remaining contents of the message are determined by the message type.
//!
//! For historical reasons, the very first message sent by the client (the startup message)
//! has no initial message-type byte.
mod pg_format;
mod pg_type;

pub use pg_format::PgFormat;
pub use pg_type::{Oid, PgType};

pub mod frontend;

pub use frontend::FrontendProtocol;
pub mod backend;
pub mod error;

pub use backend::{BackendMessage, BackendProtocol, ErrorResponse, NoticeResponse};
pub use error::ProtocolError;
