//! A PostgreSQL client: the frontend/backend wire protocol, query and
//! connection bookkeeping, with their contracts.
pub mod buf;
pub mod column;
pub mod common;
pub mod connection;
pub mod decode;
pub mod encode;
pub mod error;
pub mod ext;
pub mod options;
pub mod pool;
pub mod postgres;
pub mod protocol;
pub mod query;
pub mod row;
pub mod sql;
pub mod statement;
pub mod utf8;

pub use encode::Encode;
pub use error::{Error, ErrorKind, Result};
pub use options::PgOptions;
pub use postgres::{ErrorResponse, NoticeResponse, ProtocolError};
pub use query::{execute, query};
pub use row::FromRow;
