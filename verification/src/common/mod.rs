//! Supporting utility types.
mod bytestr;
pub mod inlinevec;

pub use bytestr::ByteStr;
pub use inlinevec::{InlineVec, IntoIter};
