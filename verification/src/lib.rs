//! A result-fetch cursor for prepared statements of a binary database wire
//! protocol.
//!
//! The cursor pulls successive result rows into a single reusable set of
//! per-column bind buffers and exposes each row as a column-indexed view that
//! is valid only until the next fetch. Variable-length values that exceed a
//! column's fixed slot are completed through a second, column-targeted fetch
//! into a buffer sized to the value's true length.
//!
//! The statement handle itself (the wire protocol, connection and
//! authentication) is an external collaborator: its replies reach this
//! library as plain data events, and every decision taken on such an event —
//! buffer sizing, truncation repair, null handling, the cursor's state
//! machine — is verified here.

pub mod bind;
pub mod cursor;
pub mod error;
pub mod row;

pub use bind::Binds;
pub use bind::MysqlType;
pub use cursor::CursorState;
pub use cursor::FetchEvent;
pub use cursor::Fetched;
pub use cursor::StatementIterator;
pub use error::Error;
pub use error::QueryResult;
pub use row::MysqlRow;
