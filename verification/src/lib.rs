//! A typed access layer over an embedded relational database engine.
//!
//! The crate models the pipeline that carries a query from a compiled
//! statement to typed host values: parameter binding, step-wise cursor
//! iteration, and column decoding.  The engine itself is reached through a
//! foreign interface that a thin outer layer drives; everything that decides
//! or transforms — open flags, status handling, binding rules, the cursor
//! state machine, and value decoding — lives here and carries contracts.

pub mod connection;
pub mod cursor;
pub mod error;
pub mod row;
pub mod statement;
pub mod value;

pub use connection::OpenFlags;
pub use cursor::Cursor;
pub use cursor::CursorState;
pub use cursor::StepOutcome;
pub use error::Error;
pub use row::ColumnIndex;
pub use row::Row;
pub use statement::Statement;
pub use value::FloatBits;
pub use value::FromValue;
pub use value::Type;
pub use value::Value;
pub use value::ValueView;
