//! Connection-level rules: open flags, status settlement, callback
//! replies, and the convenience queries.
//!
//! The engine handle itself is a foreign resource owned by the outer layer
//! that performs the foreign calls; what that layer must decide — how an
//! open attempt settles, what a callback answers the engine, which query
//! text a convenience check runs and how its answer reads — is defined and
//! specified here.

use vstd::prelude::*;

use crate::error::Error;

verus! {

/// Open the database for reading only.
pub const OPEN_READONLY: i32 = 0x00000001;

/// Open the database for reading and writing.
pub const OPEN_READWRITE: i32 = 0x00000002;

/// Create the database if it does not already exist.
pub const OPEN_CREATE: i32 = 0x00000004;

/// Allow the path to be interpreted as a URI.
pub const OPEN_URI: i32 = 0x00000040;

/// Multi-thread mode: no serialization across threads for one connection.
pub const OPEN_NOMUTEX: i32 = 0x00008000;

/// Serialized mode: the engine serializes all access to the connection.
pub const OPEN_FULLMUTEX: i32 = 0x00010000;

/// Flags for opening a connection, composed by bitwise or.
#[derive(Clone, Copy, Debug)]
pub struct OpenFlags(i32);

impl OpenFlags {
    /// The composed bitmask.
    pub closed spec fn mask(self) -> i32 {
        self.0
    }

    /// Whether every bit of `flag` is set.
    pub open spec fn has_flag(self, flag: i32) -> bool {
        self.mask() & flag == flag
    }

    /// Create flags for opening a database connection.
    pub fn new() -> (r: Self)
        ensures
            r.mask() == 0,
    {
        OpenFlags(0)
    }

    /// Create the database if it does not already exist.
    pub fn with_create(self) -> (r: Self)
        ensures
            r.mask() == self.mask() | OPEN_CREATE,
    {
        OpenFlags(self.0 | OPEN_CREATE)
    }

    /// Open the database in the serialized threading mode: the engine
    /// itself serializes concurrent use of the connection.
    pub fn with_full_mutex(self) -> (r: Self)
        ensures
            r.mask() == self.mask() | OPEN_FULLMUTEX,
    {
        OpenFlags(self.0 | OPEN_FULLMUTEX)
    }

    /// Open the database in the multi-thread threading mode.
    pub fn with_no_mutex(self) -> (r: Self)
        ensures
            r.mask() == self.mask() | OPEN_NOMUTEX,
    {
        OpenFlags(self.0 | OPEN_NOMUTEX)
    }

    /// Open the database for reading only.
    pub fn with_read_only(self) -> (r: Self)
        ensures
            r.mask() == self.mask() | OPEN_READONLY,
    {
        OpenFlags(self.0 | OPEN_READONLY)
    }

    /// Open the database for reading and writing.
    pub fn with_read_write(self) -> (r: Self)
        ensures
            r.mask() == self.mask() | OPEN_READWRITE,
    {
        OpenFlags(self.0 | OPEN_READWRITE)
    }

    /// Allow the path to be interpreted as a URI.
    pub fn with_uri(self) -> (r: Self)
        ensures
            r.mask() == self.mask() | OPEN_URI,
    {
        OpenFlags(self.0 | OPEN_URI)
    }

    /// The bitmask, as the foreign open call takes it.
    pub fn bits(&self) -> (r: i32)
        ensures
            r == self.mask(),
    {
        self.0
    }

    /// Whether the serialized threading mode is requested.
    pub fn is_full_mutex(&self) -> (r: bool)
        ensures
            r == self.has_flag(OPEN_FULLMUTEX),
    {
        self.0 & OPEN_FULLMUTEX == OPEN_FULLMUTEX
    }
}

impl Default for OpenFlags {
    fn default() -> (r: Self)
        ensures
            r.mask() == 0,
    {
        OpenFlags::new()
    }
}

/// Setting a flag leaves that flag set in the mask.
pub proof fn lemma_flag_set(mask: i32, flag: i32)
    ensures
        (mask | flag) & flag == flag,
{
    assert((mask | flag) & flag == flag) by (bit_vector);
}

/// Setting one flag never clears another: composition by bitwise or only
/// grows the mask.
pub proof fn lemma_flag_preserved(mask: i32, flag: i32, other: i32)
    requires
        mask & other == other,
    ensures
        (mask | flag) & other == other,
{
    assert(mask & other == other ==> (mask | flag) & other == other) by (bit_vector);
}

/// Settle an open attempt.
///
/// A zero status is success.  On any other status the caller hands over
/// whatever diagnostic it could still recover from the half-born handle,
/// and that diagnostic is surfaced; with none, a bare status-code error
/// stands in.
pub fn open_outcome(code: isize, recovered: Option<Error>) -> (r: Result<(), Error>)
    ensures
        code == 0 ==> r is Ok,
        code != 0 ==> match recovered {
            Some(err) => r matches Err(e) && e == err,
            None => r matches Err(e) && e == (Error { code: Some(code), message: None }),
        },
{
    if code == 0 {
        Ok(())
    } else {
        match recovered {
            Some(err) => Err(err),
            None => Err(Error::from_code(code)),
        }
    }
}

/// Settle any other engine status: zero is success, anything else carries
/// the status code and the message recovered at the moment of failure.
pub fn status_outcome(code: isize, message: Option<String>) -> (r: Result<(), Error>)
    ensures
        code == 0 ==> r is Ok,
        code != 0 ==> (r matches Err(e) && e == (Error { code: Some(code), message: message })),
{
    if code == 0 {
        Ok(())
    } else {
        Err(Error { code: Some(code), message })
    }
}

/// Settle a text-row scan.
///
/// Completion is success, and so is the abandoned scan that a declining
/// callback caused: an early stop is no failure.  Any other status carries
/// the recovered diagnostic, or the bare code with none.
pub fn iterate_outcome(code: isize, recovered: Option<Error>) -> (r: Result<(), Error>)
    ensures
        code == 0 || code == crate::error::STATUS_ABORT ==> r is Ok,
        !(code == 0 || code == crate::error::STATUS_ABORT) ==> match recovered {
            Some(err) => r matches Err(e) && e == err,
            None => r matches Err(e) && e == (Error { code: Some(code), message: None }),
        },
{
    if code == 0 || code == crate::error::STATUS_ABORT {
        Ok(())
    } else {
        match recovered {
            Some(err) => Err(err),
            None => Err(Error::from_code(code)),
        }
    }
}

/// The native reply to a busy handler's decision: nonzero asks the engine
/// to retry the blocked operation, zero lets the busy error surface to it.
pub fn busy_reply(retry: bool) -> (r: i32)
    ensures
        retry ==> r == 1,
        !retry ==> r == 0,
{
    if retry {
        1
    } else {
        0
    }
}

/// The native reply to the text-row callback's decision: zero lets the
/// scan continue, nonzero makes the engine abandon it — which the caller
/// reports as an early stop, not as an error.
pub fn iterate_reply(proceed: bool) -> (r: i32)
    ensures
        proceed ==> r == 0,
        !proceed ==> r == 1,
{
    if proceed {
        0
    } else {
        1
    }
}

/// How a counting query's single cell reads: any positive count means a
/// match exists.
pub fn count_positive(count: i64) -> (r: bool)
    ensures
        r == (count > 0),
{
    count > 0
}

/// The text of the query behind a table-existence check.
pub fn has_table_query(table: &str) -> (sql: String)
    ensures
        sql@ == "SELECT COUNT(*) from sqlite_master where tbl_name = '"@ + table@ + "'"@,
{
    let mut sql = String::from_str("SELECT COUNT(*) from sqlite_master where tbl_name = '");
    sql.append(table);
    sql.append("'");
    sql
}

/// The text of the query behind a column-existence check.
pub fn has_column_query(table: &str, column: &str) -> (sql: String)
    ensures
        sql@ == "SELECT COUNT(*) FROM PRAGMA_TABLE_INFO('"@ + table@ + "') WHERE NAME='"@
            + column@ + "'"@,
{
    let mut sql = String::from_str("SELECT COUNT(*) FROM PRAGMA_TABLE_INFO('");
    sql.append(table);
    sql.append("') WHERE NAME='");
    sql.append(column);
    sql.append("'");
    sql
}

/// The text of the query behind a value-existence check; the value itself
/// arrives through a parameter binding, never through the text.
pub fn has_value_query(table: &str, column: &str) -> (sql: String)
    ensures
        sql@ == "SELECT COUNT(*) FROM \""@ + table@ + "\" WHERE \""@ + column@ + "\" = ?"@,
{
    let mut sql = String::from_str("SELECT COUNT(*) FROM \"");
    sql.append(table);
    sql.append("\" WHERE \"");
    sql.append(column);
    sql.append("\" = ?");
    sql
}

} // verus!
