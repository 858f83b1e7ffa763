//! What the browser key-value database decides when it opens.
use vstd::prelude::*;

verus! {

/// The version to reopen a database with: one past the stored version,
/// where the wanted columns and the default one are more than it has.
pub open spec fn reopen_version_spec(columns: u32, db_columns: u32, db_version: u32) -> Option<int> {
    if columns + 1 > db_columns {
        Some(db_version + 1)
    } else {
        None
    }
}

/// Whether a database opened at `db_version` with `db_columns` columns
/// must be closed and reopened at a higher version to get `columns`
/// columns besides the default one, and at which version.
pub fn reopen_version(columns: u32, db_columns: u32, db_version: u32) -> (v: Option<u32>)
    requires
        columns < u32::MAX,
        columns + 1 > db_columns ==> db_version < u32::MAX,
    ensures
        match reopen_version_spec(columns, db_columns, db_version) {
            Some(next) => v == Some(next as u32),
            None => v is None,
        },
{
    if columns + 1 > db_columns {
        Some(db_version + 1)
    } else {
        None
    }
}

/// What a database is known by: its name, version and number of columns.
pub struct DatabaseInfo {
    name: String,
    version: u32,
    columns: u32,
}

impl DatabaseInfo {
    /// The description of an open database.
    pub fn new(name: String, version: u32, columns: u32) -> (d: DatabaseInfo)
        ensures
            d.name_view() == name@,
            d.version_view() == version,
            d.columns_view() == columns,
    {
        DatabaseInfo { name, version, columns }
    }

    pub closed spec fn name_view(&self) -> Seq<char> {
        self.name@
    }

    pub closed spec fn version_view(&self) -> u32 {
        self.version
    }

    pub closed spec fn columns_view(&self) -> u32 {
        self.columns
    }

    /// The database name.
    pub fn name(&self) -> (s: &str)
        ensures
            s@ == self.name_view(),
    {
        self.name.as_str()
    }

    /// The database version.
    pub fn version(&self) -> (v: u32)
        ensures
            v == self.version_view(),
    {
        self.version
    }

    /// The number of columns besides the default one.
    pub fn columns(&self) -> (c: u32)
        ensures
            c == self.columns_view(),
    {
        self.columns
    }
}

} // verus!
