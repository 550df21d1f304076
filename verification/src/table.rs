//! Backing tables and verified name resolution.
//!
//! A [`Table`] holds one backing table as plain values: a header row and
//! data rows.  [`csv_get_mapped_value`] is the verified lookup: it finds
//! the key and value columns by name, then the first row whose key column
//! equals the query, and returns that row's value column.  Parsing CSV
//! bytes into a [`Table`] is delegated to the `csv` crate behind a
//! trusted wrapper.

use crate::text::bin_seq;
use crate::text::bin_string;
use crate::DisasmError;
use vstd::prelude::*;
use vstd::string::*;

verus! {

/// One backing table, already parsed into plain values.
///
/// `headers` names the columns; each entry of `rows` is one data row.
pub struct Table {
    pub headers: Vec<String>,
    pub rows: Vec<Vec<String>>,
}

impl Table {
    /// The column names as sequences of characters.
    pub open spec fn headers_view(self) -> Seq<Seq<char>> {
        self.headers.deep_view()
    }

    /// The data rows as sequences of sequences of characters.
    pub open spec fn rows_view(self) -> Seq<Seq<Seq<char>>> {
        self.rows.deep_view()
    }
}

/// One lookup request: which table file the value lives in, the column
/// holding the key, the key itself, and the column to read the result from.
pub struct MappedCSV {
    pub filename: String,
    pub check_column: String,
    pub query: String,
    pub want_column: String,
}

/// The index of the first entry of `hs` equal to `name`, searching from
/// index `i` on.
pub open spec fn find_col_from(hs: Seq<Seq<char>>, name: Seq<char>, i: int) -> Option<int>
    decreases hs.len() - i,
{
    if i < 0 || i >= hs.len() {
        None
    } else if hs[i] == name {
        Some(i)
    } else {
        find_col_from(hs, name, i + 1)
    }
}

/// The index of the first entry of `hs` equal to `name`.
pub open spec fn find_col(hs: Seq<Seq<char>>, name: Seq<char>) -> Option<int> {
    find_col_from(hs, name, 0)
}

/// The index of the first row whose column `ci` exists and equals `q`,
/// searching from row `i` on.
pub open spec fn find_row_from(rows: Seq<Seq<Seq<char>>>, ci: int, q: Seq<char>, i: int) -> Option<
    int,
>
    decreases rows.len() - i,
{
    if i < 0 || i >= rows.len() {
        None
    } else if ci < rows[i].len() && rows[i][ci] == q {
        Some(i)
    } else {
        find_row_from(rows, ci, q, i + 1)
    }
}

/// The index of the first row whose column `ci` exists and equals `q`.
pub open spec fn find_row(rows: Seq<Seq<Seq<char>>>, ci: int, q: Seq<char>) -> Option<int> {
    find_row_from(rows, ci, q, 0)
}

/// What a lookup returns: the value column of the first row matching the
/// query, or the error that names the first thing that went wrong.
pub open spec fn resolve_spec(t: Table, check: Seq<char>, query: Seq<char>, want: Seq<char>) -> Result<
    Seq<char>,
    DisasmError,
> {
    match find_col(t.headers_view(), check) {
        None => Err(DisasmError::ConfigurationError),
        Some(ci) => match find_col(t.headers_view(), want) {
            None => Err(DisasmError::ConfigurationError),
            Some(wi) => match find_row(t.rows_view(), ci, query) {
                None => Err(DisasmError::NameNotFound),
                Some(ri) => if wi < t.rows_view()[ri].len() {
                    Ok(t.rows_view()[ri][wi])
                } else {
                    Err(DisasmError::ConfigurationError)
                },
            },
        },
    }
}

/// A found column index always lies inside the header row.
proof fn lemma_find_col_from_bounds(hs: Seq<Seq<char>>, name: Seq<char>, i: int)
    ensures
        find_col_from(hs, name, i) matches Some(ci) ==> i <= ci < hs.len() && hs[ci] == name,
    decreases hs.len() - i,
{
    if 0 <= i < hs.len() && hs[i] != name {
        lemma_find_col_from_bounds(hs, name, i + 1);
    }
}

/// A found row index always lies inside the rows, and its key column
/// exists and matches.
proof fn lemma_find_row_from_bounds(rows: Seq<Seq<Seq<char>>>, ci: int, q: Seq<char>, i: int)
    ensures
        find_row_from(rows, ci, q, i) matches Some(ri) ==> i <= ri < rows.len() && ci
            < rows[ri].len() && rows[ri][ci] == q,
    decreases rows.len() - i,
{
    if 0 <= i < rows.len() && !(ci < rows[i].len() && rows[i][ci] == q) {
        lemma_find_row_from_bounds(rows, ci, q, i + 1);
    }
}

/// Finds the first entry of `hs` equal to `name`.
fn find_col_exec(hs: &Vec<String>, name: &String) -> (r: Option<usize>)
    ensures
        match r {
            Some(ci) => find_col(hs.deep_view(), name@) == Some(ci as int),
            None => find_col(hs.deep_view(), name@) is None,
        },
{
    let ghost hsv = hs.deep_view();
    let mut i: usize = 0;
    while i < hs.len()
        invariant
            0 <= i <= hs.len(),
            hsv == hs.deep_view(),
            hsv.len() == hs.len(),
            find_col(hsv, name@) == find_col_from(hsv, name@, i as int),
        decreases hs.len() - i,
    {
        if hs[i] == *name {
            assert(hsv[i as int] == name@);
            return Some(i);
        }
        assert(hsv[i as int] != name@);
        i += 1;
    }
    None
}

/// Finds the first row whose column `ci` exists and equals `q`.
fn find_row_exec(rows: &Vec<Vec<String>>, ci: usize, q: &String) -> (r: Option<usize>)
    ensures
        match r {
            Some(ri) => find_row(rows.deep_view(), ci as int, q@) == Some(ri as int),
            None => find_row(rows.deep_view(), ci as int, q@) is None,
        },
{
    let ghost rv = rows.deep_view();
    let mut i: usize = 0;
    while i < rows.len()
        invariant
            0 <= i <= rows.len(),
            rv == rows.deep_view(),
            rv.len() == rows.len(),
            forall|j: int| 0 <= j < rows.len() ==> rv[j].len() == rows@[j].len(),
            find_row(rv, ci as int, q@) == find_row_from(rv, ci as int, q@, i as int),
        decreases rows.len() - i,
    {
        let row = &rows[i];
        if ci < row.len() && row[ci] == *q {
            assert(rv[i as int][ci as int] == q@);
            return Some(i);
        }
        assert(!(ci < rv[i as int].len() && rv[i as int][ci as int] == q@));
        i += 1;
    }
    None
}

/// Looks `csv_map.query` up in `t`: the verified core of name resolution.
///
/// The result is exactly [`resolve_spec`]: `ConfigurationError` when a
/// named column is missing (or the matching row is too short to hold the
/// value column), `NameNotFound` when no row matches the query, and
/// otherwise the value column of the first matching row.
pub fn csv_get_mapped_value(t: &Table, csv_map: &MappedCSV) -> (r: Result<String, DisasmError>)
    ensures
        res_view(r) == resolve_spec(*t, csv_map.check_column@, csv_map.query@, csv_map.want_column@),
{
    let check_position = match find_col_exec(&t.headers, &csv_map.check_column) {
        Some(ci) => ci,
        None => {
            return Err(DisasmError::ConfigurationError);
        },
    };
    let want_position = match find_col_exec(&t.headers, &csv_map.want_column) {
        Some(wi) => wi,
        None => {
            return Err(DisasmError::ConfigurationError);
        },
    };
    let row_position = match find_row_exec(&t.rows, check_position, &csv_map.query) {
        Some(ri) => ri,
        None => {
            return Err(DisasmError::NameNotFound);
        },
    };
    proof {
        lemma_find_row_from_bounds(t.rows_view(), check_position as int, csv_map.query@, 0);
    }
    let row = &t.rows[row_position];
    if want_position < row.len() {
        Ok(row[want_position].clone())
    } else {
        Err(DisasmError::ConfigurationError)
    }
}

/// A `Result` of exec values seen at the spec level.
pub open spec fn res_view(r: Result<String, DisasmError>) -> Result<Seq<char>, DisasmError> {
    match r {
        Ok(s) => Ok(s@),
        Err(e) => Err(e),
    }
}

impl MappedCSV {
    /// The request that resolves the register code `query` to its
    /// symbolic name: the `registers.csv` table, keyed by the
    /// zero-padded 5-bit binary form of the code.
    pub fn register_search(query: u32) -> (r: MappedCSV)
        ensures
            r.filename@ == "registers.csv"@,
            r.check_column@ == "BINARY"@,
            r.query@ == bin_seq(query as nat, 5),
            r.want_column@ == "REGISTER"@,
    {
        MappedCSV {
            filename: String::from_str("registers.csv"),
            check_column: String::from_str("BINARY"),
            query: bin_string(query, 5),
            want_column: String::from_str("REGISTER"),
        }
    }

    /// The request that resolves a 6-bit opcode or function code,
    /// matched against `check_column`, to its mnemonic in the
    /// `commands.csv` table.
    pub fn command_search(check_column: &str, query: u32) -> (r: MappedCSV)
        ensures
            r.filename@ == "commands.csv"@,
            r.check_column@ == check_column@,
            r.query@ == bin_seq(query as nat, 6),
            r.want_column@ == "COMMAND"@,
    {
        MappedCSV {
            filename: String::from_str("commands.csv"),
            check_column: String::from_str(check_column),
            query: bin_string(query, 6),
            want_column: String::from_str("COMMAND"),
        }
    }
}

/// The error type of the `csv` crate, opaque to this library.
#[verifier::external_type_specification]
#[verifier::external_body]
pub struct ExCsvError(csv::Error);

/// The table that the `csv` crate reads out of the given bytes: the
/// header row and the data rows, or nothing when the bytes do not parse.
/// Parsing in-memory bytes depends on the bytes alone.
pub uninterp spec fn csv_table_of(bytes: Seq<u8>) -> Option<(Seq<Seq<char>>, Seq<Seq<Seq<char>>>)>;

/// Relies on `csv::Reader::from_reader`, `Reader::headers`,
/// `Reader::records` and `StringRecord::iter`: the bytes parse as headed
/// CSV into the rows named by [`csv_table_of`], one string per field.
/// In the reader's default strict mode, every data row that parses has
/// exactly as many fields as the header row.
#[verifier::external_body]
fn parse_csv_bytes(bytes: &[u8]) -> (r: Result<Table, csv::Error>)
    ensures
        match r {
            Ok(t) => csv_table_of(bytes@) == Some((t.headers.deep_view(), t.rows.deep_view()))
                && forall|i: int|
                0 <= i < t.rows.len() ==> (#[trigger] t.rows.deep_view()[i]).len()
                    == t.headers.len(),
            Err(_) => csv_table_of(bytes@) is None,
        },
{
    let mut rdr = csv::Reader::from_reader(bytes);
    let headers: Vec<String> = rdr.headers()?.iter().map(|f| f.to_string()).collect();
    let mut rows: Vec<Vec<String>> = Vec::new();
    for rec in rdr.records() {
        rows.push(rec?.iter().map(|f| f.to_string()).collect());
    }
    Ok(Table { headers, rows })
}

impl Table {
    /// Parses the bytes of one CSV file (first row: column names) into a
    /// table.  Bytes that do not parse are a `ConfigurationError`.
    pub fn from_csv(bytes: &[u8]) -> (r: Result<Table, DisasmError>)
        ensures
            match r {
                Ok(t) => csv_table_of(bytes@) == Some((t.headers_view(), t.rows_view()))
                    && forall|i: int|
                    0 <= i < t.rows_view().len() ==> (#[trigger] t.rows_view()[i]).len()
                        == t.headers_view().len(),
                Err(e) => e == DisasmError::ConfigurationError && csv_table_of(bytes@) is None,
            },
    {
        match parse_csv_bytes(bytes) {
            Ok(t) => Ok(t),
            Err(_) => Err(DisasmError::ConfigurationError),
        }
    }
}

/// A register table is complete when it holds the key and value columns
/// and an entry for every 5-bit register code, and every row is as wide
/// as the header row.
pub open spec fn complete_register_table(t: Table) -> bool {
    &&& find_col(t.headers_view(), "BINARY"@) is Some
    &&& find_col(t.headers_view(), "REGISTER"@) is Some
    &&& forall|i: int|
        0 <= i < t.rows_view().len() ==> (#[trigger] t.rows_view()[i]).len()
            == t.headers_view().len()
    &&& forall|code: u32|
        code < 32 ==> find_row(
            t.rows_view(),
            find_col(t.headers_view(), "BINARY"@)->Some_0,
            #[trigger] bin_seq(code as nat, 5),
        ) is Some
}

/// Register name resolution is total over the codes 0 through 31:
/// against a complete table, no code in range resolves to an error.  It
/// is deterministic because [`resolve_spec`] is a function of the table
/// and the query alone, and [`csv_get_mapped_value`] returns exactly it.
pub proof fn lemma_register_resolution_total(t: Table, code: u32)
    requires
        complete_register_table(t),
        code < 32,
    ensures
        resolve_spec(t, "BINARY"@, bin_seq(code as nat, 5), "REGISTER"@) is Ok,
{
    lemma_find_col_from_bounds(t.headers_view(), "BINARY"@, 0);
    lemma_find_col_from_bounds(t.headers_view(), "REGISTER"@, 0);
    let ci = find_col(t.headers_view(), "BINARY"@)->Some_0;
    lemma_find_row_from_bounds(t.rows_view(), ci, bin_seq(code as nat, 5), 0);
}

} // verus!
