//! Reading the columns of a row. Every column is selected as text and read here, so that a
//! driver cannot narrow it; no failure quotes what was stored.

use vstd::prelude::*;

use crate::numeral::{self, format_u64};
use crate::text::{self, joined3, same};

verus! {

/// One column of a row, as the driver hands it over.
#[derive(Debug, PartialEq, Eq)]
pub enum Cell {
    Null,
    Text(String),
    /// There is a value that the driver does not read as text.
    Unreadable,
}

/// What a column is read as.
#[derive(Debug, Clone, Copy, PartialEq, Eq, Structural)]
pub enum ColumnKind {
    Text,
    Integer,
    Boolean,
}

/// Why a column cannot be read.
#[derive(Debug, Clone, Copy, PartialEq, Eq, Structural)]
pub enum CodecError {
    Missing { index: usize },
    Unreadable { index: usize },
    UnexpectedNull { index: usize },
    NotInteger { index: usize },
    NotBoolean { index: usize },
}

pub open spec fn codec_failure(error: CodecError) -> Seq<char> {
    match error {
        CodecError::Missing { index } => "recap persistence: column "@ + numeral::decimal(
            index as int,
        ) + " is missing from the result"@,
        CodecError::Unreadable { index } => "recap persistence: column "@ + numeral::decimal(
            index as int,
        ) + " did not decode as text"@,
        CodecError::UnexpectedNull { index } => "recap persistence: column "@ + numeral::decimal(
            index as int,
        ) + " was NULL but is declared NOT NULL"@,
        CodecError::NotInteger { index } => "recap persistence: column "@ + numeral::decimal(
            index as int,
        ) + " is not a 64-bit integer"@,
        CodecError::NotBoolean { index } => "recap persistence: column "@ + numeral::decimal(
            index as int,
        ) + " is not a boolean"@,
    }
}

impl CodecError {
    /// What is reported: the column and what was expected, never what was stored.
    pub fn message(self) -> (out: String)
        ensures
            out@ == codec_failure(self),
    {
        let (index, what): (usize, &str) = match self {
            CodecError::Missing { index } => (index, " is missing from the result"),
            CodecError::Unreadable { index } => (index, " did not decode as text"),
            CodecError::UnexpectedNull { index } => (index, " was NULL but is declared NOT NULL"),
            CodecError::NotInteger { index } => (index, " is not a 64-bit integer"),
            CodecError::NotBoolean { index } => (index, " is not a boolean"),
        };
        let number: String = format_u64(index as u64);
        joined3("recap persistence: column ", number.as_str(), what)
    }
}

// ---------------------------------------------------------------------------
// Values
// ---------------------------------------------------------------------------

/// The integer that a text renders, white space around it aside.
pub open spec fn read_integer(raw: Seq<char>) -> Option<int> {
    numeral::parsed_within(text::trimmed(raw), i64::MIN as int, i64::MAX as int)
}

/// The truth value that a text renders: PostgreSQL's spellings, or SQLite's digits.
pub open spec fn read_boolean(raw: Seq<char>) -> Option<bool> {
    let plain = text::ascii_lower(text::trimmed(raw));
    if plain == "1"@ || plain == "t"@ || plain == "true"@ {
        Some(true)
    } else if plain == "0"@ || plain == "f"@ || plain == "false"@ {
        Some(false)
    } else {
        None
    }
}

/// Read the rendering of an integer.
pub fn parse_i64(index: usize, raw: &str) -> (r: Result<i64, CodecError>)
    ensures
        r == match read_integer(raw@) {
            Some(n) => Ok(n as i64),
            None => Err(CodecError::NotInteger { index }),
        },
{
    let trimmed: String = text::trim(raw);
    match numeral::parse_i64(trimmed.as_str()) {
        Some(n) => Ok(n),
        None => Err(CodecError::NotInteger { index }),
    }
}

/// Read the rendering of a truth value.
pub fn parse_bool(index: usize, raw: &str) -> (r: Result<bool, CodecError>)
    ensures
        r == match read_boolean(raw@) {
            Some(b) => Ok(b),
            None => Err(CodecError::NotBoolean { index }),
        },
{
    let trimmed: String = text::trim(raw);
    let lower: String = text::to_ascii_lower(trimmed.as_str());
    let plain: &str = lower.as_str();
    if same(plain, "1") || same(plain, "t") || same(plain, "true") {
        Ok(true)
    } else if same(plain, "0") || same(plain, "f") || same(plain, "false") {
        Ok(false)
    } else {
        Err(CodecError::NotBoolean { index })
    }
}

/// Every integer is read back from its decimal rendering.
pub proof fn lemma_integer_reads_back(n: i64)
    ensures
        read_integer(numeral::decimal(n as int)) == Some(n as int),
{
    numeral::lemma_decimal_reads_back(n as int);
    numeral::lemma_decimal_chars(n as int);
    let s = numeral::decimal(n as int);
    text::lemma_trim_start(s, text::CharClass::White, 0);
    text::lemma_trim_end(s, text::CharClass::White, s.len() as int);
    assert(s.subrange(0, s.len() as int) =~= s);
    assert(text::trimmed(s) =~= s);
}

// ---------------------------------------------------------------------------
// Columns
// ---------------------------------------------------------------------------

/// The text of a column that may be null.
pub open spec fn nullable_text(row: Seq<Cell>, index: int) -> Result<
    Option<Seq<char>>,
    CodecError,
> {
    if index >= row.len() {
        Err(CodecError::Missing { index: index as usize })
    } else {
        match row[index] {
            Cell::Null => Ok(None),
            Cell::Text(found) => Ok(Some(found@)),
            Cell::Unreadable => Err(CodecError::Unreadable { index: index as usize }),
        }
    }
}

/// The text of a column that may not be null.
pub open spec fn required_text(row: Seq<Cell>, index: int) -> Result<Seq<char>, CodecError> {
    match nullable_text(row, index) {
        Ok(Some(found)) => Ok(found),
        Ok(None) => Err(CodecError::UnexpectedNull { index: index as usize }),
        Err(error) => Err(error),
    }
}

/// The integer of a column.
pub open spec fn required_integer(row: Seq<Cell>, index: int) -> Result<i64, CodecError> {
    match required_text(row, index) {
        Ok(found) => match read_integer(found) {
            Some(n) => Ok(n as i64),
            None => Err(CodecError::NotInteger { index: index as usize }),
        },
        Err(error) => Err(error),
    }
}

/// The truth value of a column.
pub open spec fn required_boolean(row: Seq<Cell>, index: int) -> Result<bool, CodecError> {
    match required_text(row, index) {
        Ok(found) => match read_boolean(found) {
            Some(b) => Ok(b),
            None => Err(CodecError::NotBoolean { index: index as usize }),
        },
        Err(error) => Err(error),
    }
}

pub open spec fn text_result(r: Result<String, CodecError>) -> Result<Seq<char>, CodecError> {
    match r {
        Ok(found) => Ok(found@),
        Err(error) => Err(error),
    }
}

/// Read a column that may be null.
pub fn nullable_text_at(row: &Vec<Cell>, index: usize) -> (r: Result<Option<String>, CodecError>)
    ensures
        match r {
            Ok(found) => nullable_text(row@, index as int) == Ok::<
                Option<Seq<char>>,
                CodecError,
            >(text::viewed(found)),
            Err(error) => nullable_text(row@, index as int) == Err::<
                Option<Seq<char>>,
                CodecError,
            >(error),
        },
{
    if index >= row.len() {
        return Err(CodecError::Missing { index });
    }
    match &row[index] {
        Cell::Null => Ok(None),
        Cell::Text(found) => Ok(Some(found.clone())),
        Cell::Unreadable => Err(CodecError::Unreadable { index }),
    }
}

/// Read a column that may not be null.
pub fn text_at(row: &Vec<Cell>, index: usize) -> (r: Result<String, CodecError>)
    ensures
        text_result(r) == required_text(row@, index as int),
{
    match nullable_text_at(row, index) {
        Ok(Some(found)) => Ok(found),
        Ok(None) => Err(CodecError::UnexpectedNull { index }),
        Err(error) => Err(error),
    }
}

/// Read a column as an integer.
pub fn i64_at(row: &Vec<Cell>, index: usize) -> (r: Result<i64, CodecError>)
    ensures
        r == required_integer(row@, index as int),
{
    match text_at(row, index) {
        Ok(found) => parse_i64(index, found.as_str()),
        Err(error) => Err(error),
    }
}

/// Read a column as a truth value.
pub fn bool_at(row: &Vec<Cell>, index: usize) -> (r: Result<bool, CodecError>)
    ensures
        r == required_boolean(row@, index as int),
{
    match text_at(row, index) {
        Ok(found) => parse_bool(index, found.as_str()),
        Err(error) => Err(error),
    }
}

// ---------------------------------------------------------------------------
// Rows
// ---------------------------------------------------------------------------

/// Why one column cannot be read as `kind`.
pub open spec fn cell_fault(row: Seq<Cell>, index: int, kind: ColumnKind) -> Option<CodecError> {
    match kind {
        ColumnKind::Text => match required_text(row, index) {
            Ok(_) => None,
            Err(error) => Some(error),
        },
        ColumnKind::Integer => match required_integer(row, index) {
            Ok(_) => None,
            Err(error) => Some(error),
        },
        ColumnKind::Boolean => match required_boolean(row, index) {
            Ok(_) => None,
            Err(error) => Some(error),
        },
    }
}

/// Why a row cannot be read as `kinds`: the first column from `i` on that is at fault.
pub open spec fn row_fault_from(row: Seq<Cell>, kinds: Seq<ColumnKind>, i: int) -> Option<
    CodecError,
>
    decreases kinds.len() - i,
{
    if i < 0 || i >= kinds.len() {
        None
    } else {
        match cell_fault(row, i, kinds[i]) {
            Some(error) => Some(error),
            None => row_fault_from(row, kinds, i + 1),
        }
    }
}

pub open spec fn row_fault(row: Seq<Cell>, kinds: Seq<ColumnKind>) -> Option<CodecError> {
    row_fault_from(row, kinds, 0)
}

fn fault_of_cell(row: &Vec<Cell>, index: usize, kind: ColumnKind) -> (r: Option<CodecError>)
    ensures
        r == cell_fault(row@, index as int, kind),
{
    match kind {
        ColumnKind::Text => match text_at(row, index) {
            Ok(_) => None,
            Err(error) => Some(error),
        },
        ColumnKind::Integer => match i64_at(row, index) {
            Ok(_) => None,
            Err(error) => Some(error),
        },
        ColumnKind::Boolean => match bool_at(row, index) {
            Ok(_) => None,
            Err(error) => Some(error),
        },
    }
}

/// Why a row cannot be read as `kinds`.
pub fn fault_of_row(row: &Vec<Cell>, kinds: &Vec<ColumnKind>) -> (r: Option<CodecError>)
    ensures
        r == row_fault(row@, kinds@),
        r is None ==> forall|i: int|
            0 <= i < kinds@.len() ==> cell_fault(row@, i, #[trigger] kinds@[i]) is None,
{
    let mut i: usize = 0;
    while i < kinds.len()
        invariant
            i <= kinds.len(),
            row_fault_from(row@, kinds@, i as int) == row_fault(row@, kinds@),
            forall|k: int| 0 <= k < i ==> cell_fault(row@, k, #[trigger] kinds@[k]) is None,
        decreases kinds.len() - i,
    {
        match fault_of_cell(row, i, kinds[i]) {
            Some(error) => {
                return Some(error);
            },
            None => {},
        }
        i = i + 1;
    }
    None
}

/// The text of a column that is known to be one.
pub open spec fn text_cell(row: Seq<Cell>, index: int) -> Seq<char> {
    required_text(row, index)->Ok_0
}

/// The integer of a column that is known to be one.
pub open spec fn integer_cell(row: Seq<Cell>, index: int) -> i64 {
    required_integer(row, index)->Ok_0
}

/// The truth value of a column that is known to be one.
pub open spec fn boolean_cell(row: Seq<Cell>, index: int) -> bool {
    required_boolean(row, index)->Ok_0
}

/// The text of a column that is known to be one.
pub fn take_text(row: &Vec<Cell>, index: usize) -> (out: String)
    requires
        cell_fault(row@, index as int, ColumnKind::Text) is None,
    ensures
        out@ == text_cell(row@, index as int),
{
    match text_at(row, index) {
        Ok(found) => found,
        Err(_) => String::new(),
    }
}

/// The integer of a column that is known to be one.
pub fn take_integer(row: &Vec<Cell>, index: usize) -> (n: i64)
    requires
        cell_fault(row@, index as int, ColumnKind::Integer) is None,
    ensures
        n == integer_cell(row@, index as int),
{
    match i64_at(row, index) {
        Ok(n) => n,
        Err(_) => 0,
    }
}

/// The truth value of a column that is known to be one.
pub fn take_boolean(row: &Vec<Cell>, index: usize) -> (b: bool)
    requires
        cell_fault(row@, index as int, ColumnKind::Boolean) is None,
    ensures
        b == boolean_cell(row@, index as int),
{
    match bool_at(row, index) {
        Ok(b) => b,
        Err(_) => false,
    }
}

} // verus!
