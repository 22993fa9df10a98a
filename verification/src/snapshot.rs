//! Projection of a rewritten document onto a typed snapshot.
use crate::json::{item_views, lemma_array_view, Document, Json, JsonView};
use crate::normalize::{document_rewritten, lemma_rewrite_document_keeps_shape, ROWS_KEY};
use crate::timestamp::{datetime_parsed, parse_datetime, Timestamp};
use vstd::prelude::*;

verus! {

/// Name of the document member that holds the timestamp text: the empty name.
pub const TIMESTAMP_KEY: &'static str = "";

/// Number of cells that a record is read from.
pub const RECORD_CELLS: usize = 8;

/// Number of leading cells that a record cannot do without.
pub const REQUIRED_CELLS: usize = 3;

/// One generating unit of the table. The first three fields are always
/// present and not empty; each of the others is absent or not empty.
#[derive(Debug, PartialEq, Eq)]
pub struct PlantRecord {
    pub category: String,
    pub label: String,
    pub plant_name: String,
    pub capacity: Option<String>,
    pub generation: Option<String>,
    pub percentage: Option<String>,
    pub status: Option<String>,
    pub notes: Option<String>,
}

/// The mathematical content of a [`PlantRecord`].
pub struct PlantRecordView {
    pub category: Seq<char>,
    pub label: Seq<char>,
    pub plant_name: Seq<char>,
    pub capacity: Option<Seq<char>>,
    pub generation: Option<Seq<char>>,
    pub percentage: Option<Seq<char>>,
    pub status: Option<Seq<char>>,
    pub notes: Option<Seq<char>>,
}

/// The content of an optional text.
pub open spec fn optional_view(text: Option<String>) -> Option<Seq<char>> {
    match text {
        Some(s) => Some(s@),
        None => None,
    }
}

/// An optional text that is present is not empty.
pub open spec fn absent_or_filled(text: Option<Seq<char>>) -> bool {
    text matches Some(s) ==> s.len() > 0
}

impl PlantRecordView {
    /// The required fields are not empty, and no optional field holds an
    /// empty text.
    pub open spec fn well_formed(self) -> bool {
        &&& self.category.len() > 0
        &&& self.label.len() > 0
        &&& self.plant_name.len() > 0
        &&& absent_or_filled(self.capacity)
        &&& absent_or_filled(self.generation)
        &&& absent_or_filled(self.percentage)
        &&& absent_or_filled(self.status)
        &&& absent_or_filled(self.notes)
    }
}

impl View for PlantRecord {
    type V = PlantRecordView;

    open spec fn view(&self) -> PlantRecordView {
        PlantRecordView {
            category: self.category@,
            label: self.label@,
            plant_name: self.plant_name@,
            capacity: optional_view(self.capacity),
            generation: optional_view(self.generation),
            percentage: optional_view(self.percentage),
            status: optional_view(self.status),
            notes: optional_view(self.notes),
        }
    }
}

/// One capture of the table: when it was taken, and its records in the order
/// of the rows.
#[derive(Debug, PartialEq, Eq)]
pub struct Snapshot {
    pub timestamp: Timestamp,
    pub rows: Vec<PlantRecord>,
}

/// The mathematical content of a [`Snapshot`].
pub struct SnapshotView {
    pub timestamp: Timestamp,
    pub rows: Seq<PlantRecordView>,
}

/// The contents of the records of a list, record by record.
pub open spec fn record_views(records: Seq<PlantRecord>) -> Seq<PlantRecordView> {
    Seq::new(records.len(), |i: int| records[i]@)
}

impl View for Snapshot {
    type V = SnapshotView;

    open spec fn view(&self) -> SnapshotView {
        SnapshotView { timestamp: self.timestamp, rows: record_views(self.rows@) }
    }
}

/// Why a document gave no snapshot. Rows and columns count from zero.
#[derive(Clone, Copy, Debug, PartialEq, Eq)]
pub enum DecodeError {
    /// The response body is no JSON object.
    BodyMalformed,
    /// The document has no timestamp member.
    TimestampMissing,
    /// The timestamp member is no text.
    TimestampNotText,
    /// The timestamp text does not follow the format.
    TimestampFormat,
    /// The document has no table.
    RowsMissing,
    /// The table is no array.
    RowsNotArray,
    /// A row of the table is no array.
    RowNotArray { row: usize },
    /// A row has fewer than eight cells.
    RowTooShort { row: usize },
    /// A cell is neither a text nor, in an optional column, null.
    CellNotText { row: usize, column: usize },
    /// A required cell holds the empty text.
    RequiredCellEmpty { row: usize, column: usize },
}

/// What is wrong with the cell at `row` and `column`, if anything. A required
/// cell must be a text that is not empty; an optional cell must be a text or null.
pub open spec fn cell_error(row: usize, column: usize, cell: JsonView) -> Option<DecodeError> {
    match cell {
        JsonView::Text(text) => if column < REQUIRED_CELLS && text.len() == 0 {
            Some(DecodeError::RequiredCellEmpty { row, column })
        } else {
            None
        },
        JsonView::Null => if column < REQUIRED_CELLS {
            Some(DecodeError::CellNotText { row, column })
        } else {
            None
        },
        _ => Some(DecodeError::CellNotText { row, column }),
    }
}

/// The error of the first faulty cell among the columns from `from` up to the
/// eighth, if any.
pub open spec fn first_cell_error(row: usize, cells: Seq<JsonView>, from: usize) -> Option<
    DecodeError,
>
    recommends
        cells.len() >= RECORD_CELLS,
    decreases RECORD_CELLS - from,
{
    if from >= RECORD_CELLS {
        None
    } else if cell_error(row, from, cells[from as int]) is Some {
        cell_error(row, from, cells[from as int])
    } else {
        first_cell_error(row, cells, (from + 1) as usize)
    }
}

/// What is wrong with a row, if anything: it is no array, it is too short, or
/// one of its first eight cells is faulty.
pub open spec fn row_error(row: usize, value: JsonView) -> Option<DecodeError> {
    match value {
        JsonView::Array(cells) => if cells.len() < RECORD_CELLS {
            Some(DecodeError::RowTooShort { row })
        } else {
            first_cell_error(row, cells, 0)
        },
        _ => Some(DecodeError::RowNotArray { row }),
    }
}

/// The text of a required cell.
pub open spec fn required_text(cell: JsonView) -> Seq<char> {
    match cell {
        JsonView::Text(text) => text,
        _ => Seq::empty(),
    }
}

/// The text of an optional cell; the empty text and null both count as absent.
pub open spec fn optional_text(cell: JsonView) -> Option<Seq<char>> {
    match cell {
        JsonView::Text(text) => if text.len() == 0 {
            None
        } else {
            Some(text)
        },
        _ => None,
    }
}

/// The record that the first eight cells of a row spell out, by position.
pub open spec fn record_of(cells: Seq<JsonView>) -> PlantRecordView
    recommends
        cells.len() >= RECORD_CELLS,
{
    PlantRecordView {
        category: required_text(cells[0]),
        label: required_text(cells[1]),
        plant_name: required_text(cells[2]),
        capacity: optional_text(cells[3]),
        generation: optional_text(cells[4]),
        percentage: optional_text(cells[5]),
        status: optional_text(cells[6]),
        notes: optional_text(cells[7]),
    }
}

/// The record of a row, or what is wrong with the row.
pub open spec fn row_decoded(row: usize, value: JsonView) -> Result<PlantRecordView, DecodeError> {
    match row_error(row, value) {
        Some(error) => Err(error),
        None => Ok(record_of(value->Array_0)),
    }
}

/// The error of the first faulty row at or after `from`, if any.
pub open spec fn first_row_error(rows: Seq<JsonView>, from: int) -> Option<DecodeError>
    decreases rows.len() - from,
{
    if from < 0 || from >= rows.len() {
        None
    } else if row_error(from as usize, rows[from]) is Some {
        row_error(from as usize, rows[from])
    } else {
        first_row_error(rows, from + 1)
    }
}

/// The records of a table, one for each row in order, or the error of the
/// first faulty row.
pub open spec fn rows_decoded(table: JsonView) -> Result<Seq<PlantRecordView>, DecodeError> {
    match table {
        JsonView::Array(rows) => match first_row_error(rows, 0) {
            Some(error) => Err(error),
            None => Ok(Seq::new(rows.len(), |i: int| record_of(rows[i]->Array_0))),
        },
        _ => Err(DecodeError::RowsNotArray),
    }
}

/// The timestamp of a document, or what is wrong with its timestamp member.
pub open spec fn timestamp_decoded(doc: Map<Seq<char>, JsonView>) -> Result<Timestamp, DecodeError> {
    if !doc.contains_key(TIMESTAMP_KEY@) {
        Err(DecodeError::TimestampMissing)
    } else {
        match doc[TIMESTAMP_KEY@] {
            JsonView::Text(text) => match datetime_parsed(text) {
                Ok(timestamp) => Ok(timestamp),
                Err(_) => Err(DecodeError::TimestampFormat),
            },
            _ => Err(DecodeError::TimestampNotText),
        }
    }
}

/// The snapshot of a document. The timestamp is read first, then the rows in
/// order; the first fault found is the error.
pub open spec fn document_projected(doc: Map<Seq<char>, JsonView>) -> Result<
    SnapshotView,
    DecodeError,
> {
    match timestamp_decoded(doc) {
        Err(error) => Err(error),
        Ok(timestamp) => if !doc.contains_key(ROWS_KEY@) {
            Err(DecodeError::RowsMissing)
        } else {
            match rows_decoded(doc[ROWS_KEY@]) {
                Err(error) => Err(error),
                Ok(rows) => Ok(SnapshotView { timestamp, rows }),
            }
        },
    }
}

/// A snapshot has one record for each row of the document's table.
pub proof fn lemma_projected_row_count(doc: Map<Seq<char>, JsonView>)
    ensures
        document_projected(doc) matches Ok(snapshot) ==> {
            &&& doc.contains_key(ROWS_KEY@)
            &&& doc[ROWS_KEY@] matches JsonView::Array(rows)
            &&& snapshot.rows.len() == rows.len()
        },
{
}

/// The snapshot of a rewritten document has one record for each row that the
/// table had before it was rewritten.
pub proof fn lemma_rewritten_row_count(doc: Map<Seq<char>, JsonView>)
    ensures
        document_projected(document_rewritten(doc)) matches Ok(snapshot) ==> {
            &&& doc.contains_key(ROWS_KEY@)
            &&& doc[ROWS_KEY@] matches JsonView::Array(rows)
            &&& snapshot.rows.len() == rows.len()
        },
{
    lemma_projected_row_count(document_rewritten(doc));
    lemma_rewrite_document_keeps_shape(doc);
}

/// Reads a required cell: a text that is not empty.
fn required_cell(row: usize, column: usize, cell: &Json) -> (res: Result<String, DecodeError>)
    requires
        column < REQUIRED_CELLS,
    ensures
        match res {
            Ok(text) => cell_error(row, column, cell@) is None && text@ == required_text(cell@)
                && text@.len() > 0,
            Err(error) => cell_error(row, column, cell@) == Some(error),
        },
{
    match cell {
        Json::Text(text) => if text.as_str().is_empty() {
            Err(DecodeError::RequiredCellEmpty { row, column })
        } else {
            Ok(text.clone())
        },
        _ => Err(DecodeError::CellNotText { row, column }),
    }
}

/// Reads an optional cell: a text, absent where it is empty, or null.
fn optional_cell(row: usize, column: usize, cell: &Json) -> (res: Result<
    Option<String>,
    DecodeError,
>)
    requires
        REQUIRED_CELLS <= column,
    ensures
        match res {
            Ok(text) => cell_error(row, column, cell@) is None && optional_view(text)
                == optional_text(cell@) && absent_or_filled(optional_view(text)),
            Err(error) => cell_error(row, column, cell@) == Some(error),
        },
{
    match cell {
        Json::Text(text) => if text.as_str().is_empty() {
            Ok(None)
        } else {
            Ok(Some(text.clone()))
        },
        Json::Null => Ok(None),
        _ => Err(DecodeError::CellNotText { row, column }),
    }
}

/// Reads the record of the row at index `row` of the table from its first
/// eight cells, by position. Cells beyond the eighth are not read.
pub fn decode_row(row: usize, value: &Json) -> (res: Result<PlantRecord, DecodeError>)
    ensures
        match res {
            Ok(record) => row_decoded(row, value@) == Ok::<PlantRecordView, DecodeError>(record@)
                && record@.well_formed(),
            Err(error) => row_decoded(row, value@) == Err::<PlantRecordView, DecodeError>(error),
        },
{
    let cells = match value {
        Json::Array(cells) => cells,
        _ => {
            return Err(DecodeError::RowNotArray { row });
        },
    };
    proof {
        lemma_array_view(*cells);
        reveal_with_fuel(first_cell_error, 9);
    }
    if cells.len() < RECORD_CELLS {
        return Err(DecodeError::RowTooShort { row });
    }
    let category = match required_cell(row, 0, &cells[0]) {
        Ok(text) => text,
        Err(error) => {
            return Err(error);
        },
    };
    let label = match required_cell(row, 1, &cells[1]) {
        Ok(text) => text,
        Err(error) => {
            return Err(error);
        },
    };
    let plant_name = match required_cell(row, 2, &cells[2]) {
        Ok(text) => text,
        Err(error) => {
            return Err(error);
        },
    };
    let capacity = match optional_cell(row, 3, &cells[3]) {
        Ok(text) => text,
        Err(error) => {
            return Err(error);
        },
    };
    let generation = match optional_cell(row, 4, &cells[4]) {
        Ok(text) => text,
        Err(error) => {
            return Err(error);
        },
    };
    let percentage = match optional_cell(row, 5, &cells[5]) {
        Ok(text) => text,
        Err(error) => {
            return Err(error);
        },
    };
    let status = match optional_cell(row, 6, &cells[6]) {
        Ok(text) => text,
        Err(error) => {
            return Err(error);
        },
    };
    let notes = match optional_cell(row, 7, &cells[7]) {
        Ok(text) => text,
        Err(error) => {
            return Err(error);
        },
    };
    Ok(PlantRecord { category, label, plant_name, capacity, generation, percentage, status, notes })
}

/// Reads the records of a table, one for each row in order.
pub fn decode_rows(table: &Json) -> (res: Result<Vec<PlantRecord>, DecodeError>)
    ensures
        match res {
            Ok(records) => rows_decoded(table@) == Ok::<Seq<PlantRecordView>, DecodeError>(
                record_views(records@),
            ) && records@.len() == table@->Array_0.len() && forall|i: int|
                0 <= i < records@.len() ==> (#[trigger] records@[i])@.well_formed(),
            Err(error) => rows_decoded(table@) == Err::<Seq<PlantRecordView>, DecodeError>(error),
        },
{
    let rows = match table {
        Json::Array(rows) => rows,
        _ => {
            return Err(DecodeError::RowsNotArray);
        },
    };
    proof {
        lemma_array_view(*rows);
    }
    let ghost views = item_views(rows@);
    let mut records: Vec<PlantRecord> = Vec::new();
    let mut i: usize = 0;
    while i < rows.len()
        invariant
            i <= rows.len(),
            views == item_views(rows@),
            table@ == JsonView::Array(views),
            records@.len() == i,
            first_row_error(views, 0) == first_row_error(views, i as int),
            forall|k: int|
                0 <= k < i ==> row_decoded(k as usize, views[k]) == Ok::<
                    PlantRecordView,
                    DecodeError,
                >((#[trigger] records@[k])@) && records@[k]@.well_formed(),
        decreases rows.len() - i,
    {
        assert(views[i as int] == rows@[i as int]@);
        match decode_row(i, &rows[i]) {
            Ok(record) => {
                records.push(record);
            },
            Err(error) => {
                return Err(error);
            },
        }
        i += 1;
    }
    assert(record_views(records@) =~= Seq::new(
        views.len(),
        |k: int| record_of(views[k]->Array_0),
    ));
    Ok(records)
}

/// Reads the timestamp member of a document.
pub fn decode_timestamp(doc: &Document) -> (res: Result<Timestamp, DecodeError>)
    ensures
        res == timestamp_decoded(doc@),
        res matches Ok(timestamp) ==> timestamp.well_formed(),
{
    match doc.get(TIMESTAMP_KEY) {
        None => Err(DecodeError::TimestampMissing),
        Some(value) => match value {
            Json::Text(text) => match parse_datetime(text.as_str()) {
                Ok(timestamp) => Ok(timestamp),
                Err(_) => Err(DecodeError::TimestampFormat),
            },
            _ => Err(DecodeError::TimestampNotText),
        },
    }
}

/// Projects a document onto a snapshot: the timestamp from the member with
/// the empty name, and one record for each row of the table.
pub fn project(doc: &Document) -> (res: Result<Snapshot, DecodeError>)
    ensures
        match res {
            Ok(snapshot) => document_projected(doc@) == Ok::<SnapshotView, DecodeError>(snapshot@)
                && snapshot@.rows.len() == doc@[ROWS_KEY@]->Array_0.len()
                && snapshot.timestamp.well_formed() && forall|i: int|
                0 <= i < snapshot@.rows.len() ==> (#[trigger] snapshot@.rows[i]).well_formed(),
            Err(error) => document_projected(doc@) == Err::<SnapshotView, DecodeError>(error),
        },
{
    let timestamp = match decode_timestamp(doc) {
        Ok(timestamp) => timestamp,
        Err(error) => {
            return Err(error);
        },
    };
    let table = match doc.get(ROWS_KEY) {
        Some(table) => table,
        None => {
            return Err(DecodeError::RowsMissing);
        },
    };
    match decode_rows(table) {
        Ok(rows) => Ok(Snapshot { timestamp, rows }),
        Err(error) => Err(error),
    }
}

} // verus!
