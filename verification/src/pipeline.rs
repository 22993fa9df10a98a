//! The decisions of one run: what to ask for, what each outcome of the
//! outside work leads to, and how the run ends.
use crate::json::{item_views, lemma_array_view, Document, Json, JsonView};
use crate::normalize::{document_rewritten, rewrite_rows, ROWS_KEY};
use crate::snapshot::{
    document_projected, lemma_rewritten_row_count, project, DecodeError, Snapshot, SnapshotView,
};
use vstd::prelude::*;

verus! {

/// Where the table is published.
pub const SOURCE_URL: &'static str =
    "https://www.taipower.com.tw/d006/loadGraph/loadGraph/data/genary.json";

/// The `User-Agent` header sent with the request.
pub const USER_AGENT: &'static str = "*";

/// Seconds after which a request that has not completed counts as failed.
pub const REQUEST_TIMEOUT_SECONDS: u64 = 30;

/// Name of the environment variable that holds the database address.
pub const DATABASE_URL_VARIABLE: &'static str = "DATABASE_URL";

/// Why a run failed. Every failure ends the run; nothing is tried twice.
#[derive(Clone, Copy, Debug, PartialEq, Eq)]
pub enum Failure {
    /// The request did not complete.
    Transport,
    /// The response could not be decoded into a snapshot.
    Decode(DecodeError),
    /// The database address is missing, or the database refused the connection.
    Config,
}

/// How the one request of a run ended.
#[derive(Debug)]
pub enum FetchEvent {
    /// The request failed, or the server answered with an error status.
    Unreachable,
    /// A response came, and its body is no JSON object.
    Malformed,
    /// A response came with this JSON object as its body.
    Received(Document),
}

/// The index of the first item at or after `from` that is no array, if any.
pub open spec fn first_stray_row(rows: Seq<JsonView>, from: int) -> Option<int>
    decreases rows.len() - from,
{
    if from < 0 || from >= rows.len() {
        None
    } else if !(rows[from] is Array) {
        Some(from)
    } else {
        first_stray_row(rows, from + 1)
    }
}

/// What keeps a document from holding a table, if anything: the table is
/// missing, it is no array, or one of its rows is no array.
pub open spec fn table_fault(doc: Map<Seq<char>, JsonView>) -> Option<DecodeError> {
    if !doc.contains_key(ROWS_KEY@) {
        Some(DecodeError::RowsMissing)
    } else {
        match doc[ROWS_KEY@] {
            JsonView::Array(rows) => match first_stray_row(rows, 0) {
                Some(row) => Some(DecodeError::RowNotArray { row: row as usize }),
                None => None,
            },
            _ => Some(DecodeError::RowsNotArray),
        }
    }
}

/// The document holds a table: an array of arrays under [`ROWS_KEY`].
pub open spec fn holds_table(doc: Map<Seq<char>, JsonView>) -> bool {
    &&& doc.contains_key(ROWS_KEY@)
    &&& doc[ROWS_KEY@] matches JsonView::Array(rows)
    &&& forall|i: int| 0 <= i < rows.len() ==> #[trigger] rows[i] is Array
}

/// A document is without fault exactly when it holds a table.
pub proof fn lemma_table_fault(doc: Map<Seq<char>, JsonView>)
    ensures
        table_fault(doc) is None <==> holds_table(doc),
{
    if doc.contains_key(ROWS_KEY@) {
        if let JsonView::Array(rows) = doc[ROWS_KEY@] {
            lemma_first_stray_row(rows, 0);
        }
    }
}

/// `first_stray_row` finds an item that is no array, and none comes before it.
proof fn lemma_first_stray_row(rows: Seq<JsonView>, from: int)
    requires
        0 <= from,
    ensures
        match first_stray_row(rows, from) {
            Some(row) => from <= row < rows.len() && !(rows[row] is Array) && forall|i: int|
                from <= i < row ==> #[trigger] rows[i] is Array,
            None => forall|i: int| from <= i < rows.len() ==> #[trigger] rows[i] is Array,
        },
    decreases rows.len() - from,
{
    if from < rows.len() && rows[from] is Array {
        lemma_first_stray_row(rows, from + 1);
    }
}

/// Looks for what keeps `doc` from holding a table.
pub fn check_table(doc: &Document) -> (fault: Option<DecodeError>)
    ensures
        fault == table_fault(doc@),
        fault is None <==> holds_table(doc@),
{
    proof {
        lemma_table_fault(doc@);
    }
    let rows = match doc.get(ROWS_KEY) {
        None => {
            return Some(DecodeError::RowsMissing);
        },
        Some(table) => match table {
            Json::Array(rows) => rows,
            _ => {
                return Some(DecodeError::RowsNotArray);
            },
        },
    };
    proof {
        lemma_array_view(*rows);
    }
    let ghost views = item_views(rows@);
    let mut i: usize = 0;
    while i < rows.len()
        invariant
            i <= rows.len(),
            views == item_views(rows@),
            doc@.contains_key(ROWS_KEY@),
            doc@[ROWS_KEY@] == JsonView::Array(views),
            table_fault(doc@) is None <==> holds_table(doc@),
            first_stray_row(views, 0) == first_stray_row(views, i as int),
        decreases rows.len() - i,
    {
        assert(views[i as int] == rows@[i as int]@);
        match &rows[i] {
            Json::Array(_) => {},
            _ => {
                return Some(DecodeError::RowNotArray { row: i });
            },
        }
        i += 1;
    }
    None
}

/// What a request's outcome amounts to: a document that holds a table, or the
/// failure that ends the run.
pub fn fetched(event: FetchEvent) -> (res: Result<Document, Failure>)
    ensures
        match event {
            FetchEvent::Unreachable => res matches Err(failure) && failure == Failure::Transport,
            FetchEvent::Malformed => res matches Err(failure) && failure == Failure::Decode(
                DecodeError::BodyMalformed,
            ),
            FetchEvent::Received(doc) => match table_fault(doc@) {
                Some(fault) => res matches Err(failure) && failure == Failure::Decode(fault),
                None => res matches Ok(received) && received@ == doc@,
            },
        },
        res matches Ok(received) ==> holds_table(received@),
{
    match event {
        FetchEvent::Unreachable => Err(Failure::Transport),
        FetchEvent::Malformed => Err(Failure::Decode(DecodeError::BodyMalformed)),
        FetchEvent::Received(doc) => match check_table(&doc) {
            Some(fault) => Err(Failure::Decode(fault)),
            None => Ok(doc),
        },
    }
}

/// Cleans the table of a fetched document and projects the document onto a
/// snapshot.
pub fn snapshot_of(doc: Document) -> (res: Result<Snapshot, Failure>)
    ensures
        match res {
            Ok(snapshot) => document_projected(document_rewritten(doc@)) == Ok::<
                SnapshotView,
                DecodeError,
            >(snapshot@) && doc@.contains_key(ROWS_KEY@) && doc@[ROWS_KEY@] is Array
                && snapshot@.rows.len() == doc@[ROWS_KEY@]->Array_0.len(),
            Err(failure) => failure matches Failure::Decode(error) && document_projected(
                document_rewritten(doc@),
            ) == Err::<SnapshotView, DecodeError>(error),
        },
{
    let mut doc = doc;
    proof {
        lemma_rewritten_row_count(doc@);
    }
    rewrite_rows(&mut doc);
    match project(&doc) {
        Ok(snapshot) => Ok(snapshot),
        Err(error) => Err(Failure::Decode(error)),
    }
}

/// The database address of a run, from what the environment holds under
/// [`DATABASE_URL_VARIABLE`]: a run without one fails.
pub fn database_url(configured: Option<String>) -> (res: Result<String, Failure>)
    ensures
        match configured {
            Some(url) => res matches Ok(found) && found == url,
            None => res matches Err(failure) && failure == Failure::Config,
        },
{
    match configured {
        Some(url) => Ok(url),
        None => Err(Failure::Config),
    }
}

/// The exit code of the process: 0 for a run that succeeded, 1 for one that failed.
pub fn exit_code<T>(outcome: &Result<T, Failure>) -> (code: i32)
    ensures
        code == (if outcome is Ok {
            0i32
        } else {
            1i32
        }),
{
    match outcome {
        Ok(_) => 0,
        Err(_) => 1,
    }
}

} // verus!
