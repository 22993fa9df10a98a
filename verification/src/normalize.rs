//! The rules that clean one cell, and their application to a whole table.
use crate::json::{item_views, lemma_array_view, Document, Json, JsonView};
use crate::markup::{contains_tag, lemma_strip_tags_leaves_no_tag, remove_html_tags, strip_tags};
use vstd::prelude::*;

verus! {

/// A sentinel marks a cell as "not applicable": the text `-` or one space.
pub open spec fn is_sentinel(text: Seq<char>) -> bool {
    text == seq!['-'] || text == seq![' ']
}

/// The cleaned form of `cell`. A sentinel text becomes the empty text; any
/// other text becomes `0` in a lead-zero column and loses its tags elsewhere;
/// a value that is no text stays as it is.
pub open spec fn normalize(cell: JsonView, lead_zero: bool) -> JsonView {
    match cell {
        JsonView::Text(text) => if is_sentinel(text) {
            JsonView::Text(Seq::empty())
        } else if lead_zero {
            JsonView::Text(seq!['0'])
        } else {
            JsonView::Text(strip_tags(text))
        },
        _ => cell,
    }
}

/// A cleaned cell is of the kind that it was, and where it is a text it holds
/// no tag.
pub proof fn lemma_normalize_leaves_no_tag(cell: JsonView, lead_zero: bool)
    ensures
        cell is Text <==> normalize(cell, lead_zero) is Text,
        normalize(cell, lead_zero) matches JsonView::Text(text) ==> !contains_tag(text),
{
    if let JsonView::Text(text) = cell {
        lemma_strip_tags_leaves_no_tag(text);
    }
}

/// Cleans one cell; `leadzero` says whether the cell stands in a lead-zero column.
pub fn process_value(value: &Json, leadzero: bool) -> (res: Json)
    ensures
        res@ == normalize(value@, leadzero),
        value@ is Number ==> res@ == value@,
        value@ matches JsonView::Text(text) ==> {
            &&& is_sentinel(text) ==> res@ == JsonView::Text(Seq::empty())
            &&& !is_sentinel(text) && leadzero ==> res@ == JsonView::Text(seq!['0'])
            &&& !is_sentinel(text) && !leadzero ==> res@ == JsonView::Text(strip_tags(text))
                && !contains_tag(res@->Text_0)
        },
{
    match value {
        Json::Text(s) => {
            proof {
                reveal_strlit("-");
                reveal_strlit(" ");
                reveal_strlit("");
                reveal_strlit("0");
            }
            let dash = "-".to_owned();
            let space = " ".to_owned();
            assert(dash@ =~= seq!['-']);
            assert(space@ =~= seq![' ']);
            if *s == dash || *s == space {
                let res = Json::Text("".to_owned());
                assert(res@->Text_0 =~= Seq::<char>::empty());
                res
            } else if leadzero {
                let res = Json::Text("0".to_owned());
                assert(res@->Text_0 =~= seq!['0']);
                res
            } else {
                Json::Text(remove_html_tags(s.as_str()))
            }
        },
        _ => value.clone(),
    }
}

/// Name of the document member that holds the table of rows.
pub const ROWS_KEY: &'static str = "aaData";

/// The lead-zero columns are those at index 3 and 4.
pub open spec fn is_lead_zero_column(column: int) -> bool {
    column == 3 || column == 4
}

/// The cells of one row, each cleaned by the rule of its column.
pub open spec fn cells_rewritten(cells: Seq<JsonView>) -> Seq<JsonView> {
    Seq::new(cells.len(), |column: int| normalize(cells[column], is_lead_zero_column(column)))
}

/// A row that is an array has its cells cleaned; any other value stays as it is.
pub open spec fn row_rewritten(row: JsonView) -> JsonView {
    match row {
        JsonView::Array(cells) => JsonView::Array(cells_rewritten(cells)),
        _ => row,
    }
}

/// A table that is an array has its rows rewritten; any other value stays as it is.
pub open spec fn table_rewritten(table: JsonView) -> JsonView {
    match table {
        JsonView::Array(rows) => JsonView::Array(
            Seq::new(rows.len(), |i: int| row_rewritten(rows[i])),
        ),
        _ => table,
    }
}

/// The document with its table rewritten; a document without a table stays as it is.
pub open spec fn document_rewritten(doc: Map<Seq<char>, JsonView>) -> Map<Seq<char>, JsonView> {
    if doc.contains_key(ROWS_KEY@) {
        doc.insert(ROWS_KEY@, table_rewritten(doc[ROWS_KEY@]))
    } else {
        doc
    }
}

/// `after` has the rows of `before`, and in each row that is an array the
/// same number of cells.
pub open spec fn same_shape(before: JsonView, after: JsonView) -> bool {
    before matches JsonView::Array(rows) ==> {
        &&& after matches JsonView::Array(new_rows)
        &&& new_rows.len() == rows.len()
        &&& forall|i: int|
            0 <= i < rows.len() ==> match #[trigger] rows[i] {
                JsonView::Array(cells) => new_rows[i] matches JsonView::Array(new_cells)
                    && new_cells.len() == cells.len(),
                _ => new_rows[i] == rows[i],
            }
    }
}

/// Rewriting keeps the number of rows and the number of cells in each row.
pub proof fn lemma_rewrite_keeps_shape(table: JsonView)
    ensures
        same_shape(table, table_rewritten(table)),
{
}

/// After rewriting, no text cell of a row holds a tag.
pub proof fn lemma_rewritten_cells_hold_no_tag(cells: Seq<JsonView>, column: int)
    requires
        0 <= column < cells.len(),
    ensures
        cells_rewritten(cells)[column] matches JsonView::Text(text) ==> !contains_tag(text),
{
    lemma_normalize_leaves_no_tag(cells[column], is_lead_zero_column(column));
}

/// Rewriting a document changes no member but the table, and keeps the
/// table's number of rows and of cells in each row.
pub proof fn lemma_rewrite_document_keeps_shape(doc: Map<Seq<char>, JsonView>)
    ensures
        document_rewritten(doc).dom() == doc.dom(),
        forall|name: Seq<char>|
            doc.contains_key(name) && name != ROWS_KEY@ ==> document_rewritten(doc)[name]
                == doc[name],
        doc.contains_key(ROWS_KEY@) ==> same_shape(
            doc[ROWS_KEY@],
            document_rewritten(doc)[ROWS_KEY@],
        ),
{
    assert(document_rewritten(doc).dom() =~= doc.dom());
}

/// Cleans the cells of one row, each by the rule of its column.
pub fn rewrite_cells(cells: &Vec<Json>) -> (res: Vec<Json>)
    ensures
        item_views(res@) == cells_rewritten(item_views(cells@)),
{
    let mut res: Vec<Json> = Vec::new();
    let mut column: usize = 0;
    while column < cells.len()
        invariant
            column <= cells.len(),
            res.len() == column,
            forall|k: int|
                0 <= k < column ==> res@[k]@ == normalize(cells@[k]@, is_lead_zero_column(k)),
        decreases cells.len() - column,
    {
        let leadzero = column == 3 || column == 4;
        res.push(process_value(&cells[column], leadzero));
        column += 1;
    }
    assert(item_views(res@) =~= cells_rewritten(item_views(cells@)));
    res
}

/// Rewrites one element of the table: the cells of a row that is an array;
/// any other value is copied.
pub fn rewrite_row(row: &Json) -> (res: Json)
    ensures
        res@ == row_rewritten(row@),
{
    match row {
        Json::Array(cells) => {
            let res = rewrite_cells(cells);
            proof {
                lemma_array_view(*cells);
                lemma_array_view(res);
            }
            Json::Array(res)
        },
        _ => row.clone(),
    }
}

/// Rewrites a table: each row of a table that is an array; any other value is copied.
pub fn rewrite_table(table: &Json) -> (res: Json)
    ensures
        res@ == table_rewritten(table@),
        same_shape(table@, res@),
{
    match table {
        Json::Array(rows) => {
            let mut res: Vec<Json> = Vec::new();
            let mut i: usize = 0;
            while i < rows.len()
                invariant
                    i <= rows.len(),
                    res.len() == i,
                    forall|k: int| 0 <= k < i ==> res@[k]@ == row_rewritten(rows@[k]@),
                decreases rows.len() - i,
            {
                res.push(rewrite_row(&rows[i]));
                i += 1;
            }
            proof {
                lemma_array_view(*rows);
                lemma_array_view(res);
                assert(item_views(res@) =~= table_rewritten(table@)->Array_0);
            }
            Json::Array(res)
        },
        _ => table.clone(),
    }
}

/// Rewrites the table of `doc` where it stands. A document that has no table,
/// or whose table is no array, is left as it is.
pub fn rewrite_rows(doc: &mut Document)
    ensures
        final(doc)@ == document_rewritten(old(doc)@),
        final(doc)@.dom() == old(doc)@.dom(),
        old(doc)@.contains_key(ROWS_KEY@) ==> same_shape(
            old(doc)@[ROWS_KEY@],
            final(doc)@[ROWS_KEY@],
        ),
{
    proof {
        lemma_rewrite_document_keeps_shape(doc@);
    }
    let rewritten = match doc.get(ROWS_KEY) {
        Some(table) => match table {
            Json::Array(_) => Some(rewrite_table(table)),
            _ => None,
        },
        None => None,
    };
    match rewritten {
        Some(table) => {
            doc.insert(ROWS_KEY.to_owned(), table);
        },
        None => {
            assert(doc@ =~= document_rewritten(doc@));
        },
    }
}

} // verus!
