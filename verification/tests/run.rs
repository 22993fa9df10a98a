use taipower::json::{Document, Json};
use taipower::pipeline::{
    check_table, database_url, exit_code, fetched, snapshot_of, Failure, FetchEvent,
    DATABASE_URL_VARIABLE, REQUEST_TIMEOUT_SECONDS, SOURCE_URL, USER_AGENT,
};
use taipower::snapshot::DecodeError;

fn text(s: &str) -> Json {
    Json::Text(s.to_string())
}

#[test]
fn request_goes_to_the_published_address() {
    assert_eq!(
        SOURCE_URL,
        "https://www.taipower.com.tw/d006/loadGraph/loadGraph/data/genary.json"
    );
    assert_eq!(USER_AGENT, "*");
    assert_eq!(DATABASE_URL_VARIABLE, "DATABASE_URL");
    assert_eq!(REQUEST_TIMEOUT_SECONDS, 30);
}

#[test]
fn failed_request_ends_the_run_with_code_one() {
    let outcome = fetched(FetchEvent::Unreachable);
    assert_eq!(outcome.as_ref().err(), Some(&Failure::Transport));
    assert_eq!(exit_code(&outcome), 1);
}

#[test]
fn malformed_body_ends_the_run_with_code_one() {
    let outcome = fetched(FetchEvent::Malformed);
    assert_eq!(outcome.as_ref().err(), Some(&Failure::Decode(DecodeError::BodyMalformed)));
    assert_eq!(exit_code(&outcome), 1);
}

#[test]
fn received_document_with_a_table_is_handed_on() {
    let mut doc = Document::new();
    doc.insert("k".to_string(), text("v"));
    doc.insert(
        "aaData".to_string(),
        Json::Array(vec![Json::Array(vec![text("-")]), Json::Array(vec![])]),
    );
    let received = fetched(FetchEvent::Received(doc)).unwrap();
    assert_eq!(received.get("k"), Some(&text("v")));
    assert_eq!(received.get(""), None);
    assert_eq!(
        received.get("aaData"),
        Some(&Json::Array(vec![Json::Array(vec![text("-")]), Json::Array(vec![])]))
    );
}

#[test]
fn received_document_without_a_table_ends_the_run() {
    let outcome = fetched(FetchEvent::Received(Document::new()));
    assert_eq!(outcome.as_ref().err(), Some(&Failure::Decode(DecodeError::RowsMissing)));
    assert_eq!(exit_code(&outcome), 1);
}

#[test]
fn check_table_names_the_first_fault() {
    let mut doc = Document::new();
    assert_eq!(check_table(&doc), Some(DecodeError::RowsMissing));
    doc.insert("aaData".to_string(), text("rows"));
    assert_eq!(check_table(&doc), Some(DecodeError::RowsNotArray));
    doc.insert(
        "aaData".to_string(),
        Json::Array(vec![Json::Array(vec![]), Json::Null, text("x")]),
    );
    assert_eq!(check_table(&doc), Some(DecodeError::RowNotArray { row: 1 }));
    doc.insert("aaData".to_string(), Json::Array(vec![]));
    assert_eq!(check_table(&doc), None);
    doc.insert("aaData".to_string(), Json::Array(vec![Json::Array(vec![Json::Null])]));
    assert_eq!(check_table(&doc), None);
}

#[test]
fn snapshot_of_cleans_and_projects() {
    let mut doc = Document::new();
    doc.insert("".to_string(), text("2024-03-15 09:30"));
    let cells = ["<b>火力</b>", "林口", "林口#1", "800.0", "-", "97.5%", "<i>運轉中</i>", " "];
    doc.insert(
        "aaData".to_string(),
        Json::Array(vec![Json::Array(cells.iter().map(|s| text(s)).collect())]),
    );
    let outcome = snapshot_of(doc);
    assert_eq!(exit_code(&outcome), 0);
    let snapshot = outcome.unwrap();
    assert_eq!(snapshot.timestamp.local.hour, 9);
    assert_eq!(snapshot.rows.len(), 1);
    assert_eq!(snapshot.rows[0].category, "火力");
    assert_eq!(snapshot.rows[0].capacity, Some("0".to_string()));
    assert_eq!(snapshot.rows[0].generation, None);
    assert_eq!(snapshot.rows[0].status, Some("運轉中".to_string()));
    assert_eq!(snapshot.rows[0].notes, None);
}

#[test]
fn snapshot_of_reports_a_decode_failure() {
    let outcome = snapshot_of(Document::new());
    assert_eq!(outcome, Err(Failure::Decode(DecodeError::TimestampMissing)));
    assert_eq!(exit_code(&outcome), 1);
}

#[test]
fn database_url_is_required() {
    assert_eq!(database_url(None), Err(Failure::Config));
    assert_eq!(
        database_url(Some("postgres://localhost/power".to_string())),
        Ok("postgres://localhost/power".to_string())
    );
    assert_eq!(exit_code(&database_url(None)), 1);
}
