use serde_json::Number;
use taipower::json::Json;
use taipower::markup::{remove_html_tags, TAG_PATTERN};
use taipower::normalize::process_value;

fn text(s: &str) -> Json {
    Json::Text(s.to_string())
}

#[test]
fn tag_pattern_is_the_documented_one() {
    assert_eq!(TAG_PATTERN, "<[^>]*>");
}

#[test]
fn remove_html_tags_deletes_a_pair_of_tags() {
    assert_eq!(remove_html_tags("<b>火力</b>"), "火力");
}

#[test]
fn remove_html_tags_keeps_plain_text() {
    assert_eq!(remove_html_tags("林口#1"), "林口#1");
    assert_eq!(remove_html_tags(""), "");
}

#[test]
fn remove_html_tags_keeps_an_opening_bracket_that_is_never_closed() {
    assert_eq!(remove_html_tags("a<b"), "a<b");
    assert_eq!(remove_html_tags("</b>x<"), "x<");
}

#[test]
fn remove_html_tags_keeps_a_closing_bracket_that_was_never_opened() {
    assert_eq!(remove_html_tags("a>b"), "a>b");
    assert_eq!(remove_html_tags("a>b<c>d"), "a>bd");
}

#[test]
fn remove_html_tags_ends_a_tag_at_the_first_closing_bracket() {
    assert_eq!(remove_html_tags("<<>>"), ">");
    assert_eq!(remove_html_tags("<a<b>c>"), "c>");
}

#[test]
fn remove_html_tags_deletes_the_empty_tag_and_tags_across_lines() {
    assert_eq!(remove_html_tags("x<>y"), "xy");
    assert_eq!(remove_html_tags("x<a\nb>y"), "xy");
}

#[test]
fn remove_html_tags_deletes_every_tag() {
    assert_eq!(
        remove_html_tags("<td><a href=\"#\">核能</a></td> 95.1%<br/>"),
        "核能 95.1%"
    );
}

#[test]
fn remove_html_tags_leaves_nothing_to_delete() {
    for input in ["<i>運轉中</i>", "a<b", "<<>>", "<a<b>c>", "<<<>", "><><"] {
        let once = remove_html_tags(input);
        assert_eq!(remove_html_tags(&once), once);
    }
}

#[test]
fn sentinel_becomes_empty_under_either_flag() {
    for flag in [false, true] {
        assert_eq!(process_value(&text("-"), flag), text(""));
        assert_eq!(process_value(&text(" "), flag), text(""));
    }
}

#[test]
fn dash_in_the_notes_column_becomes_empty() {
    assert_eq!(process_value(&text("-"), false), text(""));
}

#[test]
fn only_the_exact_sentinels_count() {
    assert_eq!(process_value(&text("--"), false), text("--"));
    assert_eq!(process_value(&text("  "), false), text("  "));
    assert_eq!(process_value(&text(" -"), false), text(" -"));
    assert_eq!(process_value(&text(""), false), text(""));
}

#[test]
fn number_is_kept_under_either_flag() {
    for flag in [false, true] {
        let whole = Json::Number(Number::from(800u64));
        assert_eq!(process_value(&whole, flag), Json::Number(Number::from(800u64)));
        let negative = Json::Number(Number::from(-3i64));
        assert_eq!(process_value(&negative, flag), Json::Number(Number::from(-3i64)));
        let fraction = Json::Number(Number::from_f64(97.5).unwrap());
        assert_eq!(
            process_value(&fraction, flag),
            Json::Number(Number::from_f64(97.5).unwrap())
        );
    }
}

#[test]
fn text_in_a_lead_zero_column_becomes_zero() {
    assert_eq!(process_value(&text("123.4"), true), text("0"));
    assert_eq!(process_value(&text("<b>800.0</b>"), true), text("0"));
    assert_eq!(process_value(&text(""), true), text("0"));
}

#[test]
fn text_elsewhere_loses_its_tags() {
    assert_eq!(process_value(&text("<b>火力</b>"), false), text("火力"));
    assert_eq!(process_value(&text("<i>運轉中</i>"), false), text("運轉中"));
    assert_eq!(process_value(&text("97.5%"), false), text("97.5%"));
}

#[test]
fn a_sentinel_inside_tags_is_no_sentinel() {
    assert_eq!(process_value(&text("<b>-</b>"), false), text("-"));
}

#[test]
fn other_kinds_are_kept() {
    for flag in [false, true] {
        assert_eq!(process_value(&Json::Null, flag), Json::Null);
        assert_eq!(process_value(&Json::Bool(true), flag), Json::Bool(true));
        let array = Json::Array(vec![text("-"), Json::Null]);
        assert_eq!(process_value(&array, flag), Json::Array(vec![text("-"), Json::Null]));
        let object = Json::Object(vec![("k".to_string(), text("<b>v</b>"))]);
        assert_eq!(
            process_value(&object, flag),
            Json::Object(vec![("k".to_string(), text("<b>v</b>"))])
        );
    }
}

#[test]
fn clone_copies_every_level() {
    let value = Json::Array(vec![
        Json::Null,
        Json::Bool(false),
        Json::Number(Number::from(7u64)),
        text("x"),
        Json::Array(vec![text("y")]),
        Json::Object(vec![("k".to_string(), Json::Array(vec![]))]),
    ]);
    assert_eq!(value.clone(), value);
}
