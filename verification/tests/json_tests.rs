use computemodule::json::query_result_json;
use computemodule::model::{Classification, QueryResult};

#[test]
fn plain_fields_serialize_without_escapes() {
    let q = QueryResult {
        enc_img_out: String::from("QUJD"),
        text: String::from(""),
        result: Classification::Clean,
    };
    assert_eq!(
        query_result_json(&q),
        "{\"encImgOut\":\"QUJD\",\"text\":\"\",\"result\":\"clean\"}"
    );
}

#[test]
fn failed_result_serializes_with_capital_label() {
    let q = QueryResult {
        enc_img_out: String::from(""),
        text: String::from("failed to load image"),
        result: Classification::Failed,
    };
    assert_eq!(
        query_result_json(&q),
        "{\"encImgOut\":\"\",\"text\":\"failed to load image\",\"result\":\"Failed\"}"
    );
}

#[test]
fn newlines_quotes_and_controls_are_escaped() {
    let q = QueryResult {
        enc_img_out: String::from(""),
        text: String::from("a\nb\"c\\d\te\u{1f}f"),
        result: Classification::Edited,
    };
    assert_eq!(
        query_result_json(&q),
        "{\"encImgOut\":\"\",\"text\":\"a\\nb\\\"c\\\\d\\te\\u001ff\",\"result\":\"edited\"}"
    );
}

#[test]
fn summary_line_round_trips_through_serde_json() {
    let q = QueryResult {
        enc_img_out: String::from("QQ=="),
        text: String::from("Forged region: from (10, 10) to (50, 50)\n"),
        result: Classification::Editcrop,
    };
    let body = query_result_json(&q);
    let parsed: serde_json::Value = serde_json::from_str(&body).unwrap();
    assert_eq!(parsed["encImgOut"], "QQ==");
    assert_eq!(parsed["text"], "Forged region: from (10, 10) to (50, 50)\n");
    assert_eq!(parsed["result"], "editcrop");
}

#[test]
fn all_labels_match_the_wire_names() {
    for (c, name) in [
        (Classification::Clean, "clean"),
        (Classification::Cropped, "cropped"),
        (Classification::Edited, "edited"),
        (Classification::Editcrop, "editcrop"),
        (Classification::Failed, "Failed"),
    ] {
        assert_eq!(c.label_string(), name);
    }
}
