use virus_scanner::json::{get_child, parse_json, Json};
use virus_scanner::report::{
    analysis_id, analysis_status, classify, detection_count, engine_report, engine_reports,
    engine_total, is_success, permalink, stat_count,
};
use virus_scanner::virus_total::ScanStatus;

fn object(members: Vec<(&str, Json)>) -> Json {
    Json::Object(members.into_iter().map(|(key, value)| (key.to_string(), value)).collect())
}

fn text(value: &str) -> Json {
    Json::Text(value.to_string())
}

#[test]
fn classification_malicious() {
    assert_eq!(classify(2, 0), ScanStatus::Malicious);
    assert_eq!(detection_count(2, 0), 2);
    assert_eq!(engine_total(70), 70);
}

#[test]
fn classification_suspicious() {
    assert_eq!(classify(0, 1), ScanStatus::Suspicious);
    assert_eq!(detection_count(0, 1), 1);
}

#[test]
fn classification_clean() {
    assert_eq!(classify(0, 0), ScanStatus::Clean);
    assert_eq!(detection_count(0, 0), 0);
}

#[test]
fn malicious_outranks_suspicious() {
    assert_eq!(classify(1, 5), ScanStatus::Malicious);
    assert_eq!(detection_count(1, 5), 6);
}

#[test]
fn counts_stop_at_the_largest_value() {
    assert_eq!(detection_count(u64::MAX, u64::MAX), u32::MAX);
    assert_eq!(detection_count(4_294_967_295, 1), u32::MAX);
    assert_eq!(detection_count(4_294_967_294, 1), u32::MAX);
    assert_eq!(detection_count(4_294_967_293, 1), 4_294_967_294);
    assert_eq!(engine_total(4_294_967_296), u32::MAX);
}

#[test]
fn success_statuses() {
    assert!(!is_success(199));
    assert!(is_success(200));
    assert!(is_success(204));
    assert!(is_success(299));
    assert!(!is_success(300));
    assert!(!is_success(404));
}

#[test]
fn analysis_id_is_the_string_at_data_id() {
    let reply = object(vec![("data", object(vec![("id", text("u-1"))]))]);
    assert_eq!(analysis_id(&reply), Some("u-1".to_string()));
    let number = object(vec![("data", object(vec![("id", Json::Number(Some(3)))]))]);
    assert_eq!(analysis_id(&number), None);
    assert_eq!(analysis_id(&object(vec![("data", Json::Null)])), None);
    assert_eq!(analysis_id(&Json::Array(Vec::new())), None);
}

#[test]
fn status_and_counts_are_read_from_attributes() {
    let reply = object(vec![(
        "data",
        object(vec![(
            "attributes",
            object(vec![
                ("status", text("queued")),
                (
                    "stats",
                    object(vec![
                        ("malicious", Json::Number(Some(4))),
                        ("suspicious", Json::Number(None)),
                        ("total", text("70")),
                    ]),
                ),
            ]),
        )]),
    )]);
    assert_eq!(analysis_status(&reply), Some("queued".to_string()));
    assert_eq!(stat_count(&reply, "malicious"), 4);
    assert_eq!(stat_count(&reply, "suspicious"), 0);
    assert_eq!(stat_count(&reply, "total"), 0);
    assert_eq!(stat_count(&reply, "harmless"), 0);
    assert_eq!(analysis_status(&Json::Null), None);
}

#[test]
fn engine_report_reads_each_field() {
    let detail = object(vec![
        ("category", text("malicious")),
        ("result", text("Worm")),
        ("engine_version", text("3.1")),
        ("engine_update", text("20250202")),
    ]);
    let entry = engine_report("Gamma", &detail);
    assert!(entry.detected);
    assert_eq!(entry.engine_name, "Gamma");
    assert_eq!(entry.result.as_deref(), Some("Worm"));
    assert_eq!(entry.version.as_deref(), Some("3.1"));
    assert_eq!(entry.engine_version.as_deref(), Some("3.1"));
    assert_eq!(entry.engine_update.as_deref(), Some("20250202"));
    let quiet = engine_report("Delta", &object(vec![("category", text("harmless"))]));
    assert!(!quiet.detected);
    assert_eq!(quiet.result, None);
    let odd = engine_report("Eps", &Json::Bool(true));
    assert!(!odd.detected);
    assert_eq!(odd.engine_name, "Eps");
}

#[test]
fn engine_reports_follow_the_object() {
    let reply = object(vec![(
        "data",
        object(vec![(
            "attributes",
            object(vec![(
                "results",
                object(vec![
                    ("B", object(vec![("category", text("malicious"))])),
                    ("A", object(vec![("category", text("undetected"))])),
                ]),
            )]),
        )]),
    )]);
    let entries = engine_reports(&reply);
    assert_eq!(entries.len(), 2);
    assert_eq!(entries[0].engine_name, "B");
    assert!(entries[0].detected);
    assert_eq!(entries[1].engine_name, "A");
    assert!(!entries[1].detected);
    assert!(engine_reports(&Json::Null).is_empty());
}

#[test]
fn first_member_wins() {
    let value = object(vec![("k", text("first")), ("k", text("second"))]);
    assert_eq!(value.get("k"), Some(&text("first")));
    assert_eq!(value.get("missing"), None);
    assert_eq!(text("x").get("k"), None);
    assert_eq!(text("x").as_str(), Some("x"));
    assert_eq!(Json::Number(Some(9)).as_u64(), Some(9));
    assert_eq!(Json::Number(None).as_u64(), None);
    assert_eq!(Json::Bool(false).as_object(), None);
}

#[test]
fn permalink_names_the_digest() {
    assert_eq!(permalink("abcd"), "https://www.virustotal.com/gui/file/abcd/detection");
}

#[test]
fn parse_json_reads_documents() {
    assert_eq!(parse_json("null"), Some(Json::Null));
    assert_eq!(parse_json(" true "), Some(Json::Bool(true)));
    assert_eq!(parse_json("\"a\\nb\""), Some(text("a\nb")));
    assert_eq!(
        parse_json("[1, -1, 1.5, 18446744073709551615, 18446744073709551616]"),
        Some(Json::Array(vec![
            Json::Number(Some(1)),
            Json::Number(None),
            Json::Number(None),
            Json::Number(Some(u64::MAX)),
            Json::Number(None),
        ]))
    );
    assert_eq!(
        parse_json(r#"{"a":{"c":[]},"b":"x"}"#),
        Some(object(vec![("a", object(vec![("c", Json::Array(Vec::new()))])), ("b", text("x"))]))
    );
}

#[test]
fn parse_json_rejects_what_is_no_document() {
    assert_eq!(parse_json(""), None);
    assert_eq!(parse_json("{"), None);
    assert_eq!(parse_json("{} {}"), None);
    assert_eq!(parse_json("{'a': 1}"), None);
    assert_eq!(parse_json("nul"), None);
}

#[test]
fn parsed_reply_is_read() {
    let reply = parse_json(r#"{"data":{"id":"NjY0","type":"analysis"}}"#).unwrap();
    assert_eq!(analysis_id(&reply), Some("NjY0".to_string()));
    assert_eq!(get_child(reply.get("data"), "type"), Some(&text("analysis")));
    assert_eq!(get_child(None, "type"), None);
}
