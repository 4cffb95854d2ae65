use twitchemotes::bttv::global::Global;
use twitchemotes::error::{DecodeError, Failure, Mismatch};
use twitchemotes::json::Json;
use twitchemotes::schema::{decode, from_parsed, list, optional, table, units, Decode};
use twitchemotes::table::Table;
use twitchemotes::ttv::subscriber::{Cheermote, Plans};
use twitchemotes::ttv::Emote;

#[test]
fn from_parsed_keeps_the_error_of_the_parser() {
    let cause = Json::parse("[1,\n 2").unwrap_err();
    assert_eq!(cause.line(), 2);
    assert_eq!(cause.column(), 2);
    match from_parsed::<Global>(Err(cause)) {
        Err(Failure::Decode(DecodeError::Syntax(cause))) => {
            assert!(cause.is_eof());
            assert_eq!(cause.line(), 2);
            assert_eq!(cause.column(), 2);
        },
        other => panic!("{:?}", other),
    }
}

#[test]
fn from_parsed_decodes_the_document() {
    let doc = Json::Object(vec![
        ("status".to_string(), Json::Number(Some(200))),
        ("urlTemplate".to_string(), Json::Text("t".to_string())),
        ("emotes".to_string(), Json::Array(vec![])),
    ]);
    let response = from_parsed::<Global>(Ok(doc)).unwrap();
    assert_eq!(response, Global { status: 200, url_template: "t".to_string(), emotes: vec![] });
}

#[test]
fn from_parsed_reports_the_mismatch() {
    let doc = Json::Object(vec![("status".to_string(), Json::Number(Some(200)))]);
    match from_parsed::<Global>(Ok(doc)) {
        Err(Failure::Decode(DecodeError::Schema(mismatch))) => {
            assert_eq!(mismatch, Mismatch::MissingField)
        },
        other => panic!("{:?}", other),
    }
    match from_parsed::<Global>(Ok(Json::Null)) {
        Err(Failure::Decode(DecodeError::Schema(mismatch))) => {
            assert_eq!(mismatch, Mismatch::WrongType)
        },
        other => panic!("{:?}", other),
    }
}

#[test]
fn decode_is_parse_and_then_from_parsed() {
    let text = r#"{"status":7,"urlTemplate":"t","emotes":[]}"#;
    let direct = decode::<Global>(text).unwrap();
    let by_steps = from_parsed::<Global>(Json::parse(text)).unwrap();
    assert_eq!(direct, by_steps);
    assert_eq!(direct.status, 7);
}

#[test]
fn table_has_one_entry_for_each_member_in_their_order() {
    let members = vec![
        ("b".to_string(), Json::Text("2".to_string())),
        ("a".to_string(), Json::Null),
        ("b".to_string(), Json::Text("3".to_string())),
    ];
    let plans: Plans = table::<Option<String>>(&members).unwrap();
    assert_eq!(
        plans.entries,
        vec![
            ("b".to_string(), Some("2".to_string())),
            ("a".to_string(), None),
            ("b".to_string(), Some("3".to_string())),
        ]
    );
    assert_eq!(plans.get("b"), Some(&Some("3".to_string())));
    assert_eq!(plans.get("a"), Some(&None));
}

#[test]
fn table_entries_follow_the_parsed_document() {
    let text = r#"{"zeta":{"id":1,"code":"zeta","emoticon_set":0},"alpha":{"id":2,"code":"alpha","emoticon_set":0}}"#;
    let doc = Json::parse(text).unwrap();
    let names: Vec<String> = doc.members().unwrap().iter().map(|m| m.0.clone()).collect();
    let emotes = decode::<Table<Emote>>(text).unwrap();
    let keys: Vec<String> = emotes.entries.iter().map(|e| e.0.clone()).collect();
    assert_eq!(keys, names);
    assert_eq!(emotes.entries.len(), 2);
    assert_eq!(emotes.get("zeta").unwrap().id, 1);
    assert_eq!(emotes.get("alpha").unwrap().id, 2);
}

#[test]
fn table_fails_with_the_first_member_that_is_no_record() {
    let members = vec![
        ("a".to_string(), Json::Null),
        ("b".to_string(), Json::Number(Some(1))),
        ("c".to_string(), Json::Object(vec![])),
    ];
    assert_eq!(table::<Option<String>>(&members), Err(Mismatch::WrongType));
    let members = vec![
        ("a".to_string(), Json::Object(vec![])),
        ("b".to_string(), Json::Number(Some(1))),
    ];
    assert_eq!(table::<Cheermote>(&members), Err(Mismatch::MissingField));
    assert_eq!(Table::<Cheermote>::from_json(&Json::Array(vec![])), Err(Mismatch::WrongType));
}

#[test]
fn list_keeps_the_order_of_the_items() {
    let items = vec![Json::Text("x".to_string()), Json::Null, Json::Text("y".to_string())];
    assert_eq!(
        list::<Option<String>>(&items),
        Ok(vec![Some("x".to_string()), None, Some("y".to_string())])
    );
    let items = vec![Json::Null, Json::Bool(true), Json::Number(None)];
    assert_eq!(list::<Option<String>>(&items), Err(Mismatch::WrongType));
    assert_eq!(list::<Option<String>>(&vec![]), Ok(vec![]));
}

#[test]
fn optional_decodes_what_is_there() {
    assert_eq!(optional::<Cheermote>(None), Ok(None));
    assert_eq!(optional::<Cheermote>(Some(&Json::Object(vec![]))), Err(Mismatch::MissingField));
    let doc = Json::parse(r#"{"1":"a","1.5":"b","2":"c","3":"d","4":"e"}"#).unwrap();
    assert_eq!(optional::<Cheermote>(Some(&doc)).unwrap().unwrap().url_4, "e");
}

#[test]
fn units_keeps_the_number_of_items() {
    assert_eq!(units(&vec![]).len(), 0);
    assert_eq!(units(&vec![Json::Null, Json::Bool(false), Json::Array(vec![])]).len(), 3);
}
