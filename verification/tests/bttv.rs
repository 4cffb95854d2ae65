use twitchemotes::bttv::channels;
use twitchemotes::bttv::global;
use twitchemotes::bttv::{Emote, Restrictions};
use twitchemotes::error::{DecodeError, Failure, Mismatch};
use twitchemotes::json::Json;
use twitchemotes::schema::Decode;

fn schema_failure<T>(r: Result<T, Failure>) -> Mismatch {
    match r {
        Err(Failure::Decode(DecodeError::Schema(mismatch))) => mismatch,
        Err(other) => panic!("another failure: {:?}", other),
        Ok(_) => panic!("decoded"),
    }
}

const FIVE: &str = r#"{
    "status":200,
    "urlTemplate":"//cdn.betterttv.net/emote/{{id}}/{{image}}",
    "bots":[],
    "emotes":[
        {
            "id":"594e207ae949fe3b435e5859",
            "channel":"oshleyy",
            "code":"pachiW",
            "imageType":"png"
        },
        {
            "id":"56e9f494fff3cc5c35e5287e",
            "channel":"monkasen",
            "code":"monkaS",
            "imageType":"png"
        },
        {
            "id":"55b6f480e66682f576dd94f5",
            "channel":"turtlemaw",
            "code":"Clap",
            "imageType":"gif"
        },
        {
            "id":"59c0b93f8798a53d5af9a484",
            "channel":"oshleyy",
            "code":"oshleyW",
            "imageType":"png"
        },
        {
            "id":"59c72b628798a53d5af9cbb4",
            "channel":"oshleyy",
            "code":"oshleyHmm",
            "imageType":"png"
        }
    ]
}"#;

#[test]
fn deserialize_channel() {
    let json = r#"{
            "status":200,
            "urlTemplate":"//cdn.betterttv.net/emote/{{id}}/{{image}}",
            "bots":[],
            "emotes":[
                {
                    "id":"594e207ae949fe3b435e5859",
                    "channel":"oshleyy",
                    "code":"pachiW",
                    "imageType":"png"
                },
                {
                    "id":"56e9f494fff3cc5c35e5287e",
                    "channel":"monkasen",
                    "code":"monkaS",
                    "imageType":"png"
                },
                {
                    "id":"55b6f480e66682f576dd94f5",
                    "channel":"turtlemaw",
                    "code":"Clap",
                    "imageType":"gif"
                },
                {
                    "id":"59c0b93f8798a53d5af9a484",
                    "channel":"oshleyy",
                    "code":"oshleyW",
                    "imageType":"png"
                },
                {
                    "id":"59c72b628798a53d5af9cbb4",
                    "channel":"oshleyy",
                    "code":"oshleyHmm",
                    "imageType":"png"
                }
            ]
        }"#;

    channels::from_str(json).unwrap();
}

#[test]
fn channel_emotes_keep_length_and_order() {
    let channel = channels::from_str(FIVE).unwrap();
    assert_eq!(channel.status, 200);
    assert_eq!(channel.url_template, "//cdn.betterttv.net/emote/{{id}}/{{image}}");
    assert_eq!(channel.bots.len(), 0);
    let codes: Vec<&str> = channel.emotes.iter().map(|e| e.code.as_str()).collect();
    assert_eq!(codes, vec!["pachiW", "monkaS", "Clap", "oshleyW", "oshleyHmm"]);
    let ids: Vec<&str> = channel.emotes.iter().map(|e| e.id.as_str()).collect();
    assert_eq!(
        ids,
        vec![
            "594e207ae949fe3b435e5859",
            "56e9f494fff3cc5c35e5287e",
            "55b6f480e66682f576dd94f5",
            "59c0b93f8798a53d5af9a484",
            "59c72b628798a53d5af9cbb4",
        ]
    );
    assert_eq!(channel.emotes[2].image_type, "gif");
}

#[test]
fn channel_with_one_emote() {
    let json = r#"{"status":200,"urlTemplate":"//cdn.betterttv.net/emote/{{id}}/{{image}}","bots":[],"emotes":[{"id":"594e207ae949fe3b435e5859","channel":"oshleyy","code":"pachiW","imageType":"png"}]}"#;
    let channel = channels::from_str(json).unwrap();
    assert_eq!(channel.emotes.len(), 1);
    assert_eq!(
        channel.emotes[0],
        Emote {
            id: "594e207ae949fe3b435e5859".to_string(),
            code: "pachiW".to_string(),
            channel: Some("oshleyy".to_string()),
            restrictions: None,
            image_type: "png".to_string(),
        }
    );
    assert_eq!(channel.emotes[0].code, "pachiW");
    assert_eq!(channel.emotes[0].channel, Some("oshleyy".to_string()));
    assert_eq!(channel.emotes[0].image_type, "png");
}

#[test]
fn channel_bots_are_counted_and_not_read() {
    let json = r#"{"status":200,"urlTemplate":"t","bots":["nightbot",{"name":"moobot"},3],"emotes":[]}"#;
    let channel = channels::from_str(json).unwrap();
    assert_eq!(channel.bots.len(), 3);
    assert_eq!(channel.emotes.len(), 0);
}

#[test]
fn channel_needs_bots() {
    let json = r#"{"status":200,"urlTemplate":"t","emotes":[]}"#;
    assert_eq!(schema_failure(channels::from_str(json)), Mismatch::MissingField);
    let json = r#"{"status":200,"urlTemplate":"t","bots":{},"emotes":[]}"#;
    assert_eq!(schema_failure(channels::from_str(json)), Mismatch::WrongType);
}

#[test]
fn global_is_decoded() {
    let json = r#"{"status":200,"urlTemplate":"//cdn.betterttv.net/emote/{{id}}/{{image}}","emotes":[{"id":"54fa8f1401e468494b85b537","code":":tf:","channel":null,"restrictions":{"channels":[],"games":[]},"imageType":"png"},{"id":"54fa8f1401e468494b85b537","code":":tf:","imageType":"png"}]}"#;
    let response = global::from_str(json).unwrap();
    assert_eq!(response.status, 200);
    assert_eq!(response.url_template, "//cdn.betterttv.net/emote/{{id}}/{{image}}");
    assert_eq!(response.emotes.len(), 2);
    assert_eq!(
        response.emotes[0],
        Emote {
            id: "54fa8f1401e468494b85b537".to_string(),
            code: ":tf:".to_string(),
            channel: None,
            restrictions: Some(Restrictions { channels: vec![], games: vec![] }),
            image_type: "png".to_string(),
        }
    );
    assert_eq!(response.emotes[1].restrictions, None);
    assert_eq!(response.emotes[0].id, response.emotes[1].id);
}

#[test]
fn global_missing_a_required_field_fails() {
    let json = r#"{"status":200,"urlTemplate":"t"}"#;
    assert_eq!(schema_failure(global::from_str(json)), Mismatch::MissingField);
    let json = r#"{"urlTemplate":"t","emotes":[]}"#;
    assert_eq!(schema_failure(global::from_str(json)), Mismatch::MissingField);
    let json = r#"{"status":200,"emotes":[]}"#;
    assert_eq!(schema_failure(global::from_str(json)), Mismatch::MissingField);
    let json = r#"{"status":200,"url_template":"t","emotes":[]}"#;
    assert_eq!(schema_failure(global::from_str(json)), Mismatch::MissingField);
}

#[test]
fn global_emote_missing_a_required_field_fails() {
    let json = r#"{"status":200,"urlTemplate":"t","emotes":[{"id":"a","code":"b","imageType":"png"},{"id":"a","code":"b"}]}"#;
    assert_eq!(schema_failure(global::from_str(json)), Mismatch::MissingField);
    let json = r#"{"status":200,"urlTemplate":"t","emotes":[{"code":"b","imageType":"png"}]}"#;
    assert_eq!(schema_failure(global::from_str(json)), Mismatch::MissingField);
    let json = r#"{"status":200,"urlTemplate":"t","emotes":[{"id":"a","imageType":"png"}]}"#;
    assert_eq!(schema_failure(global::from_str(json)), Mismatch::MissingField);
}

#[test]
fn global_of_another_shape_fails() {
    assert_eq!(schema_failure(global::from_str("[]")), Mismatch::WrongType);
    assert_eq!(schema_failure(global::from_str("null")), Mismatch::WrongType);
    let json = r#"{"status":"200","urlTemplate":"t","emotes":[]}"#;
    assert_eq!(schema_failure(global::from_str(json)), Mismatch::WrongType);
    let json = r#"{"status":200,"urlTemplate":null,"emotes":[]}"#;
    assert_eq!(schema_failure(global::from_str(json)), Mismatch::WrongType);
    let json = r#"{"status":200,"urlTemplate":"t","emotes":{}}"#;
    assert_eq!(schema_failure(global::from_str(json)), Mismatch::WrongType);
    let json = r#"{"status":200,"urlTemplate":"t","emotes":["pachiW"]}"#;
    assert_eq!(schema_failure(global::from_str(json)), Mismatch::WrongType);
    let json = r#"{"status":200,"urlTemplate":"t","emotes":[{"id":"a","code":"b","channel":7,"imageType":"png"}]}"#;
    assert_eq!(schema_failure(global::from_str(json)), Mismatch::WrongType);
    let json = r#"{"status":200,"urlTemplate":"t","emotes":[{"id":"a","code":"b","restrictions":{"channels":[]},"imageType":"png"}]}"#;
    assert_eq!(schema_failure(global::from_str(json)), Mismatch::MissingField);
}

#[test]
fn status_has_32_signed_bits() {
    let json = r#"{"status":2147483647,"urlTemplate":"t","emotes":[]}"#;
    assert_eq!(global::from_str(json).unwrap().status, 2147483647);
    let json = r#"{"status":-2147483648,"urlTemplate":"t","emotes":[]}"#;
    assert_eq!(global::from_str(json).unwrap().status, -2147483648);
    let json = r#"{"status":2147483648,"urlTemplate":"t","emotes":[]}"#;
    assert_eq!(schema_failure(global::from_str(json)), Mismatch::BadNumber);
    let json = r#"{"status":-2147483649,"urlTemplate":"t","emotes":[]}"#;
    assert_eq!(schema_failure(global::from_str(json)), Mismatch::BadNumber);
    let json = r#"{"status":200.5,"urlTemplate":"t","emotes":[]}"#;
    assert_eq!(schema_failure(global::from_str(json)), Mismatch::BadNumber);
    let json = r#"{"status":18446744073709551615,"urlTemplate":"t","emotes":[]}"#;
    assert_eq!(schema_failure(global::from_str(json)), Mismatch::BadNumber);
}

#[test]
fn text_that_is_no_json_fails_with_its_cause() {
    match global::from_str(r#"{"status":200,"#) {
        Err(Failure::Decode(DecodeError::Syntax(cause))) => assert!(cause.is_eof()),
        other => panic!("{:?}", other),
    }
    match channels::from_str("status") {
        Err(Failure::Decode(DecodeError::Syntax(cause))) => assert!(cause.is_syntax()),
        other => panic!("{:?}", other),
    }
}

#[test]
fn unknown_fields_are_ignored() {
    let json = r#"{"status":200,"urlTemplate":"t","extra":[1,2],"emotes":[{"id":"a","code":"b","imageType":"png","animated":true}]}"#;
    let response = global::from_str(json).unwrap();
    assert_eq!(response.emotes[0].code, "b");
}

#[test]
fn decoding_twice_gives_equal_responses() {
    let first = channels::from_str(FIVE).unwrap();
    let second = channels::from_str(FIVE).unwrap();
    assert_eq!(first, second);
    let json = r#"{"status":1,"urlTemplate":"t","emotes":[{"id":"a","code":"b","imageType":"png"}]}"#;
    assert_eq!(global::from_str(json).unwrap(), global::from_str(json).unwrap());
}

#[test]
fn emote_from_a_document_made_by_hand() {
    let doc = Json::Object(vec![
        ("id".to_string(), Json::Text("1".to_string())),
        ("code".to_string(), Json::Text("first".to_string())),
        ("imageType".to_string(), Json::Text("png".to_string())),
        ("code".to_string(), Json::Text("second".to_string())),
    ]);
    let emote = Emote::from_json(&doc).unwrap();
    assert_eq!(emote.code, "second");
    assert_eq!(emote.channel, None);
    assert_eq!(Emote::from_json(&Json::Array(vec![])), Err(Mismatch::WrongType));
    assert_eq!(Emote::from_json(&Json::Object(vec![])), Err(Mismatch::MissingField));
}

#[test]
fn restrictions_count_their_entries() {
    let doc = Json::parse(r#"{"channels":["a",null],"games":[1,2,3]}"#).unwrap();
    let restrictions = Restrictions::from_json(&doc).unwrap();
    assert_eq!(restrictions.channels.len(), 2);
    assert_eq!(restrictions.games.len(), 3);
    let doc = Json::parse(r#"{"channels":[],"games":"all"}"#).unwrap();
    assert_eq!(Restrictions::from_json(&doc), Err(Mismatch::WrongType));
}

#[test]
fn endpoints_of_bttv() {
    assert_eq!(global::ENDPOINT, "https://api.betterttv.net/2/emotes");
    assert_eq!(channels::endpoint("oshleyy"), "https://api.betterttv.net/2/channels/oshleyy");
    assert_eq!(channels::endpoint(""), "https://api.betterttv.net/2/channels/");
    assert_eq!(channels::endpoint("a b/c"), "https://api.betterttv.net/2/channels/a b/c");
}

#[test]
fn a_refused_request_is_a_transport_failure() {
    let answer = reqwest::blocking::get("no address");
    assert!(answer.is_err());
    match global::download_json(answer) {
        Err(Failure::Transport(cause)) => assert!(cause.is_builder()),
        other => panic!("{:?}", other),
    }
    match channels::download_json(reqwest::blocking::get("no address")) {
        Err(Failure::Transport(cause)) => assert!(cause.is_builder()),
        other => panic!("{:?}", other),
    }
}

#[test]
fn a_response_is_handed_on() {
    let answer = reqwest::blocking::Response::from(http::Response::new("{}"));
    let response = global::download_json(Ok(answer)).unwrap();
    assert_eq!(response.text().unwrap(), "{}");
    let answer = reqwest::blocking::Response::from(http::Response::new("[]"));
    let response = channels::download_json(Ok(answer)).unwrap();
    assert_eq!(response.text().unwrap(), "[]");
}
