use hermes::file_io::FileType;
use hermes::http_codes::HttpCodes;
use hermes::messages::{
    ack_messsage, close_message, connect_message, delete_message, dir_message_request,
    dir_message_response, download_message_request, download_message_response,
    extract_ack_message, extract_connect_message, extract_delete_message,
    extract_dir_response_message, extract_download_request_message,
    extract_download_response_message, extract_move_message, extract_stats_response_message,
    extract_subfolder_message, extract_upload_message, move_message, stats_request_message,
    stats_response_message, subfolder_message, upload_message, Field, FieldValue, FromField,
    Message, MessageDirection, MessageType, SubfolderAction,
};
use hermes::network_stats::{Single, TransferStats};

fn text(value: Option<&FieldValue>) -> Option<&str> {
    match value {
        Some(FieldValue::Text(s)) => Some(s.as_str()),
        _ => None,
    }
}

fn number(value: Option<&FieldValue>) -> Option<u64> {
    match value {
        Some(FieldValue::Number(n)) => Some(*n),
        _ => None,
    }
}

fn names(message: &Message) -> Vec<&str> {
    let mut names: Vec<&str> = message.fields().iter().map(|f| f.name.as_str()).collect();
    names.sort();
    names
}

fn stats() -> TransferStats {
    TransferStats {
        file_size: 10_000_000,
        transfer_time: Single::from_bits(2.0f32.to_bits()),
        data_rate: Single::from_bits(5.0f32.to_bits()),
        latency: Single::from_bits(0.5f32.to_bits()),
        ip: String::from("10.0.0.1"),
    }
}

#[test]
fn message_types_have_lowercase_words() {
    let all = [
        (MessageType::Connect, "connect"),
        (MessageType::Close, "close"),
        (MessageType::Ack, "ack"),
        (MessageType::Upload, "upload"),
        (MessageType::Download, "download"),
        (MessageType::Delete, "delete"),
        (MessageType::Dir, "dir"),
        (MessageType::Move, "move"),
        (MessageType::Subfolder, "subfolder"),
        (MessageType::Stats, "stats"),
    ];
    for (kind, word) in all {
        assert_eq!(kind.to_string(), word);
        assert_eq!(MessageType::from_str(word), Ok(kind));
    }
    assert_eq!(
        MessageType::from_str("Connect"),
        Err(String::from("unable to parse literal 'Connect'"))
    );
    assert_eq!(MessageType::from_str(""), Err(String::from("unable to parse literal ''")));
}

#[test]
fn directions_and_actions_have_lowercase_words() {
    assert_eq!(MessageDirection::Request.to_string(), "request");
    assert_eq!(MessageDirection::Response.to_string(), "response");
    assert_eq!(MessageDirection::from_str("request"), Ok(MessageDirection::Request));
    assert_eq!(MessageDirection::from_str("response"), Ok(MessageDirection::Response));
    assert_eq!(MessageDirection::from_str("reply"), Err(String::from("Invalid direction")));
    assert_eq!(SubfolderAction::Add.to_string(), "add");
    assert_eq!(SubfolderAction::Delete.to_string(), "delete");
    assert_eq!(SubfolderAction::from_str("add"), Ok(SubfolderAction::Add));
    assert_eq!(SubfolderAction::from_str("delete"), Ok(SubfolderAction::Delete));
    assert_eq!(
        SubfolderAction::from_str("remove"),
        Err(String::from("could not deduce SubfolderAction from 'remove'"))
    );
}

#[test]
fn connect_round_trip() {
    let m = connect_message(String::from("alice"), String::from("secret"));
    assert_eq!(*m.message_type(), MessageType::Connect);
    assert_eq!(*m.direction(), MessageDirection::Request);
    assert_eq!(names(&m), vec!["password", "username"]);
    assert_eq!(text(m.extract("username")), Some("alice"));
    assert_eq!(text(m.extract("password")), Some("secret"));
    assert_eq!(extract_connect_message(m), Some((String::from("alice"), String::from("secret"))));
}

#[test]
fn ack_round_trip_and_default_text() {
    let m = ack_messsage(
        MessageDirection::Response,
        HttpCodes::Conflict,
        Some(String::from("taken")),
    );
    assert_eq!(*m.message_type(), MessageType::Ack);
    assert_eq!(*m.direction(), MessageDirection::Response);
    assert_eq!(names(&m), vec!["code", "message"]);
    assert_eq!(text(m.extract("code")), Some("Conflict"));
    assert_eq!(extract_ack_message(m), Some((HttpCodes::Conflict, String::from("taken"))));
    let m = ack_messsage(MessageDirection::Request, HttpCodes::NotFound, None);
    assert_eq!(*m.direction(), MessageDirection::Request);
    assert_eq!(extract_ack_message(m), Some((HttpCodes::NotFound, String::from("Not Found"))));
    let m = ack_messsage(MessageDirection::Request, HttpCodes::Okay, None);
    assert_eq!(extract_ack_message(m), Some((HttpCodes::Okay, String::from("OK"))));
}

#[test]
fn upload_round_trip() {
    let m = upload_message("song.mp3", FileType::Audio, 17);
    assert_eq!(*m.message_type(), MessageType::Upload);
    assert_eq!(*m.direction(), MessageDirection::Request);
    assert_eq!(names(&m), vec!["name", "size", "type"]);
    assert_eq!(text(m.extract("type")), Some("audio"));
    assert_eq!(number(m.extract("size")), Some(17));
    assert_eq!(extract_upload_message(m), Some((String::from("song.mp3"), FileType::Audio, 17)));
}

#[test]
fn download_round_trip() {
    let m = download_message_request("a/b.txt");
    assert_eq!(*m.message_type(), MessageType::Download);
    assert_eq!(*m.direction(), MessageDirection::Request);
    assert_eq!(names(&m), vec!["path"]);
    assert_eq!(extract_download_request_message(m), Some(String::from("a/b.txt")));
    let m = download_message_response(HttpCodes::Okay, "here", FileType::Archive, 3);
    assert_eq!(*m.direction(), MessageDirection::Response);
    assert_eq!(names(&m), vec!["kind", "message", "size", "status"]);
    assert_eq!(
        extract_download_response_message(m),
        Some((HttpCodes::Okay, String::from("here"), FileType::Archive, 3))
    );
    // A request holds none of the fields of a response, and the other way round.
    assert_eq!(extract_download_response_message(download_message_request("a")), None);
    let response = download_message_response(HttpCodes::Okay, "here", FileType::Text, 3);
    assert_eq!(extract_download_request_message(response), None);
}

#[test]
fn delete_move_and_subfolder_round_trip() {
    let m = delete_message("old.txt");
    assert_eq!(*m.message_type(), MessageType::Delete);
    assert_eq!(extract_delete_message(m), Some(String::from("old.txt")));
    let m = move_message("sub/dir");
    assert_eq!(*m.message_type(), MessageType::Move);
    assert_eq!(extract_move_message(m), Some(String::from("sub/dir")));
    let m = subfolder_message("new", SubfolderAction::Add);
    assert_eq!(*m.message_type(), MessageType::Subfolder);
    assert_eq!(names(&m), vec!["action", "path"]);
    assert_eq!(text(m.extract("action")), Some("add"));
    assert_eq!(extract_subfolder_message(m), Some((String::from("new"), SubfolderAction::Add)));
    let m = subfolder_message("gone", SubfolderAction::Delete);
    assert_eq!(
        extract_subfolder_message(m),
        Some((String::from("gone"), SubfolderAction::Delete))
    );
}

#[test]
fn dir_and_stats_round_trip() {
    let m = dir_message_request();
    assert_eq!(*m.message_type(), MessageType::Dir);
    assert_eq!(*m.direction(), MessageDirection::Request);
    assert!(m.fields().is_empty());
    assert_eq!(extract_dir_response_message(m), None);
    let m = dir_message_response(HttpCodes::Forbidden, "no", "/docs", 0);
    assert_eq!(*m.direction(), MessageDirection::Response);
    assert_eq!(names(&m), vec!["curr_dir", "message", "size", "status"]);
    assert_eq!(
        extract_dir_response_message(m),
        Some((HttpCodes::Forbidden, String::from("no"), String::from("/docs"), 0))
    );
    let m = stats_request_message();
    assert_eq!(*m.message_type(), MessageType::Stats);
    assert!(m.fields().is_empty());
    assert!(extract_stats_response_message(m).is_none());
    let m = stats_response_message(stats());
    assert_eq!(*m.direction(), MessageDirection::Response);
    assert_eq!(names(&m), vec!["stats"]);
    assert!(extract_stats_response_message(m).unwrap() == stats());
    let m = close_message();
    assert_eq!(*m.message_type(), MessageType::Close);
    assert_eq!(*m.direction(), MessageDirection::Request);
    assert!(m.fields().is_empty());
}

#[test]
fn extraction_checks_the_type_first() {
    // A download message whose fields are those of an upload.
    let data = vec![
        Field::new("name", FieldValue::Text(String::from("a.txt"))),
        Field::new("type", FieldValue::Text(String::from("text"))),
        Field::new("size", FieldValue::Number(1)),
        Field::new("path", FieldValue::Text(String::from("a.txt"))),
    ];
    let m = Message::new(MessageType::Download, MessageDirection::Request, data);
    assert_eq!(extract_upload_message(m), None);
    let data = vec![
        Field::new("name", FieldValue::Text(String::from("a.txt"))),
        Field::new("type", FieldValue::Text(String::from("text"))),
        Field::new("size", FieldValue::Number(1)),
        Field::new("path", FieldValue::Text(String::from("a.txt"))),
    ];
    let m = Message::new(MessageType::Upload, MessageDirection::Request, data);
    assert_eq!(extract_upload_message(m), Some((String::from("a.txt"), FileType::Text, 1)));
    assert_eq!(extract_delete_message(move_message("p")), None);
    assert_eq!(extract_move_message(delete_message("p")), None);
    assert_eq!(extract_download_request_message(delete_message("p")), None);
    assert_eq!(extract_connect_message(close_message()), None);
    assert_eq!(extract_ack_message(upload_message("a", FileType::Text, 1)), None);
    assert_eq!(extract_subfolder_message(delete_message("p")), None);
}

#[test]
fn extraction_is_all_or_nothing() {
    let build = |fields: Vec<Field>| {
        Message::new(MessageType::Upload, MessageDirection::Request, fields)
    };
    // A field is missing.
    let m = build(vec![
        Field::new("name", FieldValue::Text(String::from("a.txt"))),
        Field::new("size", FieldValue::Number(1)),
    ]);
    assert_eq!(extract_upload_message(m), None);
    // A field has the wrong shape.
    let m = build(vec![
        Field::new("name", FieldValue::Text(String::from("a.txt"))),
        Field::new("type", FieldValue::Text(String::from("text"))),
        Field::new("size", FieldValue::Text(String::from("1"))),
    ]);
    assert_eq!(extract_upload_message(m), None);
    // A word that stands for no kind of file.
    let m = build(vec![
        Field::new("name", FieldValue::Text(String::from("a.txt"))),
        Field::new("type", FieldValue::Text(String::from("Text"))),
        Field::new("size", FieldValue::Number(1)),
    ]);
    assert_eq!(extract_upload_message(m), None);
    let m = build(vec![
        Field::new("name", FieldValue::Other),
        Field::new("type", FieldValue::Text(String::from("text"))),
        Field::new("size", FieldValue::Number(1)),
    ]);
    assert_eq!(extract_upload_message(m), None);
    // A word that names no status, and a status sent as its number.
    for code in [FieldValue::Text(String::from("OK")), FieldValue::Number(200)] {
        let m = Message::new(
            MessageType::Ack,
            MessageDirection::Response,
            vec![
                Field::new("code", code),
                Field::new("message", FieldValue::Text(String::from("x"))),
            ],
        );
        assert_eq!(extract_ack_message(m), None);
    }
}

#[test]
fn the_later_of_two_entries_with_one_name_counts() {
    let mut m = Message::new(
        MessageType::Move,
        MessageDirection::Request,
        vec![
            Field::new("path", FieldValue::Text(String::from("first"))),
            Field::new("other", FieldValue::Number(3)),
            Field::new("path", FieldValue::Text(String::from("second"))),
        ],
    );
    assert_eq!(text(m.extract("path")), Some("second"));
    assert_eq!(number(m.extract("other")), Some(3));
    assert!(m.extract("missing").is_none());
    assert!(m.extract_clone("missing").is_none());
    assert!(matches!(m.extract_clone("other"), Some(FieldValue::Number(3))));
    assert_eq!(m.extract_as::<String>("path"), Some(String::from("second")));
    assert_eq!(m.extract_as::<u32>("path"), None);
    assert_eq!(m.extract_as::<u32>("other"), Some(3));
    assert_eq!(m.extract_as::<String>("other"), None);
    assert_eq!(m.extract_as::<String>("missing"), None);
    if let Some(value) = m.extract_mut("path") {
        *value = FieldValue::Text(String::from("third"));
    }
    assert!(m.extract_mut("missing").is_none());
    assert_eq!(text(m.extract("path")), Some("third"));
    assert_eq!(number(m.extract("other")), Some(3));
    assert_eq!(extract_move_message(m), Some(String::from("third")));
}

#[test]
fn fields_read_as_the_types_of_the_schema() {
    let word = |s: &str| FieldValue::Text(String::from(s));
    assert_eq!(String::from_field(&word("x")), Some(String::from("x")));
    assert_eq!(String::from_field(&FieldValue::Number(1)), None);
    assert_eq!(u32::from_field(&FieldValue::Number(7)), Some(7));
    assert_eq!(u32::from_field(&FieldValue::Number(4294967295)), Some(u32::MAX));
    assert_eq!(u32::from_field(&FieldValue::Number(4294967296)), None);
    assert_eq!(u32::from_field(&word("7")), None);
    assert_eq!(HttpCodes::from_field(&word("ImNotATeapot")), Some(HttpCodes::ImNotATeapot));
    assert_eq!(HttpCodes::from_field(&word("Ok")), Some(HttpCodes::Okay));
    assert_eq!(HttpCodes::from_field(&word("NotFound")), Some(HttpCodes::NotFound));
    assert_eq!(HttpCodes::from_field(&FieldValue::Number(418)), None);
    assert_eq!(HttpCodes::from_field(&word("OK")), None);
    assert_eq!(HttpCodes::from_field(&word("Not Found")), None);
    assert_eq!(FileType::from_field(&word("video")), Some(FileType::Video));
    assert_eq!(FileType::from_field(&word("movie")), None);
    assert_eq!(FileType::from_field(&FieldValue::Number(1)), None);
    assert_eq!(SubfolderAction::from_field(&word("delete")), Some(SubfolderAction::Delete));
    assert_eq!(SubfolderAction::from_field(&word("text")), None);
    assert!(TransferStats::from_field(&FieldValue::Stats(stats())).unwrap() == stats());
    assert!(TransferStats::from_field(&FieldValue::Other).is_none());
    assert!(TransferStats::from_field(&word("stats")).is_none());
    assert!(matches!(FieldValue::Stats(stats()).clone(), FieldValue::Stats(_)));
    assert!(matches!(FieldValue::Other.clone(), FieldValue::Other));
}

#[test]
fn messages_are_equal_by_kind_direction_and_dictionary() {
    let a = upload_message("a.txt", FileType::Text, 2);
    assert!(a == a.clone());
    assert!(a == upload_message("a.txt", FileType::Text, 2));
    assert!(a != upload_message("a.txt", FileType::Text, 3));
    assert!(a != upload_message("b.txt", FileType::Text, 2));
    assert!(a != upload_message("a.txt", FileType::Audio, 2));
    assert!(delete_message("p") != move_message("p"));
    assert!(dir_message_request() != stats_request_message());
    assert!(close_message() == close_message());
    let request = ack_messsage(MessageDirection::Request, HttpCodes::Okay, None);
    let response = ack_messsage(MessageDirection::Response, HttpCodes::Okay, None);
    assert!(request != response);
    // The order of the entries does not count, nor an entry that a later one hides.
    let one = Message::new(
        MessageType::Subfolder,
        MessageDirection::Request,
        vec![
            Field::new("action", FieldValue::Text(String::from("add"))),
            Field::new("path", FieldValue::Text(String::from("hidden"))),
            Field::new("path", FieldValue::Text(String::from("new"))),
        ],
    );
    assert!(one == subfolder_message("new", SubfolderAction::Add));
    assert!(subfolder_message("new", SubfolderAction::Add) == one);
    let more = Message::new(
        MessageType::Subfolder,
        MessageDirection::Request,
        vec![
            Field::new("action", FieldValue::Text(String::from("add"))),
            Field::new("path", FieldValue::Text(String::from("new"))),
            Field::new("extra", FieldValue::Other),
        ],
    );
    assert!(more != subfolder_message("new", SubfolderAction::Add));
    assert!(subfolder_message("new", SubfolderAction::Add) != more);
    assert!(FieldValue::Number(1) == FieldValue::Number(1));
    assert!(FieldValue::Number(1) != FieldValue::Text(String::from("1")));
    assert!(FieldValue::Other == FieldValue::Other);
    assert!(FieldValue::Stats(stats()) == FieldValue::Stats(stats()));
}
