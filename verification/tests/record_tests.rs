use dm_purge::models::{Message, MessageAuthor};
use dm_purge::record::format_record;

#[test]
fn record_has_documented_format() {
    let m = Message {
        id: "55".to_string(),
        content: "hello there".to_string(),
        timestamp: "2024-06-01T12:00:00Z".to_string(),
        author: MessageAuthor { id: "42".to_string(), username: "alice".to_string() },
        attachments: Vec::new(),
    };
    assert_eq!(format_record(&m), "[2024-06-01T12:00:00Z] alice (42): hello there\n");
}

#[test]
fn record_of_empty_content() {
    let m = Message {
        id: "56".to_string(),
        content: String::new(),
        timestamp: "t".to_string(),
        author: MessageAuthor { id: "1".to_string(), username: "u".to_string() },
        attachments: Vec::new(),
    };
    assert_eq!(format_record(&m), "[t] u (1): \n");
}
