use jsonfeed::{Feed, RecordKind, SchemaError, StructuralError};

const V11: &str = "https://jsonfeed.org/version/1.1";

fn schema_error(text: &str) -> SchemaError {
    match Feed::parse(text) {
        Err(StructuralError::Schema(e)) => e,
        other => panic!("expected a schema error, got {:?}", other),
    }
}

fn names(authors: &Option<Vec<jsonfeed::Author>>) -> Option<Vec<Option<String>>> {
    authors.as_ref().map(|list| list.iter().map(|a| a.name.clone()).collect())
}

#[test]
fn minimal_feed_is_read() {
    let feed = Feed::parse(r#"{"version":"https://jsonfeed.org/version/1.1","title":"T"}"#).unwrap();
    assert_eq!(feed.version, V11);
    assert_eq!(feed.title, "T");
    assert!(feed.home_page_url.is_none());
    assert!(feed.feed_url.is_none());
    assert!(feed.description.is_none());
    assert!(feed.user_comment.is_none());
    assert!(feed.next_url.is_none());
    assert!(feed.icon.is_none());
    assert!(feed.favicon.is_none());
    assert!(feed.authors.is_none());
    assert!(feed.language.is_none());
    assert!(feed.expired.is_none());
    assert!(feed.hubs.is_none());
    assert!(feed.items.is_none());
}

#[test]
fn every_field_of_a_feed_is_read() {
    let text = r#"{
        "version": "https://jsonfeed.org/version/1.1",
        "title": "Full",
        "home_page_url": "https://example.org/",
        "feed_url": "https://example.org/feed.json",
        "description": "All of it",
        "user_comment": "Hello reader",
        "next_url": "https://example.org/feed2.json",
        "icon": "https://example.org/icon.png",
        "favicon": "https://example.org/favicon.ico",
        "authors": [{"name": "Ann", "url": "https://ann.example", "avatar": "https://ann.example/a.png"}],
        "language": "en-GB",
        "expired": true,
        "hubs": [{"type": "WebSub", "url": "https://hub.example/"}],
        "items": [{
            "id": "1",
            "url": "https://example.org/1",
            "external_url": "https://elsewhere.example/1",
            "title": "First",
            "content_html": "<p>Hi</p>",
            "content_text": "Hi",
            "summary": "A greeting",
            "image": "https://example.org/1.png",
            "banner_image": "https://example.org/1b.png",
            "date_published": "2020-01-02T03:04:05Z",
            "date_modified": "2020-01-03T03:04:05Z",
            "authors": [{"name": "Ben"}],
            "tags": ["b", "a", "b"],
            "language": "fr",
            "attachments": [{
                "url": "https://example.org/1.mp3",
                "mime_type": "audio/mpeg",
                "title": "Episode",
                "size_in_bytes": 12345,
                "duration_in_seconds": 60
            }]
        }]
    }"#;
    let feed = Feed::parse(text).unwrap();
    assert_eq!(feed.version, V11);
    assert_eq!(feed.title, "Full");
    assert_eq!(feed.home_page_url.as_deref(), Some("https://example.org/"));
    assert_eq!(feed.feed_url.as_deref(), Some("https://example.org/feed.json"));
    assert_eq!(feed.description.as_deref(), Some("All of it"));
    assert_eq!(feed.user_comment.as_deref(), Some("Hello reader"));
    assert_eq!(feed.next_url.as_deref(), Some("https://example.org/feed2.json"));
    assert_eq!(feed.icon.as_deref(), Some("https://example.org/icon.png"));
    assert_eq!(feed.favicon.as_deref(), Some("https://example.org/favicon.ico"));
    let authors = feed.authors.as_ref().unwrap();
    assert_eq!(authors.len(), 1);
    assert_eq!(authors[0].name.as_deref(), Some("Ann"));
    assert_eq!(authors[0].url.as_deref(), Some("https://ann.example"));
    assert_eq!(authors[0].avatar.as_deref(), Some("https://ann.example/a.png"));
    assert_eq!(feed.language.as_deref(), Some("en-GB"));
    assert_eq!(feed.expired, Some(true));
    let hubs = feed.hubs.as_ref().unwrap();
    assert_eq!(hubs.len(), 1);
    assert_eq!(hubs[0].type_, "WebSub");
    assert_eq!(hubs[0].url, "https://hub.example/");
    let items = feed.items.as_ref().unwrap();
    assert_eq!(items.len(), 1);
    let item = &items[0];
    assert_eq!(item.id, "1");
    assert_eq!(item.url.as_deref(), Some("https://example.org/1"));
    assert_eq!(item.external_url.as_deref(), Some("https://elsewhere.example/1"));
    assert_eq!(item.title.as_deref(), Some("First"));
    assert_eq!(item.content_html.as_deref(), Some("<p>Hi</p>"));
    assert_eq!(item.content_text.as_deref(), Some("Hi"));
    assert_eq!(item.summary.as_deref(), Some("A greeting"));
    assert_eq!(item.image.as_deref(), Some("https://example.org/1.png"));
    assert_eq!(item.banner_image.as_deref(), Some("https://example.org/1b.png"));
    assert_eq!(item.date_published.as_deref(), Some("2020-01-02T03:04:05Z"));
    assert_eq!(item.date_modified.as_deref(), Some("2020-01-03T03:04:05Z"));
    assert_eq!(names(&item.authors), Some(vec![Some("Ben".to_string())]));
    assert_eq!(item.tags, Some(vec!["b".to_string(), "a".to_string(), "b".to_string()]));
    assert_eq!(item.language.as_deref(), Some("fr"));
    let attachments = item.attachments.as_ref().unwrap();
    assert_eq!(attachments.len(), 1);
    assert_eq!(attachments[0].url, "https://example.org/1.mp3");
    assert_eq!(attachments[0].mime_type, "audio/mpeg");
    assert_eq!(attachments[0].title.as_deref(), Some("Episode"));
    assert_eq!(attachments[0].size_in_bytes, Some(12345));
    assert_eq!(attachments[0].duration_in_seconds, Some(60));
}

#[test]
fn single_author_of_a_feed_becomes_the_list() {
    let feed = Feed::parse(r#"{"version":"https://jsonfeed.org/version/1","title":"T","author":{"name":"Alice"}}"#).unwrap();
    let authors = feed.authors.as_ref().unwrap();
    assert_eq!(authors.len(), 1);
    assert_eq!(authors[0].name.as_deref(), Some("Alice"));
    assert!(authors[0].url.is_none());
    assert!(authors[0].avatar.is_none());
    let text = feed.to_string().unwrap();
    assert_eq!(text, r#"{"authors":[{"name":"Alice"}],"title":"T","version":"https://jsonfeed.org/version/1"}"#);
    assert!(!text.contains("\"author\""));
}

#[test]
fn single_author_of_an_item_becomes_the_list() {
    let feed = Feed::parse(
        r#"{"version":"v","title":"T","items":[{"id":"a","author":{"name":"Alice","url":"https://alice.example"}}]}"#,
    ).unwrap();
    assert!(feed.authors.is_none());
    let items = feed.items.as_ref().unwrap();
    let authors = items[0].authors.as_ref().unwrap();
    assert_eq!(authors.len(), 1);
    assert_eq!(authors[0].name.as_deref(), Some("Alice"));
    assert_eq!(authors[0].url.as_deref(), Some("https://alice.example"));
    let text = feed.to_string().unwrap();
    assert_eq!(
        text,
        r#"{"items":[{"authors":[{"name":"Alice","url":"https://alice.example"}],"id":"a"}],"title":"T","version":"v"}"#
    );
}

#[test]
fn the_list_wins_over_the_single_author() {
    let feed = Feed::parse(
        r#"{"version":"v","title":"T","author":{"name":"Bob"},"authors":[{"name":"Carol"}]}"#,
    ).unwrap();
    assert_eq!(names(&feed.authors), Some(vec![Some("Carol".to_string())]));
}

#[test]
fn the_list_of_an_item_wins_over_its_single_author() {
    let feed = Feed::parse(
        r#"{"version":"v","title":"T","items":[{"id":"x","authors":[{"name":"Carol"}],"author":{"name":"Bob"}}]}"#,
    ).unwrap();
    assert_eq!(names(&feed.items.as_ref().unwrap()[0].authors), Some(vec![Some("Carol".to_string())]));
}

#[test]
fn an_empty_list_wins_too() {
    let feed = Feed::parse(r#"{"version":"v","title":"T","author":{"name":"Bob"},"authors":[]}"#).unwrap();
    assert_eq!(names(&feed.authors), Some(vec![]));
    assert_eq!(feed.to_string().unwrap(), r#"{"authors":[],"title":"T","version":"v"}"#);
}

#[test]
fn a_null_list_counts_as_no_list() {
    let feed = Feed::parse(r#"{"version":"v","title":"T","author":{"name":"Bob"},"authors":null}"#).unwrap();
    assert_eq!(names(&feed.authors), Some(vec![Some("Bob".to_string())]));
}

#[test]
fn a_null_single_author_counts_as_none() {
    let feed = Feed::parse(r#"{"version":"v","title":"T","author":null}"#).unwrap();
    assert!(feed.authors.is_none());
}

#[test]
fn absence_of_authors_stays() {
    let feed = Feed::parse(r#"{"version":"v","title":"T","items":[{"id":"1"}]}"#).unwrap();
    assert!(feed.authors.is_none());
    assert!(feed.items.as_ref().unwrap()[0].authors.is_none());
    assert_eq!(feed.to_string().unwrap(), r#"{"items":[{"id":"1"}],"title":"T","version":"v"}"#);
}

#[test]
fn items_are_folded_each_by_itself() {
    let feed = Feed::parse(
        r#"{"version":"v","title":"T","items":[
            {"id":"a","author":{"name":"Alice"}},
            {"id":"b"},
            {"id":"c","authors":[{"name":"Carol"},{"name":"Dave"}]},
            {"id":"d","authors":[]}
        ]}"#,
    ).unwrap();
    let items = feed.items.as_ref().unwrap();
    assert_eq!(items.len(), 4);
    assert_eq!(names(&items[0].authors), Some(vec![Some("Alice".to_string())]));
    assert_eq!(names(&items[1].authors), None);
    assert_eq!(names(&items[2].authors), Some(vec![Some("Carol".to_string()), Some("Dave".to_string())]));
    assert_eq!(names(&items[3].authors), Some(vec![]));
    assert!(feed.authors.is_none());
}

#[test]
fn the_feed_and_its_items_do_not_share_authors() {
    let feed = Feed::parse(
        r#"{"version":"v","title":"T","author":{"name":"Feed"},"items":[{"id":"a"},{"id":"b","author":{"name":"Item"}}]}"#,
    ).unwrap();
    assert_eq!(names(&feed.authors), Some(vec![Some("Feed".to_string())]));
    let items = feed.items.as_ref().unwrap();
    assert_eq!(names(&items[0].authors), None);
    assert_eq!(names(&items[1].authors), Some(vec![Some("Item".to_string())]));
}

#[test]
fn a_feed_without_title_is_refused() {
    assert_eq!(
        schema_error(r#"{"version":"v"}"#),
        SchemaError::MissingField { record: RecordKind::Feed, field: "title" }
    );
}

#[test]
fn a_feed_without_version_is_refused() {
    assert_eq!(
        schema_error(r#"{"title":"T"}"#),
        SchemaError::MissingField { record: RecordKind::Feed, field: "version" }
    );
}

#[test]
fn a_null_title_is_refused() {
    assert_eq!(
        schema_error(r#"{"version":"v","title":null}"#),
        SchemaError::MissingField { record: RecordKind::Feed, field: "title" }
    );
}

#[test]
fn an_item_without_id_is_refused() {
    assert_eq!(
        schema_error(r#"{"version":"v","title":"T","items":[{"id":"ok"},{"title":"no id"}]}"#),
        SchemaError::MissingField { record: RecordKind::Item, field: "id" }
    );
}

#[test]
fn a_hub_needs_type_and_url() {
    assert_eq!(
        schema_error(r#"{"version":"v","title":"T","hubs":[{"url":"u"}]}"#),
        SchemaError::MissingField { record: RecordKind::Hub, field: "type" }
    );
    assert_eq!(
        schema_error(r#"{"version":"v","title":"T","hubs":[{"type":"t"}]}"#),
        SchemaError::MissingField { record: RecordKind::Hub, field: "url" }
    );
}

#[test]
fn an_attachment_needs_url_and_mime_type() {
    assert_eq!(
        schema_error(r#"{"version":"v","title":"T","items":[{"id":"1","attachments":[{"mime_type":"a/b"}]}]}"#),
        SchemaError::MissingField { record: RecordKind::Attachment, field: "url" }
    );
    assert_eq!(
        schema_error(r#"{"version":"v","title":"T","items":[{"id":"1","attachments":[{"url":"u"}]}]}"#),
        SchemaError::MissingField { record: RecordKind::Attachment, field: "mime_type" }
    );
}

#[test]
fn a_value_of_the_wrong_type_is_refused() {
    assert_eq!(
        schema_error(r#"{"version":1,"title":"T"}"#),
        SchemaError::WrongType { record: RecordKind::Feed, field: "version" }
    );
    assert_eq!(
        schema_error(r#"{"version":"v","title":"T","expired":"yes"}"#),
        SchemaError::WrongType { record: RecordKind::Feed, field: "expired" }
    );
    assert_eq!(
        schema_error(r#"{"version":"v","title":"T","items":{"id":"1"}}"#),
        SchemaError::WrongType { record: RecordKind::Feed, field: "items" }
    );
    assert_eq!(
        schema_error(r#"{"version":"v","title":"T","authors":"Ann"}"#),
        SchemaError::WrongType { record: RecordKind::Feed, field: "authors" }
    );
    assert_eq!(
        schema_error(r#"{"version":"v","title":"T","items":[{"id":"1","tags":["a",2]}]}"#),
        SchemaError::WrongType { record: RecordKind::Item, field: "tags" }
    );
    assert_eq!(
        schema_error(r#"{"version":"v","title":"T","items":[{"id":"1","tags":"a"}]}"#),
        SchemaError::WrongType { record: RecordKind::Item, field: "tags" }
    );
    assert_eq!(
        schema_error(r#"{"version":"v","title":"T","authors":[{"name":7}]}"#),
        SchemaError::WrongType { record: RecordKind::Author, field: "name" }
    );
}

#[test]
fn a_record_that_is_no_object_is_refused() {
    assert_eq!(schema_error("[]"), SchemaError::NotAnObject { record: RecordKind::Feed });
    assert_eq!(schema_error("\"feed\""), SchemaError::NotAnObject { record: RecordKind::Feed });
    assert_eq!(schema_error("null"), SchemaError::NotAnObject { record: RecordKind::Feed });
    assert_eq!(
        schema_error(r#"{"version":"v","title":"T","items":["a"]}"#),
        SchemaError::NotAnObject { record: RecordKind::Item }
    );
    assert_eq!(
        schema_error(r#"{"version":"v","title":"T","author":"Bob"}"#),
        SchemaError::NotAnObject { record: RecordKind::Author }
    );
    assert_eq!(
        schema_error(r#"{"version":"v","title":"T","authors":[null]}"#),
        SchemaError::NotAnObject { record: RecordKind::Author }
    );
    assert_eq!(
        schema_error(r#"{"version":"v","title":"T","hubs":[1]}"#),
        SchemaError::NotAnObject { record: RecordKind::Hub }
    );
    assert_eq!(
        schema_error(r#"{"version":"v","title":"T","items":[{"id":"1","attachments":[true]}]}"#),
        SchemaError::NotAnObject { record: RecordKind::Attachment }
    );
}

#[test]
fn counts_must_be_unsigned_integers() {
    let item = |count: &str| format!(
        r#"{{"version":"v","title":"T","items":[{{"id":"1","attachments":[{{"url":"u","mime_type":"m","size_in_bytes":{}}}]}}]}}"#,
        count
    );
    let wrong = SchemaError::WrongType { record: RecordKind::Attachment, field: "size_in_bytes" };
    assert_eq!(schema_error(&item("-1")), wrong);
    assert_eq!(schema_error(&item("1.5")), wrong);
    assert_eq!(schema_error(&item("1.0")), wrong);
    assert_eq!(schema_error(&item("18446744073709551616")), wrong);
    assert_eq!(schema_error(&item("\"12\"")), wrong);
    let feed = Feed::parse(&item("18446744073709551615")).unwrap();
    assert_eq!(feed.items.unwrap()[0].attachments.as_ref().unwrap()[0].size_in_bytes, Some(u64::MAX));
    let feed = Feed::parse(&item("0")).unwrap();
    assert_eq!(feed.items.unwrap()[0].attachments.as_ref().unwrap()[0].size_in_bytes, Some(0));
    assert_eq!(
        schema_error(r#"{"version":"v","title":"T","items":[{"id":"1","attachments":[{"url":"u","mime_type":"m","duration_in_seconds":-3}]}]}"#),
        SchemaError::WrongType { record: RecordKind::Attachment, field: "duration_in_seconds" }
    );
}

#[test]
fn the_first_fault_in_schema_order_is_reported() {
    assert_eq!(
        schema_error(r#"{"title":7,"expired":"no"}"#),
        SchemaError::MissingField { record: RecordKind::Feed, field: "version" }
    );
    assert_eq!(
        schema_error(r#"{"version":"v","title":"T","expired":"no","icon":3}"#),
        SchemaError::WrongType { record: RecordKind::Feed, field: "icon" }
    );
    assert_eq!(
        schema_error(r#"{"version":"v","title":"T","items":[{"id":"1"},{"id":2},{"url":"x"}]}"#),
        SchemaError::WrongType { record: RecordKind::Item, field: "id" }
    );
}

#[test]
fn text_that_is_no_json_is_refused() {
    for text in ["", "{", r#"{"version":"v","title":"T""#, r#"{"version":"v","title":"T"} x"#, "{version:1}"] {
        match Feed::parse(text) {
            Err(StructuralError::Json(e)) => assert!(!e.to_string().is_empty()),
            other => panic!("expected a JSON error for {:?}, got {:?}", text, other),
        }
    }
}

#[test]
fn a_json_error_knows_its_place() {
    match Feed::parse("{\n  \"version\": ?\n}") {
        Err(StructuralError::Json(e)) => {
            assert_eq!(e.line(), 2);
            assert!(e.is_syntax());
        },
        other => panic!("expected a JSON error, got {:?}", other),
    }
}

#[test]
fn unknown_members_are_ignored() {
    let feed = Feed::parse(
        r#"{
            "version":"v","title":"T","_extension":{"a":[1,2,{"b":null}]},"unknown":-1.5e3,
            "authors":[{"name":"Ann","pronouns":"she"}],
            "hubs":[{"type":"t","url":"u","lease":10}],
            "items":[{"id":"1","_x":true,"attachments":[{"url":"u","mime_type":"m","codec":"opus"}]}]
        }"#,
    ).unwrap();
    assert_eq!(feed.version, "v");
    assert_eq!(feed.title, "T");
    assert_eq!(names(&feed.authors), Some(vec![Some("Ann".to_string())]));
    assert_eq!(feed.hubs.as_ref().unwrap()[0].type_, "t");
    assert_eq!(feed.hubs.as_ref().unwrap()[0].url, "u");
    let items = feed.items.as_ref().unwrap();
    assert_eq!(items[0].id, "1");
    assert_eq!(items[0].attachments.as_ref().unwrap()[0].mime_type, "m");
    assert_eq!(
        feed.to_string().unwrap(),
        r#"{"authors":[{"name":"Ann"}],"hubs":[{"type":"t","url":"u"}],"items":[{"attachments":[{"mime_type":"m","url":"u"}],"id":"1"}],"title":"T","version":"v"}"#
    );
}

#[test]
fn null_is_an_absent_optional_field() {
    let feed = Feed::parse(
        r#"{"version":"v","title":"T","description":null,"expired":null,"hubs":null,"items":[{"id":"1","tags":null,"title":null,"attachments":null}]}"#,
    ).unwrap();
    assert!(feed.description.is_none());
    assert!(feed.expired.is_none());
    assert!(feed.hubs.is_none());
    let items = feed.items.as_ref().unwrap();
    assert!(items[0].tags.is_none());
    assert!(items[0].title.is_none());
    assert!(items[0].attachments.is_none());
    assert_eq!(feed.to_string().unwrap(), r#"{"items":[{"id":"1"}],"title":"T","version":"v"}"#);
}

#[test]
fn empty_is_not_absent() {
    let feed = Feed::parse(
        r#"{"version":"","title":"","description":"","hubs":[],"items":[{"id":"","tags":[],"attachments":[],"authors":[]}]}"#,
    ).unwrap();
    assert_eq!(feed.version, "");
    assert_eq!(feed.description.as_deref(), Some(""));
    assert_eq!(feed.hubs.as_ref().unwrap().len(), 0);
    let items = feed.items.as_ref().unwrap();
    assert_eq!(items[0].tags, Some(vec![]));
    assert_eq!(items[0].attachments.as_ref().unwrap().len(), 0);
    assert_eq!(items[0].authors.as_ref().unwrap().len(), 0);
    assert_eq!(
        feed.to_string().unwrap(),
        r#"{"description":"","hubs":[],"items":[{"attachments":[],"authors":[],"id":"","tags":[]}],"title":"","version":""}"#
    );
}

#[test]
fn escapes_are_read() {
    let feed = Feed::parse(r#"{"version":"v","title":"a\"b\\cé\n😀"}"#).unwrap();
    assert_eq!(feed.title, "a\"b\\c\u{e9}\n\u{1F600}");
}
