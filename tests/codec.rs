use std::path::PathBuf;

use devtodo::calendar::{merge_categories, kind_of_categories, TodoFile, Updated};
use devtodo::time::{parse_date, parse_timestamp, Date, Timestamp};
use devtodo::todo::{Due, ItemField, TodoItem, TodoKind, TodoStatus, Uid};

fn stamp(y: u16, mo: u8, d: u8, h: u8, mi: u8, s: u8) -> Timestamp {
    Timestamp::new(Date::new(y, mo, d).unwrap(), h, mi, s).unwrap()
}

fn sample_item(kind: TodoKind, due: Option<Due>) -> TodoItem {
    let mut b = TodoItem::builder()
        .kind(kind)
        .status(TodoStatus::InProcess)
        .url("https://example.com/o/r/issues/7".to_string())
        .summary("Fix the parser; it drops commas, sometimes".to_string())
        .description("Line one\nLine two".to_string());
    if let Some(d) = due {
        b = b.due(d);
    }
    b.build_at(
        Uid("4f0c8a1e-2b3d-4c5e-9f60-718293a4b5c6".to_string()),
        stamp(2024, 3, 1, 8, 30, 0),
    )
    .ok()
    .unwrap()
}

#[test]
fn date_text_is_eight_digits() {
    let d = Date::new(2024, 1, 5).unwrap();
    assert_eq!(d.to_text(), "20240105");
    assert_eq!(Date::new(7, 12, 31).unwrap().to_text(), "00071231");
}

#[test]
fn date_rejects_missing_days() {
    assert!(Date::new(2023, 2, 29).is_none());
    assert!(Date::new(2024, 2, 29).is_some());
    assert!(Date::new(1900, 2, 29).is_none());
    assert!(Date::new(2000, 2, 29).is_some());
    assert!(Date::new(2024, 13, 1).is_none());
    assert!(Date::new(2024, 4, 31).is_none());
    assert!(Date::new(10000, 1, 1).is_none());
}

#[test]
fn timestamp_text_and_parse() {
    let t = stamp(2024, 6, 30, 23, 5, 9);
    assert_eq!(t.to_text(), "20240630T230509Z");
    assert_eq!(parse_timestamp("20240630T230509Z"), Some(t));
    assert_eq!(parse_timestamp("20240630T240509Z"), None);
    assert_eq!(parse_timestamp("20240630 230509Z"), None);
    assert!(Timestamp::new(Date::new(2024, 1, 1).unwrap(), 12, 60, 0).is_none());
}

#[test]
fn parse_date_exact_shape() {
    assert_eq!(parse_date("20240229"), Date::new(2024, 2, 29));
    assert_eq!(parse_date("20230229"), None);
    assert_eq!(parse_date("2024022"), None);
    assert_eq!(parse_date("2024-2-29"), None);
}

#[test]
fn due_keeps_granularity() {
    assert_eq!(Due::parse("20240115"), Some(Due::Date(Date::new(2024, 1, 15).unwrap())));
    assert_eq!(
        Due::parse("20240115T120000Z"),
        Some(Due::DateTime(stamp(2024, 1, 15, 12, 0, 0)))
    );
    assert_eq!(Due::parse("tomorrow"), None);
    assert_eq!(Due::Date(Date::new(2024, 1, 15).unwrap()).to_text(), "20240115");
}

#[test]
fn now_is_a_valid_time() {
    let t = Timestamp::now();
    assert!(t.date.year >= 2000);
    assert_eq!(t.to_text().len(), 16);
}

#[test]
fn status_and_kind_texts() {
    assert_eq!(TodoStatus::NeedsAction.as_str(), "NEEDS-ACTION");
    assert_eq!(TodoStatus::Completed.as_str(), "COMPLETED");
    assert_eq!(TodoStatus::InProcess.as_str(), "IN-PROCESS");
    assert_eq!(TodoStatus::Cancelled.as_str(), "CANCELLED");
    assert_eq!(TodoStatus::parse("IN-PROCESS"), Some(TodoStatus::InProcess));
    assert_eq!(TodoStatus::parse("in-process"), None);
    assert_eq!(TodoKind::AssignedPullRequest.category(), "assigned-pull-request");
    assert_eq!(TodoKind::parse_category("assigned-issue"), Some(TodoKind::AssignedIssue));
    assert_eq!(TodoKind::parse_category("work"), None);
}

#[test]
fn generated_uids_are_hyphenated() {
    let a = Uid::generate();
    let b = Uid::generate();
    assert_eq!(a.as_str().len(), 36);
    assert_eq!(a.as_str().matches('-').count(), 4);
    assert_ne!(a, b);
}

#[test]
fn builder_lists_missing_fields() {
    let r = TodoItem::builder().summary("x".to_string()).build();
    assert_eq!(r.err(), Some(vec![ItemField::Kind, ItemField::Status, ItemField::Url]));
    let r = TodoItem::builder()
        .kind(TodoKind::Issue)
        .status(TodoStatus::NeedsAction)
        .url("u".to_string())
        .summary("s".to_string())
        .build()
        .ok()
        .unwrap();
    assert_eq!(r.description(), "");
    assert!(!r.is_dirty());
    assert_eq!(r.created(), r.last_modified());
}

#[test]
fn setters_track_changes() {
    let mut item = sample_item(TodoKind::Issue, None);
    let later = stamp(2024, 3, 2, 9, 0, 0);
    item.set_status_at(TodoStatus::InProcess, later);
    assert!(!item.is_dirty());
    assert_eq!(item.last_modified(), stamp(2024, 3, 1, 8, 30, 0));
    item.set_summary_at("Another".to_string(), later);
    assert!(item.is_dirty());
    assert_eq!(item.summary(), "Another");
    assert_eq!(item.last_modified(), later);
    let due = Due::Date(Date::new(2024, 4, 1).unwrap());
    item.set_due_at(due, later);
    assert_eq!(item.due(), Some(due));
}

#[test]
fn description_loses_carriage_returns() {
    let mut item = sample_item(TodoKind::Issue, None);
    item.set_description("Line one\r\nLine two".to_string());
    assert!(!item.is_dirty());
    item.set_description("a\r\nb\r".to_string());
    assert_eq!(item.description(), "a\nb");
    assert!(item.is_dirty());
}

#[test]
fn categories_keep_foreign_tokens() {
    assert_eq!(merge_categories("work,issue,personal", TodoKind::PullRequest), "work,personal,pull-request");
    assert_eq!(merge_categories("issue", TodoKind::Issue), "issue");
    assert_eq!(merge_categories("", TodoKind::Todo), ",todo");
    assert_eq!(merge_categories("todo,issue,a", TodoKind::Issue), "a,issue");
}

#[test]
fn first_kind_token_wins() {
    assert_eq!(kind_of_categories("work,issue,personal"), Some(TodoKind::Issue));
    assert_eq!(kind_of_categories("pull-request,issue"), Some(TodoKind::PullRequest));
    assert_eq!(kind_of_categories("work,personal"), None);
    assert_eq!(kind_of_categories(""), None);
}

#[test]
fn encode_then_decode_keeps_fields() {
    for due in [
        None,
        Some(Due::Date(Date::new(2024, 5, 17).unwrap())),
        Some(Due::DateTime(stamp(2024, 5, 17, 16, 45, 0))),
    ] {
        let item = sample_item(TodoKind::PullRequest, due);
        let file = TodoFile::from_item_at(&PathBuf::from("/tmp"), item, stamp(2024, 3, 3, 0, 0, 0));
        assert_eq!(file.path, PathBuf::from("/tmp/4f0c8a1e-2b3d-4c5e-9f60-718293a4b5c6.ics"));
        let text = file.render();
        assert!(text.contains("PRODID:-//IDN benboeckel.net//devtodo/"));
        assert!(text.contains("CLASS:CONFIDENTIAL"));
        assert!(text.contains("VERSION:2.0"));
        let back = TodoFile::from_path(PathBuf::from("/tmp/x.ics"), &text).ok().unwrap().unwrap();
        assert_eq!(back.item.uid().as_str(), "4f0c8a1e-2b3d-4c5e-9f60-718293a4b5c6");
        assert_eq!(back.item.kind(), TodoKind::PullRequest);
        assert_eq!(back.item.status(), TodoStatus::InProcess);
        assert_eq!(back.item.url(), "https://example.com/o/r/issues/7");
        assert_eq!(back.item.summary(), "Fix the parser; it drops commas, sometimes");
        assert_eq!(back.item.description(), "Line one\nLine two");
        assert_eq!(back.item.due(), due);
        assert_eq!(back.item.created(), stamp(2024, 3, 1, 8, 30, 0));
        assert!(!back.item.is_dirty());
    }
}

#[test]
fn unchanged_document_is_not_written() {
    let item = sample_item(TodoKind::Issue, None);
    let file = TodoFile::from_item_at(&PathBuf::from("/tmp"), item, stamp(2024, 3, 3, 0, 0, 0));
    let text = file.render();
    let mut back = TodoFile::from_path(PathBuf::from("/tmp/x.ics"), &text).ok().unwrap().unwrap();
    assert_eq!(back.write(), None);
    assert_eq!(back.sync(), Updated::No);
    assert_eq!(back.render(), text);
}

#[test]
fn changed_document_is_rewritten_with_foreign_data() {
    let text = "BEGIN:VCALENDAR\r\nVERSION:2.0\r\nPRODID:-//IDN benboeckel.net//devtodo/0.0.1 vobject//EN\r\nBEGIN:VTODO\r\nUID:abc\r\nCREATED:20240101T000000Z\r\nSTATUS:NEEDS-ACTION\r\nSUMMARY:Old\r\nDESCRIPTION:\r\nURL:https://h/x\r\nLAST-MODIFIED:20240101T000000Z\r\nCATEGORIES:work,issue,personal\r\nX-OTHER:kept\r\nEND:VTODO\r\nEND:VCALENDAR\r\n";
    let mut file = TodoFile::from_path(PathBuf::from("/tmp/abc.ics"), text).ok().unwrap().unwrap();
    assert_eq!(file.item.kind(), TodoKind::Issue);
    file.item.set_summary_at("New".to_string(), stamp(2024, 2, 2, 2, 2, 2));
    let out = file.write().unwrap();
    assert!(out.contains("SUMMARY:New"));
    assert!(out.contains("X-OTHER:kept"));
    assert!(out.contains("LAST-MODIFIED:20240202T020202Z"));
    assert!(out.contains("CATEGORIES:work\\,personal\\,issue"));
    assert!(!file.item.is_dirty());
    assert_eq!(file.write(), None);
    assert_eq!(file.render(), out);
}

#[test]
fn missing_last_modified_marks_dirty() {
    let text = "BEGIN:VCALENDAR\r\nPRODID:-//IDN benboeckel.net//devtodo/0.1.0 vobject//EN\r\nBEGIN:VTODO\r\nUID:abc\r\nCREATED:20240101T000000Z\r\nSTATUS:COMPLETED\r\nSUMMARY:S\r\nDESCRIPTION:D\r\nURL:https://h/x\r\nCATEGORIES:todo\r\nDUE:20240301\r\nEND:VTODO\r\nEND:VCALENDAR\r\n";
    let mut file = TodoFile::from_path(PathBuf::from("/tmp/abc.ics"), text).ok().unwrap().unwrap();
    assert!(file.item.is_dirty());
    assert_eq!(file.item.status(), TodoStatus::Completed);
    assert_eq!(file.item.due(), Some(Due::Date(Date::new(2024, 3, 1).unwrap())));
    assert!(file.write().unwrap().contains("LAST-MODIFIED:"));
}

#[test]
fn foreign_documents_are_not_ours() {
    let other = "BEGIN:VCALENDAR\r\nPRODID:-//Other//EN\r\nBEGIN:VTODO\r\nUID:abc\r\nEND:VTODO\r\nEND:VCALENDAR\r\n";
    assert!(TodoFile::from_path(PathBuf::from("/tmp/o.ics"), other).ok().unwrap().is_none());
    let event = "BEGIN:VCALENDAR\r\nPRODID:-//IDN benboeckel.net//devtodo/0.1.0 vobject//EN\r\nBEGIN:VEVENT\r\nUID:abc\r\nEND:VEVENT\r\nEND:VCALENDAR\r\n";
    assert!(TodoFile::from_path(PathBuf::from("/tmp/e.ics"), event).ok().unwrap().is_none());
    let bad_status = "BEGIN:VCALENDAR\r\nPRODID:-//IDN benboeckel.net//devtodo/0.1.0 vobject//EN\r\nBEGIN:VTODO\r\nUID:abc\r\nCREATED:20240101T000000Z\r\nSTATUS:DONE\r\nSUMMARY:S\r\nDESCRIPTION:D\r\nURL:u\r\nCATEGORIES:todo\r\nEND:VTODO\r\nEND:VCALENDAR\r\n";
    assert!(TodoFile::from_path(PathBuf::from("/tmp/b.ics"), bad_status).ok().unwrap().is_none());
}

#[test]
fn unparsable_text_is_an_error() {
    let r = TodoFile::from_path(PathBuf::from("/tmp/x.ics"), "not a calendar");
    assert!(matches!(r, Err(devtodo::calendar::TodoError::ParseComponent { .. })));
}
