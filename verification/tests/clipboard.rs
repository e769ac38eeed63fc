use refast::clipboard::add_clipboard_item;
use refast::clipboard::add_clipboard_item_at;
use refast::clipboard::delete_clipboard_item;
use refast::clipboard::favorite_flag;
use refast::clipboard::get_all_clipboard_items;
use refast::clipboard::preferred_text_format;
use refast::clipboard::search_pattern;
use refast::clipboard::to_signed;
use refast::clipboard::to_unsigned;
use refast::clipboard::toggle_favorite_clipboard_item;
use refast::clipboard::update_clipboard_item;
use refast::clipboard::ClipboardMonitor;
use refast::clipboard::ClipboardRow;
use refast::clipboard::ClipboardWrite;
use refast::clock::now_ts;

fn s(text: &str) -> String {
    text.to_string()
}

fn row(id: &str, content: &str, created_at: i64, is_favorite: i64) -> ClipboardRow {
    ClipboardRow {
        id: s(id),
        content: s(content),
        content_type: s("text"),
        created_at,
        is_favorite,
    }
}

#[test]
fn signed_columns_keep_their_bits() {
    assert_eq!(to_unsigned(0), 0);
    assert_eq!(to_unsigned(1700000000), 1700000000);
    assert_eq!(to_unsigned(-1), u64::MAX);
    assert_eq!(to_unsigned(i64::MIN), 1u64 << 63);
    assert_eq!(to_unsigned(i64::MAX), i64::MAX as u64);
    assert_eq!(to_signed(0), 0);
    assert_eq!(to_signed(1700000000), 1700000000);
    assert_eq!(to_signed(u64::MAX), -1);
    assert_eq!(to_signed(1u64 << 63), i64::MIN);
    for v in [0u64, 1, 1 << 40, (1 << 63) - 1, 1 << 63, u64::MAX - 5, u64::MAX] {
        assert_eq!(to_unsigned(to_signed(v)), v);
    }
}

#[test]
fn favourite_mark_is_one_or_zero() {
    assert_eq!(favorite_flag(true), 1);
    assert_eq!(favorite_flag(false), 0);
}

#[test]
fn rows_become_items_in_order() {
    let items = get_all_clipboard_items(vec![
        row("c", "third", 30, 0),
        row("b", "second", 20, 1),
        row("a", "first", -1, 7),
    ]);
    assert_eq!(items.len(), 3);
    assert_eq!(items[0].id, "c");
    assert_eq!(items[0].content, "third");
    assert_eq!(items[0].content_type, "text");
    assert_eq!(items[0].created_at, 30);
    assert!(!items[0].is_favorite);
    assert_eq!(items[1].id, "b");
    assert!(items[1].is_favorite);
    assert_eq!(items[2].id, "a");
    assert_eq!(items[2].created_at, u64::MAX);
    assert!(items[2].is_favorite);
    assert!(get_all_clipboard_items(Vec::new()).is_empty());
}

#[test]
fn new_content_is_inserted_under_a_fresh_id() {
    let (item, write) = add_clipboard_item_at(s("hello"), s("text"), 1700000000, None);
    assert_eq!(item.id, "clipboard-1700000000");
    assert_eq!(item.content, "hello");
    assert_eq!(item.content_type, "text");
    assert_eq!(item.created_at, 1700000000);
    assert!(!item.is_favorite);
    match write {
        ClipboardWrite::Insert { row } => {
            assert_eq!(row.id, "clipboard-1700000000");
            assert_eq!(row.content, "hello");
            assert_eq!(row.content_type, "text");
            assert_eq!(row.created_at, 1700000000);
            assert_eq!(row.is_favorite, 0);
        }
        other => panic!("not an insert: {:?}", other),
    }
}

#[test]
fn known_content_only_gets_a_new_time() {
    let (item, write) =
        add_clipboard_item_at(s("hello"), s("text"), 1700000050, Some(s("clipboard-1600000000")));
    assert_eq!(item.id, "clipboard-1600000000");
    assert_eq!(item.content, "hello");
    assert_eq!(item.created_at, 1700000050);
    assert!(!item.is_favorite);
    match write {
        ClipboardWrite::Touch { id, created_at } => {
            assert_eq!(id, "clipboard-1600000000");
            assert_eq!(created_at, 1700000050);
        }
        other => panic!("not a touch: {:?}", other),
    }
}

#[test]
fn clipboard_add_now_uses_the_calendar_clock() {
    let before = now_ts();
    let (item, _) = add_clipboard_item(s("x"), s("text"), None);
    let after = now_ts();
    assert!(before <= item.created_at && item.created_at <= after);
    assert_eq!(item.id, format!("clipboard-{}", item.created_at));
    assert!(before > 1_600_000_000);
}

#[test]
fn update_replaces_the_content() {
    let item = update_clipboard_item(s("a"), s("new"), Some(row("a", "old", 10, 1))).unwrap();
    assert_eq!(item.id, "a");
    assert_eq!(item.content, "new");
    assert_eq!(item.content_type, "text");
    assert_eq!(item.created_at, 10);
    assert!(item.is_favorite);
    assert_eq!(
        update_clipboard_item(s("a"), s("new"), None).unwrap_err(),
        "Clipboard item a not found"
    );
}

#[test]
fn toggle_turns_the_favourite_mark() {
    let item = toggle_favorite_clipboard_item(s("a"), Some(row("a", "c", 10, 0))).unwrap();
    assert!(item.is_favorite);
    assert_eq!(item.content, "c");
    assert_eq!(item.created_at, 10);
    let item = toggle_favorite_clipboard_item(s("a"), Some(row("a", "c", 10, 1))).unwrap();
    assert!(!item.is_favorite);
    let item = toggle_favorite_clipboard_item(s("a"), Some(row("a", "c", 10, -3))).unwrap();
    assert!(!item.is_favorite);
    assert_eq!(
        toggle_favorite_clipboard_item(s("zz"), None).unwrap_err(),
        "Clipboard item zz not found"
    );
}

#[test]
fn deletion_of_nothing_is_an_error() {
    assert_eq!(delete_clipboard_item(1), Ok(()));
    assert_eq!(delete_clipboard_item(3), Ok(()));
    assert_eq!(delete_clipboard_item(0), Err(s("Clipboard item not found")));
}

#[test]
fn search_pattern_is_lower_case_between_wildcards() {
    assert_eq!(search_pattern("Hello World"), "%hello world%");
    assert_eq!(search_pattern(""), "%%");
    assert_eq!(search_pattern("ÄB"), "%äb%");
}

#[test]
fn monitor_reports_new_content_once() {
    let mut monitor = ClipboardMonitor::new();
    assert_eq!(monitor.last_content, "");
    assert!(!monitor.observe(&s("")));
    assert!(monitor.observe(&s("a")));
    assert_eq!(monitor.last_content, "a");
    assert!(!monitor.observe(&s("a")));
    assert!(!monitor.observe(&s("")));
    assert_eq!(monitor.last_content, "a");
    assert!(monitor.observe(&s("b")));
    assert!(monitor.observe(&s("a")));
    assert_eq!(monitor.last_content, "a");
}

#[test]
fn unicode_text_is_preferred() {
    assert_eq!(preferred_text_format(true, true), Some(13));
    assert_eq!(preferred_text_format(true, false), Some(13));
    assert_eq!(preferred_text_format(false, true), Some(1));
    assert_eq!(preferred_text_format(false, false), None);
}
