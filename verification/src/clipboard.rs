//! The clipboard history: what is decided about its rows.
//!
//! The rows live in a database that the embedding program reads and writes.
//! This module turns what was read into items, decides what an operation
//! answers, and says which row is to be written.

use crate::clock::now_ts;
use crate::text::decimal;
use crate::text::push_decimal;
use crate::text::text_of;
use vstd::prelude::*;

verus! {

/// One entry of the history. `content_type` is `text`, `image` or `file`;
/// `created_at` is in seconds since the Unix epoch.
#[derive(Debug, Clone)]
pub struct ClipboardItem {
    pub id: String,
    pub content: String,
    pub content_type: String,
    pub created_at: u64,
    pub is_favorite: bool,
}

/// The mathematical value of a [`ClipboardItem`].
pub struct ClipboardModel {
    pub id: Seq<char>,
    pub content: Seq<char>,
    pub content_type: Seq<char>,
    pub created_at: u64,
    pub is_favorite: bool,
}

impl View for ClipboardItem {
    type V = ClipboardModel;

    open spec fn view(&self) -> ClipboardModel {
        ClipboardModel {
            id: self.id@,
            content: self.content@,
            content_type: self.content_type@,
            created_at: self.created_at,
            is_favorite: self.is_favorite,
        }
    }
}

/// A row as the database holds it: the time and the favourite mark are
/// signed integers there.
#[derive(Debug, Clone)]
pub struct ClipboardRow {
    pub id: String,
    pub content: String,
    pub content_type: String,
    pub created_at: i64,
    pub is_favorite: i64,
}

/// The row that is to be written after an item was added.
#[derive(Debug, Clone)]
pub enum ClipboardWrite {
    /// The content is there already: set the time of the row `id`.
    Touch { id: String, created_at: i64 },
    /// Insert `row`.
    Insert { row: ClipboardRow },
}

/// The mathematical value of a [`ClipboardWrite`].
pub enum ClipboardWriteModel {
    Touch { id: Seq<char>, created_at: i64 },
    Insert { row: ClipboardModel },
}

/// A signed column read as unsigned: the same 64 bits.
pub open spec fn as_unsigned(v: i64) -> u64 {
    if v >= 0 {
        v as u64
    } else {
        (v + 0x1_0000_0000_0000_0000) as u64
    }
}

/// An unsigned number written to a signed column: the same 64 bits.
pub open spec fn as_signed(v: u64) -> i64 {
    if v <= i64::MAX {
        v as i64
    } else {
        (v - 0x1_0000_0000_0000_0000) as i64
    }
}

impl ClipboardRow {
    /// The item that the row stands for: the time read as unsigned, and
    /// every mark but zero a favourite.
    pub open spec fn decoded(self) -> ClipboardModel {
        ClipboardModel {
            id: self.id@,
            content: self.content@,
            content_type: self.content_type@,
            created_at: as_unsigned(self.created_at),
            is_favorite: self.is_favorite != 0,
        }
    }

    /// The item that the row stands for.
    pub fn into_item(self) -> (item: ClipboardItem)
        ensures
            item@ == self.decoded(),
    {
        ClipboardItem {
            id: self.id,
            content: self.content,
            content_type: self.content_type,
            created_at: to_unsigned(self.created_at),
            is_favorite: self.is_favorite != 0,
        }
    }
}

impl View for ClipboardWrite {
    type V = ClipboardWriteModel;

    open spec fn view(&self) -> ClipboardWriteModel {
        match *self {
            ClipboardWrite::Touch { id, created_at } => ClipboardWriteModel::Touch {
                id: id@,
                created_at,
            },
            ClipboardWrite::Insert { row } => ClipboardWriteModel::Insert { row: row.decoded() },
        }
    }
}

/// Reads a signed column as unsigned.
pub fn to_unsigned(v: i64) -> (out: u64)
    ensures
        out == as_unsigned(v),
{
    if v >= 0 {
        v as u64
    } else {
        (v - i64::MIN) as u64 + 0x8000_0000_0000_0000u64
    }
}

/// Writes an unsigned number to a signed column.
pub fn to_signed(v: u64) -> (out: i64)
    ensures
        out == as_signed(v),
        as_unsigned(out) == v,
{
    if v <= 0x7FFF_FFFF_FFFF_FFFFu64 {
        v as i64
    } else {
        (v - 0x8000_0000_0000_0000u64) as i64 + i64::MIN
    }
}

/// The mark that is written for a favourite: one, and zero for the rest.
pub fn favorite_flag(is_favorite: bool) -> (flag: i64)
    ensures
        flag == if is_favorite { 1i64 } else { 0i64 },
{
    if is_favorite {
        1
    } else {
        0
    }
}

/// The id of an item that is first seen at `now`.
pub open spec fn clipboard_id(now: u64) -> Seq<char> {
    "clipboard-"@ + decimal(now as nat)
}

/// What is answered where no row has the id `id`.
pub open spec fn item_not_found_message(id: Seq<char>) -> Seq<char> {
    "Clipboard item "@ + id + " not found"@
}

/// What is answered where a deletion removed nothing.
pub open spec fn nothing_deleted_message() -> Seq<char> {
    "Clipboard item not found"@
}

/// What adding `content` at `now` answers and writes. `existing` is the id
/// of the row that holds the same content of the same type, if there is
/// one.
pub open spec fn added(
    content: Seq<char>,
    content_type: Seq<char>,
    now: u64,
    existing: Option<Seq<char>>,
) -> (ClipboardModel, ClipboardWriteModel) {
    match existing {
        Some(id) => (
            ClipboardModel { id, content, content_type, created_at: now, is_favorite: false },
            ClipboardWriteModel::Touch { id, created_at: as_signed(now) },
        ),
        None => {
            let item = ClipboardModel {
                id: clipboard_id(now),
                content,
                content_type,
                created_at: now,
                is_favorite: false,
            };
            (item, ClipboardWriteModel::Insert { row: item })
        },
    }
}

/// The items of `rows`, in their order.
pub fn get_all_clipboard_items(rows: Vec<ClipboardRow>) -> (items: Vec<ClipboardItem>)
    ensures
        items.len() == rows.len(),
        forall|i: int| 0 <= i < rows.len() ==> items[i]@ == rows[i].decoded(),
{
    let mut rows = rows;
    let ghost all = rows@;
    let mut stack: Vec<ClipboardItem> = Vec::new();
    while rows.len() > 0
        invariant
            stack.len() + rows.len() == all.len(),
            forall|j: int| 0 <= j < rows.len() ==> rows[j] == all[j],
            forall|j: int| 0 <= j < stack.len() ==> stack[j]@ == all[all.len() - 1 - j].decoded(),
        decreases rows.len(),
    {
        let row = rows.pop().unwrap();
        stack.push(row.into_item());
    }
    let mut items: Vec<ClipboardItem> = Vec::new();
    while stack.len() > 0
        invariant
            items.len() + stack.len() == all.len(),
            forall|j: int| 0 <= j < stack.len() ==> stack[j]@ == all[all.len() - 1 - j].decoded(),
            forall|j: int| 0 <= j < items.len() ==> items[j]@ == all[j].decoded(),
        decreases stack.len(),
    {
        let item = stack.pop().unwrap();
        items.push(item);
    }
    items
}

/// Adds `content` to the history at `now`. Content that is there already,
/// with the same type, is not added twice: its row gets the new time and the
/// item that is answered carries the id of that row. Else a row is inserted
/// under a fresh id. The item that is answered is never marked a favourite.
pub fn add_clipboard_item_at(
    content: String,
    content_type: String,
    now: u64,
    existing: Option<String>,
) -> (result: (ClipboardItem, ClipboardWrite))
    ensures
        (result.0@, result.1@) == added(
            content@,
            content_type@,
            now,
            text_of(existing),
        ),
{
    match existing {
        Some(id) => {
            let write = ClipboardWrite::Touch { id: id.clone(), created_at: to_signed(now) };
            (ClipboardItem { id, content, content_type, created_at: now, is_favorite: false }, write)
        },
        None => {
            let mut id = String::new();
            id.append("clipboard-");
            push_decimal(&mut id, now);
            let row = ClipboardRow {
                id: id.clone(),
                content: content.clone(),
                content_type: content_type.clone(),
                created_at: to_signed(now),
                is_favorite: 0,
            };
            (
                ClipboardItem { id, content, content_type, created_at: now, is_favorite: false },
                ClipboardWrite::Insert { row },
            )
        },
    }
}

/// Adds `content` to the history now, as [`add_clipboard_item_at`] does at
/// the time that the calendar clock gives.
pub fn add_clipboard_item(content: String, content_type: String, existing: Option<String>) -> (result:
    (ClipboardItem, ClipboardWrite))
    ensures
        exists|now: u64|
            (result.0@, result.1@) == #[trigger] added(
                content@,
                content_type@,
                now,
                text_of(existing),
            ),
{
    add_clipboard_item_at(content, content_type, now_ts(), existing)
}

/// Gives the row under `id` new content. `existing` is that row, if there
/// is one; where there is none the answer is [`item_not_found_message`].
pub fn update_clipboard_item(id: String, content: String, existing: Option<ClipboardRow>) -> (result:
    Result<ClipboardItem, String>)
    ensures
        match existing {
            Some(row) => result matches Ok(item) && item@ == (ClipboardModel {
                content: content@,
                ..row.decoded()
            }),
            None => result matches Err(message) && message@ == item_not_found_message(id@),
        },
{
    match existing {
        Some(row) => {
            let mut item = row.into_item();
            item.content = content;
            Ok(item)
        },
        None => Err(item_not_found(&id)),
    }
}

/// Turns the favourite mark of the row under `id`. `existing` is that row,
/// if there is one; where there is none the answer is
/// [`item_not_found_message`].
pub fn toggle_favorite_clipboard_item(id: String, existing: Option<ClipboardRow>) -> (result: Result<
    ClipboardItem,
    String,
>)
    ensures
        match existing {
            Some(row) => result matches Ok(item) && item@ == (ClipboardModel {
                is_favorite: !row.decoded().is_favorite,
                ..row.decoded()
            }),
            None => result matches Err(message) && message@ == item_not_found_message(id@),
        },
{
    match existing {
        Some(row) => {
            let mut item = row.into_item();
            item.is_favorite = !item.is_favorite;
            Ok(item)
        },
        None => Err(item_not_found(&id)),
    }
}

/// Judges a deletion by the number of rows that it removed: none is an
/// error, [`nothing_deleted_message`].
pub fn delete_clipboard_item(affected: usize) -> (result: Result<(), String>)
    ensures
        affected > 0 ==> result is Ok,
        affected == 0 ==> (result matches Err(message) && message@ == nothing_deleted_message()),
{
    if affected == 0 {
        let mut message = String::new();
        message.append("Clipboard item not found");
        Err(message)
    } else {
        Ok(())
    }
}

fn item_not_found(id: &String) -> (message: String)
    ensures
        message@ == item_not_found_message(id@),
{
    let mut message = String::new();
    message.append("Clipboard item ");
    message.append(id.as_str());
    message.append(" not found");
    message
}

/// `text` in lower case, as `str::to_lowercase` gives it.
pub uninterp spec fn lowercase_of(text: Seq<char>) -> Seq<char>;

/// `str::to_lowercase`: the lower case form of `text`, which depends on the
/// characters of `text` alone.
#[verifier::external_body]
fn to_lowercase(text: &str) -> (lower: String)
    ensures
        lower@ == lowercase_of(text@),
{
    text.to_lowercase()
}

/// The pattern that a search for `query` compares the lower case of each
/// content with: the lower case of `query` between two wildcards.
pub open spec fn search_pattern_of(query: Seq<char>) -> Seq<char> {
    "%"@ + lowercase_of(query) + "%"@
}

/// Builds the pattern of a search for `query`.
pub fn search_pattern(query: &str) -> (pattern: String)
    ensures
        pattern@ == search_pattern_of(query@),
{
    let lower = to_lowercase(query);
    let mut pattern = String::new();
    pattern.append("%");
    pattern.append(lower.as_str());
    pattern.append("%");
    pattern
}

/// Clipboard format of text in the system's own encoding.
pub const CF_TEXT: u32 = 1;

/// Clipboard format of text in UTF-16.
pub const CF_UNICODETEXT: u32 = 13;

/// The format in which text is read from the system clipboard: UTF-16 where
/// the clipboard offers it, else the system's own encoding, and none where
/// it offers neither.
pub fn preferred_text_format(unicode_available: bool, text_available: bool) -> (format: Option<u32>)
    ensures
        format == if unicode_available {
            Some(CF_UNICODETEXT)
        } else if text_available {
            Some(CF_TEXT)
        } else {
            None
        },
{
    if unicode_available {
        Some(CF_UNICODETEXT)
    } else if text_available {
        Some(CF_TEXT)
    } else {
        None
    }
}

/// Watches the text of the system clipboard for changes.
pub struct ClipboardMonitor {
    pub last_content: String,
}

impl ClipboardMonitor {
    /// A monitor that has seen nothing yet.
    pub fn new() -> (monitor: Self)
        ensures
            monitor.last_content@ == Seq::<char>::empty(),
    {
        ClipboardMonitor { last_content: String::new() }
    }

    /// Whether `content`, read from the clipboard, is new: not empty and
    /// not what was seen last.
    pub open spec fn is_new(self, content: Seq<char>) -> bool {
        content.len() > 0 && content != self.last_content@
    }

    /// Takes note of what the clipboard holds and tells whether it is to be
    /// added to the history. New content is remembered; anything else
    /// leaves the monitor as it was.
    pub fn observe(&mut self, content: &String) -> (fresh: bool)
        ensures
            fresh == old(self).is_new(content@),
            final(self).last_content@ == if fresh {
                content@
            } else {
                old(self).last_content@
            },
    {
        if !content.as_str().is_empty() && !(*content == self.last_content) {
            self.last_content = content.clone();
            true
        } else {
            false
        }
    }
}

} // verus!
