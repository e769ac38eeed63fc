//! User-defined shortcuts: a table of items by key, kept in memory.
//!
//! Reading and writing the file that holds the table is left to the
//! embedding program; it hands in what it read and the time of each change.

use crate::clock::timestamp_error_prefix;
use crate::clock::unix_timestamp;
use crate::paths::joined_path;
use crate::paths::path_join;
use crate::text::decimal;
use crate::text::push_char;
use crate::text::push_decimal;
use crate::text::text_of;
use std::path::Path;
use std::path::PathBuf;
use vstd::prelude::*;

verus! {

/// Name of the file that holds the shortcuts, inside the data directory.
pub const SHORTCUTS_FILE_NAME: &'static str = "shortcuts.json";

/// The file that holds the shortcuts: [`SHORTCUTS_FILE_NAME`] inside
/// `app_data_dir`.
pub fn get_shortcuts_file_path(app_data_dir: &Path) -> (file: PathBuf)
    ensures
        file == joined_path(app_data_dir, SHORTCUTS_FILE_NAME@),
{
    path_join(app_data_dir, SHORTCUTS_FILE_NAME)
}

/// One shortcut. The two times are seconds since the Unix epoch.
#[derive(Debug, Clone)]
pub struct ShortcutItem {
    pub id: String,
    pub name: String,
    pub path: String,
    pub icon: Option<String>,
    pub created_at: u64,
    pub updated_at: u64,
}

/// The mathematical value of a [`ShortcutItem`].
pub struct ShortcutModel {
    pub id: Seq<char>,
    pub name: Seq<char>,
    pub path: Seq<char>,
    pub icon: Option<Seq<char>>,
    pub created_at: u64,
    pub updated_at: u64,
}

impl View for ShortcutItem {
    type V = ShortcutModel;

    open spec fn view(&self) -> ShortcutModel {
        ShortcutModel {
            id: self.id@,
            name: self.name@,
            path: self.path@,
            icon: text_of(self.icon),
            created_at: self.created_at,
            updated_at: self.updated_at,
        }
    }
}

fn copy_text(text: &Option<String>) -> (copy: Option<String>)
    ensures
        text_of(copy) == text_of(*text),
{
    match text {
        Some(t) => Some(t.clone()),
        None => None,
    }
}

impl ShortcutItem {
    /// A copy with the same contents.
    pub fn duplicate(&self) -> (copy: Self)
        ensures
            copy@ == self@,
    {
        ShortcutItem {
            id: self.id.clone(),
            name: self.name.clone(),
            path: self.path.clone(),
            icon: copy_text(&self.icon),
            created_at: self.created_at,
            updated_at: self.updated_at,
        }
    }
}

/// `name` with every space turned into an underscore.
pub open spec fn underscored(name: Seq<char>) -> Seq<char> {
    name.map_values(|c: char| if c == ' ' { '_' } else { c })
}

/// The id of a shortcut made at `timestamp`: its name with underscores for
/// spaces, an underscore, and the time in decimal.
pub open spec fn shortcut_id(name: Seq<char>, timestamp: u64) -> Seq<char> {
    underscored(name) + seq!['_'] + decimal(timestamp as nat)
}

/// What is answered where no shortcut has the key `id`.
pub open spec fn not_found_message(id: Seq<char>) -> Seq<char> {
    "Shortcut not found: "@ + id
}

impl ShortcutModel {
    /// A shortcut as it is first made.
    pub open spec fn fresh(
        name: Seq<char>,
        path: Seq<char>,
        icon: Option<Seq<char>>,
        timestamp: u64,
    ) -> Self {
        ShortcutModel {
            id: shortcut_id(name, timestamp),
            name,
            path,
            icon,
            created_at: timestamp,
            updated_at: timestamp,
        }
    }

    /// The shortcut after an update at `timestamp`: each part that is given
    /// replaces the old one, and an icon, once set, cannot be taken away.
    pub open spec fn revised(
        self,
        name: Option<Seq<char>>,
        path: Option<Seq<char>>,
        icon: Option<Seq<char>>,
        timestamp: u64,
    ) -> Self {
        ShortcutModel {
            id: self.id,
            name: match name {
                Some(n) => n,
                None => self.name,
            },
            path: match path {
                Some(p) => p,
                None => self.path,
            },
            icon: match icon {
                Some(i) => Some(i),
                None => self.icon,
            },
            created_at: self.created_at,
            updated_at: timestamp,
        }
    }
}

/// Builds the id of a shortcut.
pub fn make_shortcut_id(name: &String, timestamp: u64) -> (id: String)
    ensures
        id@ == shortcut_id(name@, timestamp),
{
    let mut id = String::new();
    let n = name.as_str().unicode_len();
    let mut i: usize = 0;
    while i < n
        invariant
            i <= n,
            n == name@.len(),
            id@ == underscored(name@.take(i as int)),
        decreases n - i,
    {
        let c = name.as_str().get_char(i);
        push_char(&mut id, if c == ' ' { '_' } else { c });
        i += 1;
        assert(name@.take(i as int) == name@.take(i - 1).push(name@[i - 1]));
        assert(id@ == underscored(name@.take(i as int)));
    }
    assert(name@.take(n as int) == name@);
    push_char(&mut id, '_');
    push_decimal(&mut id, timestamp);
    id
}

struct Entry {
    key: String,
    item: ShortcutItem,
}

/// No two of `entries` share a key.
spec fn unique_keys(entries: Seq<Entry>) -> bool {
    forall|i: int, j: int|
        0 <= i < entries.len() && 0 <= j < entries.len() && entries[i].key@ == entries[j].key@
            ==> i == j
}

spec fn has_key(entries: Seq<Entry>, key: Seq<char>) -> bool {
    exists|i: int| 0 <= i < entries.len() && entries[i].key@ == key
}

spec fn index_of(entries: Seq<Entry>, key: Seq<char>) -> int {
    choose|i: int| 0 <= i < entries.len() && entries[i].key@ == key
}

/// The table that `entries` spell out.
spec fn table_of(entries: Seq<Entry>) -> Map<Seq<char>, ShortcutModel> {
    Map::new(
        |key: Seq<char>| has_key(entries, key),
        |key: Seq<char>| entries[index_of(entries, key)].item@,
    )
}

proof fn lemma_entry(entries: Seq<Entry>, i: int)
    requires
        unique_keys(entries),
        0 <= i < entries.len(),
    ensures
        table_of(entries).contains_key(entries[i].key@),
        table_of(entries)[entries[i].key@] == entries[i].item@,
        index_of(entries, entries[i].key@) == i,
{
}

fn position(entries: &Vec<Entry>, key: &String) -> (found: Option<usize>)
    ensures
        match found {
            Some(i) => i < entries.len() && entries[i as int].key@ == key@,
            None => !has_key(entries@, key@),
        },
{
    let mut i: usize = 0;
    while i < entries.len()
        invariant
            i <= entries.len(),
            forall|j: int| 0 <= j < i ==> entries[j].key@ != key@,
        decreases entries.len() - i,
    {
        if entries[i].key == *key {
            return Some(i);
        }
        i += 1;
    }
    None
}

fn put(entries: &mut Vec<Entry>, key: String, item: ShortcutItem)
    requires
        unique_keys(old(entries)@),
    ensures
        unique_keys(final(entries)@),
        table_of(final(entries)@) == table_of(old(entries)@).insert(key@, item@),
{
    let ghost before = entries@;
    let ghost k = key@;
    let ghost v = item@;
    match position(entries, &key) {
        Some(i) => {
            entries.set(i, Entry { key, item });
            proof {
                let after = entries@;
                assert forall|j: int| 0 <= j < after.len() implies after[j].key@
                    == before[j].key@ by {}
                assert(unique_keys(after));
                assert(has_key(before, k));
                assert forall|id: Seq<char>| has_key(after, id) == has_key(before, id) by {
                    if has_key(before, id) {
                        let j = index_of(before, id);
                        assert(after[j].key@ == id);
                    }
                    if has_key(after, id) {
                        let j = index_of(after, id);
                        assert(before[j].key@ == id);
                    }
                }
                assert forall|id: Seq<char>| has_key(after, id) implies table_of(after)[id]
                    == table_of(before).insert(k, v)[id] by {
                    let j = index_of(after, id);
                    lemma_entry(before, j);
                    lemma_entry(after, j);
                }
                assert(table_of(after).dom() =~= table_of(before).insert(k, v).dom());
                assert(table_of(after) =~= table_of(before).insert(k, v));
            }
        },
        None => {
            entries.push(Entry { key, item });
            proof {
                let after = entries@;
                let n = before.len() as int;
                assert(after[n].key@ == k);
                assert(unique_keys(after));
                assert forall|id: Seq<char>| has_key(after, id) == (has_key(before, id) || id
                    == k) by {
                    if has_key(before, id) {
                        let j = index_of(before, id);
                        assert(after[j].key@ == id);
                    }
                    if has_key(after, id) {
                        let j = index_of(after, id);
                        if j < n {
                            assert(before[j].key@ == id);
                        }
                    }
                }
                assert forall|id: Seq<char>| has_key(after, id) implies table_of(after)[id]
                    == table_of(before).insert(k, v)[id] by {
                    let j = index_of(after, id);
                    lemma_entry(after, j);
                    if j < n {
                        assert(before[j].key@ == id);
                        lemma_entry(before, j);
                    }
                }
                assert(table_of(after) =~= table_of(before).insert(k, v));
            }
        },
    }
}

fn take(entries: &mut Vec<Entry>, key: &String) -> (removed: Option<ShortcutItem>)
    requires
        unique_keys(old(entries)@),
    ensures
        unique_keys(final(entries)@),
        match removed {
            Some(item) => table_of(old(entries)@).contains_key(key@) && item@ == table_of(
                old(entries)@,
            )[key@] && table_of(final(entries)@) == table_of(old(entries)@).remove(key@),
            None => !table_of(old(entries)@).contains_key(key@) && final(entries)@ == old(
                entries,
            )@,
        },
{
    let ghost before = entries@;
    let ghost k = key@;
    match position(entries, key) {
        Some(i) => {
            proof {
                lemma_entry(before, i as int);
            }
            let entry = entries.remove(i);
            proof {
                let after = entries@;
                let at = i as int;
                assert forall|j: int| 0 <= j < after.len() implies after[j] == before[if j < at {
                    j
                } else {
                    j + 1
                }] by {}
                assert(unique_keys(after)) by {
                    assert forall|a: int, b: int|
                        0 <= a < after.len() && 0 <= b < after.len() && after[a].key@
                            == after[b].key@ implies a == b by {
                        let a0 = if a < at { a } else { a + 1 };
                        let b0 = if b < at { b } else { b + 1 };
                        assert(before[a0].key@ == before[b0].key@);
                    }
                }
                assert forall|id: Seq<char>| has_key(after, id) == (has_key(before, id) && id
                    != k) by {
                    if has_key(before, id) && id != k {
                        let j = index_of(before, id);
                        let j1 = if j < at { j } else { j - 1 };
                        assert(after[j1].key@ == id);
                    }
                    if has_key(after, id) {
                        let j = index_of(after, id);
                        let j0 = if j < at { j } else { j + 1 };
                        assert(before[j0].key@ == id);
                    }
                }
                assert forall|id: Seq<char>| has_key(after, id) implies table_of(after)[id]
                    == table_of(before)[id] by {
                    let j = index_of(after, id);
                    let j0 = if j < at { j } else { j + 1 };
                    lemma_entry(after, j);
                    lemma_entry(before, j0);
                }
                assert(table_of(after).dom() =~= table_of(before).remove(k).dom());
                assert(table_of(after) =~= table_of(before).remove(k));
            }
            Some(entry.item)
        },
        None => None,
    }
}

/// The table of shortcuts: at most one item under each key.
pub struct ShortcutStore {
    entries: Vec<Entry>,
}

impl View for ShortcutStore {
    type V = Map<Seq<char>, ShortcutModel>;

    closed spec fn view(&self) -> Map<Seq<char>, ShortcutModel> {
        table_of(self.entries@)
    }
}

impl ShortcutStore {
    #[verifier::type_invariant]
    spec fn wf(self) -> bool {
        unique_keys(self.entries@)
    }

    /// An empty table.
    pub fn new() -> (store: Self)
        ensures
            store@ == Map::<Seq<char>, ShortcutModel>::empty(),
    {
        let store = ShortcutStore { entries: Vec::new() };
        assert(store@ =~= Map::<Seq<char>, ShortcutModel>::empty());
        store
    }

    /// Puts `item` under `key`, in place of what was there.
    pub fn insert(&mut self, key: String, item: ShortcutItem)
        ensures
            final(self)@ == old(self)@.insert(key@, item@),
    {
        proof {
            use_type_invariant(&*self);
        }
        let mut entries: Vec<Entry> = Vec::new();
        std::mem::swap(&mut self.entries, &mut entries);
        put(&mut entries, key, item);
        self.entries = entries;
    }

    /// Takes out what stands under `key`, if anything does.
    pub fn remove(&mut self, key: &String) -> (removed: Option<ShortcutItem>)
        ensures
            match removed {
                Some(item) => old(self)@.contains_key(key@) && item@ == old(self)@[key@]
                    && final(self)@ == old(self)@.remove(key@),
                None => !old(self)@.contains_key(key@) && final(self)@ == old(self)@,
            },
    {
        proof {
            use_type_invariant(&*self);
        }
        let mut entries: Vec<Entry> = Vec::new();
        std::mem::swap(&mut self.entries, &mut entries);
        let removed = take(&mut entries, key);
        self.entries = entries;
        removed
    }

    /// A copy of what stands under `key`, if anything does.
    pub fn get(&self, key: &String) -> (found: Option<ShortcutItem>)
        ensures
            match found {
                Some(item) => self@.contains_key(key@) && item@ == self@[key@],
                None => !self@.contains_key(key@),
            },
    {
        proof {
            use_type_invariant(self);
        }
        match position(&self.entries, key) {
            Some(i) => {
                proof {
                    lemma_entry(self.entries@, i as int);
                }
                Some(self.entries[i].item.duplicate())
            },
            None => None,
        }
    }

    /// Copies of all keys with their items, each key once.
    pub fn entries(&self) -> (all: Vec<(String, ShortcutItem)>)
        ensures
            listed_by(
                self@,
                all@.map_values(|entry: (String, ShortcutItem)| entry.1@),
                all@.map_values(|entry: (String, ShortcutItem)| entry.0@),
            ),
    {
        proof {
            use_type_invariant(self);
        }
        let mut all: Vec<(String, ShortcutItem)> = Vec::new();
        let mut i: usize = 0;
        while i < self.entries.len()
            invariant
                i <= self.entries.len(),
                all.len() == i,
                forall|j: int|
                    0 <= j < i ==> all[j].0@ == self.entries[j].key@ && all[j].1@
                        == self.entries[j].item@,
            decreases self.entries.len() - i,
        {
            all.push((self.entries[i].key.clone(), self.entries[i].item.duplicate()));
            i += 1;
        }
        proof {
            let keys = all@.map_values(|entry: (String, ShortcutItem)| entry.0@);
            let models = all@.map_values(|entry: (String, ShortcutItem)| entry.1@);
            assert forall|j: int| 0 <= j < keys.len() implies self@.contains_key(keys[j])
                && self@[keys[j]] == #[trigger] models[j] by {
                lemma_entry(self.entries@, j);
            }
            assert forall|id: Seq<char>| self@.contains_key(id) implies keys.contains(id) by {
                let j = index_of(self.entries@, id);
                assert(keys[j] == id);
            }
            assert(keys.to_set() =~= self@.dom());
        }
        all
    }

    /// Copies of all items, one for each key.
    pub fn items(&self) -> (all: Vec<ShortcutItem>)
        ensures
            listed(self@, all@.map_values(|item: ShortcutItem| item@)),
    {
        proof {
            use_type_invariant(self);
        }
        let mut all: Vec<ShortcutItem> = Vec::new();
        let mut i: usize = 0;
        while i < self.entries.len()
            invariant
                i <= self.entries.len(),
                all.len() == i,
                forall|j: int| 0 <= j < i ==> all[j]@ == self.entries[j].item@,
            decreases self.entries.len() - i,
        {
            all.push(self.entries[i].item.duplicate());
            i += 1;
        }
        proof {
            let keys = self.entries@.map_values(|e: Entry| e.key@);
            let models = all@.map_values(|item: ShortcutItem| item@);
            assert forall|j: int| 0 <= j < keys.len() implies self@.contains_key(keys[j])
                && self@[keys[j]] == #[trigger] models[j] by {
                lemma_entry(self.entries@, j);
            }
            assert forall|id: Seq<char>| self@.contains_key(id) implies keys.contains(id) by {
                let j = index_of(self.entries@, id);
                assert(keys[j] == id);
            }
            assert(keys.to_set() =~= self@.dom());
            assert(listed_by(self@, models, keys));
        }
        all
    }
}

/// `items` are the values of `table` in the order of `keys`, which names
/// each key of the table once.
pub open spec fn listed_by(
    table: Map<Seq<char>, ShortcutModel>,
    items: Seq<ShortcutModel>,
    keys: Seq<Seq<char>>,
) -> bool {
    &&& keys.no_duplicates()
    &&& keys.to_set() == table.dom()
    &&& keys.len() == items.len()
    &&& forall|i: int| 0 <= i < items.len() ==> table[keys[i]] == #[trigger] items[i]
}

/// `items` holds the value of each key of `table` once, in some order.
pub open spec fn listed(table: Map<Seq<char>, ShortcutModel>, items: Seq<ShortcutModel>) -> bool {
    exists|keys: Seq<Seq<char>>| listed_by(table, items, keys)
}

/// Copies of all shortcuts, one for each key, in no promised order.
pub fn get_all_shortcuts(store: &ShortcutStore) -> (all: Vec<ShortcutItem>)
    ensures
        listed(store@, all@.map_values(|item: ShortcutItem| item@)),
{
    store.items()
}

/// Makes a shortcut at `timestamp` and puts it under its id, in place of
/// what was there.
pub fn add_shortcut_at(
    store: &mut ShortcutStore,
    name: String,
    path: String,
    icon: Option<String>,
    timestamp: u64,
) -> (item: ShortcutItem)
    ensures
        item@ == ShortcutModel::fresh(name@, path@, text_of(icon), timestamp),
        final(store)@ == old(store)@.insert(item@.id, item@),
{
    let id = make_shortcut_id(&name, timestamp);
    let item = ShortcutItem {
        id: id.clone(),
        name,
        path,
        icon,
        created_at: timestamp,
        updated_at: timestamp,
    };
    store.insert(id, item.duplicate());
    item
}

/// Revises the shortcut under `id` at `timestamp`: each part that is given
/// replaces the old one. Where there is none under `id`, nothing changes
/// and the answer is [`not_found_message`].
pub fn update_shortcut_at(
    store: &mut ShortcutStore,
    id: String,
    name: Option<String>,
    path: Option<String>,
    icon: Option<String>,
    timestamp: u64,
) -> (result: Result<ShortcutItem, String>)
    ensures
        match result {
            Ok(item) => old(store)@.contains_key(id@) && item@ == old(store)@[id@].revised(
                text_of(name),
                text_of(path),
                text_of(icon),
                timestamp,
            ) && final(store)@ == old(store)@.insert(id@, item@),
            Err(message) => !old(store)@.contains_key(id@) && message@ == not_found_message(id@)
                && final(store)@ == old(store)@,
        },
{
    match store.get(&id) {
        Some(found) => {
            let mut item = found;
            if let Some(n) = name {
                item.name = n;
            }
            if let Some(p) = path {
                item.path = p;
            }
            if let Some(i) = icon {
                item.icon = Some(i);
            }
            item.updated_at = timestamp;
            store.insert(id, item.duplicate());
            Ok(item)
        },
        None => Err(not_found(&id)),
    }
}

/// Removes the shortcut under `id`. Where there is none, nothing changes
/// and the answer is [`not_found_message`].
pub fn delete_shortcut(store: &mut ShortcutStore, id: String) -> (result: Result<(), String>)
    ensures
        match result {
            Ok(_) => old(store)@.contains_key(id@) && final(store)@ == old(store)@.remove(id@),
            Err(message) => !old(store)@.contains_key(id@) && message@ == not_found_message(id@)
                && final(store)@ == old(store)@,
        },
{
    match store.remove(&id) {
        Some(_) => Ok(()),
        None => Err(not_found(&id)),
    }
}

fn not_found(id: &String) -> (message: String)
    ensures
        message@ == not_found_message(id@),
{
    let mut message = String::new();
    message.append("Shortcut not found: ");
    message.append(id.as_str());
    message
}

/// Makes a shortcut now, as [`add_shortcut_at`] does at the time that the
/// calendar clock gives. Where the clock fails, nothing changes and the
/// answer is its message.
pub fn add_shortcut(
    store: &mut ShortcutStore,
    name: String,
    path: String,
    icon: Option<String>,
) -> (result: Result<ShortcutItem, String>)
    ensures
        match result {
            Ok(item) => exists|timestamp: u64|
                item@ == #[trigger] ShortcutModel::fresh(name@, path@, text_of(icon), timestamp)
                    && final(store)@ == old(store)@.insert(item@.id, item@),
            Err(message) => final(store)@ == old(store)@
                && timestamp_error_prefix().is_prefix_of(message@),
        },
{
    match unix_timestamp() {
        Ok(timestamp) => Ok(add_shortcut_at(store, name, path, icon, timestamp)),
        Err(message) => Err(message),
    }
}

/// Revises the shortcut under `id` now, as [`update_shortcut_at`] does at
/// the time that the calendar clock gives. Where the clock fails, nothing
/// changes and the answer is its message.
pub fn update_shortcut(
    store: &mut ShortcutStore,
    id: String,
    name: Option<String>,
    path: Option<String>,
    icon: Option<String>,
) -> (result: Result<ShortcutItem, String>)
    ensures
        match result {
            Ok(item) => old(store)@.contains_key(id@) && final(store)@ == old(store)@.insert(
                id@,
                item@,
            ) && exists|timestamp: u64|
                item@ == #[trigger] old(store)@[id@].revised(
                    text_of(name),
                    text_of(path),
                    text_of(icon),
                    timestamp,
                ),
            Err(message) => final(store)@ == old(store)@ && (message@ == not_found_message(id@)
                && !old(store)@.contains_key(id@) || timestamp_error_prefix().is_prefix_of(
                message@,
            )),
        },
{
    match unix_timestamp() {
        Ok(timestamp) => update_shortcut_at(store, id, name, path, icon, timestamp),
        Err(message) => Err(message),
    }
}

} // verus!
