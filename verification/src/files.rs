//! The file tree as the user interface lists it: what a directory entry is
//! shown as, which entries are shown, and in what order.

use vstd::prelude::*;
use vstd::utf8::encode_utf8;

verus! {

/// One entry of a directory listing.
#[derive(Clone, Debug)]
pub struct FileItem {
    pub name: String,
    pub path: String,
    pub is_directory: bool,
    /// The size in bytes, for a regular file.
    pub size: Option<u64>,
    /// The time of the last change in seconds since the epoch, where known.
    pub modified: Option<i64>,
}

/// The record of one operation on the file tree.
#[derive(Clone, Debug)]
pub struct FileOperation {
    pub operation: String,
    pub path: String,
    pub success: bool,
    pub error: Option<String>,
}

/// A directory entry as it was read from disk.
#[derive(Clone, Debug)]
pub struct EntryInfo {
    pub name: String,
    pub path: String,
    pub is_directory: bool,
    pub is_file: bool,
    /// The length in bytes that the metadata gives.
    pub len: u64,
    /// The time of the last change in seconds since the epoch, where known.
    pub modified_secs: Option<u64>,
}

/// An entry whose name starts with a dot is not shown.
pub open spec fn is_hidden_name(name: Seq<char>) -> bool {
    name.len() > 0 && name[0] == '.'
}

/// Tests whether an entry of this name is left out of a listing.
pub fn is_hidden(name: &str) -> (r: bool)
    ensures
        r == is_hidden_name(name@),
{
    !name.is_empty() && name.get_char(0) == '.'
}

/// Seconds since the epoch as a signed stamp: the same number where it
/// fits, and the two's complement reading of its 64 bits where it does not.
pub open spec fn stamp_of(secs: u64) -> int {
    if secs <= i64::MAX {
        secs as int
    } else {
        secs - 0x1_0000_0000_0000_0000
    }
}

/// Converts seconds since the epoch to a signed stamp.
pub fn to_stamp(secs: u64) -> (r: i64)
    ensures
        r == stamp_of(secs),
{
    if secs <= 0x7fff_ffff_ffff_ffff {
        secs as i64
    } else {
        let low: u64 = secs - 0x8000_0000_0000_0000;
        low as i64 + i64::MIN
    }
}

/// The item shown for an entry: a size only for a regular file.
pub open spec fn item_of(entry: EntryInfo) -> FileItem {
    FileItem {
        name: entry.name,
        path: entry.path,
        is_directory: entry.is_directory,
        size: if entry.is_file {
            Some(entry.len)
        } else {
            None
        },
        modified: match entry.modified_secs {
            Some(secs) => Some(stamp_of(secs) as i64),
            None => None,
        },
    }
}

/// Builds the item shown for an entry.
pub fn file_item(entry: &EntryInfo) -> (r: FileItem)
    ensures
        r == item_of(*entry),
{
    let size = if entry.is_file {
        Some(entry.len)
    } else {
        None
    };
    let modified = match entry.modified_secs {
        Some(secs) => Some(to_stamp(secs)),
        None => None,
    };
    FileItem {
        name: entry.name.clone(),
        path: entry.path.clone(),
        is_directory: entry.is_directory,
        size,
        modified,
    }
}

/// `a` comes no later than `b` when the two are compared byte by byte: at
/// the first difference the smaller byte decides, and a string comes before
/// every longer one that starts with it.
pub open spec fn bytes_le(a: Seq<u8>, b: Seq<u8>) -> bool
    decreases a.len(),
{
    if a.len() == 0 {
        true
    } else if b.len() == 0 {
        false
    } else if a[0] != b[0] {
        a[0] < b[0]
    } else {
        bytes_le(a.drop_first(), b.drop_first())
    }
}

/// The order of a listing: directories before files, and by name within
/// each, names compared by their bytes.
pub open spec fn item_le(a: FileItem, b: FileItem) -> bool {
    if a.is_directory != b.is_directory {
        a.is_directory
    } else {
        bytes_le(encode_utf8(a.name@), encode_utf8(b.name@))
    }
}

/// A listing is in order.
pub open spec fn is_ordered(items: Seq<FileItem>) -> bool {
    forall|i: int, j: int| 0 <= i < j < items.len() ==> item_le(items[i], items[j])
}

/// Of two byte strings one comes no later than the other.
pub proof fn lemma_bytes_le_total(a: Seq<u8>, b: Seq<u8>)
    ensures
        bytes_le(a, b) || bytes_le(b, a),
    decreases a.len(),
{
    if a.len() > 0 && b.len() > 0 && a[0] == b[0] {
        lemma_bytes_le_total(a.drop_first(), b.drop_first());
    }
}

/// The order of byte strings is transitive.
pub proof fn lemma_bytes_le_transitive(a: Seq<u8>, b: Seq<u8>, c: Seq<u8>)
    requires
        bytes_le(a, b),
        bytes_le(b, c),
    ensures
        bytes_le(a, c),
    decreases a.len(),
{
    if a.len() > 0 && b.len() > 0 && c.len() > 0 && a[0] == b[0] && b[0] == c[0] {
        lemma_bytes_le_transitive(a.drop_first(), b.drop_first(), c.drop_first());
    }
}

/// Of two items one comes no later than the other.
pub proof fn lemma_item_le_total(a: FileItem, b: FileItem)
    ensures
        item_le(a, b) || item_le(b, a),
{
    lemma_bytes_le_total(encode_utf8(a.name@), encode_utf8(b.name@));
}

/// The order of items is transitive.
pub proof fn lemma_item_le_transitive(a: FileItem, b: FileItem, c: FileItem)
    requires
        item_le(a, b),
        item_le(b, c),
    ensures
        item_le(a, c),
{
    if a.is_directory == b.is_directory && b.is_directory == c.is_directory {
        lemma_bytes_le_transitive(
            encode_utf8(a.name@),
            encode_utf8(b.name@),
            encode_utf8(c.name@),
        );
    }
}

/// Compares two byte strings.
fn compare_bytes(a: &[u8], b: &[u8]) -> (r: bool)
    ensures
        r == bytes_le(a@, b@),
{
    let mut i: usize = 0;
    assert(a@.skip(0) == a@ && b@.skip(0) == b@);
    while i < a.len() && i < b.len()
        invariant
            i <= a.len(),
            i <= b.len(),
            bytes_le(a@, b@) == bytes_le(a@.skip(i as int), b@.skip(i as int)),
        decreases a.len() - i,
    {
        proof {
            let x = a@.skip(i as int);
            let y = b@.skip(i as int);
            assert(x[0] == a@[i as int]);
            assert(y[0] == b@[i as int]);
            assert(x.drop_first() == a@.skip(i + 1));
            assert(y.drop_first() == b@.skip(i + 1));
        }
        if a[i] != b[i] {
            return a[i] < b[i];
        }
        i += 1;
    }
    proof {
        assert(a@.skip(i as int).len() == a@.len() - i);
        assert(b@.skip(i as int).len() == b@.len() - i);
    }
    i == a.len()
}

/// Tests whether `a` comes no later than `b` in a listing.
pub fn comes_before(a: &FileItem, b: &FileItem) -> (r: bool)
    ensures
        r == item_le(*a, *b),
{
    if a.is_directory != b.is_directory {
        a.is_directory
    } else {
        compare_bytes(a.name.as_str().as_bytes(), b.name.as_str().as_bytes())
    }
}

/// The test that an entry is shown.
pub open spec fn is_shown() -> spec_fn(EntryInfo) -> bool {
    |e: EntryInfo| !is_hidden_name(e.name@)
}

/// The items of the entries that are shown, in the order read.
pub open spec fn shown_items(entries: Seq<EntryInfo>) -> Seq<FileItem> {
    entries.filter(is_shown()).map_values(|e: EntryInfo| item_of(e))
}

/// Puts `item` into an ordered listing at its place, behind the items that
/// come no later.
fn insert_ordered(items: &mut Vec<FileItem>, item: FileItem)
    requires
        is_ordered(old(items)@),
    ensures
        is_ordered(final(items)@),
        final(items)@.to_multiset() == old(items)@.to_multiset().insert(item),
        final(items)@.len() == old(items)@.len() + 1,
        forall|k: int|
            0 <= k < final(items)@.len() ==> (#[trigger] final(items)@[k]) == item || old(
                items,
            )@.contains(final(items)@[k]),
{
    let mut at: usize = 0;
    while at < items.len() && comes_before(&items[at], &item)
        invariant
            at <= items.len(),
            items@ == old(items)@,
            forall|k: int| 0 <= k < at ==> item_le(#[trigger] items@[k], item),
        decreases items.len() - at,
    {
        at += 1;
    }
    proof {
        let before = items@;
        let after = before.insert(at as int, item);
        vstd::seq_lib::to_multiset_insert(before, at as int, item);
        assert forall|i: int, j: int| 0 <= i < j < after.len() implies item_le(
            after[i],
            after[j],
        ) by {
            if j == at {
                assert(after[i] == before[i]);
            } else if i == at {
                assert(after[j] == before[j - 1]);
                lemma_item_le_total(before[at as int], item);
                if j - 1 > at {
                    lemma_item_le_transitive(item, before[at as int], before[j - 1]);
                }
            } else {
                let bi = if i < at { i } else { i - 1 };
                let bj = if j < at { j } else { j - 1 };
                assert(after[i] == before[bi] && after[j] == before[bj]);
            }
        }
        assert forall|k: int| 0 <= k < after.len() implies (#[trigger] after[k]) == item
            || before.contains(after[k]) by {
            if k < at {
                assert(after[k] == before[k]);
            } else if k > at {
                assert(after[k] == before[k - 1]);
            }
        }
    }
    items.insert(at, item);
}

/// Builds the listing of a directory from its entries as read: hidden
/// entries are left out, every other entry is shown once, directories come
/// before files, and each group is in the order of the names.
pub fn list_items(entries: &Vec<EntryInfo>) -> (r: Vec<FileItem>)
    ensures
        is_ordered(r@),
        r@.to_multiset() == shown_items(entries@).to_multiset(),
        r@.len() <= entries@.len(),
        forall|k: int| 0 <= k < r@.len() ==> !is_hidden_name((#[trigger] r@[k]).name@),
{
    let mut items: Vec<FileItem> = Vec::new();
    let mut i: usize = 0;
    let ghost convert = |e: EntryInfo| item_of(e);
    proof {
        let none = Seq::<EntryInfo>::empty();
        assert(entries@.take(0) == none);
        assert(none.filter(is_shown()) == none);
        assert(none.map_values(convert) == items@);
    }
    while i < entries.len()
        invariant
            i <= entries.len(),
            convert == |e: EntryInfo| item_of(e),
            is_ordered(items@),
            items@.len() <= i,
            forall|k: int| 0 <= k < items@.len() ==> !is_hidden_name((#[trigger] items@[k]).name@),
            items@.to_multiset() == entries@.take(i as int).filter(is_shown()).map_values(
                convert,
            ).to_multiset(),
        decreases entries.len() - i,
    {
        let entry = &entries[i];
        proof {
            let before = entries@.take(i as int);
            assert(entries@.take(i + 1) == before.push(*entry));
            before.lemma_filter_push(*entry, is_shown());
            if !is_hidden_name(entry.name@) {
                before.filter(is_shown()).lemma_push_map_commute(convert, *entry);
                vstd::seq_lib::to_multiset_build(
                    before.filter(is_shown()).map_values(convert),
                    item_of(*entry),
                );
            }
        }
        if !is_hidden(entry.name.as_str()) {
            insert_ordered(&mut items, file_item(entry));
        }
        i += 1;
    }
    assert(entries@.take(i as int) == entries@);
    items
}

} // verus!
