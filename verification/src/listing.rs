//! What cloud storage holds, as the transfer tool lists it.

use crate::json::{count_in, error_message, flag_in, is_object, is_object_value, member_count, member_flag, member_text, members_of, parse_array, text_in};
use crate::models::{text_model, CloudFile};
use crate::system::{parse_rfc3339, rfc3339_instant_of};
use crate::text::{starts_with, to_chars};
use serde_json::Value;
use vstd::prelude::*;

verus! {

/// What one entry of a listing holds of what is read from it. A member
/// that is missing, or is not of the kind it should be, is `None`.
#[derive(Clone, Debug)]
pub struct ListingItem {
    /// Whether the entry is an object at all.
    pub is_object: bool,
    pub path: Option<String>,
    pub name: Option<String>,
    pub size: Option<u64>,
    pub is_dir: Option<bool>,
    pub mod_time: Option<String>,
    pub mime_type: Option<String>,
}

/// A file in cloud storage as mathematical values: the model of
/// [`CloudFile`].
pub struct FileRecord {
    pub path: Seq<char>,
    pub name: Seq<char>,
    pub size: nat,
    pub mod_time: int,
    pub is_dir: bool,
    pub mime_type: Option<Seq<char>>,
}

/// The model of a file.
pub open spec fn file_record(file: CloudFile) -> FileRecord {
    FileRecord {
        path: file.path@,
        name: file.name@,
        size: file.size as nat,
        mod_time: file.mod_time as int,
        is_dir: file.is_dir,
        mime_type: text_model(file.mime_type),
    }
}

/// The models of a list of files, in order.
pub open spec fn file_records(files: Seq<CloudFile>) -> Seq<FileRecord> {
    files.map_values(|file: CloudFile| file_record(file))
}

/// What is said of an entry that is no object.
pub const INVALID_ITEM: &'static str = "Invalid rclone item format";

/// What is said of an entry without a path.
pub const MISSING_PATH: &'static str = "Missing Path in rclone item";

/// What begins the message for a listing that is no JSON.
pub const UNREADABLE_LISTING: &'static str = "Failed to parse rclone output: ";

/// The file that an entry describes, at the instant `now`. An entry must
/// be an object with a path. Its name is its path if it has none; its size
/// is 0 if it has none; it is no directory unless it says so; and the time
/// of its last change is `now` if it gives none that can be read.
pub open spec fn file_in(item: ListingItem, now: i64) -> Result<FileRecord, Seq<char>> {
    if !item.is_object {
        Err(INVALID_ITEM@)
    } else {
        match item.path {
            None => Err(MISSING_PATH@),
            Some(path) => Ok(
                FileRecord {
                    path: path@,
                    name: match item.name {
                        Some(name) => name@,
                        None => path@,
                    },
                    size: match item.size {
                        Some(size) => size as nat,
                        None => 0,
                    },
                    mod_time: match item.mod_time {
                        Some(text) => match rfc3339_instant_of(text@) {
                            Some(at) => at as int,
                            None => now as int,
                        },
                        None => now as int,
                    },
                    is_dir: match item.is_dir {
                        Some(is_dir) => is_dir,
                        None => false,
                    },
                    mime_type: text_model(item.mime_type),
                },
            ),
        }
    }
}

/// The text that the member `key` of `value` is.
fn text_member(value: &Value, key: &str) -> (text: Option<String>)
    ensures
        text_model(text) == text_in(members_of(*value), key@),
{
    member_text(value, key)
}

/// What the entry `value` of a listing holds: its members `Path`, `Name`,
/// `Size`, `IsDir`, `ModTime` and `MimeType`, each if it is of its kind.
fn read_item(value: &Value) -> (item: ListingItem)
    ensures
        item.is_object == is_object_value(*value),
        text_model(item.path) == text_in(members_of(*value), "Path"@),
        text_model(item.name) == text_in(members_of(*value), "Name"@),
        item.size == count_in(members_of(*value), "Size"@),
        item.is_dir == flag_in(members_of(*value), "IsDir"@),
        text_model(item.mod_time) == text_in(members_of(*value), "ModTime"@),
        text_model(item.mime_type) == text_in(members_of(*value), "MimeType"@),
{
    ListingItem {
        is_object: is_object(value),
        path: text_member(value, "Path"),
        name: text_member(value, "Name"),
        size: member_count(value, "Size"),
        is_dir: member_flag(value, "IsDir"),
        mod_time: text_member(value, "ModTime"),
        mime_type: text_member(value, "MimeType"),
    }
}

/// The file that an entry of a listing describes, at the instant `now`.
pub fn parse_rclone_item(item: &ListingItem, now: i64) -> (file: Result<Option<CloudFile>, String>)
    ensures
        match file_in(*item, now) {
            Ok(record) => file matches Ok(Some(found)) && file_record(found) == record,
            Err(message) => file matches Err(said) && said@ == message,
        },
{
    if !item.is_object {
        return Err(String::from_str(INVALID_ITEM));
    }
    let path = match &item.path {
        Some(path) => path.clone(),
        None => {
            return Err(String::from_str(MISSING_PATH));
        },
    };
    let name = match &item.name {
        Some(name) => name.clone(),
        None => path.clone(),
    };
    let mod_time = match &item.mod_time {
        Some(text) => match parse_rfc3339(text.as_str()) {
            Ok(at) => at,
            Err(_) => now,
        },
        None => now,
    };
    Ok(
        Some(
            CloudFile {
                path,
                name,
                size: match item.size {
                    Some(size) => size,
                    None => 0,
                },
                mod_time,
                is_dir: match item.is_dir {
                    Some(is_dir) => is_dir,
                    None => false,
                },
                mime_type: match &item.mime_type {
                    Some(kind) => Some(kind.clone()),
                    None => None,
                },
            },
        ),
    )
}

/// `a` comes before `b` in the order of the dictionary, or is `b`:
/// character by character, and the shorter first where one begins the
/// other.
pub open spec fn text_le(a: Seq<char>, b: Seq<char>) -> bool
    decreases a.len(),
{
    if a.len() == 0 {
        true
    } else if b.len() == 0 {
        false
    } else if a[0] != b[0] {
        (a[0] as u32) < (b[0] as u32)
    } else {
        text_le(a.skip(1), b.skip(1))
    }
}

/// `a` may stand before `b` in a listing: directories stand before other
/// files, and among each the names go by the dictionary.
pub open spec fn may_precede(a: FileRecord, b: FileRecord) -> bool {
    if a.is_dir != b.is_dir {
        a.is_dir
    } else {
        text_le(a.name, b.name)
    }
}

/// Where `file` goes in `listed`: behind every file from position `from`
/// on that may stand before it.
pub open spec fn place_in(listed: Seq<FileRecord>, file: FileRecord, from: int) -> int
    decreases listed.len() - from,
{
    if 0 <= from < listed.len() && may_precede(listed[from], file) {
        place_in(listed, file, from + 1)
    } else {
        from
    }
}

/// `files` in the order of a listing: directories first, and among each
/// the names by the dictionary. Files that may stand either way round keep
/// the order they had.
pub open spec fn in_listing_order(files: Seq<FileRecord>) -> Seq<FileRecord>
    decreases files.len(),
{
    if files.len() == 0 {
        Seq::empty()
    } else {
        let before = in_listing_order(files.drop_last());
        before.insert(place_in(before, files.last(), 0), files.last())
    }
}

/// Tells whether `a` comes before `b` in the order of the dictionary, or
/// is `b`.
pub fn precedes_or_equals(a: &[char], b: &[char]) -> (yes: bool)
    ensures
        yes == text_le(a@, b@),
{
    let mut i: usize = 0;
    assert(a@.skip(0) =~= a@);
    assert(b@.skip(0) =~= b@);
    while i < a.len()
        invariant
            i <= a.len(),
            i <= b.len(),
            text_le(a@, b@) == text_le(a@.skip(i as int), b@.skip(i as int)),
        decreases a.len() - i,
    {
        if i >= b.len() {
            return false;
        }
        proof {
            assert(a@.skip(i as int).skip(1) =~= a@.skip(i + 1));
            assert(b@.skip(i as int).skip(1) =~= b@.skip(i + 1));
        }
        if a[i] != b[i] {
            return (a[i] as u32) < (b[i] as u32);
        }
        i = i + 1;
    }
    true
}

/// Where `file`, whose name is `name`, goes in `sorted`, whose names are
/// `names`.
fn listing_place(sorted: &Vec<CloudFile>, names: &Vec<Vec<char>>, file: &CloudFile, name: &[char]) -> (place:
    usize)
    requires
        names@.len() == sorted@.len(),
        name@ == file.name@,
        forall|k: int| 0 <= k < names@.len() ==> #[trigger] names@[k]@ == sorted@[k].name@,
    ensures
        place == place_in(file_records(sorted@), file_record(*file), 0),
        place <= sorted@.len(),
{
    let ghost listed = file_records(sorted@);
    let mut place: usize = 0;
    while place < sorted.len()
        invariant
            place <= sorted.len(),
            names@.len() == sorted@.len(),
            name@ == file.name@,
            listed == file_records(sorted@),
            forall|k: int| 0 <= k < names@.len() ==> #[trigger] names@[k]@ == sorted@[k].name@,
            place_in(listed, file_record(*file), 0) == place_in(
                listed,
                file_record(*file),
                place as int,
            ),
        decreases sorted.len() - place,
    {
        assert(listed[place as int] == file_record(sorted@[place as int]));
        let before = if sorted[place].is_dir != file.is_dir {
            sorted[place].is_dir
        } else {
            precedes_or_equals(names[place].as_slice(), name)
        };
        if !before {
            return place;
        }
        place = place + 1;
    }
    place
}

/// Puts `files` in the order of a listing.
pub fn sort_cloud_files(files: Vec<CloudFile>) -> (sorted: Vec<CloudFile>)
    ensures
        file_records(sorted@) == in_listing_order(file_records(files@)),
{
    let mut rest = files;
    let ghost all = file_records(files@);
    let ghost mut done: int = 0;
    let mut sorted: Vec<CloudFile> = Vec::new();
    let mut names: Vec<Vec<char>> = Vec::new();
    proof {
        assert(all.take(0) =~= Seq::<FileRecord>::empty());
        assert(all.skip(0) =~= all);
        assert(file_records(sorted@) =~= Seq::<FileRecord>::empty());
    }
    while rest.len() > 0
        invariant
            0 <= done <= all.len(),
            file_records(rest@) == all.skip(done),
            file_records(sorted@) == in_listing_order(all.take(done)),
            names@.len() == sorted@.len(),
            forall|k: int| 0 <= k < names@.len() ==> #[trigger] names@[k]@ == sorted@[k].name@,
        decreases rest.len(),
    {
        let ghost before = file_records(rest@);
        let ghost first = rest@[0];
        assert(before.len() == rest@.len());
        assert(done < all.len());
        let file = rest.remove(0);
        proof {
            assert(before[0] == file_record(first));
            assert(all.skip(done)[0] == all[done]);
            assert(file_records(rest@) =~= before.remove(0));
            assert(before.remove(0) =~= all.skip(done + 1));
            assert(all.take(done + 1).drop_last() =~= all.take(done));
        }
        let name = to_chars(file.name.as_str());
        let ghost listed = file_records(sorted@);
        let place = listing_place(&sorted, &names, &file, name.as_slice());
        names.insert(place, name);
        sorted.insert(place, file);
        proof {
            assert(file_records(sorted@) =~= listed.insert(place as int, file_record(file)));
            done = done + 1;
        }
    }
    proof {
        assert(all.take(done) =~= all);
    }
    sorted
}

/// The files that entries describe, in the order of the entries; the
/// message of the first entry that describes none, if there is one.
pub open spec fn files_in(items: Seq<ListingItem>, now: i64) -> Result<Seq<FileRecord>, Seq<char>>
    decreases items.len(),
{
    if items.len() == 0 {
        Ok(Seq::empty())
    } else {
        match files_in(items.drop_last(), now) {
            Err(message) => Err(message),
            Ok(files) => match file_in(items.last(), now) {
                Err(message) => Err(message),
                Ok(file) => Ok(files.push(file)),
            },
        }
    }
}

/// The listing that entries make: their files in the order of a listing,
/// or the message of the first entry that describes none.
pub open spec fn listing_of(items: Seq<ListingItem>, now: i64) -> Result<Seq<FileRecord>, Seq<char>> {
    match files_in(items, now) {
        Ok(files) => Ok(in_listing_order(files)),
        Err(message) => Err(message),
    }
}

/// The models of a listing or of its failure.
pub open spec fn listing_model(listing: Result<Vec<CloudFile>, String>) -> Result<
    Seq<FileRecord>,
    Seq<char>,
> {
    match listing {
        Ok(files) => Ok(file_records(files@)),
        Err(message) => Err(message@),
    }
}

/// The listing that `items` make, at the instant `now`.
pub fn list_items(items: &[ListingItem], now: i64) -> (listing: Result<Vec<CloudFile>, String>)
    ensures
        listing_model(listing) == listing_of(items@, now),
{
    let mut files: Vec<CloudFile> = Vec::new();
    let mut i: usize = 0;
    proof {
        assert(items@.take(0) =~= Seq::<ListingItem>::empty());
        assert(file_records(files@) =~= Seq::<FileRecord>::empty());
    }
    while i < items.len()
        invariant
            i <= items.len(),
            files_in(items@.take(i as int), now) == Ok::<Seq<FileRecord>, Seq<char>>(
                file_records(files@),
            ),
        decreases items.len() - i,
    {
        proof {
            assert(items@.take(i + 1).drop_last() =~= items@.take(i as int));
            assert(items@.take(i + 1).last() == items@[i as int]);
        }
        match parse_rclone_item(&items[i], now) {
            Ok(Some(file)) => {
                let ghost before = file_records(files@);
                files.push(file);
                assert(file_records(files@) =~= before.push(file_record(file)));
            },
            Ok(None) => {},
            Err(message) => {
                proof {
                    lemma_failure_stays(items@, now, i + 1);
                }
                return Err(message);
            },
        }
        i = i + 1;
    }
    assert(items@.take(items.len() as int) =~= items@);
    Ok(sort_cloud_files(files))
}

/// A failure among the first `n` entries is the failure of the whole.
proof fn lemma_failure_stays(items: Seq<ListingItem>, now: i64, n: int)
    requires
        0 <= n <= items.len(),
        files_in(items.take(n), now) is Err,
    ensures
        files_in(items, now) == files_in(items.take(n), now),
    decreases items.len() - n,
{
    if n == items.len() {
        assert(items.take(n) =~= items);
    } else {
        assert(items.take(n + 1).drop_last() =~= items.take(n));
        lemma_failure_stays(items, now, n + 1);
    }
}

/// `listing` is what reading a listing can give at the instant `now`: the
/// listing that some entries make, or a failure whose message begins with
/// [`UNREADABLE_LISTING`].
pub open spec fn is_listing(listing: Result<Seq<FileRecord>, Seq<char>>, now: i64) -> bool {
    ||| exists|items: Seq<ListingItem>| listing == #[trigger] listing_of(items, now)
    ||| listing matches Err(message) && starts_with(message, UNREADABLE_LISTING@)
}

/// Reads the listing that the transfer tool printed as JSON, at the
/// instant `now`. Fails if the text is no JSON array, or if an entry
/// describes no file.
///
/// What the text holds is for the JSON reader to say: the contract states
/// what is made of whatever it finds.
pub fn read_listing(json: &str, now: i64) -> (listing: Result<Vec<CloudFile>, String>)
    ensures
        is_listing(listing_model(listing), now),
{
    let values = match parse_array(json) {
        Ok(values) => values,
        Err(error) => {
            let mut message = String::from_str(UNREADABLE_LISTING);
            let said = error_message(&error);
            message.append(said.as_str());
            assert(message@.subrange(0, UNREADABLE_LISTING@.len() as int) =~= UNREADABLE_LISTING@);
            return Err(message);
        },
    };
    let mut items: Vec<ListingItem> = Vec::new();
    let mut i: usize = 0;
    while i < values.len()
        invariant
            i <= values.len(),
        decreases values.len() - i,
    {
        items.push(read_item(&values[i]));
        i = i + 1;
    }
    list_items(items.as_slice(), now)
}

} // verus!
