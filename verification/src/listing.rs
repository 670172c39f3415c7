//! The data of a directory-listing response: records parted by zero bytes,
//! each of them one entry of the directory.

use crate::mavftp::{parse_directory_entry, parse_entry, EntryInfo, EntryView};
use crate::text::{join_path, joined, lossy_text, utf8_lossy};
use vstd::prelude::*;
use vstd::slice::slice_subrange;

verus! {

/// Where the record that starts at `from` ends: at the first zero byte from
/// there on, or at the end of the data where none follows.
pub open spec fn record_end(data: Seq<u8>, from: int) -> int
    decreases data.len() - from,
{
    if from >= data.len() {
        data.len() as int
    } else if data[from] == 0 {
        from
    } else {
        record_end(data, from + 1)
    }
}

/// A record ends at or after its start, holds no zero byte, and ends on one
/// unless the data ends there.
pub proof fn lemma_record_end(data: Seq<u8>, from: int)
    requires
        0 <= from <= data.len(),
    ensures
        from <= record_end(data, from) <= data.len(),
        forall|i: int| from <= i < record_end(data, from) ==> data[i] != 0,
        record_end(data, from) < data.len() ==> data[record_end(data, from)] == 0,
    decreases data.len() - from,
{
    if from < data.len() && data[from] != 0 {
        lemma_record_end(data, from + 1);
    }
}

/// The entry that one record adds to the listing of a directory: the record
/// is read as text, lossily, and then as an entry, whose name is put under
/// the directory's path. A record that is no entry adds none.
pub open spec fn listed_entry(record: Seq<u8>, dir: Seq<char>) -> Option<EntryView> {
    match parse_entry(utf8_lossy(record)) {
        Ok(entry) => Some(
            EntryView {
                entry_type: entry.entry_type,
                name: joined(dir, entry.name),
                size: entry.size,
            },
        ),
        Err(_) => None,
    }
}

/// The entries that the records from `from` on add to the listing, in their
/// order. Empty records add nothing.
pub open spec fn listed(data: Seq<u8>, from: int, dir: Seq<char>) -> Seq<EntryView>
    decreases data.len() + 1 - from,
{
    if 0 <= from < data.len() {
        let end = record_end(data, from);
        proof {
            lemma_record_end(data, from);
        }
        let rest = listed(data, end + 1, dir);
        if end > from && listed_entry(data.subrange(from, end), dir) is Some {
            seq![listed_entry(data.subrange(from, end), dir)->0] + rest
        } else {
            rest
        }
    } else {
        Seq::empty()
    }
}

/// The number of records from `from` on that are not empty, whether they are
/// entries or not.
pub open spec fn record_count(data: Seq<u8>, from: int) -> nat
    decreases data.len() + 1 - from,
{
    if 0 <= from < data.len() {
        let end = record_end(data, from);
        proof {
            lemma_record_end(data, from);
        }
        if end > from {
            1 + record_count(data, end + 1)
        } else {
            record_count(data, end + 1)
        }
    } else {
        0
    }
}

/// There are no more records than bytes, nor more entries than records.
pub proof fn lemma_record_count(data: Seq<u8>, from: int, dir: Seq<char>)
    requires
        0 <= from,
    ensures
        listed(data, from, dir).len() <= record_count(data, from),
        from <= data.len() ==> record_count(data, from) <= data.len() - from,
        from > data.len() ==> record_count(data, from) == 0,
    decreases data.len() + 1 - from,
{
    if from < data.len() {
        lemma_record_end(data, from);
        lemma_record_count(data, record_end(data, from) + 1, dir);
    }
}

/// The entries of a listing as mathematical records.
pub open spec fn entry_views(entries: Seq<EntryInfo>) -> Seq<EntryView> {
    entries.map_values(|entry: EntryInfo| entry@)
}

/// Finds the end of the record that starts at `from`.
pub fn find_record_end(data: &[u8], from: usize) -> (end: usize)
    requires
        from <= data@.len(),
    ensures
        end == record_end(data@, from as int),
        from <= end <= data@.len(),
{
    let mut end: usize = from;
    while end < data.len() && data[end] != 0
        invariant
            from <= end <= data@.len(),
            record_end(data@, from as int) == record_end(data@, end as int),
        decreases data@.len() - end,
    {
        end = end + 1;
    }
    end
}

/// Reads the records of a listing response and appends the entries among
/// them to `entries`, each under the directory's path. Returns the number
/// of records that were not empty.
pub fn collect_entries(data: &[u8], dir: &str, entries: &mut Vec<EntryInfo>) -> (count: usize)
    ensures
        count == record_count(data@, 0),
        entry_views(final(entries)@) == entry_views(old(entries)@) + listed(data@, 0, dir@),
{
    let mut count: usize = 0;
    let mut pos: usize = 0;
    assert(entry_views(entries@) + listed(data@, 0, dir@) =~= entry_views(old(entries)@) + listed(
        data@,
        0,
        dir@,
    ));
    while pos < data.len()
        invariant
            pos <= data@.len(),
            count <= pos,
            count + record_count(data@, pos as int) == record_count(data@, 0),
            entry_views(entries@) + listed(data@, pos as int, dir@) == entry_views(old(entries)@)
                + listed(data@, 0, dir@),
        decreases data@.len() - pos,
    {
        let end = find_record_end(data, pos);
        let ghost before = entry_views(entries@);
        let ghost rest = listed(data@, end + 1, dir@);
        if end > pos {
            count = count + 1;
            let text = lossy_text(slice_subrange(data, pos, end));
            match parse_directory_entry(text.as_str()) {
                Ok(info) => {
                    let name = join_path(dir, info.name.as_str());
                    let entry = EntryInfo { entry_type: info.entry_type, name, size: info.size };
                    entries.push(entry);
                    assert(entry_views(entries@) =~= before.push(
                        listed_entry(data@.subrange(pos as int, end as int), dir@)->0,
                    ));
                    assert(entry_views(entries@) + rest =~= before + listed(
                        data@,
                        pos as int,
                        dir@,
                    ));
                },
                Err(_) => {},
            }
        }
        if end < data.len() {
            pos = end + 1;
        } else {
            proof {
                lemma_record_count(data@, end + 1, dir@);
            }
            pos = end;
        }
    }
    assert(entry_views(entries@) + listed(data@, pos as int, dir@) =~= entry_views(entries@));
    count
}

} // verus!
