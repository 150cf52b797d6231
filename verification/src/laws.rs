//! The store's laws: what a scan picks up, and how a write and a later
//! load relate.

use vstd::prelude::*;

use crate::dir::ChildModel;
use crate::dir::child_index;
use crate::dir::file_content;
use crate::dir::has_child;
use crate::dir::lemma_child_index_is;
use crate::dir::unique_names;
use crate::pattern::spec_is_note_filename;
use crate::vault::EntryModel;
use crate::vault::entry_of;
use crate::vault::is_note_file;
use crate::vault::note_child;
use crate::vault::scan;
use crate::vault::write_blocked;
use crate::vault::write_to;

verus! {

/// A load picks up exactly the matching regular files: an entry is among
/// the scan of a listing iff some child of the listing is a regular file
/// whose name follows the note filename convention and whose name and
/// content are exactly the entry's.
pub proof fn lemma_scan_contains(cs: Seq<ChildModel>, e: EntryModel)
    ensures
        scan(cs).contains(e) <==> exists|i: int|
            0 <= i < cs.len() && is_note_file(#[trigger] cs[i]) && e == entry_of(cs[i]),
    decreases cs.len(),
{
    if cs.len() == 0 {
    } else {
        let butlast = cs.drop_last();
        let c = cs.last();
        lemma_scan_contains(butlast, e);
        if scan(cs).contains(e) {
            let j = choose|j: int| 0 <= j < scan(cs).len() && scan(cs)[j] == e;
            if is_note_file(c) && j == scan(cs).len() - 1 {
                assert(is_note_file(cs[cs.len() - 1]) && e == entry_of(cs[cs.len() - 1]));
            } else {
                assert(scan(butlast)[j] == e);
                assert(scan(butlast).contains(e));
                let i = choose|i: int|
                    0 <= i < butlast.len() && is_note_file(#[trigger] butlast[i]) && e == entry_of(
                        butlast[i],
                    );
                assert(is_note_file(cs[i]) && e == entry_of(cs[i]));
            }
        }
        if exists|i: int| 0 <= i < cs.len() && is_note_file(#[trigger] cs[i]) && e == entry_of(cs[i]) {
            let i = choose|i: int|
                0 <= i < cs.len() && is_note_file(#[trigger] cs[i]) && e == entry_of(cs[i]);
            if i == cs.len() - 1 {
                assert(scan(cs).last() == e);
                assert(scan(cs).contains(e));
            } else {
                assert(butlast[i] == cs[i]);
                assert(scan(butlast).contains(e));
                let j = choose|j: int| 0 <= j < scan(butlast).len() && scan(butlast)[j] == e;
                assert(scan(cs)[j] == e);
                assert(scan(cs).contains(e));
            }
        }
    }
}

/// A write keeps the listing free of duplicate names: it replaces the
/// child of its name in place, or appends a name that was not present.
pub proof fn lemma_write_preserves_unique_names(cs: Seq<ChildModel>, e: EntryModel)
    requires
        unique_names(cs),
    ensures
        unique_names(write_to(cs, e)),
{
    let cs2 = write_to(cs, e);
    if has_child(cs, e.filename) {
        let k = child_index(cs, e.filename);
        assert forall|p: int, q: int| 0 <= p < q < cs2.len() implies cs2[p].name != cs2[q].name by {
            assert(cs[p].name != cs[q].name);
            if p == k {
                lemma_child_index_is(cs, e.filename, k);
                if cs2[q].name == e.filename {
                    assert(cs[q].name == cs[k].name);
                }
            } else if q == k {
                if cs2[p].name == e.filename {
                    assert(cs[p].name == cs[k].name);
                }
            }
        }
    } else {
        assert forall|p: int, q: int| 0 <= p < q < cs2.len() implies cs2[p].name != cs2[q].name by {
            if q < cs.len() {
                assert(cs[p].name != cs[q].name);
            } else {
                assert(!(cs[p].name == e.filename));
            }
        }
    }
}

/// Overwriting is total: after a write, the file of the written name holds
/// exactly the written content — nothing of any earlier content remains.
pub proof fn lemma_write_overwrites(cs: Seq<ChildModel>, e: EntryModel)
    requires
        unique_names(cs),
        !write_blocked(cs, e.filename),
    ensures
        file_content(write_to(cs, e), e.filename) == Some(e.content),
{
    let cs2 = write_to(cs, e);
    lemma_write_preserves_unique_names(cs, e);
    if has_child(cs, e.filename) {
        let k = child_index(cs, e.filename);
        lemma_child_index_is(cs, e.filename, k);
        assert(cs2[k] == note_child(e));
        lemma_child_index_is(cs2, e.filename, k);
    } else {
        let k = cs.len() as int;
        assert(cs2[k] == note_child(e));
        lemma_child_index_is(cs2, e.filename, k);
    }
}

/// The round trip: a write followed by a load yields the written entry iff
/// its filename follows the note filename convention.  An entry written
/// under a non-matching name is persisted, yet invisible to every later
/// load.
pub proof fn lemma_write_round_trip(cs: Seq<ChildModel>, e: EntryModel)
    requires
        unique_names(cs),
        !write_blocked(cs, e.filename),
    ensures
        scan(write_to(cs, e)).contains(e) <==> spec_is_note_filename(e.filename),
{
    let cs2 = write_to(cs, e);
    lemma_scan_contains(cs2, e);
    let k = if has_child(cs, e.filename) {
        child_index(cs, e.filename)
    } else {
        cs.len() as int
    };
    if has_child(cs, e.filename) {
        lemma_child_index_is(cs, e.filename, k);
    }
    assert(cs2[k] == note_child(e));
    if spec_is_note_filename(e.filename) {
        assert(is_note_file(cs2[k]) && e == entry_of(cs2[k]));
    } else {
        assert forall|i: int|
            !(0 <= i < cs2.len() && is_note_file(#[trigger] cs2[i]) && e == entry_of(cs2[i])) by {
            if 0 <= i < cs2.len() && is_note_file(cs2[i]) && e == entry_of(cs2[i]) {
                assert(cs2[i].name == e.filename);
            }
        }
    }
}

} // verus!
