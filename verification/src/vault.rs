//! The vault: a directory-backed collection of note entries.
//!
//! A load scans the vault directory and returns one entry per regular file
//! whose name follows the `MM-DD-YY.md` convention, in enumeration order,
//! skipping everything else silently.  A write persists one entry under its
//! filename, overwriting in full; the filename is taken as given, without
//! re-validation, so a write can produce a file that a later load will not
//! pick up.  Both operations provision the directory first: a missing
//! directory is created empty rather than reported as an error.

use vstd::prelude::*;

use crate::dir::Child;
use crate::dir::ChildModel;
use crate::dir::Directory;
use crate::dir::Node;
use crate::dir::child_index;
use crate::dir::children_view;
use crate::dir::has_child;
use crate::dir::lemma_child_index_is;
use crate::dir::unique_names;
use crate::error::Error;
use crate::pattern::is_note_filename;
use crate::pattern::spec_is_note_filename;

verus! {

/// One note: a filename under the `MM-DD-YY.md` convention and its full
/// text content.
#[derive(Clone, Debug, PartialEq, Eq)]
pub struct VaultEntry {
    /// The filename on disk, conventionally `MM-DD-YY.md`.
    pub filename: String,
    /// The content of the file.
    pub content: String,
}

/// The mathematical value of one note entry.
pub ghost struct EntryModel {
    pub filename: Seq<char>,
    pub content: Seq<char>,
}

impl View for VaultEntry {
    type V = EntryModel;

    open spec fn view(&self) -> EntryModel {
        EntryModel { filename: self.filename@, content: self.content@ }
    }
}

/// The entries a sequence of `VaultEntry` values denotes, in order.
pub open spec fn entries_view(es: Seq<VaultEntry>) -> Seq<EntryModel> {
    es.map_values(|e: VaultEntry| e@)
}

/// Whether a load picks a child up: it is a regular file and its name
/// follows the note filename convention.
pub open spec fn is_note_file(c: ChildModel) -> bool {
    c.content is Some && spec_is_note_filename(c.name)
}

/// The entry a regular-file child yields.
pub open spec fn entry_of(c: ChildModel) -> EntryModel {
    EntryModel { filename: c.name, content: c.content->0 }
}

/// What a load returns for a listing: one entry per child that
/// `is_note_file` accepts, in enumeration order.
pub open spec fn scan(cs: Seq<ChildModel>) -> Seq<EntryModel>
    decreases cs.len(),
{
    if cs.len() == 0 {
        Seq::empty()
    } else if is_note_file(cs.last()) {
        scan(cs.drop_last()).push(entry_of(cs.last()))
    } else {
        scan(cs.drop_last())
    }
}

/// The child a written entry leaves on disk.
pub open spec fn note_child(e: EntryModel) -> ChildModel {
    ChildModel { name: e.filename, content: Some(e.content) }
}

/// Writing the file `name` must fail when a child of that name exists and
/// is not a regular file.
pub open spec fn write_blocked(cs: Seq<ChildModel>, name: Seq<char>) -> bool {
    has_child(cs, name) && cs[child_index(cs, name)].content is None
}

/// The listing after writing `e`: the child of that name is replaced in
/// place, and a new child is appended when none of that name exists.
pub open spec fn write_to(cs: Seq<ChildModel>, e: EntryModel) -> Seq<ChildModel> {
    if has_child(cs, e.filename) {
        cs.update(child_index(cs, e.filename), note_child(e))
    } else {
        cs.push(note_child(e))
    }
}

/// The listing an operation works on: the existing one, or the empty one
/// that provisioning creates when the directory does not exist.
pub open spec fn provisioned(d: Option<Directory>) -> Seq<ChildModel> {
    match d {
        Some(dir) => dir@,
        None => Seq::empty(),
    }
}

/// The vault as loaded from a directory: its entries, in enumeration
/// order.
#[derive(Debug)]
pub struct Vault {
    entries: Vec<VaultEntry>,
}

impl View for Vault {
    type V = Seq<EntryModel>;

    closed spec fn view(&self) -> Seq<EntryModel> {
        entries_view(self.entries@)
    }
}

/// Collects the entries of every child that `is_note_file` accepts, in
/// order.
fn scan_children(children: &Vec<Child>) -> (entries: Vec<VaultEntry>)
    ensures
        entries_view(entries@) == scan(children_view(children@)),
{
    let ghost cs = children_view(children@);
    let mut entries: Vec<VaultEntry> = Vec::new();
    let n = children.len();
    for i in 0..n
        invariant
            n == children.len(),
            cs == children_view(children@),
            entries_view(entries@) == scan(cs.take(i as int)),
    {
        let child = &children[i];
        proof {
            assert(cs.take(i + 1).drop_last() =~= cs.take(i as int));
            assert(cs.take(i + 1).last() == cs[i as int]);
        }
        match &child.node {
            Node::File(content) => {
                if is_note_filename(child.name.as_str()) {
                    let entry = VaultEntry {
                        filename: child.name.clone(),
                        content: content.clone(),
                    };
                    let ghost before = entries@;
                    entries.push(entry);
                    proof {
                        assert(entries_view(entries@) =~= entries_view(before).push(entry@));
                    }
                } else {
                    assert(!is_note_file(cs[i as int]));
                }
            },
            Node::Other => {
                assert(!is_note_file(cs[i as int]));
            },
        }
    }
    proof {
        assert(cs.take(n as int) =~= cs);
    }
    entries
}

/// Writes `entry`'s content to the file named by its filename within
/// `dir`, overwriting an existing regular file of that name in full.
fn write_file(dir: &mut Directory, entry: &VaultEntry) -> (r: Result<(), Error>)
    requires
        unique_names(old(dir)@),
    ensures
        unique_names(final(dir)@),
        write_blocked(old(dir)@, entry@.filename) ==> r is Err && r->Err_0 is Io && final(dir)@
            == old(dir)@,
        !write_blocked(old(dir)@, entry@.filename) ==> r is Ok && final(dir)@ == write_to(
            old(dir)@,
            entry@,
        ),
{
    let n = dir.children.len();
    let mut idx: Option<usize> = None;
    for i in 0..n
        invariant
            *dir == *old(dir),
            n == dir.children.len(),
            unique_names(dir@),
            match idx {
                Some(k) => (k as int) < n && dir@[k as int].name == entry@.filename,
                None => forall|j: int| 0 <= j < i ==> dir@[j].name != entry@.filename,
            },
    {
        if idx.is_none() && dir.children[i].name == entry.filename {
            idx = Some(i);
        }
    }
    let new_child = Child {
        name: entry.filename.clone(),
        node: Node::File(entry.content.clone()),
    };
    match idx {
        Some(i) => {
            proof {
                lemma_child_index_is(dir@, entry@.filename, i as int);
            }
            let is_file = match &dir.children[i].node {
                Node::File(_) => true,
                Node::Other => false,
            };
            if is_file {
                dir.children[i] = new_child;
                proof {
                    assert(dir@ =~= old(dir)@.update(i as int, note_child(entry@)));
                    assert forall|p: int, q: int|
                        0 <= p < q < dir@.len() implies dir@[p].name != dir@[q].name by {
                        assert(old(dir)@[p].name != old(dir)@[q].name);
                    }
                }
                Ok(())
            } else {
                Err(Error::Io(String::from_str("not a regular file: ").concat(
                    entry.filename.as_str(),
                )))
            }
        },
        None => {
            assert(!has_child(dir@, entry@.filename));
            let ghost before = dir@;
            dir.children.push(new_child);
            proof {
                assert(dir@ =~= before.push(note_child(entry@)));
                assert forall|p: int, q: int|
                    0 <= p < q < dir@.len() implies dir@[p].name != dir@[q].name by {
                    if q < before.len() {
                        assert(before[p].name != before[q].name);
                    } else {
                        assert(!(before[p].name == entry@.filename));
                    }
                }
            }
            Ok(())
        },
    }
}

impl Vault {
    /// Loads the vault from the directory: provisions a missing directory
    /// as empty, then returns one entry per regular file whose name
    /// follows the note filename convention, in enumeration order, with
    /// its full content.  Children that fail the name or file-type filter
    /// are skipped silently.
    pub fn load(directory: &mut Option<Directory>) -> (v: Vault)
        ensures
            *final(directory) is Some,
            *old(directory) is Some ==> *final(directory) == *old(directory),
            *old(directory) is None ==> provisioned(*final(directory)) =~= Seq::<
                ChildModel,
            >::empty(),
            v@ == scan(provisioned(*final(directory))),
            *old(directory) is None ==> v@ =~= Seq::<EntryModel>::empty(),
    {
        match directory {
            Some(dir) => Vault { entries: scan_children(&dir.children) },
            None => {
                *directory = Some(Directory::new());
                Vault { entries: Vec::new() }
            },
        }
    }

    /// Persists one entry under the directory: provisions a missing
    /// directory as empty, then writes the entry's content to the file
    /// named by its filename, overwriting an existing regular file of that
    /// name in full.  The filename is taken as given — it is not held to
    /// the note filename convention.  The one failure the model can
    /// express is a child of that name that is not a regular file.
    pub fn write_entry(directory: &mut Option<Directory>, entry: &VaultEntry) -> (r: Result<
        (),
        Error,
    >)
        requires
            unique_names(provisioned(*old(directory))),
        ensures
            *final(directory) is Some,
            unique_names(provisioned(*final(directory))),
            write_blocked(provisioned(*old(directory)), entry@.filename) ==> r is Err
                && r->Err_0 is Io && provisioned(*final(directory)) == provisioned(
                *old(directory),
            ),
            !write_blocked(provisioned(*old(directory)), entry@.filename) ==> r is Ok
                && provisioned(*final(directory)) == write_to(
                provisioned(*old(directory)),
                entry@,
            ),
    {
        match directory {
            Some(dir) => write_file(dir, entry),
            None => {
                let mut dir = Directory::new();
                let r = write_file(&mut dir, entry);
                *directory = Some(dir);
                r
            },
        }
    }

    /// The loaded entries, in enumeration order.
    pub fn entries(&self) -> (r: &[VaultEntry])
        ensures
            entries_view(r@) == self@,
    {
        self.entries.as_slice()
    }
}

} // verus!
