//! A plain-value model of the vault directory on disk.
//!
//! The store never walks a filesystem itself: the surrounding application
//! enumerates the vault directory and hands the store a [`Directory`]
//! snapshot, a flat list of named children in enumeration order.  Each child
//! is either a regular file with its full text content, or something else (a
//! subdirectory, or a symlink that does not lead to a regular file).

use vstd::prelude::*;

verus! {

/// What one directory child is, as far as the store cares.
#[derive(Clone, Debug, PartialEq, Eq)]
pub enum Node {
    /// A regular file, with its full content as UTF-8 text.
    File(String),
    /// Anything that is not a regular file: a subdirectory, or a symlink
    /// that does not lead to a regular file.
    Other,
}

/// One named child of the vault directory.
#[derive(Clone, Debug, PartialEq, Eq)]
pub struct Child {
    /// The child's base name within the directory.
    pub name: String,
    /// What the child is.
    pub node: Node,
}

/// The mathematical value of one child: its name, and its content exactly
/// when it is a regular file.
pub ghost struct ChildModel {
    pub name: Seq<char>,
    pub content: Option<Seq<char>>,
}

impl View for Child {
    type V = ChildModel;

    open spec fn view(&self) -> ChildModel {
        ChildModel {
            name: self.name@,
            content: match self.node {
                Node::File(content) => Some(content@),
                Node::Other => None,
            },
        }
    }
}

/// A snapshot of the vault directory: its direct children, in enumeration
/// order.  The order is whatever the platform's directory iteration gave;
/// nothing here assumes it is sorted.
#[derive(Clone, Debug, PartialEq, Eq)]
pub struct Directory {
    /// The direct children, in enumeration order.
    pub children: Vec<Child>,
}

/// The listing a sequence of children denotes: each child's mathematical
/// value, in the same order.
pub open spec fn children_view(cs: Seq<Child>) -> Seq<ChildModel> {
    cs.map_values(|c: Child| c@)
}

impl View for Directory {
    type V = Seq<ChildModel>;

    open spec fn view(&self) -> Seq<ChildModel> {
        children_view(self.children@)
    }
}

/// A real directory never holds two children of the same name; every
/// snapshot taken from disk satisfies this.
pub open spec fn unique_names(cs: Seq<ChildModel>) -> bool {
    forall|i: int, j: int| 0 <= i < j < cs.len() ==> cs[i].name != cs[j].name
}

/// Whether some child is named `name`.
pub open spec fn has_child(cs: Seq<ChildModel>, name: Seq<char>) -> bool {
    exists|i: int| 0 <= i < cs.len() && cs[i].name == name
}

/// The position of the child named `name`; meaningful when `has_child`
/// holds, and unique under `unique_names`.
pub open spec fn child_index(cs: Seq<ChildModel>, name: Seq<char>) -> int {
    choose|i: int| 0 <= i < cs.len() && cs[i].name == name
}

/// The content of the regular file `name`: `None` when no child has that
/// name, or when the child of that name is not a regular file.
pub open spec fn file_content(cs: Seq<ChildModel>, name: Seq<char>) -> Option<Seq<char>> {
    if has_child(cs, name) {
        cs[child_index(cs, name)].content
    } else {
        None
    }
}

/// Under `unique_names`, a child named `name` at position `i` is the child
/// that `child_index` picks.
pub proof fn lemma_child_index_is(cs: Seq<ChildModel>, name: Seq<char>, i: int)
    requires
        unique_names(cs),
        0 <= i < cs.len(),
        cs[i].name == name,
    ensures
        has_child(cs, name),
        child_index(cs, name) == i,
{
    assert(has_child(cs, name));
    let j = child_index(cs, name);
    if i != j {
        assert(cs[i].name != cs[j].name);
    }
}

impl Directory {
    /// A fresh, empty directory, as created when the vault directory did
    /// not yet exist.
    pub fn new() -> (d: Directory)
        ensures
            d@ =~= Seq::<ChildModel>::empty(),
    {
        Directory { children: Vec::new() }
    }

    /// Looks up the child named `name` and returns its content when it is a
    /// regular file.
    pub fn read_file(&self, name: &String) -> (r: Option<&String>)
        requires
            unique_names(self@),
        ensures
            match r {
                Some(content) => file_content(self@, name@) == Some(content@),
                None => file_content(self@, name@) is None,
            },
    {
        let n = self.children.len();
        for i in 0..n
            invariant
                n == self.children.len(),
                unique_names(self@),
                forall|j: int| 0 <= j < i ==> self@[j].name != name@,
        {
            if self.children[i].name == *name {
                proof {
                    lemma_child_index_is(self@, name@, i as int);
                }
                match &self.children[i].node {
                    Node::File(content) => {
                        return Some(content);
                    },
                    Node::Other => {
                        return None;
                    },
                }
            }
        }
        assert(!has_child(self@, name@));
        None
    }
}

} // verus!
