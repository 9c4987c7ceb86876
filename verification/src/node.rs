//! A node of the hierarchy: the path of one directory.

use vstd::prelude::*;
use vstd::string::*;

use crate::children::Childrens;
use crate::lookup::GetOrCreate;
use crate::path::{join, join_path};
use crate::query::FileKind;

verus! {

/// One directory of the hierarchy, known by its path alone.
///
/// A node caches nothing of the filesystem: it may name a directory that
/// does not exist, and two nodes are equal exactly when their paths are.
#[derive(Debug)]
pub struct Node {
    path: String,
}

impl View for Node {
    type V = Seq<char>;

    /// The path of the node.
    closed spec fn view(&self) -> Seq<char> {
        self.path@
    }
}

impl Clone for Node {
    fn clone(&self) -> (copy: Node)
        ensures
            copy@ == self@,
    {
        Node { path: self.path.clone() }
    }
}

impl PartialEq for Node {
    fn eq(&self, other: &Node) -> (equal: bool) {
        self.path == other.path
    }
}

impl vstd::std_specs::cmp::PartialEqSpecImpl for Node {
    open spec fn obeys_eq_spec() -> bool {
        true
    }

    open spec fn eq_spec(&self, other: &Node) -> bool {
        self@ == other@
    }
}

/// The path of an optional node.
pub open spec fn path_of(node: Option<Node>) -> Option<Seq<char>> {
    match node {
        Some(n) => Some(n@),
        None => None,
    }
}

/// How a node with the given path is written for a reader: `<Node PATH>`.
pub open spec fn display(path: Seq<char>) -> Seq<char> {
    seq!['<', 'N', 'o', 'd', 'e', ' '] + path + seq!['>']
}

/// The child that a metadata query reveals: the joined path where the
/// query found a directory, and nothing where it failed or found any
/// other kind of file.
pub open spec fn found_child(parent: Seq<char>, name: Seq<char>, found: Option<FileKind>) -> Option<
    Seq<char>,
> {
    if found == Some(FileKind::Directory) {
        Some(join(parent, name))
    } else {
        None
    }
}

/// The removal that deleting a node asks for.
#[derive(Clone, Debug)]
pub struct Removal {
    /// The directory to remove.
    pub path: String,
    /// Whether to remove the directory with all that it holds, or only if
    /// it is empty.
    pub recursive: bool,
}

impl Node {
    /// A node for `path`. The path is taken as it is: whether it exists is
    /// not looked at.
    pub fn new(path: &str) -> (node: Node)
        ensures
            node@ == path@,
    {
        Node { path: path.to_owned() }
    }

    /// The path of the node.
    pub fn path(&self) -> (path: &str)
        ensures
            path@ == self@,
    {
        self.path.as_str()
    }

    /// The node written for a reader, as `<Node PATH>`.
    pub fn to_string(&self) -> (text: String)
        ensures
            text@ == display(self@),
    {
        proof {
            reveal_strlit("<Node ");
            reveal_strlit(">");
        }
        let mut text = "<Node ".to_owned();
        text.append(self.path.as_str());
        text.append(">");
        assert(text@ =~= display(self@));
        text
    }

    /// The path of the child `name` of this node.
    pub fn child_path(&self, name: &str) -> (path: String)
        ensures
            path@ == join(self@, name@),
    {
        join_path(self.path.as_str(), name)
    }

    /// The child `name`, given the outcome of creating the one directory at
    /// [`Node::child_path`]. Where the directory was created the child is
    /// returned; where it was not, the error comes back as it was given.
    pub fn create_child<E>(&self, name: &str, created: Result<(), E>) -> (child: Result<Node, E>)
        ensures
            match created {
                Ok(_) => child matches Ok(node) && node@ == join(self@, name@),
                Err(error) => child matches Err(e) && e == error,
            },
    {
        match created {
            Ok(_) => Ok(Node { path: self.child_path(name) }),
            Err(error) => Err(error),
        }
    }

    /// The child `name`, given what a metadata query on
    /// [`Node::child_path`] found: the kind of the file that the path
    /// resolves to, or `None` where the query failed. Only a directory makes
    /// a child; every other answer gives `None`.
    pub fn get_child(&self, name: &str, found: Option<FileKind>) -> (child: Option<Node>)
        ensures
            path_of(child) == found_child(self@, name@, found),
    {
        match found {
            Some(FileKind::Directory) => Some(Node { path: self.child_path(name) }),
            _ => None,
        }
    }

    /// Begins to look the child `name` up, creating it if nothing is there.
    ///
    /// The exchange that is returned first asks whether the child's path
    /// exists; see [`GetOrCreate`] for how it goes on.
    pub fn get_or_create_child(&self, name: &str) -> (lookup: GetOrCreate)
        ensures
            lookup@ == crate::lookup::LookupView::start(join(self@, name@)),
    {
        GetOrCreate::start(self.child_path(name))
    }

    /// Gives the node up for deletion and says which removal that takes:
    /// of the node's directory, with all that it holds if `full` is set and
    /// only if it is empty otherwise.
    pub fn delete(self, full: bool) -> (removal: Removal)
        ensures
            removal.path@ == self@,
            removal.recursive == full,
    {
        Removal { path: self.path, recursive: full }
    }

    /// The enumeration of this node's child directories, given the outcome
    /// of opening a listing of [`Node::path`]. Where the listing was opened
    /// the enumeration takes it over and starts before its first entry;
    /// where it was not, the error comes back as it was given.
    pub fn children<L, E>(&self, opened: Result<L, E>) -> (enumeration: Result<Childrens<L>, E>)
        ensures
            match opened {
                Ok(listing) => enumeration matches Ok(children) && children@
                    == crate::children::ChildrensView::start(self@) && children.handle()
                    == listing,
                Err(error) => enumeration matches Err(e) && e == error,
            },
    {
        match opened {
            Ok(listing) => Ok(Childrens::start(self.path.as_str(), listing)),
            Err(error) => Err(error),
        }
    }
}

} // verus!
