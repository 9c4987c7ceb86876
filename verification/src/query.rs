//! What the library asks of the filesystem, and what it is told in return.
//!
//! The library never touches the filesystem. Where an operation needs more
//! than one system call, it names each call as a [`Request`], and the caller
//! performs it and hands back the matching [`Reply`].

use vstd::prelude::*;

use crate::node::{path_of, Node};

verus! {

/// The type of a file, as far as the hierarchy cares.
#[derive(Clone, Copy, Debug, PartialEq, Eq, Structural)]
pub enum FileKind {
    /// A directory.
    Directory,
    /// A symbolic link that was not followed.
    Symlink,
    /// Anything else: a regular file, a device, a socket.
    Other,
}

/// One system call that the caller is asked to make.
#[derive(Clone, Debug)]
pub enum Request {
    /// Query the metadata of the path, following symbolic links.
    /// Answered by [`Reply::Kind`].
    Metadata(String),
    /// Create exactly this directory; its parent must exist.
    /// Answered by [`Reply::Created`].
    CreateDir(String),
    /// Read the target of the symbolic link at the path.
    /// Answered by [`Reply::Target`].
    ReadLink(String),
    /// Read the next entry of the open directory listing.
    /// Answered by [`Reply::Entry`] or [`Reply::End`].
    NextEntry,
}

/// The mathematical value of a [`Request`].
pub enum RequestView {
    Metadata(Seq<char>),
    CreateDir(Seq<char>),
    ReadLink(Seq<char>),
    NextEntry,
}

impl View for Request {
    type V = RequestView;

    open spec fn view(&self) -> RequestView {
        match *self {
            Request::Metadata(path) => RequestView::Metadata(path@),
            Request::CreateDir(path) => RequestView::CreateDir(path@),
            Request::ReadLink(path) => RequestView::ReadLink(path@),
            Request::NextEntry => RequestView::NextEntry,
        }
    }
}

impl PartialEq for Request {
    fn eq(&self, other: &Request) -> (equal: bool) {
        match (self, other) {
            (Request::Metadata(a), Request::Metadata(b)) => *a == *b,
            (Request::CreateDir(a), Request::CreateDir(b)) => *a == *b,
            (Request::ReadLink(a), Request::ReadLink(b)) => *a == *b,
            (Request::NextEntry, Request::NextEntry) => true,
            _ => false,
        }
    }
}

impl vstd::std_specs::cmp::PartialEqSpecImpl for Request {
    open spec fn obeys_eq_spec() -> bool {
        true
    }

    open spec fn eq_spec(&self, other: &Request) -> bool {
        self@ == other@
    }
}

/// What the filesystem answered to a [`Request`].
#[derive(Clone, Debug)]
pub enum Reply {
    /// The kind of the file that the path resolves to, or `None` where the
    /// query failed for any reason.
    Kind(Option<FileKind>),
    /// Whether the directory was created.
    Created(bool),
    /// The target of the link, or `None` where it could not be read.
    Target(Option<String>),
    /// The file name of the next entry, or `None` where reading it failed.
    Entry(Option<String>),
    /// The listing has no further entry.
    End,
}

/// The mathematical value of a [`Reply`].
pub enum ReplyView {
    Kind(Option<FileKind>),
    Created(bool),
    Target(Option<Seq<char>>),
    Entry(Option<Seq<char>>),
    End,
}

/// The characters of an optional string.
pub open spec fn chars_of(text: Option<String>) -> Option<Seq<char>> {
    match text {
        Some(s) => Some(s@),
        None => None,
    }
}

impl View for Reply {
    type V = ReplyView;

    open spec fn view(&self) -> ReplyView {
        match *self {
            Reply::Kind(kind) => ReplyView::Kind(kind),
            Reply::Created(created) => ReplyView::Created(created),
            Reply::Target(target) => ReplyView::Target(chars_of(target)),
            Reply::Entry(name) => ReplyView::Entry(chars_of(name)),
            Reply::End => ReplyView::End,
        }
    }
}

impl ReplyView {
    /// The file kind that the reply reports. A reply that reports none, or
    /// that answers another request, counts as a failed query.
    pub open spec fn kind(self) -> Option<FileKind> {
        match self {
            ReplyView::Kind(kind) => kind,
            _ => None,
        }
    }

    /// Whether the reply reports that the directory was created.
    pub open spec fn created(self) -> bool {
        self == ReplyView::Created(true)
    }

    /// The link target that the reply reports, if it reports one.
    pub open spec fn target(self) -> Option<Seq<char>> {
        match self {
            ReplyView::Target(target) => target,
            _ => None,
        }
    }
}

fn same_text(a: &Option<String>, b: &Option<String>) -> (equal: bool)
    ensures
        equal == (chars_of(*a) == chars_of(*b)),
{
    match (a, b) {
        (Some(x), Some(y)) => *x == *y,
        (None, None) => true,
        _ => false,
    }
}

impl PartialEq for Reply {
    fn eq(&self, other: &Reply) -> (equal: bool) {
        match (self, other) {
            (Reply::Kind(a), Reply::Kind(b)) => match (a, b) {
                (Some(x), Some(y)) => *x == *y,
                (None, None) => true,
                _ => false,
            },
            (Reply::Created(a), Reply::Created(b)) => *a == *b,
            (Reply::Target(a), Reply::Target(b)) => same_text(a, b),
            (Reply::Entry(a), Reply::Entry(b)) => same_text(a, b),
            (Reply::End, Reply::End) => true,
            _ => false,
        }
    }
}

impl vstd::std_specs::cmp::PartialEqSpecImpl for Reply {
    open spec fn obeys_eq_spec() -> bool {
        true
    }

    open spec fn eq_spec(&self, other: &Reply) -> bool {
        self@ == other@
    }
}

/// The mathematical value of an optional request.
pub open spec fn request_of(request: Option<Request>) -> Option<RequestView> {
    match request {
        Some(r) => Some(r@),
        None => None,
    }
}

/// Where an exchange stands after a reply.
#[derive(Clone, Debug)]
pub enum Progress {
    /// The exchange waits on another request.
    Pending,
    /// The exchange has a result: a node, or none.
    Ready(Option<Node>),
}

/// The mathematical value of a [`Progress`].
pub enum ProgressView {
    Pending,
    Ready(Option<Seq<char>>),
}

impl View for Progress {
    type V = ProgressView;

    open spec fn view(&self) -> ProgressView {
        match *self {
            Progress::Pending => ProgressView::Pending,
            Progress::Ready(node) => ProgressView::Ready(path_of(node)),
        }
    }
}

impl PartialEq for Progress {
    fn eq(&self, other: &Progress) -> (equal: bool) {
        match (self, other) {
            (Progress::Pending, Progress::Pending) => true,
            (Progress::Ready(a), Progress::Ready(b)) => match (a, b) {
                (Some(x), Some(y)) => *x == *y,
                (None, None) => true,
                _ => false,
            },
            _ => false,
        }
    }
}

impl vstd::std_specs::cmp::PartialEqSpecImpl for Progress {
    open spec fn obeys_eq_spec() -> bool {
        true
    }

    open spec fn eq_spec(&self, other: &Progress) -> bool {
        self@ == other@
    }
}

} // verus!
