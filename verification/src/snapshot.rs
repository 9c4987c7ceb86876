//! A filesystem that holds still, and what the library makes of it.
//!
//! The library's exchanges are defined reply by reply. This module says
//! what they amount to when every reply comes from one unchanging
//! filesystem: it runs an enumeration against such a filesystem, and states
//! independently which children that filesystem has.

use vstd::prelude::*;

use crate::children::{ChildrensView, Scan, MAX_LINK_HOPS};
use crate::path::join;
use crate::query::{FileKind, ProgressView, ReplyView, RequestView};

verus! {

/// What a filesystem answers at one moment.
pub struct Snapshot {
    /// The kind of the file that each path resolves to. A path that is
    /// missing here is one whose metadata cannot be had.
    pub kinds: Map<Seq<char>, FileKind>,
    /// The target of the link at each path. A path that is missing here is
    /// one whose link cannot be read.
    pub targets: Map<Seq<char>, Seq<char>>,
}

/// The entries of a directory in the order in which they are read. An
/// entry is its file name, or `None` where reading it fails.
pub type Listing = Seq<Option<Seq<char>>>;

impl Snapshot {
    /// The answer to a metadata query on `path`.
    pub open spec fn kind(self, path: Seq<char>) -> Option<FileKind> {
        if self.kinds.contains_key(path) {
            Some(self.kinds[path])
        } else {
            None
        }
    }

    /// The answer to reading the link at `path`.
    pub open spec fn target(self, path: Seq<char>) -> Option<Seq<char>> {
        if self.targets.contains_key(path) {
            Some(self.targets[path])
        } else {
            None
        }
    }

    /// Whether `path` is a directory, or a link that leads to one through
    /// at most `budget` further links.
    pub open spec fn leads_to_directory(self, path: Seq<char>, budget: nat) -> bool
        decreases budget,
    {
        match self.kind(path) {
            Some(FileKind::Directory) => true,
            Some(FileKind::Symlink) => budget > 0 && match self.target(path) {
                Some(target) => self.leads_to_directory(target, (budget - 1) as nat),
                None => false,
            },
            _ => false,
        }
    }

    /// Whether the entry `name` of the directory `parent` is a child
    /// directory.
    pub open spec fn is_child(self, parent: Seq<char>, name: Seq<char>) -> bool {
        self.leads_to_directory(join(parent, name), MAX_LINK_HOPS as nat)
    }

    /// Whether `entry` was read and is a child directory of `parent`.
    pub open spec fn is_child_entry(self, parent: Seq<char>, entry: Option<Seq<char>>) -> bool {
        entry matches Some(name) && self.is_child(parent, name)
    }

    /// The test that keeps the entries that are child directories of
    /// `parent`.
    pub open spec fn child_entries(self, parent: Seq<char>) -> spec_fn(Option<Seq<char>>) -> bool {
        |entry: Option<Seq<char>>| self.is_child_entry(parent, entry)
    }

    /// The child directories of `parent`, whose entries are `listing`: the
    /// paths of the entries that are child directories, in the order of
    /// the listing, as far as the listing can be read.
    pub open spec fn children_of(self, parent: Seq<char>, listing: Listing) -> Seq<Seq<char>>
        decreases listing.len(),
    {
        if listing.len() == 0 {
            Seq::empty()
        } else {
            match listing.first() {
                None => Seq::empty(),
                Some(name) => {
                    let rest = self.children_of(parent, listing.drop_first());
                    if self.is_child(parent, name) {
                        seq![join(parent, name)] + rest
                    } else {
                        rest
                    }
                },
            }
        }
    }

    /// The answer to `request`, with `listing` being what is left to read
    /// of the open directory.
    pub open spec fn reply(self, request: RequestView, listing: Listing) -> ReplyView {
        match request {
            RequestView::Metadata(path) => ReplyView::Kind(self.kind(path)),
            RequestView::ReadLink(path) => ReplyView::Target(self.target(path)),
            RequestView::NextEntry => if listing.len() == 0 {
                ReplyView::End
            } else {
                ReplyView::Entry(listing.first())
            },
            RequestView::CreateDir(_) => ReplyView::Created(false),
        }
    }

    /// All that `state` hands out from here on, when each of its requests
    /// is performed and answered by this filesystem until it finishes.
    pub open spec fn enumerate(self, state: ChildrensView, listing: Listing) -> Seq<Seq<char>>
        decreases listing.len(), steps_left(state.scan),
    {
        match state.request() {
            None => Seq::empty(),
            Some(request) => {
                let reply = self.reply(request, listing);
                let rest = unread(request, listing);
                match state.progress(reply) {
                    ProgressView::Ready(None) => Seq::empty(),
                    ProgressView::Ready(Some(child)) => seq![child] + self.enumerate(
                        state.next(reply),
                        rest,
                    ),
                    ProgressView::Pending => self.enumerate(state.next(reply), rest),
                }
            },
        }
    }
}

/// Whether every entry of `listing` can be read.
pub open spec fn readable(listing: Listing) -> bool {
    forall|i: int| 0 <= i < listing.len() ==> (#[trigger] listing[i]) is Some
}

/// The path of `entry` below `parent`.
pub open spec fn entry_path(parent: Seq<char>, entry: Option<Seq<char>>) -> Seq<char> {
    match entry {
        Some(name) => join(parent, name),
        None => parent,
    }
}

/// The function that takes each entry to its path below `parent`.
pub open spec fn entry_paths(parent: Seq<char>) -> spec_fn(Option<Seq<char>>) -> Seq<char> {
    |entry: Option<Seq<char>>| entry_path(parent, entry)
}

/// What is left of `listing` once `request` was answered.
pub open spec fn unread(request: RequestView, listing: Listing) -> Listing {
    if request == RequestView::NextEntry && listing.len() > 0 {
        listing.drop_first()
    } else {
        listing
    }
}

/// A bound on the number of requests that an enumeration makes before it
/// reads the next entry.
pub open spec fn steps_left(scan: Scan) -> nat {
    match scan {
        Scan::Listing => 0,
        Scan::Testing { budget, .. } => 2 * budget + 2,
        Scan::Following { budget, .. } => 2 * budget + 3,
        Scan::Finished => 0,
    }
}

} // verus!
