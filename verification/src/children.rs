//! Enumerating the child directories of a node.

use vstd::prelude::*;
use vstd::string::*;

use crate::node::Node;
use crate::path::{join, join_path};
use crate::query::{FileKind, Progress, ProgressView, Reply, ReplyView, Request, RequestView};

verus! {

/// How many symbolic links are followed, one after the other, before an
/// entry is given up as not being a directory. A chain of links that leads
/// back into itself ends here.
pub const MAX_LINK_HOPS: usize = 40;

/// What an enumeration is doing.
pub enum Scan {
    /// Waiting for the next entry of the listing.
    Listing,
    /// Waiting for the kind of the file at `probe`, to learn whether
    /// `entry` is a directory. `budget` further links may be followed.
    Testing { entry: Seq<char>, probe: Seq<char>, budget: nat },
    /// Waiting for the target of the link at `probe`.
    Following { entry: Seq<char>, probe: Seq<char>, budget: nat },
    /// The listing has ended, or reading it has failed.
    Finished,
}

/// The mathematical value of a [`Childrens`].
pub struct ChildrensView {
    /// The path of the node whose children are enumerated.
    pub parent: Seq<char>,
    /// What the enumeration is doing.
    pub scan: Scan,
}

impl ChildrensView {
    /// An enumeration below `parent` that has read no entry yet.
    pub open spec fn start(parent: Seq<char>) -> ChildrensView {
        ChildrensView { parent, scan: Scan::Listing }
    }

    /// The request that the enumeration waits on, if it is not finished.
    pub open spec fn request(self) -> Option<RequestView> {
        match self.scan {
            Scan::Listing => Some(RequestView::NextEntry),
            Scan::Testing { probe, .. } => Some(RequestView::Metadata(probe)),
            Scan::Following { probe, .. } => Some(RequestView::ReadLink(probe)),
            Scan::Finished => None,
        }
    }

    /// What the enumeration does after `reply` has answered its request.
    ///
    /// An entry that was read is tested at its own path below the parent.
    /// A directory ends the test, and so does every answer that rules the
    /// entry out: a failed query, a file that is neither directory nor
    /// link, a link whose target cannot be read, or a link met when the
    /// budget is spent. A link within the budget is followed, and its
    /// target is tested in the entry's place. The end of the listing, and
    /// a failure to read an entry, finish the enumeration for good.
    pub open spec fn next(self, reply: ReplyView) -> ChildrensView {
        let scan = match self.scan {
            Scan::Listing => match reply {
                ReplyView::Entry(Some(name)) => Scan::Testing {
                    entry: join(self.parent, name),
                    probe: join(self.parent, name),
                    budget: MAX_LINK_HOPS as nat,
                },
                _ => Scan::Finished,
            },
            Scan::Testing { entry, probe, budget } => if reply.kind() == Some(FileKind::Symlink)
                && budget > 0 {
                Scan::Following { entry, probe, budget: (budget - 1) as nat }
            } else {
                Scan::Listing
            },
            Scan::Following { entry, probe, budget } => match reply.target() {
                Some(target) => Scan::Testing { entry, probe: target, budget },
                None => Scan::Listing,
            },
            Scan::Finished => Scan::Finished,
        };
        ChildrensView { parent: self.parent, scan }
    }

    /// What the enumeration hands out when `reply` has answered its
    /// request: the entry under test once it is found to be a directory,
    /// nothing once the enumeration is finished, and no result yet in
    /// every other case.
    pub open spec fn progress(self, reply: ReplyView) -> ProgressView {
        match self.scan {
            Scan::Listing => match reply {
                ReplyView::Entry(Some(_)) => ProgressView::Pending,
                _ => ProgressView::Ready(None),
            },
            Scan::Testing { entry, .. } => if reply.kind() == Some(FileKind::Directory) {
                ProgressView::Ready(Some(entry))
            } else {
                ProgressView::Pending
            },
            Scan::Following { .. } => ProgressView::Pending,
            Scan::Finished => ProgressView::Ready(None),
        }
    }
}

/// Which request an enumeration waits on.
#[derive(Clone, Copy, Debug, PartialEq, Eq, Structural)]
enum Phase {
    Listing,
    Testing,
    Following,
    Finished,
}

/// The child directories of a node, one at a time.
///
/// The enumeration owns the open listing `L` that its entries are read
/// from, and gives it up when it is dropped. It reads the listing lazily
/// and only once. The caller performs [`Childrens::request`], on
/// [`Childrens::listing`] where an entry is asked for, hands the answer to
/// [`Childrens::next`], and repeats. Each [`Progress::Ready`] that holds a
/// node is one child; the one that holds none is the end, after which
/// nothing is requested any more.
#[derive(Debug)]
pub struct Childrens<L> {
    listing: L,
    parent: String,
    phase: Phase,
    entry: String,
    probe: String,
    budget: usize,
}

impl<L> View for Childrens<L> {
    type V = ChildrensView;

    closed spec fn view(&self) -> ChildrensView {
        let scan = match self.phase {
            Phase::Listing => Scan::Listing,
            Phase::Testing => Scan::Testing {
                entry: self.entry@,
                probe: self.probe@,
                budget: self.budget as nat,
            },
            Phase::Following => Scan::Following {
                entry: self.entry@,
                probe: self.probe@,
                budget: self.budget as nat,
            },
            Phase::Finished => Scan::Finished,
        };
        ChildrensView { parent: self.parent@, scan }
    }
}

impl<L> Childrens<L> {
    /// The open listing that the enumeration reads from.
    pub closed spec fn handle(&self) -> L {
        self.listing
    }

    /// An enumeration of the children of the node at `parent`, placed
    /// before the first entry of the freshly opened `listing`.
    pub fn start(parent: &str, listing: L) -> (children: Childrens<L>)
        ensures
            children@ == ChildrensView::start(parent@),
            children.handle() == listing,
    {
        Childrens {
            listing,
            parent: parent.to_owned(),
            phase: Phase::Listing,
            entry: String::new(),
            probe: String::new(),
            budget: 0,
        }
    }

    /// The open listing, for the caller to read the next entry from.
    /// Reading from it does not change what the enumeration is doing.
    pub fn listing(&mut self) -> (listing: &mut L)
        ensures
            *listing == old(self).handle(),
            final(self).handle() == *final(listing),
            final(self)@ == old(self)@,
    {
        &mut self.listing
    }

    /// The system call that the enumeration waits on, or `None` once it
    /// has finished.
    pub fn request(&self) -> (request: Option<Request>)
        ensures
            crate::query::request_of(request) == self@.request(),
    {
        match self.phase {
            Phase::Listing => Some(Request::NextEntry),
            Phase::Testing => Some(Request::Metadata(self.probe.clone())),
            Phase::Following => Some(Request::ReadLink(self.probe.clone())),
            Phase::Finished => None,
        }
    }

    /// Takes the answer to [`Childrens::request`] and says whether a child
    /// was found, the enumeration has ended, or more has to be asked.
    pub fn next(&mut self, reply: Reply) -> (progress: Progress)
        ensures
            final(self)@ == old(self)@.next(reply@),
            final(self).handle() == old(self).handle(),
            progress@ == old(self)@.progress(reply@),
    {
        match self.phase {
            Phase::Listing => match reply {
                Reply::Entry(Some(name)) => {
                    let path = join_path(self.parent.as_str(), name.as_str());
                    self.probe = path.clone();
                    self.entry = path;
                    self.budget = MAX_LINK_HOPS;
                    self.phase = Phase::Testing;
                    Progress::Pending
                },
                _ => {
                    self.phase = Phase::Finished;
                    Progress::Ready(None)
                },
            },
            Phase::Testing => match reply {
                Reply::Kind(Some(FileKind::Directory)) => {
                    self.phase = Phase::Listing;
                    Progress::Ready(Some(Node::new(self.entry.as_str())))
                },
                Reply::Kind(Some(FileKind::Symlink)) => {
                    if self.budget > 0 {
                        self.budget = self.budget - 1;
                        self.phase = Phase::Following;
                    } else {
                        self.phase = Phase::Listing;
                    }
                    Progress::Pending
                },
                _ => {
                    self.phase = Phase::Listing;
                    Progress::Pending
                },
            },
            Phase::Following => match reply {
                Reply::Target(Some(target)) => {
                    self.probe = target;
                    self.phase = Phase::Testing;
                    Progress::Pending
                },
                _ => {
                    self.phase = Phase::Listing;
                    Progress::Pending
                },
            },
            Phase::Finished => Progress::Ready(None),
        }
    }
}

} // verus!
