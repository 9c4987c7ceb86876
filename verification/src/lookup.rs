//! Looking a child up, and creating it where nothing is there.

use vstd::prelude::*;
use vstd::string::*;

use crate::node::Node;
use crate::query::{FileKind, Progress, ProgressView, Reply, ReplyView, Request, RequestView};

verus! {

/// How far a lookup has come.
#[derive(Clone, Copy, Debug, PartialEq, Eq, Structural)]
pub enum Stage {
    /// Asked whether the child's path exists.
    Probing,
    /// Found nothing there, and asked to create the directory.
    Creating,
    /// Found something there, and asked what it is.
    Checking,
    /// The result was handed out.
    Finished,
}

/// The mathematical value of a [`GetOrCreate`].
pub struct LookupView {
    /// The path of the child.
    pub child: Seq<char>,
    /// How far the lookup has come.
    pub stage: Stage,
}

impl LookupView {
    /// A lookup of `child` that has asked nothing yet.
    pub open spec fn start(child: Seq<char>) -> LookupView {
        LookupView { child, stage: Stage::Probing }
    }

    /// The request that the lookup waits on, if it is not finished.
    pub open spec fn request(self) -> Option<RequestView> {
        match self.stage {
            Stage::Probing => Some(RequestView::Metadata(self.child)),
            Stage::Creating => Some(RequestView::CreateDir(self.child)),
            Stage::Checking => Some(RequestView::Metadata(self.child)),
            Stage::Finished => None,
        }
    }

    /// The lookup after `reply` has answered its request.
    ///
    /// The first answer decides between creating and checking: any kind of
    /// file at the path means that it exists. A path that exists is never
    /// created, and one that was just created is not checked again.
    pub open spec fn supply(self, reply: ReplyView) -> LookupView {
        let next = match self.stage {
            Stage::Probing => if reply.kind() is Some {
                Stage::Checking
            } else {
                Stage::Creating
            },
            _ => Stage::Finished,
        };
        LookupView { child: self.child, stage: next }
    }

    /// What the lookup hands out when `reply` has answered its request.
    ///
    /// The child is handed out where it was created, or where it was there
    /// and is a directory. A failed creation, a failed query and a file of
    /// another kind all end the lookup with nothing.
    pub open spec fn progress(self, reply: ReplyView) -> ProgressView {
        match self.stage {
            Stage::Probing => ProgressView::Pending,
            Stage::Creating => if reply.created() {
                ProgressView::Ready(Some(self.child))
            } else {
                ProgressView::Ready(None)
            },
            Stage::Checking => if reply.kind() == Some(FileKind::Directory) {
                ProgressView::Ready(Some(self.child))
            } else {
                ProgressView::Ready(None)
            },
            Stage::Finished => ProgressView::Ready(None),
        }
    }
}

/// The exchange with the filesystem that gets a child or creates it.
///
/// The caller performs [`GetOrCreate::request`], hands the answer to
/// [`GetOrCreate::supply`], and repeats until that returns
/// [`Progress::Ready`].
#[derive(Clone, Debug)]
pub struct GetOrCreate {
    child: String,
    stage: Stage,
}

impl View for GetOrCreate {
    type V = LookupView;

    closed spec fn view(&self) -> LookupView {
        LookupView { child: self.child@, stage: self.stage }
    }
}

impl GetOrCreate {
    /// A lookup of the child at the path `child`.
    pub fn start(child: String) -> (lookup: GetOrCreate)
        ensures
            lookup@ == LookupView::start(child@),
    {
        GetOrCreate { child, stage: Stage::Probing }
    }

    /// The system call that the lookup waits on, or `None` once it has
    /// finished.
    pub fn request(&self) -> (request: Option<Request>)
        ensures
            crate::query::request_of(request) == self@.request(),
    {
        match self.stage {
            Stage::Probing => Some(Request::Metadata(self.child.clone())),
            Stage::Creating => Some(Request::CreateDir(self.child.clone())),
            Stage::Checking => Some(Request::Metadata(self.child.clone())),
            Stage::Finished => None,
        }
    }

    /// Takes the answer to [`GetOrCreate::request`] and says whether the
    /// lookup has its result.
    pub fn supply(&mut self, reply: Reply) -> (progress: Progress)
        ensures
            final(self)@ == old(self)@.supply(reply@),
            progress@ == old(self)@.progress(reply@),
    {
        match self.stage {
            Stage::Probing => {
                let exists = match reply {
                    Reply::Kind(Some(_)) => true,
                    _ => false,
                };
                self.stage = if exists {
                    Stage::Checking
                } else {
                    Stage::Creating
                };
                Progress::Pending
            },
            Stage::Creating => {
                self.stage = Stage::Finished;
                match reply {
                    Reply::Created(true) => Progress::Ready(Some(Node::new(self.child.as_str()))),
                    _ => Progress::Ready(None),
                }
            },
            Stage::Checking => {
                self.stage = Stage::Finished;
                match reply {
                    Reply::Kind(Some(FileKind::Directory)) => Progress::Ready(
                        Some(Node::new(self.child.as_str())),
                    ),
                    _ => Progress::Ready(None),
                }
            },
            Stage::Finished => Progress::Ready(None),
        }
    }
}

} // verus!
