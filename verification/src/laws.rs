//! What holds of the library's operations taken together.

use vstd::prelude::*;

use crate::children::{ChildrensView, Scan, MAX_LINK_HOPS};
use crate::lookup::LookupView;
use crate::node::{found_child, path_of, Node};
use crate::path::join;
use crate::query::{FileKind, ProgressView, ReplyView, RequestView};
use crate::snapshot::{entry_paths, readable, Listing, Snapshot};

verus! {

/// A child that was created is found again under its name, as a node equal
/// to the one that creating it returned, for as long as its path holds a
/// directory.
pub proof fn lemma_created_child_is_found(
    parent: Node,
    name: Seq<char>,
    created: Node,
    found: Option<Node>,
)
    requires
        created@ == join(parent@, name),
        path_of(found) == found_child(parent@, name, Some(FileKind::Directory)),
    ensures
        found matches Some(node) && node@ == created@,
{
}

/// A lookup is over after two replies, whatever they are. It asks first
/// for the metadata of the child's path, and then either to create the
/// directory or for the metadata once more, never both. It hands the child
/// out exactly where nothing was there and the directory was created, or
/// something was there and is a directory.
pub proof fn lemma_lookup_outcome(child: Seq<char>, first: ReplyView, second: ReplyView)
    ensures
        ({
            let start = LookupView::start(child);
            let asked = start.supply(first);
            let exists = first.kind() is Some;
            let success = if exists {
                second.kind() == Some(FileKind::Directory)
            } else {
                second.created()
            };
            &&& start.request() == Some(RequestView::Metadata(child))
            &&& start.progress(first) == ProgressView::Pending
            &&& asked.request() == Some(
                if exists {
                    RequestView::Metadata(child)
                } else {
                    RequestView::CreateDir(child)
                },
            )
            &&& asked.progress(second) == ProgressView::Ready(
                if success {
                    Some(child)
                } else {
                    None
                },
            )
            &&& asked.supply(second).request() is None
        }),
{
}

/// Looking a child up a second time creates nothing and hands out the same
/// node: once a lookup has handed the child out and its path holds a
/// directory, another lookup of it only asks for metadata and ends with
/// the result of the first.
pub proof fn lemma_lookup_is_idempotent(
    child: Seq<char>,
    first: ReplyView,
    second: ReplyView,
    first_again: ReplyView,
    second_again: ReplyView,
)
    requires
        LookupView::start(child).supply(first).progress(second) matches ProgressView::Ready(
            Some(_),
        ),
        first_again.kind() == Some(FileKind::Directory),
        second_again.kind() == Some(FileKind::Directory),
    ensures
        ({
            let start = LookupView::start(child);
            let asked = start.supply(first_again);
            &&& start.request() == Some(RequestView::Metadata(child))
            &&& asked.request() == Some(RequestView::Metadata(child))
            &&& asked.progress(second_again) == start.supply(first).progress(second)
            &&& asked.supply(second_again).request() is None
        }),
{
}

/// A lookup that finds something other than a directory at the child's
/// path hands out nothing, and does not ask to create the directory.
pub proof fn lemma_lookup_of_a_file_gives_nothing(
    child: Seq<char>,
    first: ReplyView,
    second: ReplyView,
)
    requires
        first.kind() is Some,
        second.kind() is Some,
        second.kind() != Some(FileKind::Directory),
    ensures
        ({
            let asked = LookupView::start(child).supply(first);
            &&& asked.request() == Some(RequestView::Metadata(child))
            &&& asked.progress(second) == ProgressView::Ready(None)
            &&& asked.supply(second).request() is None
        }),
{
}

/// The test of one entry hands the entry out exactly when the path under
/// test leads to a directory within the budget, and in either case the
/// enumeration then goes on with the rest of the listing.
pub proof fn lemma_test_decides(
    snapshot: Snapshot,
    parent: Seq<char>,
    entry: Seq<char>,
    probe: Seq<char>,
    budget: nat,
    listing: Listing,
)
    ensures
        snapshot.enumerate(
            ChildrensView { parent, scan: Scan::Testing { entry, probe, budget } },
            listing,
        ) == (if snapshot.leads_to_directory(probe, budget) {
            seq![entry]
        } else {
            Seq::empty()
        }) + snapshot.enumerate(ChildrensView::start(parent), listing),
    decreases budget,
{
    let testing = ChildrensView { parent, scan: Scan::Testing { entry, probe, budget } };
    let reply = snapshot.reply(RequestView::Metadata(probe), listing);
    assert(testing.request() == Some(RequestView::Metadata(probe)));
    if snapshot.kind(probe) == Some(FileKind::Symlink) && budget > 0 {
        let following = testing.next(reply);
        let left = (budget - 1) as nat;
        assert(following == ChildrensView {
            parent,
            scan: Scan::Following { entry, probe, budget: left },
        });
        assert(snapshot.enumerate(testing, listing) == snapshot.enumerate(following, listing));
        let answer = snapshot.reply(RequestView::ReadLink(probe), listing);
        assert(following.request() == Some(RequestView::ReadLink(probe)));
        assert(snapshot.enumerate(following, listing) == snapshot.enumerate(
            following.next(answer),
            listing,
        ));
        match snapshot.target(probe) {
            Some(target) => {
                lemma_test_decides(snapshot, parent, entry, target, left, listing);
            },
            None => {
                assert(following.next(answer) == ChildrensView::start(parent));
            },
        }
    } else {
        assert(testing.next(reply) == ChildrensView::start(parent));
    }
}

/// Run against a filesystem that holds still, an enumeration hands out
/// exactly the child directories of its parent, in the order of the
/// listing, and ends at the first entry that cannot be read.
pub proof fn lemma_enumeration_yields_children(
    snapshot: Snapshot,
    parent: Seq<char>,
    listing: Listing,
)
    ensures
        snapshot.enumerate(ChildrensView::start(parent), listing) == snapshot.children_of(
            parent,
            listing,
        ),
    decreases listing.len(),
{
    let start = ChildrensView::start(parent);
    assert(start.request() == Some(RequestView::NextEntry));
    if listing.len() > 0 {
        match listing.first() {
            Some(name) => {
                let rest = listing.drop_first();
                let path = join(parent, name);
                let reply = ReplyView::Entry(Some(name));
                assert(snapshot.reply(RequestView::NextEntry, listing) == reply);
                assert(start.next(reply) == ChildrensView {
                    parent,
                    scan: Scan::Testing { entry: path, probe: path, budget: MAX_LINK_HOPS as nat },
                });
                assert(snapshot.enumerate(start, listing) == snapshot.enumerate(
                    start.next(reply),
                    rest,
                ));
                lemma_test_decides(snapshot, parent, path, path, MAX_LINK_HOPS as nat, rest);
                lemma_enumeration_yields_children(snapshot, parent, rest);
            },
            None => {},
        }
    }
}

/// Which paths are among the children of a directory whose entries can all
/// be read: those of the entries that are child directories.
pub proof fn lemma_children_membership(
    snapshot: Snapshot,
    parent: Seq<char>,
    listing: Listing,
    path: Seq<char>,
)
    requires
        readable(listing),
    ensures
        snapshot.children_of(parent, listing).contains(path) <==> exists|name: Seq<char>|
            #[trigger] listing.contains(Some(name)) && join(parent, name) == path
                && snapshot.is_child(parent, name),
    decreases listing.len(),
{
    let children = snapshot.children_of(parent, listing);
    if listing.len() == 0 {
        assert(!children.contains(path));
        assert forall|name: Seq<char>| !(#[trigger] listing.contains(Some(name))) by {}
    } else {
        let rest = listing.drop_first();
        let later = snapshot.children_of(parent, rest);
        assert(listing[0] is Some);
        let head = listing.first()->0;
        assert forall|i: int| 0 <= i < rest.len() implies (#[trigger] rest[i]) is Some by {
            assert(rest[i] == listing[i + 1]);
        }
        lemma_children_membership(snapshot, parent, rest, path);
        let taken = snapshot.is_child(parent, head) && join(parent, head) == path;
        assert(children.contains(path) <==> taken || later.contains(path)) by {
            if snapshot.is_child(parent, head) {
                let one = seq![join(parent, head)];
                assert(children == one + later);
                if children.contains(path) {
                    let i = choose|i: int| 0 <= i < children.len() && children[i] == path;
                    if i > 0 {
                        assert(later[i - 1] == path);
                    }
                }
                if later.contains(path) {
                    let i = choose|i: int| 0 <= i < later.len() && later[i] == path;
                    assert(children[i + 1] == path);
                }
                if taken {
                    assert(children[0] == path);
                }
            }
        }
        if children.contains(path) {
            if taken {
                assert(listing[0] == Some(head));
                assert(listing.contains(Some(head)));
            } else {
                let name = choose|name: Seq<char>|
                    #[trigger] rest.contains(Some(name)) && join(parent, name) == path
                        && snapshot.is_child(parent, name);
                let i = choose|i: int| 0 <= i < rest.len() && rest[i] == Some(name);
                assert(listing[i + 1] == Some(name));
                assert(listing.contains(Some(name)));
            }
        }
        if exists|name: Seq<char>|
            #[trigger] listing.contains(Some(name)) && join(parent, name) == path
                && snapshot.is_child(parent, name) {
            let name = choose|name: Seq<char>|
                #[trigger] listing.contains(Some(name)) && join(parent, name) == path
                    && snapshot.is_child(parent, name);
            let i = choose|i: int| 0 <= i < listing.len() && listing[i] == Some(name);
            if i > 0 {
                assert(rest[i - 1] == Some(name));
                assert(rest.contains(Some(name)));
            }
        }
    }
}

/// Where every entry of a directory can be read, its children are the
/// entries that are child directories, each at its path and in its place:
/// as many nodes as the listing has such entries, and none for an empty
/// directory.
pub proof fn lemma_children_are_the_listed_directories(
    snapshot: Snapshot,
    parent: Seq<char>,
    listing: Listing,
)
    requires
        readable(listing),
    ensures
        snapshot.enumerate(ChildrensView::start(parent), listing) == listing.filter(
            snapshot.child_entries(parent),
        ).map_values(entry_paths(parent)),
        snapshot.enumerate(ChildrensView::start(parent), listing).len() == listing.filter(
            snapshot.child_entries(parent),
        ).len(),
        listing.len() == 0 ==> snapshot.enumerate(ChildrensView::start(parent), listing).len()
            == 0,
    decreases listing.len(),
{
    let keep = snapshot.child_entries(parent);
    let place = entry_paths(parent);
    lemma_enumeration_yields_children(snapshot, parent, listing);
    if listing.len() == 0 {
        assert(listing.filter(keep).len() == 0) by {
            listing.lemma_filter_len(keep);
        }
    } else {
        let head = listing.first();
        let rest = listing.drop_first();
        assert(listing[0] is Some);
        assert forall|i: int| 0 <= i < rest.len() implies (#[trigger] rest[i]) is Some by {
            assert(rest[i] == listing[i + 1]);
        }
        lemma_children_are_the_listed_directories(snapshot, parent, rest);
        lemma_enumeration_yields_children(snapshot, parent, rest);
        assert(listing =~= seq![head] + rest);
        rest.lemma_filter_prepend(head, keep);
        let kept = if keep(head) {
            seq![head]
        } else {
            Seq::empty()
        };
        assert(listing.filter(keep) == kept + rest.filter(keep));
        assert((kept + rest.filter(keep)).map_values(place) =~= kept.map_values(place)
            + rest.filter(keep).map_values(place));
        assert(kept.map_values(place) =~= if keep(head) {
            seq![join(parent, head->0)]
        } else {
            Seq::empty()
        });
    }
}

/// The set of children does not depend on the order in which the entries
/// are read: two enumerations of a directory that holds still, over
/// listings of the same entries, hand out the same nodes.
pub proof fn lemma_children_do_not_depend_on_order(
    snapshot: Snapshot,
    parent: Seq<char>,
    first: Listing,
    second: Listing,
)
    requires
        readable(first),
        readable(second),
        first.to_set() == second.to_set(),
    ensures
        snapshot.enumerate(ChildrensView::start(parent), first).to_set() == snapshot.enumerate(
            ChildrensView::start(parent),
            second,
        ).to_set(),
{
    lemma_enumeration_yields_children(snapshot, parent, first);
    lemma_enumeration_yields_children(snapshot, parent, second);
    let one = snapshot.children_of(parent, first);
    let other = snapshot.children_of(parent, second);
    assert forall|entry: Option<Seq<char>>| first.contains(entry) == second.contains(entry) by {
        assert(first.to_set().contains(entry) == first.contains(entry));
        assert(second.to_set().contains(entry) == second.contains(entry));
    }
    assert forall|path: Seq<char>| one.contains(path) == other.contains(path) by {
        lemma_children_membership(snapshot, parent, first, path);
        lemma_children_membership(snapshot, parent, second, path);
    }
    assert(one.to_set() =~= other.to_set());
}

/// How a symbolic link among the entries is counted: one that points to a
/// directory is a child, at the link's own path; one that points to any
/// other file, to nothing, or that cannot be read, is none.
pub proof fn lemma_links_are_resolved(
    snapshot: Snapshot,
    parent: Seq<char>,
    listing: Listing,
    name: Seq<char>,
)
    requires
        readable(listing),
        listing.contains(Some(name)),
        snapshot.kind(join(parent, name)) == Some(FileKind::Symlink),
    ensures
        ({
            let link = join(parent, name);
            let children = snapshot.enumerate(ChildrensView::start(parent), listing);
            match snapshot.target(link) {
                Some(target) => match snapshot.kind(target) {
                    Some(FileKind::Directory) => children.contains(link),
                    Some(FileKind::Other) | None => !children.contains(link),
                    Some(FileKind::Symlink) => children.contains(link)
                        == snapshot.leads_to_directory(target, (MAX_LINK_HOPS - 1) as nat),
                },
                None => !children.contains(link),
            }
        }),
{
    let link = join(parent, name);
    lemma_enumeration_yields_children(snapshot, parent, listing);
    lemma_children_membership(snapshot, parent, listing, link);
    reveal_with_fuel(Snapshot::leads_to_directory, 3);
    if snapshot.is_child(parent, name) {
        assert(listing.contains(Some(name)) && join(parent, name) == link && snapshot.is_child(
            parent,
            name,
        ));
    }
}

/// An enumeration that has ended stays ended: it asks for nothing more,
/// and hands out nothing whatever it is told.
pub proof fn lemma_end_is_final(state: ChildrensView, reply: ReplyView, later: ReplyView)
    requires
        state.progress(reply) == ProgressView::Ready(None),
    ensures
        state.next(reply).request() is None,
        state.next(reply).next(later) == state.next(reply),
        state.next(reply).progress(later) == ProgressView::Ready(None),
{
}

} // verus!
