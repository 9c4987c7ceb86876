use cgroups::lookup::GetOrCreate;
use cgroups::node::Node;
use cgroups::query::{FileKind, Progress, Reply, Request};

fn metadata(path: &str) -> Option<Request> {
    Some(Request::Metadata(path.to_string()))
}

fn create_dir(path: &str) -> Option<Request> {
    Some(Request::CreateDir(path.to_string()))
}

fn ready(path: &str) -> Progress {
    Progress::Ready(Some(Node::new(path)))
}

#[test]
fn lookup_first_asks_whether_the_path_exists() {
    let lookup = Node::new("/tmp/cg_test/cpuset").get_or_create_child("test");
    assert_eq!(lookup.request(), metadata("/tmp/cg_test/cpuset/test"));
}

#[test]
fn lookup_creates_what_is_missing() {
    let mut lookup = Node::new("/tmp/cg_test/cpuset").get_or_create_child("test");
    assert_eq!(lookup.supply(Reply::Kind(None)), Progress::Pending);
    assert_eq!(lookup.request(), create_dir("/tmp/cg_test/cpuset/test"));
    assert_eq!(lookup.supply(Reply::Created(true)), ready("/tmp/cg_test/cpuset/test"));
    assert_eq!(lookup.request(), None);
}

#[test]
fn lookup_swallows_a_failed_creation() {
    let mut lookup = Node::new("/tmp/cg_test/cpuset").get_or_create_child("test");
    assert_eq!(lookup.supply(Reply::Kind(None)), Progress::Pending);
    assert_eq!(lookup.supply(Reply::Created(false)), Progress::Ready(None));
    assert_eq!(lookup.request(), None);
}

#[test]
fn lookup_returns_a_directory_that_is_there() {
    let mut lookup = Node::new("/tmp/cg_test/cpuset").get_or_create_child("test");
    assert_eq!(lookup.supply(Reply::Kind(Some(FileKind::Directory))), Progress::Pending);
    assert_eq!(lookup.request(), metadata("/tmp/cg_test/cpuset/test"));
    assert_eq!(
        lookup.supply(Reply::Kind(Some(FileKind::Directory))),
        ready("/tmp/cg_test/cpuset/test")
    );
    assert_eq!(lookup.request(), None);
}

#[test]
fn lookup_of_a_regular_file_is_empty_and_creates_nothing() {
    let mut lookup = Node::new("/tmp/cg_test").get_or_create_child("tasks");
    assert_eq!(lookup.supply(Reply::Kind(Some(FileKind::Other))), Progress::Pending);
    assert_eq!(lookup.request(), metadata("/tmp/cg_test/tasks"));
    assert_eq!(lookup.supply(Reply::Kind(Some(FileKind::Other))), Progress::Ready(None));
    assert_eq!(lookup.request(), None);
}

#[test]
fn lookup_is_empty_when_the_path_vanishes_before_the_check() {
    let mut lookup = Node::new("/tmp/cg_test").get_or_create_child("gone");
    assert_eq!(lookup.supply(Reply::Kind(Some(FileKind::Directory))), Progress::Pending);
    assert_eq!(lookup.supply(Reply::Kind(None)), Progress::Ready(None));
}

#[test]
fn lookup_is_empty_when_the_path_appears_before_the_creation() {
    let mut lookup = Node::new("/tmp/cg_test").get_or_create_child("raced");
    assert_eq!(lookup.supply(Reply::Kind(None)), Progress::Pending);
    assert_eq!(lookup.request(), create_dir("/tmp/cg_test/raced"));
    assert_eq!(lookup.supply(Reply::Created(false)), Progress::Ready(None));
}

#[test]
fn lookup_twice_gives_equal_nodes_and_creates_once() {
    let parent = Node::new("/tmp/cg_test/cpuset");
    let mut created = 0;

    let mut first = parent.get_or_create_child("test");
    first.supply(Reply::Kind(None));
    if first.request() == create_dir("/tmp/cg_test/cpuset/test") {
        created += 1;
    }
    let one = first.supply(Reply::Created(true));

    let mut second = parent.get_or_create_child("test");
    second.supply(Reply::Kind(Some(FileKind::Directory)));
    if second.request() == create_dir("/tmp/cg_test/cpuset/test") {
        created += 1;
    }
    let other = second.supply(Reply::Kind(Some(FileKind::Directory)));

    assert_eq!(one, ready("/tmp/cg_test/cpuset/test"));
    assert_eq!(one, other);
    assert_eq!(created, 1);
}

#[test]
fn lookup_counts_a_reply_to_another_request_as_a_failure() {
    let mut lookup = Node::new("/a").get_or_create_child("b");
    assert_eq!(lookup.supply(Reply::End), Progress::Pending);
    assert_eq!(lookup.request(), create_dir("/a/b"));
    assert_eq!(lookup.supply(Reply::Kind(Some(FileKind::Directory))), Progress::Ready(None));

    let mut lookup = Node::new("/a").get_or_create_child("b");
    assert_eq!(lookup.supply(Reply::Kind(Some(FileKind::Symlink))), Progress::Pending);
    assert_eq!(lookup.request(), metadata("/a/b"));
    assert_eq!(lookup.supply(Reply::Created(true)), Progress::Ready(None));
}

#[test]
fn finished_lookup_stays_finished() {
    let mut lookup = GetOrCreate::start("/a/b".to_string());
    lookup.supply(Reply::Kind(None));
    assert_eq!(lookup.supply(Reply::Created(true)), ready("/a/b"));
    assert_eq!(lookup.request(), None);
    assert_eq!(lookup.supply(Reply::Created(true)), Progress::Ready(None));
    assert_eq!(lookup.supply(Reply::Kind(Some(FileKind::Directory))), Progress::Ready(None));
    assert_eq!(lookup.request(), None);
}

#[test]
fn lookup_takes_an_absolute_name_as_it_is() {
    let lookup = Node::new("/tmp/cg_test").get_or_create_child("/elsewhere");
    assert_eq!(lookup.request(), metadata("/elsewhere"));
}
