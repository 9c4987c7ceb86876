use cgroups::node::Node;
use cgroups::path::join_path;
use cgroups::query::FileKind;

#[derive(Debug, PartialEq)]
enum Failure {
    AlreadyExists,
    PermissionDenied,
    NotFound,
}

#[test]
fn new_keeps_the_path_as_given() {
    assert_eq!(Node::new("/sys/fs/cgroup").path(), "/sys/fs/cgroup");
    assert_eq!(Node::new("relative/dir").path(), "relative/dir");
    assert_eq!(Node::new("").path(), "");
    assert_eq!(Node::new("/does/not/exist/anywhere").path(), "/does/not/exist/anywhere");
}

#[test]
fn nodes_are_equal_when_their_paths_are() {
    assert_eq!(Node::new("/sys/fs/cgroup"), Node::new("/sys/fs/cgroup"));
    assert_ne!(Node::new("/sys/fs/cgroup"), Node::new("/sys/fs/cgroup/"));
    assert_ne!(Node::new("/sys/fs/cgroup"), Node::new("/sys/fs/cgroup/cpuset"));
    let node = Node::new("/a");
    assert_eq!(node.clone(), node);
}

#[test]
fn node_is_written_with_its_path() {
    assert_eq!(Node::new("/sys/fs/cgroup").to_string(), "<Node /sys/fs/cgroup>");
    assert_eq!(Node::new("").to_string(), "<Node >");
}

#[test]
fn join_appends_a_relative_name_after_a_separator() {
    assert_eq!(join_path("/tmp/cg_test", "cpuset"), "/tmp/cg_test/cpuset");
    assert_eq!(join_path("/tmp/cg_test", "cpuset/test"), "/tmp/cg_test/cpuset/test");
    assert_eq!(join_path("a", "b"), "a/b");
}

#[test]
fn join_writes_no_second_separator() {
    assert_eq!(join_path("/tmp/cg_test/", "cpuset"), "/tmp/cg_test/cpuset");
    assert_eq!(join_path("/", "sys"), "/sys");
}

#[test]
fn join_lets_an_absolute_name_stand_for_itself() {
    assert_eq!(join_path("/tmp/cg_test", "/etc"), "/etc");
    assert_eq!(join_path("", "/etc"), "/etc");
    assert_eq!(join_path("/tmp", "/"), "/");
}

#[test]
fn join_with_an_empty_side() {
    assert_eq!(join_path("", "cpuset"), "cpuset");
    assert_eq!(join_path("/tmp", ""), "/tmp/");
    assert_eq!(join_path("/tmp/", ""), "/tmp/");
    assert_eq!(join_path("", ""), "");
}

#[test]
fn join_counts_characters_not_bytes() {
    assert_eq!(join_path("/grüße", "é"), "/grüße/é");
    assert_eq!(join_path("/tmp/é/", "ü"), "/tmp/é/ü");
}

#[test]
fn child_path_is_the_joined_path() {
    let root = Node::new("/tmp/cg_test");
    assert_eq!(root.child_path("cpuset"), "/tmp/cg_test/cpuset");
    assert_eq!(root.child_path("/abs"), "/abs");
}

#[test]
fn create_child_returns_the_child_when_the_directory_was_made() {
    let root = Node::new("/tmp/cg_test");
    let child = root.create_child::<Failure>("cpuset", Ok(()));
    assert_eq!(child, Ok(Node::new("/tmp/cg_test/cpuset")));
}

#[test]
fn create_child_hands_the_error_back_unchanged() {
    let root = Node::new("/tmp/cg_test");
    assert_eq!(root.create_child("cpuset", Err(Failure::AlreadyExists)), Err(Failure::AlreadyExists));
    assert_eq!(
        root.create_child("cpuset", Err(Failure::PermissionDenied)),
        Err(Failure::PermissionDenied)
    );
    assert_eq!(root.create_child("a/b", Err(Failure::NotFound)), Err(Failure::NotFound));
    assert_eq!(root.create_child("cpuset", Err(17)), Err(17));
}

#[test]
fn get_child_returns_a_directory() {
    let root = Node::new("/tmp/cg_test");
    assert_eq!(
        root.get_child("cpuset", Some(FileKind::Directory)),
        Some(Node::new("/tmp/cg_test/cpuset"))
    );
}

#[test]
fn get_child_is_empty_for_everything_else() {
    let root = Node::new("/tmp/cg_test");
    assert_eq!(root.get_child("cpuset", None), None);
    assert_eq!(root.get_child("cpuset", Some(FileKind::Other)), None);
    assert_eq!(root.get_child("cpuset", Some(FileKind::Symlink)), None);
}

#[test]
fn created_child_is_found_again_as_an_equal_node() {
    for (parent, name) in [("/tmp/cg_test", "cpuset"), ("/tmp/cg_test/", "a"), ("", "x"), ("/", "sys")] {
        let node = Node::new(parent);
        let created = node.create_child::<Failure>(name, Ok(())).unwrap();
        let found = node.get_child(name, Some(FileKind::Directory)).unwrap();
        assert_eq!(found, created);
        assert_eq!(found.path(), join_path(parent, name));
    }
}

#[test]
fn delete_asks_for_a_shallow_removal() {
    let removal = Node::new("/tmp/cg_test/cpuset/test").delete(false);
    assert_eq!(removal.path, "/tmp/cg_test/cpuset/test");
    assert!(!removal.recursive);
}

#[test]
fn delete_asks_for_a_full_removal() {
    let removal = Node::new("/tmp/cg_test/cpuset").delete(true);
    assert_eq!(removal.path, "/tmp/cg_test/cpuset");
    assert!(removal.recursive);
}

#[test]
fn children_hands_the_error_back_unchanged() {
    let root = Node::new("/tmp/cg_test");
    assert_eq!(root.children::<(), Failure>(Err(Failure::NotFound)).err(), Some(Failure::NotFound));
    assert_eq!(root.children::<(), &str>(Err("not a directory")).err(), Some("not a directory"));
}

#[test]
fn children_takes_the_listing_over_and_asks_for_an_entry() {
    let root = Node::new("/tmp/cg_test");
    let mut children = root.children::<Vec<u8>, Failure>(Ok(vec![1, 2, 3])).unwrap();
    assert_eq!(children.request(), Some(cgroups::query::Request::NextEntry));
    assert_eq!(*children.listing(), vec![1, 2, 3]);
}
