use fsnotify::error::Error;
use fsnotify::handle::{INode, HANDLE};
use fsnotify::registry::{Watch, WatchRegistry};

fn inode(handle: isize, volume: u32, index: u64) -> INode {
    INode { handle: HANDLE(handle), volume, index }
}

#[test]
fn a_new_registry_is_empty() {
    let mut registry = WatchRegistry::new();
    assert_eq!(registry.get(1, 1), None);
    assert_eq!(registry.remove(1, 1), Err(Error::NotWatched));
    assert_eq!(registry.close_all(), vec![]);
}

#[test]
fn register_inserts_under_the_identity() {
    let mut registry = WatchRegistry::new();
    let a = inode(10, 1, 100);
    assert_eq!(registry.register(a, String::from("/a")), None);
    assert_eq!(registry.watch_entry(&a), Some(&Watch { inode: a, path: String::from("/a") }));
    assert_eq!(registry.get(1, 100), Some(&Watch { inode: a, path: String::from("/a") }));
    assert_eq!(registry.get(1, 101), None);
    assert_eq!(registry.get(2, 100), None);
}

#[test]
fn register_keeps_the_first_watch_of_a_directory() {
    let mut registry = WatchRegistry::new();
    let first = inode(10, 1, 100);
    let second = inode(11, 1, 100);
    assert_eq!(registry.register(first, String::from("/a")), None);
    assert_eq!(registry.register(second, String::from("/link-to-a")), Some(HANDLE(11)));
    assert_eq!(
        registry.watch_entry(&second),
        Some(&Watch { inode: first, path: String::from("/a") })
    );
    assert_eq!(registry.close_all().len(), 1);
}

#[test]
fn remove_hands_back_the_watch() {
    let mut registry = WatchRegistry::new();
    let a = inode(10, 1, 100);
    let b = inode(11, 1, 101);
    registry.register(a, String::from("/a"));
    registry.register(b, String::from("/b"));
    assert_eq!(registry.remove(1, 100), Ok(Watch { inode: a, path: String::from("/a") }));
    assert_eq!(registry.get(1, 100), None);
    assert_eq!(registry.get(1, 101), Some(&Watch { inode: b, path: String::from("/b") }));
    assert_eq!(registry.remove(1, 100), Err(Error::NotWatched));
    assert_eq!(registry.remove(2, 101), Err(Error::NotWatched));
}

#[test]
fn register_then_remove_leaves_no_entry() {
    let mut registry = WatchRegistry::new();
    let a = inode(10, 7, 7);
    registry.register(a, String::from("/a"));
    assert!(registry.remove(7, 7).is_ok());
    assert_eq!(registry.watch_entry(&a), None);
    assert_eq!(registry.register(inode(12, 7, 7), String::from("/a")), None);
    assert_eq!(registry.get(7, 7).map(|w| w.inode.handle), Some(HANDLE(12)));
}

#[test]
fn close_all_hands_out_every_watch_once() {
    let mut registry = WatchRegistry::new();
    let nodes = [inode(1, 1, 1), inode(2, 1, 2), inode(3, 2, 1), inode(4, 3, 9)];
    for (n, node) in nodes.iter().enumerate() {
        registry.register(*node, format!("/dir{}", n));
    }
    let mut drained = registry.close_all();
    drained.sort_by_key(|w| w.inode.handle.0);
    assert_eq!(drained.len(), 4);
    for (n, node) in nodes.iter().enumerate() {
        assert_eq!(drained[n], Watch { inode: *node, path: format!("/dir{}", n) });
        assert_eq!(registry.watch_entry(node), None);
    }
    assert_eq!(registry.close_all(), vec![]);
}
