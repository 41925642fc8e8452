use fsnotify::helpers::{idxmut_map, path_buf, path_to_utf16, path_valid, terminated};
use fsnotify::worker::join;
use std::collections::HashMap;

#[test]
fn path_buf_copies_the_path() {
    assert_eq!(path_buf("/tmp/x"), String::from("/tmp/x"));
    assert_eq!(path_buf(""), String::new());
}

#[test]
fn idxmut_map_reaches_the_stored_value() {
    let mut m: HashMap<u32, Vec<u8>> = HashMap::new();
    m.insert(1, vec![1]);
    m.insert(2, vec![2]);
    idxmut_map(&mut m, &2).push(22);
    assert_eq!(m.get(&1), Some(&vec![1]));
    assert_eq!(m.get(&2), Some(&vec![2, 22]));
    *idxmut_map(&mut m, &1) = vec![];
    assert_eq!(m.get(&1), Some(&vec![]));
    assert_eq!(m.len(), 2);
}

#[test]
fn idxmut_map_takes_a_borrowed_key() {
    let mut m: HashMap<Box<u32>, u64> = HashMap::new();
    m.insert(Box::new(5), 1);
    m.insert(Box::new(6), 2);
    *idxmut_map(&mut m, &5u32) += 41;
    assert_eq!(m.get(&5u32), Some(&42));
    assert_eq!(m.get(&6u32), Some(&2));
}

#[test]
fn join_puts_one_separator_between() {
    assert_eq!(join("/tmp/x", "newfile"), "/tmp/x/newfile");
    assert_eq!(join("/tmp/x/", "newfile"), "/tmp/x/newfile");
    assert_eq!(join("/", "etc"), "/etc");
    assert_eq!(join("", "relative"), "relative");
    assert_eq!(join("/tmp/x", "sub/file"), "/tmp/x/sub/file");
    assert_eq!(join("/tmp/ä", "ö"), "/tmp/ä/ö");
}

#[test]
fn path_valid_refuses_zero_characters() {
    assert!(path_valid("/tmp/x"));
    assert!(path_valid(""));
    assert!(path_valid("C:\\dir\\ä"));
    assert!(!path_valid("\0"));
    assert!(!path_valid("/tmp/\0/x"));
    assert!(!path_valid("/tmp/x\0"));
}

#[test]
fn terminated_appends_a_zero() {
    assert_eq!(terminated(vec![]), vec![0]);
    assert_eq!(terminated(vec![0x41, 0x42]), vec![0x41, 0x42, 0]);
}

#[test]
fn path_to_utf16_encodes_and_terminates() {
    assert_eq!(path_to_utf16(""), vec![0]);
    assert_eq!(path_to_utf16("C:\\x"), vec![0x43, 0x3a, 0x5c, 0x78, 0]);
    assert_eq!(path_to_utf16("ä"), vec![0xe4, 0]);
    assert_eq!(path_to_utf16("🍐"), vec![0xd83c, 0xdf50, 0]);
}
