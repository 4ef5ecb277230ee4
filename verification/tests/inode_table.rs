//! The inode-table filesystem: creation, lookup, children and hole reuse.

use flario::btfs::Inode;
use flario::sc::{SystemClock, CLOCK_RATE};
use flario::vsfs::{Mode, ModeTypes, NodeKind, VFInode, VSFS};

#[test]
fn fresh_table_has_a_root() {
    let clock = SystemClock::new(CLOCK_RATE);
    let fs = VSFS::new(&clock);
    let root = fs.get_node(0).expect("root missing");
    assert!(root.is_dir());
    assert!(!root.is_file());
    assert!(!root.is_deleted());
    assert_eq!(root.id(), 0);
    assert_eq!(root.name().bytes(), b"/".to_vec());
    assert!(fs.get_node(7).is_none());
    assert_eq!(fs.next_imap(), 1);
}

#[test]
fn creation_fills_the_table() {
    let clock = SystemClock::new(CLOCK_RATE);
    let mut fs = VSFS::new(&clock);
    let file_slot = fs.create_file(0, &clock).expect("file creation failed");
    let dir_slot = fs.create_dir(0, &clock).expect("directory creation failed");
    assert_eq!(file_slot, 1);
    assert_eq!(dir_slot, 2);

    let file = fs.get_node(1).expect("file missing");
    assert!(file.is_file());
    assert_eq!(file.kind(), NodeKind::File);
    assert_eq!(file.name().bytes(), b"1".to_vec());

    let dir = fs.get_node(2).expect("directory missing");
    assert_eq!(dir.kind(), NodeKind::Directory);

    let root = VFInode::new_directory(Mode(3), 0, 0, &clock);
    let children = fs.node_children(&root);
    assert_eq!(children.len(), 2);
    assert_eq!(children[0].id(), 1);
    assert_eq!(children[1].id(), 2);
}

#[test]
fn children_exclude_the_parent_itself() {
    let clock = SystemClock::new(CLOCK_RATE);
    let fs = VSFS::new(&clock);
    // the root names itself as parent and must not list itself
    let root = VFInode::new_directory(Mode(3), 0, 0, &clock);
    assert!(fs.node_children(&root).is_empty());
}

#[test]
fn inode_construction_reports_exhaustion_only_on_real_limits() {
    let clock = SystemClock::new(CLOCK_RATE);
    let mut fs = VSFS::new(&clock);
    let node = VFInode::new(Mode(3), NodeKind::File, 0, &mut fs, &clock).expect("creation failed");
    assert_eq!(node.id(), 1);
    assert_eq!(node.kind(), NodeKind::File);
}

#[test]
fn mode_bits() {
    assert_eq!(ModeTypes::Read.bit(), 1);
    assert_eq!(ModeTypes::Write.bit(), 2);
    assert_eq!(ModeTypes::Execute.bit(), 4);
}
