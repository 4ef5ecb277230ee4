//! The inode-table filesystem: a flat table of inodes, each knowing its
//! parent, over a pool of fixed-size data blocks. Deleted inodes leave
//! holes in the table that the next creation may fill.

use vstd::prelude::*;
use vstd::string::StringSliceAdditionalSpecFns;

use crate::btfs::Inode;
use crate::sc::{Instant, SystemClock};
use crate::shellstring::{decimal_of, spec_decimal, String};
use crate::status::Status;

verus! {

/// What an inode is.
#[derive(Debug, Clone, Copy, PartialEq, Eq, Structural)]
pub enum NodeKind {
    File,
    Directory,
}

/// One permission bit.
#[derive(Debug, Clone, Copy, PartialEq, Eq, Structural)]
pub enum ModeTypes {
    Read,
    Write,
    Execute,
}

impl ModeTypes {
    /// The bit this permission occupies in a mode byte.
    pub open spec fn spec_bit(self) -> u8 {
        match self {
            ModeTypes::Read => 1,
            ModeTypes::Write => 2,
            ModeTypes::Execute => 4,
        }
    }

    /// The permission's bit, as stored in a mode byte.
    pub fn bit(self) -> (r: u8)
        ensures
            r == self.spec_bit(),
    {
        match self {
            ModeTypes::Read => 1,
            ModeTypes::Write => 2,
            ModeTypes::Execute => 4,
        }
    }
}

/// An inode's permission bits, packed into one byte.
#[derive(Debug, Clone, Copy, PartialEq, Eq, Structural)]
pub struct Mode(pub u8);

/// One data block.
#[derive(Debug, Clone, Copy)]
pub struct Block(pub [u8; 2046]);

/// A small fixed inode table, as block images carry it.
#[derive(Debug)]
pub struct Imap(pub [Option<VFInode>; 8]);

/// One inode: permissions, timestamps, identity, its data block, its size,
/// its kind and its parent's id.
#[derive(Debug, Clone, Copy)]
pub struct VFInode {
    mode: Mode,
    mtime: Instant,
    dtime: Option<Instant>,
    id: u16,
    block: u16,
    size: usize,
    kind: NodeKind,
    parent: u16,
}

/// The mathematical shape of an inode.
pub struct VFInodeView {
    pub mode: u8,
    pub mtime: nat,
    pub dtime: Option<nat>,
    pub id: u16,
    pub block: u16,
    pub size: nat,
    pub kind: NodeKind,
    pub parent: u16,
}

impl View for VFInode {
    type V = VFInodeView;

    closed spec fn view(&self) -> VFInodeView {
        VFInodeView {
            mode: self.mode.0,
            mtime: self.mtime@,
            dtime: match self.dtime {
                Some(t) => Some(t@),
                None => None,
            },
            id: self.id,
            block: self.block,
            size: self.size as nat,
            kind: self.kind,
            parent: self.parent,
        }
    }
}

/// The inode-table filesystem: the table itself, the block pool, and the
/// next inode id to hand out. Inode 0 is the root directory, created with
/// the filesystem.
#[derive(Debug)]
pub struct VSFS {
    imap: Vec<VFInode>,
    blocks: Vec<Option<Block>>,
    next_id: u16,
}

/// The first index at or past `lo` of an inode with this id.
pub open spec fn spec_inode_at(s: Seq<VFInode>, id: u16, lo: int) -> Option<int>
    decreases s.len() - lo,
{
    if lo < 0 || lo >= s.len() {
        None
    } else if s[lo]@.id == id {
        Some(lo)
    } else {
        spec_inode_at(s, id, lo + 1)
    }
}

/// The first index at or past `lo` of a deleted inode.
pub open spec fn spec_first_deleted(s: Seq<VFInode>, lo: int) -> Option<int>
    decreases s.len() - lo,
{
    if lo < 0 || lo >= s.len() {
        None
    } else if s[lo]@.dtime is Some {
        Some(lo)
    } else {
        spec_first_deleted(s, lo + 1)
    }
}

/// The indices in `[0, hi)` of the children of inode `pid`: every inode
/// whose parent is `pid`, the parent itself excluded.
pub open spec fn spec_children_idx(s: Seq<VFInode>, pid: u16, hi: int) -> Seq<int>
    decreases hi,
{
    if hi <= 0 {
        Seq::empty()
    } else {
        spec_children_idx(s, pid, hi - 1) + (if 0 <= hi - 1 < s.len() && s[hi - 1]@.parent == pid
            && s[hi - 1]@.id != pid {
            seq![hi - 1]
        } else {
            Seq::empty()
        })
    }
}

impl VFInode {
    /// A fresh inode. A directory uses its own id as its block; a file is
    /// given a free block by the filesystem, and creation fails when the
    /// block pool or the id space is exhausted.
    pub fn new(mode: Mode, kind: NodeKind, parent: u16, fs: &mut VSFS, clock: &SystemClock)
        -> (r: Result<VFInode, Status>)
        ensures
            final(fs).spec_inodes() == old(fs).spec_inodes(),
            match r {
                Ok(node) => {
                    &&& node@.mode == mode.0
                    &&& node@.mtime == clock.spec_tick()
                    &&& node@.dtime is None
                    &&& node@.id == old(fs).spec_next_id()
                    &&& node@.size == 0
                    &&& node@.kind == kind
                    &&& node@.parent == parent
                    &&& final(fs).spec_next_id() == old(fs).spec_next_id() + 1
                    &&& (kind == NodeKind::Directory ==> node@.block == node@.id && final(fs).spec_blocks() == old(fs).spec_blocks())
                },
                Err(code) => code == Status::FailedToWrite,
            },
    {
        let id = match fs.fresh_id() {
            Some(id) => id,
            None => {
                return Err(Status::FailedToWrite);
            },
        };
        if matches!(kind, NodeKind::Directory) {
            return Ok(Self::new_directory(mode, id, parent, clock));
        }
        let now = Instant::now(clock);
        let block = match fs.next_free() {
            Some(b) => b,
            None => {
                return Err(Status::FailedToWrite);
            },
        };
        Ok(VFInode { mode, mtime: now, dtime: None, id, block, size: 0, kind, parent })
    }

    /// A fresh directory inode; its block is its own id.
    pub fn new_directory(mode: Mode, id: u16, parent: u16, clock: &SystemClock) -> (node: VFInode)
        ensures
            node@.mode == mode.0,
            node@.mtime == clock.spec_tick(),
            node@.dtime is None,
            node@.id == id,
            node@.block == id,
            node@.size == 0,
            node@.kind == NodeKind::Directory,
            node@.parent == parent,
    {
        let now = Instant::now(clock);
        VFInode {
            mode,
            mtime: now,
            dtime: None,
            id,
            block: id,
            size: 0,
            kind: NodeKind::Directory,
            parent,
        }
    }

    /// What this inode is.
    pub fn kind(&self) -> (r: NodeKind)
        ensures
            r == self@.kind,
    {
        self.kind
    }
}

impl Inode for VFInode {
    fn is_file(&self) -> (r: bool)
        ensures
            r == (self@.kind == NodeKind::File),
    {
        matches!(self.kind, NodeKind::File)
    }

    fn is_dir(&self) -> (r: bool)
        ensures
            r == (self@.kind == NodeKind::Directory),
    {
        matches!(self.kind, NodeKind::Directory)
    }

    fn name(&self) -> (r: String)
        ensures
            r@ == (if self@.id == 0 {
                "/".spec_bytes()
            } else {
                spec_decimal(self@.id as nat)
            }),
    {
        if self.id == 0 {
            String::from_bytes("/".as_bytes())
        } else {
            decimal_of(self.id as u64)
        }
    }

    fn id(&self) -> (r: u16)
        ensures
            r == self@.id,
    {
        self.id
    }

    fn is_deleted(&self) -> (r: bool)
        ensures
            r == (self@.dtime is Some),
    {
        match &self.dtime {
            Some(_) => true,
            None => false,
        }
    }
}

impl VSFS {
    /// The inode table.
    pub closed spec fn spec_inodes(&self) -> Seq<VFInode> {
        self.imap@
    }

    /// Which blocks of the pool are occupied.
    pub closed spec fn spec_blocks(&self) -> Seq<bool> {
        self.blocks@.map_values(|b: Option<Block>| b is Some)
    }

    /// The next inode id to hand out.
    pub closed spec fn spec_next_id(&self) -> u16 {
        self.next_id
    }

    /// A fresh filesystem: one root directory inode under id 0.
    pub fn new(clock: &SystemClock) -> (fs: VSFS)
        ensures
            fs.spec_inodes().len() == 1,
            fs.spec_inodes()[0]@.id == 0,
            fs.spec_inodes()[0]@.parent == 0,
            fs.spec_inodes()[0]@.kind == NodeKind::Directory,
            fs.spec_inodes()[0]@.dtime is None,
            fs.spec_next_id() == 1,
            fs.spec_blocks() == Seq::<bool>::empty(),
    {
        let root = VFInode::new_directory(Mode(3), 0, 0, clock);
        let mut imap: Vec<VFInode> = Vec::new();
        imap.push(root);
        let fs = VSFS { imap, blocks: Vec::new(), next_id: 1 };
        proof {
            assert(fs.spec_blocks() =~= Seq::<bool>::empty());
        }
        fs
    }

    /// A fresh inode id, or nothing once the id space is exhausted.
    fn fresh_id(&mut self) -> (r: Option<u16>)
        ensures
            final(self).spec_inodes() == old(self).spec_inodes(),
            final(self).spec_blocks() == old(self).spec_blocks(),
            if old(self).spec_next_id() == u16::MAX {
                r is None && final(self).spec_next_id() == old(self).spec_next_id()
            } else {
                r == Some(old(self).spec_next_id()) && final(self).spec_next_id() == old(self).spec_next_id() + 1
            },
    {
        if self.next_id == u16::MAX {
            None
        } else {
            let id = self.next_id;
            self.next_id = self.next_id + 1;
            Some(id)
        }
    }

    /// The children of an inode: every inode naming it as parent, itself
    /// excluded, in table order.
    pub fn node_children(&self, parent: &VFInode) -> (r: Vec<&VFInode>)
        ensures
            ({
                let idx = spec_children_idx(
                    self.spec_inodes(),
                    parent@.id,
                    self.spec_inodes().len() as int,
                );
                r@.len() == idx.len() && (forall|i: int|
                    0 <= i < idx.len() ==> *(#[trigger] r@[i]) == self.spec_inodes()[idx[i]])
            }),
    {
        let mut children: Vec<&VFInode> = Vec::new();
        let mut i: usize = 0;
        while i < self.imap.len()
            invariant
                i <= self.spec_inodes().len(),
                ({
                    let idx = spec_children_idx(self.spec_inodes(), parent@.id, i as int);
                    children@.len() == idx.len() && (forall|j: int|
                        0 <= j < idx.len() ==> *(#[trigger] children@[j]) == self.spec_inodes()[
                            idx[j]
                        ])
                }),
            decreases self.spec_inodes().len() - i,
        {
            let node = &self.imap[i];
            if node.id() == parent.id() {
            } else if node.parent == parent.id {
                children.push(node);
            }
            i = i + 1;
        }
        children
    }

    /// The first inode with this id, if any.
    pub fn get_node(&self, id: u16) -> (r: Option<&VFInode>)
        ensures
            match spec_inode_at(self.spec_inodes(), id, 0) {
                Some(i) => r is Some && *(r->Some_0) == self.spec_inodes()[i],
                None => r is None,
            },
    {
        let mut i: usize = 0;
        while i < self.imap.len()
            invariant
                i <= self.spec_inodes().len(),
                spec_inode_at(self.spec_inodes(), id, 0) == spec_inode_at(
                    self.spec_inodes(),
                    id,
                    i as int,
                ),
            decreases self.spec_inodes().len() - i,
        {
            if self.imap[i].id == id {
                return Some(&self.imap[i]);
            }
            i = i + 1;
        }
        None
    }

    /// The first deleted slot, if any.
    fn first_deleted(&self) -> (r: Option<usize>)
        ensures
            match r {
                Some(i) => spec_first_deleted(self.spec_inodes(), 0) == Some(i as int),
                None => spec_first_deleted(self.spec_inodes(), 0) is None,
            },
    {
        let mut i: usize = 0;
        while i < self.imap.len()
            invariant
                i <= self.spec_inodes().len(),
                spec_first_deleted(self.spec_inodes(), 0) == spec_first_deleted(
                    self.spec_inodes(),
                    i as int,
                ),
            decreases self.spec_inodes().len() - i,
        {
            if self.imap[i].is_deleted() {
                return Some(i);
            }
            i = i + 1;
        }
        None
    }

    /// The table slot the next created inode will occupy: the first deleted
    /// slot, or a fresh one at the end.
    pub fn next_imap(&self) -> (r: usize)
        ensures
            r == (match spec_first_deleted(self.spec_inodes(), 0) {
                Some(i) => i,
                None => self.spec_inodes().len() as int,
            }),
    {
        match self.first_deleted() {
            Some(i) => i,
            None => self.imap.len(),
        }
    }

    /// A free block's number; the pool grows by one zeroed block when every
    /// block is taken. Nothing is free once the pool outgrows the block
    /// number space.
    pub fn next_free(&mut self) -> (r: Option<u16>)
        ensures
            final(self).spec_inodes() == old(self).spec_inodes(),
            final(self).spec_next_id() == old(self).spec_next_id(),
            match r {
                Some(b) => (b as int) < final(self).spec_blocks().len() && final(self).spec_blocks().len() <= old(self).spec_blocks().len() + 1,
                None => final(self).spec_blocks() == old(self).spec_blocks(),
            },
    {
        let mut i: usize = 0;
        while i < self.blocks.len()
            invariant
                i <= self.spec_blocks().len(),
            decreases self.spec_blocks().len() - i,
        {
            if self.blocks[i].is_none() {
                if i < 0x10000 {
                    return Some(i as u16);
                }
                return None;
            }
            i = i + 1;
        }
        let len = self.blocks.len();
        if len >= 0xffff {
            return None;
        }
        self.blocks.push(Some(Block([0u8; 2046])));
        Some(len as u16)
    }
}


/// A found deleted slot lies in the table and is indeed deleted.
proof fn lemma_first_deleted_props(s: Seq<VFInode>, lo: int)
    requires
        0 <= lo,
    ensures
        match spec_first_deleted(s, lo) {
            Some(i) => lo <= i < s.len() && s[i]@.dtime is Some,
            None => true,
        },
    decreases s.len() - lo,
{
    if lo < s.len() && !(s[lo]@.dtime is Some) {
        lemma_first_deleted_props(s, lo + 1);
    }
}

impl VSFS {
    /// Places a fresh inode: into the first deleted slot, else at the end.
    fn place(&mut self, node: VFInode) -> (slot: usize)
        requires
            old(self).spec_inodes().len() < usize::MAX,
        ensures
            final(self).spec_blocks() == old(self).spec_blocks(),
            final(self).spec_next_id() == old(self).spec_next_id(),
            slot == (match spec_first_deleted(old(self).spec_inodes(), 0) {
                Some(i) => i,
                None => old(self).spec_inodes().len() as int,
            }),
            (slot as int) < final(self).spec_inodes().len(),
            match spec_first_deleted(old(self).spec_inodes(), 0) {
                Some(i) => final(self).spec_inodes() == old(self).spec_inodes().update(i, node),
                None => final(self).spec_inodes() == old(self).spec_inodes().push(node),
            },
    {
        let slot = self.next_imap();
        proof {
            lemma_first_deleted_props(self.spec_inodes(), 0);
        }
        if slot == self.imap.len() {
            self.imap.push(node);
        } else {
            let ghost pre = self.spec_inodes();
            let _ = self.imap.remove(slot);
            self.imap.insert(slot, node);
            proof {
                assert(self.spec_inodes() =~= pre.update(slot as int, node));
            }
        }
        slot
    }

    /// Creates a file inode under the given parent and returns its table
    /// slot; nothing on an exhausted block pool, id space or table.
    pub fn create_file(&mut self, parent: u16, clock: &SystemClock) -> (r: Option<usize>)
        requires
            old(self).spec_inodes().len() < usize::MAX,
        ensures
            match r {
                Some(slot) => {
                    &&& (slot as int) < final(self).spec_inodes().len()
                    &&& ({
                        let node = final(self).spec_inodes()[slot as int];
                        &&& node@.kind == NodeKind::File
                        &&& node@.parent == parent
                        &&& node@.id == old(self).spec_next_id()
                        &&& node@.mtime == clock.spec_tick()
                        &&& node@.dtime is None
                        &&& node@.size == 0
                    })
                    &&& final(self).spec_next_id() == old(self).spec_next_id() + 1
                },
                None => final(self).spec_inodes() == old(self).spec_inodes(),
            },
    {
        match VFInode::new(Mode(3), NodeKind::File, parent, self, clock) {
            Ok(node) => {
                let ghost mid = self.spec_inodes();
                let slot = self.place(node);
                proof {
                    lemma_first_deleted_props(mid, 0);
                    match spec_first_deleted(mid, 0) {
                        Some(i) => {
                            assert(self.spec_inodes()[slot as int] == node);
                        },
                        None => {
                            assert(self.spec_inodes()[slot as int] == node);
                        },
                    }
                }
                Some(slot)
            },
            Err(_) => None,
        }
    }

    /// Creates a directory inode under the given parent and returns its
    /// table slot; nothing on an exhausted id space or table.
    pub fn create_dir(&mut self, parent: u16, clock: &SystemClock) -> (r: Option<usize>)
        requires
            old(self).spec_inodes().len() < usize::MAX,
        ensures
            match r {
                Some(slot) => {
                    &&& (slot as int) < final(self).spec_inodes().len()
                    &&& ({
                        let node = final(self).spec_inodes()[slot as int];
                        &&& node@.kind == NodeKind::Directory
                        &&& node@.parent == parent
                        &&& node@.id == old(self).spec_next_id()
                        &&& node@.block == node@.id
                        &&& node@.mtime == clock.spec_tick()
                        &&& node@.dtime is None
                        &&& node@.size == 0
                    })
                    &&& final(self).spec_next_id() == old(self).spec_next_id() + 1
                },
                None => final(self).spec_inodes() == old(self).spec_inodes(),
            },
    {
        match VFInode::new(Mode(3), NodeKind::Directory, parent, self, clock) {
            Ok(node) => {
                let ghost mid = self.spec_inodes();
                let slot = self.place(node);
                proof {
                    lemma_first_deleted_props(mid, 0);
                    match spec_first_deleted(mid, 0) {
                        Some(i) => {
                            assert(self.spec_inodes()[slot as int] == node);
                        },
                        None => {
                            assert(self.spec_inodes()[slot as int] == node);
                        },
                    }
                }
                Some(slot)
            },
            Err(_) => None,
        }
    }
}

} // verus!
