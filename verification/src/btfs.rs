//! The id-mapped filesystem: every node lives in one map keyed by a small
//! numeric id, directories hold descriptors of their children, and names are
//! resolved against the last path segment of each node's stored name.

use vstd::prelude::*;
use vstd::string::StringSliceAdditionalSpecFns;

use std::collections::BTreeMap;

use crate::environ::{env_has_name, env_idx, EnvironmentRef};
use crate::sc::{Instant, SystemClock};
use crate::shellstring::{spec_remove_matches, String};

verus! {

broadcast use vstd::laws_cmp::group_laws_cmp;

/// How a caller may refer to a node: the root, a raw id, or a name.
#[derive(Debug)]
pub enum NodeIdent {
    Root,
    Id(u16),
    Name(String),
}

/// The mathematical shape of a node identifier.
pub enum IdentView {
    Root,
    Id(u16),
    Name(Seq<u8>),
}

impl View for NodeIdent {
    type V = IdentView;

    open spec fn view(&self) -> IdentView {
        match self {
            NodeIdent::Root => IdentView::Root,
            NodeIdent::Id(i) => IdentView::Id(*i),
            NodeIdent::Name(s) => IdentView::Name(s@),
        }
    }
}

impl Clone for NodeIdent {
    fn clone(&self) -> (r: NodeIdent)
        ensures
            r@ == self@,
    {
        match self {
            NodeIdent::Root => NodeIdent::Root,
            NodeIdent::Id(i) => NodeIdent::Id(*i),
            NodeIdent::Name(s) => NodeIdent::Name(s.clone()),
        }
    }
}

/// A handle on one node: how it was reached, and whether it is a directory.
#[derive(Debug)]
pub struct FileDescriptor<T>(T, bool);

impl View for FileDescriptor<NodeIdent> {
    type V = (IdentView, bool);

    closed spec fn view(&self) -> (IdentView, bool) {
        (self.0@, self.1)
    }
}

/// The metadata common to files and directories.
#[derive(Debug)]
pub struct NodeContent {
    name: String,
    ctime: Instant,
    mtime: Instant,
    dtime: Option<Instant>,
    id: u16,
}

/// The mathematical shape of a node's metadata.
pub struct ContentView {
    pub name: Seq<u8>,
    pub ctime: nat,
    pub mtime: nat,
    pub dtime: Option<nat>,
    pub id: u16,
}

impl View for NodeContent {
    type V = ContentView;

    closed spec fn view(&self) -> ContentView {
        ContentView {
            name: self.name@,
            ctime: self.ctime@,
            mtime: self.mtime@,
            dtime: match self.dtime {
                Some(t) => Some(t@),
                None => None,
            },
            id: self.id,
        }
    }
}

impl NodeContent {
    /// Fresh metadata, stamped with the clock's current instant.
    pub fn new(name: String, id: u16, clock: &SystemClock) -> (c: NodeContent)
        ensures
            c@.name == name@,
            c@.id == id,
            c@.ctime == clock.spec_tick(),
            c@.mtime == clock.spec_tick(),
            c@.dtime is None,
    {
        let now = Instant::now(clock);
        NodeContent { name, ctime: now, mtime: now, dtime: None, id }
    }
}

/// A node: a file with its bytes, or a directory with its children.
#[derive(Debug)]
pub enum Node {
    File(NodeContent, Vec<u8>),
    Directory(NodeContent, BTreeMap<u16, FileDescriptor<NodeIdent>>),
}

/// The last path segment of a stored name: everything after the final `/`,
/// which is empty when the name ends in `/`.
pub open spec fn after_last_slash(s: Seq<u8>) -> Seq<u8>
    decreases s.len(),
{
    if s.len() == 0 {
        s
    } else if s[s.len() - 1] == 47 {
        Seq::empty()
    } else {
        after_last_slash(s.drop_last()).push(s[s.len() - 1])
    }
}

/// The last path segment of a string, as an owned string.
pub fn basename_of(s: &String) -> (r: String)
    ensures
        r@ == after_last_slash(s@),
{
    let n = s.len();
    let mut start: usize = n;
    while start > 0
        invariant
            start <= n,
            n == s@.len(),
            forall|j: int| start <= j < n ==> s@[j] != 47,
        ensures
            start <= n,
            n == s@.len(),
            forall|j: int| start <= j < n ==> s@[j] != 47,
            start > 0 ==> s@[start - 1] == 47,
        decreases start,
    {
        if s.at(start - 1) == 47 {
            break ;
        }
        start = start - 1;
    }
    let r = s.suffix_from(start);
    proof {
        lemma_after_last_slash_suffix(s@, start as int);
    }
    r
}

/// When everything from `start` on is slash-free and either `start` is 0 or
/// a slash sits just before it, the last segment is the suffix from `start`.
proof fn lemma_after_last_slash_suffix(s: Seq<u8>, start: int)
    requires
        0 <= start <= s.len(),
        forall|j: int| start <= j < s.len() ==> s[j] != 47,
        start > 0 ==> s[start - 1] == 47,
    ensures
        after_last_slash(s) == s.subrange(start, s.len() as int),
    decreases s.len() - start,
{
    if start == s.len() {
        if s.len() == 0 {
            assert(after_last_slash(s) =~= s.subrange(start, s.len() as int));
        } else {
            assert(s[s.len() - 1] == 47);
            assert(after_last_slash(s) =~= s.subrange(start, s.len() as int));
        }
    } else {
        assert(s[s.len() - 1] != 47);
        lemma_after_last_slash_suffix(s.drop_last(), start);
        assert(s.drop_last().subrange(start, s.drop_last().len() as int) =~= s.subrange(
            start,
            s.len() - 1,
        ));
        assert(after_last_slash(s) =~= s.subrange(start, s.len() - 1).push(s[s.len() - 1]));
        assert(s.subrange(start, s.len() - 1).push(s[s.len() - 1]) =~= s.subrange(
            start,
            s.len() as int,
        ));
    }
}

impl Node {
    /// Whether this node is a file (in spec form).
    pub open spec fn spec_is_file(&self) -> bool {
        self is File
    }

    /// The node's metadata.
    pub closed spec fn spec_content(&self) -> ContentView {
        match self {
            Node::File(c, _) => c@,
            Node::Directory(c, _) => c@,
        }
    }

    /// The stored (full) name.
    pub open spec fn spec_name(&self) -> Seq<u8> {
        self.spec_content().name
    }

    /// The name the node answers to: the last segment of its stored name.
    pub open spec fn spec_basename(&self) -> Seq<u8> {
        after_last_slash(self.spec_name())
    }

    /// The file bytes; empty for a directory.
    pub closed spec fn spec_data(&self) -> Seq<u8> {
        match self {
            Node::File(_, d) => d@,
            Node::Directory(_, _) => Seq::empty(),
        }
    }

    /// The children map; empty for a file.
    pub closed spec fn spec_children(&self) -> Map<u16, FileDescriptor<NodeIdent>> {
        match self {
            Node::File(_, _) => Map::empty(),
            Node::Directory(_, ch) => ch@,
        }
    }

    /// A fresh node: a directory when `kind` is true, else a file, with
    /// metadata stamped at the clock's current instant.
    pub fn new(name: String, id: u16, kind: bool, clock: &SystemClock) -> (n: Node)
        ensures
            n.spec_is_file() == !kind,
            n.spec_content().name == name@,
            n.spec_content().id == id,
            n.spec_content().ctime == clock.spec_tick(),
            n.spec_content().mtime == clock.spec_tick(),
            n.spec_content().dtime is None,
            n.spec_data() == Seq::<u8>::empty(),
            n.spec_children() == Map::<u16, FileDescriptor<NodeIdent>>::empty(),
    {
        let content = NodeContent::new(name, id, clock);
        if kind {
            let n = Node::Directory(content, BTreeMap::new());
            proof {
                assert(n.spec_children() =~= Map::<u16, FileDescriptor<NodeIdent>>::empty());
            }
            n
        } else {
            let n = Node::File(content, Vec::new());
            proof {
                assert(n.spec_children() =~= Map::<u16, FileDescriptor<NodeIdent>>::empty());
            }
            n
        }
    }

    /// The metadata, read-only.
    pub fn content(&self) -> (r: &NodeContent)
        ensures
            r@ == self.spec_content(),
    {
        match self {
            Node::File(c, _) => c,
            Node::Directory(c, _) => c,
        }
    }

    /// The metadata, for updating timestamps; the node's payload is
    /// untouched and the caller decides the new metadata.
    pub fn content_mut(&mut self) -> (r: &mut NodeContent)
        ensures
            (*r)@ == old(self).spec_content(),
            final(self).spec_content() == final(r)@,
            final(self).spec_is_file() == old(self).spec_is_file(),
            final(self).spec_data() == old(self).spec_data(),
            final(self).spec_children() == old(self).spec_children(),
    {
        match self {
            Node::File(c, _) => c,
            Node::Directory(c, _) => c,
        }
    }

    /// The children map, if this is a directory.
    pub fn children(&self) -> (r: Option<&BTreeMap<u16, FileDescriptor<NodeIdent>>>)
        ensures
            match r {
                Some(ch) => !self.spec_is_file() && ch@ == self.spec_children(),
                None => self.spec_is_file() && self.spec_children() == Map::<
                    u16,
                    FileDescriptor<NodeIdent>,
                >::empty(),
            },
    {
        match self {
            Node::File(_, _) => None,
            Node::Directory(_, ch) => Some(ch),
        }
    }

    /// The file bytes, if this is a file.
    pub fn data(&self) -> (r: Option<&Vec<u8>>)
        ensures
            match r {
                Some(d) => self.spec_is_file() && d@ == self.spec_data(),
                None => !self.spec_is_file(),
            },
    {
        match self {
            Node::File(_, d) => Some(d),
            Node::Directory(_, _) => None,
        }
    }

    /// When the node was last modified.
    pub fn mod_time(&self) -> (r: Instant)
        ensures
            r@ == self.spec_content().mtime,
    {
        match self {
            Node::File(c, _) => c.mtime,
            Node::Directory(c, _) => c.mtime,
        }
    }

    /// When the node was created.
    pub fn create_time(&self) -> (r: Instant)
        ensures
            r@ == self.spec_content().ctime,
    {
        match self {
            Node::File(c, _) => c.ctime,
            Node::Directory(c, _) => c.ctime,
        }
    }
}

/// What a filesystem node can answer about itself.
pub trait Inode {
    /// Whether this node is a file.
    fn is_file(&self) -> bool;

    /// Whether this node is a directory.
    fn is_dir(&self) -> bool;

    /// The name the node answers to.
    fn name(&self) -> String;

    /// The node's id.
    fn id(&self) -> u16;

    /// Whether the node has been marked deleted.
    fn is_deleted(&self) -> bool;
}

impl Inode for Node {
    fn is_file(&self) -> (r: bool)
        ensures
            r == self.spec_is_file(),
    {
        match self {
            Node::File(_, _) => true,
            Node::Directory(_, _) => false,
        }
    }

    fn is_dir(&self) -> (r: bool)
        ensures
            r == !self.spec_is_file(),
    {
        match self {
            Node::File(_, _) => false,
            Node::Directory(_, _) => true,
        }
    }

    fn name(&self) -> (r: String)
        ensures
            r@ == self.spec_basename(),
    {
        let content = self.content();
        basename_of(&content.name)
    }

    fn id(&self) -> (r: u16)
        ensures
            r == self.spec_content().id,
    {
        self.content().id
    }

    fn is_deleted(&self) -> (r: bool)
        ensures
            r == (self.spec_content().dtime is Some),
    {
        match &self.content().dtime {
            Some(_) => true,
            None => false,
        }
    }
}

/// The first id in `[lo, hi)` whose node answers to `name`.
pub open spec fn spec_find_from(m: Map<u16, Node>, name: Seq<u8>, lo: int, hi: int) -> Option<u16>
    decreases hi - lo,
{
    if lo < 0 || lo >= hi {
        None
    } else if m.dom().contains(lo as u16) && m[lo as u16].spec_basename() == name {
        Some(lo as u16)
    } else {
        spec_find_from(m, name, lo + 1, hi)
    }
}

/// The lowest id in the filesystem whose node answers to `name`.
pub open spec fn spec_find_name(m: Map<u16, Node>, next: u16, name: Seq<u8>) -> Option<u16> {
    spec_find_from(m, name, 0, next as int)
}

/// Searching `[lo, hi)` is searching `[lo, mid)` first and `[mid, hi)` only
/// when that fails.
proof fn lemma_find_split(m: Map<u16, Node>, name: Seq<u8>, lo: int, mid: int, hi: int)
    requires
        0 <= lo <= mid <= hi,
    ensures
        spec_find_from(m, name, lo, hi) == (if spec_find_from(m, name, lo, mid) is Some {
            spec_find_from(m, name, lo, mid)
        } else {
            spec_find_from(m, name, mid, hi)
        }),
    decreases mid - lo,
{
    if lo < mid {
        lemma_find_split(m, name, lo + 1, mid, hi);
    }
}


/// A successful search returns an id that is in the map, matches the name,
/// and lies in the searched range.
proof fn lemma_find_from_props(m: Map<u16, Node>, name: Seq<u8>, lo: int, hi: int)
    requires
        0 <= lo,
        hi <= 0x10000,
    ensures
        match spec_find_from(m, name, lo, hi) {
            Some(i) => m.dom().contains(i) && m[i].spec_basename() == name && lo <= i < hi,
            None => true,
        },
    decreases hi - lo,
{
    if lo < 0 || lo >= hi {
    } else if m.dom().contains(lo as u16) && m[lo as u16].spec_basename() == name {
    } else {
        lemma_find_from_props(m, name, lo + 1, hi);
    }
}

/// How a caller's identifier resolves to a raw id.
pub open spec fn spec_resolve(m: Map<u16, Node>, next: u16, i: IdentView) -> Option<u16> {
    match i {
        IdentView::Root => Some(0u16),
        IdentView::Id(id) => Some(id),
        IdentView::Name(n) => spec_find_name(m, next, n),
    }
}

/// The size of the node at `id`: a file's byte count, or the sum of the
/// sizes of a directory's children.
pub open spec fn spec_size_of(m: Map<u16, Node>, id: u16) -> nat
    decreases 0x10000 - id, 0x10001int,
{
    if !m.dom().contains(id) {
        0
    } else if m[id].spec_is_file() {
        m[id].spec_data().len()
    } else {
        spec_children_sum(m, m[id].spec_children().dom(), id, 0x10000)
    }
}

/// The summed sizes of the children of `id` with ids in `(id, hi)`.
pub open spec fn spec_children_sum(m: Map<u16, Node>, ch: Set<u16>, id: u16, hi: int) -> nat
    decreases 0x10000 - id, hi - id,
{
    if hi <= id + 1 {
        0
    } else {
        spec_children_sum(m, ch, id, hi - 1) + (if ch.contains((hi - 1) as u16) && id < hi - 1
            < 0x10000 {
            spec_size_of(m, (hi - 1) as u16)
        } else {
            0
        })
    }
}

/// A wider sum never shrinks.
proof fn lemma_children_sum_mono(m: Map<u16, Node>, ch: Set<u16>, id: u16, hi1: int, hi2: int)
    requires
        hi1 <= hi2,
    ensures
        spec_children_sum(m, ch, id, hi1) <= spec_children_sum(m, ch, id, hi2),
    decreases hi2 - hi1,
{
    if hi1 < hi2 {
        lemma_children_sum_mono(m, ch, id, hi1, hi2 - 1);
    }
}

/// The sum is at least any one member's size.
proof fn lemma_children_sum_member(m: Map<u16, Node>, ch: Set<u16>, id: u16, c: u16, hi: int)
    requires
        ch.contains(c),
        id < c,
        c < hi,
        hi <= 0x10000,
    ensures
        spec_children_sum(m, ch, id, hi) >= spec_size_of(m, c),
    decreases hi - id,
{
    if hi - 1 == c {
    } else {
        lemma_children_sum_member(m, ch, id, c, hi - 1);
    }
}

/// Ids past every member contribute nothing to the sum.
proof fn lemma_children_sum_tail(m: Map<u16, Node>, ch: Set<u16>, id: u16, lo: int, hi: int)
    requires
        lo <= hi,
        forall|c: u16| ch.contains(c) ==> (c as int) < lo,
    ensures
        spec_children_sum(m, ch, id, hi) == spec_children_sum(m, ch, id, lo),
    decreases hi - lo,
{
    if lo < hi {
        lemma_children_sum_tail(m, ch, id, lo, hi - 1);
    }
}

/// Whether `out` lists exactly the children in `ch`, each as a descriptor
/// that refers to the child by raw id and carries its stored flag.
pub open spec fn child_map_matches(
    out: Map<u16, FileDescriptor<NodeIdent>>,
    ch: Map<u16, FileDescriptor<NodeIdent>>,
) -> bool {
    &&& out.dom() == ch.dom()
    &&& forall|c: u16|
        ch.dom().contains(c) ==> (#[trigger] out[c])@ == (IdentView::Id(c), ch[c]@.1)
}

/// The parent a path is created under: the path with every occurrence of
/// its last segment removed.
pub open spec fn spec_parent_path(name: Seq<u8>) -> Seq<u8> {
    spec_remove_matches(name, after_last_slash(name))
}

/// What creating a node under `name` does, starting from map `pre_m` and id
/// counter `pre_next`: the id counter is spent even when creation fails; on
/// success the fresh node appears under the new id, registered in its
/// parent's children.
pub open spec fn spec_create_outcome(
    pre_m: Map<u16, Node>,
    pre_next: u16,
    post_m: Map<u16, Node>,
    post_next: u16,
    name: Seq<u8>,
    kind: bool,
    tick: nat,
    r: Option<FileDescriptor<NodeIdent>>,
) -> bool {
    if pre_next == u16::MAX {
        r is None && post_m == pre_m && post_next == pre_next
    } else {
        let id = pre_next;
        post_next == pre_next + 1 && match spec_find_name(pre_m, pre_next, spec_parent_path(name)) {
            None => r is None && post_m == pre_m,
            Some(p) => if pre_m[p].spec_is_file() {
                r is None && post_m == pre_m
            } else {
                &&& r is Some
                &&& r->Some_0@ == (IdentView::Id(id), false)
                &&& post_m.dom() == pre_m.dom().insert(id)
                &&& forall|k: u16|
                    pre_m.dom().contains(k) && k != p ==> post_m[k] == (#[trigger] pre_m[k])
                &&& !post_m[p].spec_is_file()
                &&& post_m[p].spec_content() == pre_m[p].spec_content()
                &&& post_m[p].spec_children().dom() == pre_m[p].spec_children().dom().insert(id)
                &&& post_m[p].spec_children()[id]@ == (IdentView::Id(id), false)
                &&& forall|c: u16|
                    pre_m[p].spec_children().dom().contains(c) && c != id ==> post_m[
                        p
                    ].spec_children()[c] == (#[trigger] pre_m[p].spec_children()[c])
                &&& post_m[id].spec_is_file() == !kind
                &&& post_m[id].spec_name() == name
                &&& post_m[id].spec_content().id == id
                &&& post_m[id].spec_content().ctime == tick
                &&& post_m[id].spec_content().mtime == tick
                &&& post_m[id].spec_content().dtime is None
                &&& post_m[id].spec_data() == Seq::<u8>::empty()
                &&& post_m[id].spec_children() == Map::<u16, FileDescriptor<NodeIdent>>::empty()
            },
        }
    }
}

/// The filesystem: one map from raw id to node, and the next id to hand
/// out. Id 0 is the root directory, created with the filesystem.
#[derive(Debug)]
pub struct BTFS {
    pub imap: BTreeMap<u16, Node>,
    next_id: u16,
}

/// A filesystem that hands out descriptors keyed by `NodeIdent`.
pub trait FileSystem {
    /// The structural invariant the filesystem maintains.
    spec fn inv(&self) -> bool;

    /// A fresh raw id, or nothing when the id space is exhausted.
    fn next_free(&mut self) -> (r: Option<u16>)
        requires
            old(self).inv(),
        ensures
            final(self).inv(),
    ;

    /// The children of the directory the environment's `cwd` names.
    fn map(&self, env: &EnvironmentRef) -> (r: Option<
        BTreeMap<u16, FileDescriptor<NodeIdent>>,
    >)
        requires
            self.inv(),
            env.wf(),
            env_has_name(env@, "cwd".spec_bytes()),
    ;

    /// Creates a file under the parent its path names.
    fn create_file(&mut self, name: &String, clock: &SystemClock) -> (r: Option<
        FileDescriptor<NodeIdent>,
    >)
        requires
            old(self).inv(),
        ensures
            final(self).inv(),
    ;

    /// Creates a directory under the parent its path names.
    fn create_dir(&mut self, name: &String, clock: &SystemClock) -> (r: Option<
        FileDescriptor<NodeIdent>,
    >)
        requires
            old(self).inv(),
        ensures
            final(self).inv(),
    ;

    /// A descriptor for the named node.
    fn open(&mut self, ident: NodeIdent) -> (r: Option<FileDescriptor<NodeIdent>>)
        requires
            old(self).inv(),
        ensures
            final(self).inv(),
    ;

    /// The size of the node with the given raw id.
    fn size(&self, ident: u16) -> (r: Option<usize>)
        requires
            self.inv(),
    ;
}

impl BTFS {
    /// The node map.
    pub closed spec fn spec_map(&self) -> Map<u16, Node> {
        self.imap@
    }

    /// The next raw id to hand out.
    pub closed spec fn spec_next(&self) -> u16 {
        self.next_id
    }

    /// Structural invariant: the root directory exists; every id is below
    /// the id counter; every node records its own id; a directory's
    /// children exist and have larger ids than their parent.
    pub closed spec fn wf(&self) -> bool {
        &&& self.imap@.dom().contains(0u16)
        &&& !self.imap@[0u16].spec_is_file()
        &&& forall|k: u16| #[trigger] self.imap@.dom().contains(k) ==> k < self.next_id
        &&& forall|k: u16|
            self.imap@.dom().contains(k) ==> (#[trigger] self.imap@[k]).spec_content().id == k
        &&& forall|k: u16, c: u16|
            self.imap@.dom().contains(k) && #[trigger] self.imap@[k].spec_children().dom().contains(
                c,
            ) ==> self.imap@.dom().contains(c) && c > k
    }

    /// A fresh filesystem holding only the root directory `/` under id 0.
    pub fn new(clock: &SystemClock) -> (fs: BTFS)
        ensures
            fs.wf(),
            fs.spec_next() == 1,
            fs.spec_map().dom() =~= Set::<u16>::empty().insert(0u16),
            !fs.spec_map()[0u16].spec_is_file(),
            fs.spec_map()[0u16].spec_name() == "/".spec_bytes(),
            fs.spec_map()[0u16].spec_children() == Map::<u16, FileDescriptor<NodeIdent>>::empty(),
    {
        let mut tree: BTreeMap<u16, Node> = BTreeMap::new();
        let root = Node::new(String::from_bytes("/".as_bytes()), 0, true, clock);
        tree.insert(0, root);
        let fs = BTFS { imap: tree, next_id: 1 };
        proof {
            assert(fs.imap@.dom() =~= Set::<u16>::empty().insert(0u16));
        }
        fs
    }

    /// Resolves an identifier to a raw id: the root is id 0, a raw id is
    /// itself, and a name finds the lowest id answering to it.
    pub fn flatten_ident(&self, id: &NodeIdent) -> (r: Option<u16>)
        requires
            self.wf(),
        ensures
            r == spec_resolve(self.spec_map(), self.spec_next(), id@),
    {
        match id {
            NodeIdent::Root => Some(0),
            NodeIdent::Id(i) => Some(*i),
            NodeIdent::Name(s) => {
                let bytes = s.bytes();
                self.find_name(bytes.as_slice())
            },
        }
    }

    /// The lowest id whose node answers to `name`.
    fn find_name(&self, name: &[u8]) -> (r: Option<u16>)
        requires
            self.wf(),
        ensures
            r == spec_find_name(self.spec_map(), self.spec_next(), name@),
    {
        let mut id: u16 = 0;
        while id < self.next_id
            invariant
                self.wf(),
                id <= self.next_id,
                spec_find_from(self.spec_map(), name@, 0, id as int) is None,
            decreases self.next_id - id,
        {
            let node = self.imap.get(&id);
            let matched = match node {
                Some(n) => {
                    let nm = n.name();
                    nm.eq_bytes(name)
                },
                None => false,
            };
            if matched {
                proof {
                    assert(spec_find_from(self.spec_map(), name@, id as int, self.next_id as int)
                        == Some(id));
                    lemma_find_split(self.spec_map(), name@, 0, id as int, self.next_id as int);
                }
                return Some(id);
            }
            proof {
                assert(spec_find_from(self.spec_map(), name@, id + 1, id + 1) is None);
                assert(spec_find_from(self.spec_map(), name@, id as int, id + 1) is None);
                lemma_find_split(self.spec_map(), name@, 0, id as int, id + 1);
            }
            id = id + 1;
        }
        None
    }
}

impl BTFS {
    /// Creates a node of either kind; both `create_file` and `create_dir`
    /// are this with the kind fixed.
    fn create_node(&mut self, name: &String, kind: bool, clock: &SystemClock) -> (r: Option<
        FileDescriptor<NodeIdent>,
    >)
        requires
            old(self).wf(),
        ensures
            final(self).wf(),
            spec_create_outcome(
                old(self).spec_map(),
                old(self).spec_next(),
                final(self).spec_map(),
                final(self).spec_next(),
                name@,
                kind,
                clock.spec_tick(),
                r,
            ),
    {
        let id = match self.next_free() {
            Some(id) => id,
            None => {
                proof {
                    assert(old(self).spec_next() == u16::MAX);
                    assert(self.spec_map() == old(self).spec_map());
                    assert(self.spec_next() == old(self).spec_next());
                }
                return None;
            },
        };
        let name_s = name.clone();
        let file = basename_of(&name_s);
        let full = name_s.remove_matches(&file);
        let found = self.find_name(full.bytes().as_slice());
        proof {
            // the freshly reserved id is not in the map yet, so searching up
            // to the advanced counter finds the same node
            let hi = self.spec_next() as int;
            let mid = old(self).spec_next() as int;
            assert(spec_find_from(self.spec_map(), full@, mid + 1, hi) is None);
            assert(spec_find_from(self.spec_map(), full@, mid, hi) is None);
            lemma_find_split(self.spec_map(), full@, 0, mid, hi);
            lemma_find_from_props(self.spec_map(), full@, 0, mid);
        }
        let parent_id = match found {
            Some(p) => p,
            None => {
                return None;
            },
        };
        let ghost m = self.spec_map();
        let parent = match self.imap.remove(&parent_id) {
            Some(n) => n,
            None => {
                // unreachable: the name search found this id in the map
                proof {
                    assert(false);
                }
                return None;
            },
        };
        match parent {
            Node::File(c, d) => {
                self.imap.insert(parent_id, Node::File(c, d));
                proof {
                    assert(self.spec_map() =~= m);
                }
                None
            },
            Node::Directory(c, mut ch) => {
                let ghost chm = ch@;
                ch.insert(id, FileDescriptor(NodeIdent::Id(id), false));
                let newparent = Node::Directory(c, ch);
                self.imap.insert(parent_id, newparent);
                let child = Node::new(name_s, id, kind, clock);
                self.imap.insert(id, child);
                proof {
                    let m2 = self.spec_map();
                    assert(m2.dom() =~= m.dom().insert(id));
                    assert(m2[parent_id].spec_children().dom() =~= chm.dom().insert(id));
                    assert forall|k: u16| #[trigger] m2.dom().contains(k) implies k
                        < self.spec_next() by {}
                    assert forall|k: u16| m2.dom().contains(k) implies (#[trigger] m2[
                    k]).spec_content().id == k by {
                        if k != id && k != parent_id {
                            assert(m2[k] == m[k]);
                        }
                    }
                    assert forall|k: u16, c2: u16|
                        m2.dom().contains(k) && #[trigger] m2[k].spec_children().dom().contains(
                            c2,
                        ) implies m2.dom().contains(c2) && c2 > k by {
                        if k == id {
                        } else if k == parent_id {
                            if c2 != id {
                                assert(m[parent_id].spec_children().dom().contains(c2));
                            }
                        } else {
                            assert(m2[k] == m[k]);
                            assert(m[k].spec_children().dom().contains(c2));
                        }
                    }
                    if parent_id != 0 {
                        assert(m2[0u16] == m[0u16]);
                    }
                }
                Some(FileDescriptor(NodeIdent::Id(id), false))
            },
        }
    }
}

impl BTFS {
    /// A fresh raw id, or nothing once the id space is exhausted.
    pub fn next_free(&mut self) -> (r: Option<u16>)
        requires
            old(self).wf(),
        ensures
            final(self).wf(),
            final(self).spec_map() == old(self).spec_map(),
            if old(self).spec_next() == u16::MAX {
                r is None && final(self).spec_next() == old(self).spec_next()
            } else {
                r == Some(old(self).spec_next()) && final(self).spec_next() == old(self).spec_next()
                    + 1
            },
    {
        if self.next_id == u16::MAX {
            None
        } else {
            let id = self.next_id;
            self.next_id = self.next_id + 1;
            Some(id)
        }
    }

    /// The children of the directory the environment's `cwd` names, as
    /// descriptors keyed by raw id; a file named by `cwd` lists nothing,
    /// and an unresolvable `cwd` is reported.
    pub fn map(&self, env: &EnvironmentRef) -> (r: Option<
        BTreeMap<u16, FileDescriptor<NodeIdent>>,
    >)
        requires
            self.wf(),
            env.wf(),
            env_has_name(env@, "cwd".spec_bytes()),
        ensures
            ({
                let m = self.spec_map();
                let cwdv = env@[env_idx(env@, "cwd".spec_bytes())].1;
                if cwdv == "/".spec_bytes() {
                    r is Some && child_map_matches(r->Some_0@, m[0u16].spec_children())
                } else {
                    let path = if cwdv.len() > 0 && cwdv[cwdv.len() - 1] == 47 {
                        cwdv.drop_last()
                    } else {
                        cwdv
                    };
                    match spec_find_name(m, self.spec_next(), path) {
                        None => r is None,
                        Some(p) => r is Some && child_map_matches(
                            r->Some_0@,
                            m[p].spec_children(),
                        ),
                    }
                }
            }),
    {
        let cwd = env.cwd();
        let (pid, is_root) = if cwd.eq_bytes("/".as_bytes()) {
            (0u16, true)
        } else {
            let ends_slash = cwd.len() > 0 && cwd.at(cwd.len() - 1) == 47;
            let path = if ends_slash {
                let mut b = cwd.bytes();
                let popped = b.pop();
                let _ = popped;
                String::from_bytes(b.as_slice())
            } else {
                cwd
            };
            let found = self.find_name(path.bytes().as_slice());
            proof {
                lemma_find_from_props(self.spec_map(), path@, 0, self.spec_next() as int);
            }
            match found {
                Some(p) => (p, false),
                None => {
                    return None;
                },
            }
        };
        let node = match self.imap.get(&pid) {
            Some(n) => n,
            None => {
                // unreachable: the root always exists and a found name is in
                // the map
                proof {
                    assert(false);
                }
                return None;
            },
        };
        let mut out: BTreeMap<u16, FileDescriptor<NodeIdent>> = BTreeMap::new();
        match node.children() {
            None => {
                proof {
                    assert(out@.dom() =~= node.spec_children().dom());
                }
                Some(out)
            },
            Some(ch) => {
                let mut c: u16 = 0;
                while c < self.next_id
                    invariant
                        self.wf(),
                        c <= self.next_id,
                        ch@ == self.spec_map()[pid].spec_children(),
                        self.spec_map().dom().contains(pid),
                        forall|k: u16|
                            #[trigger] out@.dom().contains(k) <==> (ch@.dom().contains(k) && k
                                < c),
                        forall|k: u16|
                            ch@.dom().contains(k) && k < c ==> (#[trigger] out@[k])@ == (
                            IdentView::Id(k),
                            ch@[k]@.1,
                            ),
                    decreases self.next_id - c,
                {
                    match ch.get(&c) {
                        Some(fd) => {
                            out.insert(c, FileDescriptor(NodeIdent::Id(c), fd.1));
                        },
                        None => (),
                    }
                    c = c + 1;
                }
                proof {
                    assert(out@.dom() =~= ch@.dom());
                }
                Some(out)
            },
        }
    }

    /// Creates a file under the parent its path names.
    pub fn create_file(&mut self, name: &String, clock: &SystemClock) -> (r: Option<
        FileDescriptor<NodeIdent>,
    >)
        requires
            old(self).wf(),
        ensures
            final(self).wf(),
            spec_create_outcome(
                old(self).spec_map(),
                old(self).spec_next(),
                final(self).spec_map(),
                final(self).spec_next(),
                name@,
                false,
                clock.spec_tick(),
                r,
            ),
    {
        self.create_node(name, false, clock)
    }

    /// Creates a directory under the parent its path names.
    pub fn create_dir(&mut self, name: &String, clock: &SystemClock) -> (r: Option<
        FileDescriptor<NodeIdent>,
    >)
        requires
            old(self).wf(),
        ensures
            final(self).wf(),
            spec_create_outcome(
                old(self).spec_map(),
                old(self).spec_next(),
                final(self).spec_map(),
                final(self).spec_next(),
                name@,
                true,
                clock.spec_tick(),
                r,
            ),
    {
        self.create_node(name, true, clock)
    }

    /// A descriptor for the named node: the root always opens; a raw id or
    /// a name opens when it resolves to a node in the map.
    pub fn open(&mut self, ident: NodeIdent) -> (r: Option<FileDescriptor<NodeIdent>>)
        requires
            old(self).wf(),
        ensures
            final(self).wf(),
            final(self).spec_map() == old(self).spec_map(),
            final(self).spec_next() == old(self).spec_next(),
            ({
                let m = old(self).spec_map();
                match ident@ {
                    IdentView::Root => r is Some && r->Some_0@ == (IdentView::Root, true),
                    IdentView::Id(i) => if m.dom().contains(i) {
                        r is Some && r->Some_0@ == (IdentView::Id(i), !m[i].spec_is_file())
                    } else {
                        r is None
                    },
                    IdentView::Name(n) => match spec_find_name(m, old(self).spec_next(), n) {
                        None => r is None,
                        Some(i) => r is Some && r->Some_0@ == (
                            IdentView::Id(i),
                            !m[i].spec_is_file(),
                        ),
                    },
                }
            }),
    {
        match ident {
            NodeIdent::Root => Some(FileDescriptor(NodeIdent::Root, true)),
            NodeIdent::Id(i) => {
                match self.imap.get(&i) {
                    Some(n) => Some(FileDescriptor(NodeIdent::Id(i), n.is_dir())),
                    None => None,
                }
            },
            NodeIdent::Name(s) => {
                let resolved = {
                    let bytes = s.bytes();
                    self.find_name(bytes.as_slice())
                };
                proof {
                    lemma_find_from_props(self.spec_map(), s@, 0, self.spec_next() as int);
                }
                match resolved {
                    Some(i) => {
                        match self.imap.get(&i) {
                            Some(n) => Some(FileDescriptor(NodeIdent::Id(i), n.is_dir())),
                            None => {
                                // unreachable: a found name is in the map
                                proof {
                                    assert(false);
                                }
                                None
                            },
                        }
                    },
                    None => None,
                }
            },
        }
    }

    /// The size of the node with the given raw id: a file's byte count, a
    /// directory's summed child sizes; nothing for an unknown id or a sum
    /// beyond the address space.
    pub fn size(&self, ident: u16) -> (r: Option<usize>)
        requires
            self.wf(),
        ensures
            match r {
                Some(s) => self.spec_map().dom().contains(ident) && s == spec_size_of(
                    self.spec_map(),
                    ident,
                ),
                None => !self.spec_map().dom().contains(ident) || spec_size_of(
                    self.spec_map(),
                    ident,
                ) > usize::MAX,
            },
        decreases 0x10000 - ident,
    {
        let node = match self.imap.get(&ident) {
            Some(n) => n,
            None => {
                return None;
            },
        };
        match node {
            Node::File(_, v) => Some(v.len()),
            Node::Directory(_, t) => {
                let ghost m = self.spec_map();
                let ghost chs = t@.dom();
                let mut total: usize = 0;
                let mut c: u32 = ident as u32 + 1;
                while c < self.next_id as u32
                    invariant
                        self.wf(),
                        m == self.spec_map(),
                        m.dom().contains(ident),
                        !m[ident].spec_is_file(),
                        chs == m[ident].spec_children().dom(),
                        t@ == m[ident].spec_children(),
                        ident as u32 + 1 <= c <= 0x10000,
                        c <= self.next_id as u32 || c == ident as u32 + 1,
                        total == spec_children_sum(m, chs, ident, c as int),
                    decreases self.next_id as u32 - c,
                {
                    if t.contains_key(&(c as u16)) {
                        let part = match self.size(c as u16) {
                            Some(s) => s,
                            None => {
                                proof {
                                    lemma_children_sum_member(m, chs, ident, c as u16, 0x10000);
                                }
                                return None;
                            },
                        };
                        total = match total.checked_add(part) {
                            Some(t2) => t2,
                            None => {
                                proof {
                                    lemma_children_sum_mono(m, chs, ident, c + 1, 0x10000);
                                }
                                return None;
                            },
                        };
                    }
                    c = c + 1;
                }
                proof {
                    lemma_children_sum_tail(m, chs, ident, self.next_id as int, 0x10000);
                    if c > self.next_id as u32 {
                        lemma_children_sum_tail(m, chs, ident, self.next_id as int, c as int);
                    }
                }
                Some(total)
            },
        }
    }
}


impl FileSystem for BTFS {
    open spec fn inv(&self) -> bool {
        self.wf()
    }

    fn next_free(&mut self) -> (r: Option<u16>) {
        BTFS::next_free(self)
    }

    fn map(&self, env: &EnvironmentRef) -> (r: Option<BTreeMap<u16, FileDescriptor<NodeIdent>>>) {
        BTFS::map(self, env)
    }

    fn create_file(&mut self, name: &String, clock: &SystemClock) -> (r: Option<
        FileDescriptor<NodeIdent>,
    >) {
        BTFS::create_file(self, name, clock)
    }

    fn create_dir(&mut self, name: &String, clock: &SystemClock) -> (r: Option<
        FileDescriptor<NodeIdent>,
    >) {
        BTFS::create_dir(self, name, clock)
    }

    fn open(&mut self, ident: NodeIdent) -> (r: Option<FileDescriptor<NodeIdent>>) {
        BTFS::open(self, ident)
    }

    fn size(&self, ident: u16) -> (r: Option<usize>) {
        BTFS::size(self, ident)
    }
}

impl FileDescriptor<NodeIdent> {
    /// A descriptor from an identifier and a directory flag.
    pub fn new(id: NodeIdent, kind: bool) -> (r: FileDescriptor<NodeIdent>)
        ensures
            r@ == (id@, kind),
    {
        FileDescriptor(id, kind)
    }

    /// The raw id this descriptor resolves to in the given filesystem.
    pub fn id(&self, fs: &BTFS) -> (r: Option<u16>)
        requires
            fs.wf(),
        ensures
            r == spec_resolve(fs.spec_map(), fs.spec_next(), self@.0),
    {
        fs.flatten_ident(&self.0)
    }

    /// The name the node answers to, if the descriptor resolves to a node.
    pub fn name(&self, fs: &BTFS) -> (r: Option<String>)
        requires
            fs.wf(),
        ensures
            ({
                let m = fs.spec_map();
                match spec_resolve(m, fs.spec_next(), self@.0) {
                    None => r is None,
                    Some(i) => if m.dom().contains(i) {
                        r is Some && r->Some_0@ == m[i].spec_basename()
                    } else {
                        r is None
                    },
                }
            }),
    {
        let id = match fs.flatten_ident(&self.0) {
            Some(i) => i,
            None => {
                return None;
            },
        };
        match fs.imap.get(&id) {
            Some(node) => Some(node.name()),
            None => None,
        }
    }

    /// Whether the node this descriptor resolves to is a directory.
    pub fn kind(&self, fs: &BTFS) -> (r: Option<bool>)
        requires
            fs.wf(),
        ensures
            ({
                let m = fs.spec_map();
                match spec_resolve(m, fs.spec_next(), self@.0) {
                    None => r is None,
                    Some(i) => if m.dom().contains(i) {
                        r == Some(!m[i].spec_is_file())
                    } else {
                        r is None
                    },
                }
            }),
    {
        let id = match fs.flatten_ident(&self.0) {
            Some(i) => i,
            None => {
                return None;
            },
        };
        match fs.imap.get(&id) {
            Some(node) => Some(node.is_dir()),
            None => None,
        }
    }

    /// The size of the node this descriptor resolves to.
    pub fn size(&self, fs: &BTFS) -> (r: Option<usize>)
        requires
            fs.wf(),
        ensures
            ({
                let m = fs.spec_map();
                match spec_resolve(m, fs.spec_next(), self@.0) {
                    None => r is None,
                    Some(i) => match r {
                        Some(s) => m.dom().contains(i) && s == spec_size_of(m, i),
                        None => !m.dom().contains(i) || spec_size_of(m, i) > usize::MAX,
                    },
                }
            }),
    {
        let id = match fs.flatten_ident(&self.0) {
            Some(i) => i,
            None => {
                return None;
            },
        };
        fs.size(id)
    }
}

/// A handle on the kernel's filesystem; the handle owns the one
/// filesystem the kernel keeps.
#[derive(Debug)]
pub struct FileSyetemRef {
    fs: BTFS,
}

impl FileSyetemRef {
    /// The underlying node map.
    pub closed spec fn spec_map(&self) -> Map<u16, Node> {
        self.fs.spec_map()
    }

    /// The underlying id counter.
    pub closed spec fn spec_next(&self) -> u16 {
        self.fs.spec_next()
    }

    /// The underlying invariant.
    pub closed spec fn wf(&self) -> bool {
        self.fs.wf()
    }

    /// A handle on a fresh filesystem.
    pub fn new(clock: &SystemClock) -> (r: FileSyetemRef)
        ensures
            r.wf(),
            r.spec_next() == 1,
            r.spec_map().dom() == Set::<u16>::empty().insert(0u16),
            !r.spec_map()[0u16].spec_is_file(),
    {
        FileSyetemRef { fs: BTFS::new(clock) }
    }

    /// The children of the directory the environment's `cwd` names.
    pub fn map(&self, env: &EnvironmentRef) -> (r: Option<
        BTreeMap<u16, FileDescriptor<NodeIdent>>,
    >)
        requires
            self.wf(),
            env.wf(),
            env_has_name(env@, "cwd".spec_bytes()),
        ensures
            ({
                let m = self.spec_map();
                let cwdv = env@[env_idx(env@, "cwd".spec_bytes())].1;
                if cwdv == "/".spec_bytes() {
                    r is Some && child_map_matches(r->Some_0@, m[0u16].spec_children())
                } else {
                    let path = if cwdv.len() > 0 && cwdv[cwdv.len() - 1] == 47 {
                        cwdv.drop_last()
                    } else {
                        cwdv
                    };
                    match spec_find_name(m, self.spec_next(), path) {
                        None => r is None,
                        Some(p) => r is Some && child_map_matches(
                            r->Some_0@,
                            m[p].spec_children(),
                        ),
                    }
                }
            }),
    {
        self.fs.map(env)
    }

    /// Creates a file under the parent its path names.
    pub fn create_file(&mut self, name: &String, clock: &SystemClock) -> (r: Option<
        FileDescriptor<NodeIdent>,
    >)
        requires
            old(self).wf(),
        ensures
            final(self).wf(),
            spec_create_outcome(
                old(self).spec_map(),
                old(self).spec_next(),
                final(self).spec_map(),
                final(self).spec_next(),
                name@,
                false,
                clock.spec_tick(),
                r,
            ),
    {
        self.fs.create_file(name, clock)
    }

    /// Creates a directory under the parent its path names.
    pub fn create_dir(&mut self, name: &String, clock: &SystemClock) -> (r: Option<
        FileDescriptor<NodeIdent>,
    >)
        requires
            old(self).wf(),
        ensures
            final(self).wf(),
            spec_create_outcome(
                old(self).spec_map(),
                old(self).spec_next(),
                final(self).spec_map(),
                final(self).spec_next(),
                name@,
                true,
                clock.spec_tick(),
                r,
            ),
    {
        self.fs.create_dir(name, clock)
    }

    /// A descriptor for the named node.
    pub fn open(&mut self, ident: NodeIdent) -> (r: Option<FileDescriptor<NodeIdent>>)
        requires
            old(self).wf(),
        ensures
            final(self).wf(),
            final(self).spec_map() == old(self).spec_map(),
            final(self).spec_next() == old(self).spec_next(),
            ({
                let m = old(self).spec_map();
                match ident@ {
                    IdentView::Root => r is Some && r->Some_0@ == (IdentView::Root, true),
                    IdentView::Id(i) => if m.dom().contains(i) {
                        r is Some && r->Some_0@ == (IdentView::Id(i), !m[i].spec_is_file())
                    } else {
                        r is None
                    },
                    IdentView::Name(n) => match spec_find_name(m, old(self).spec_next(), n) {
                        None => r is None,
                        Some(i) => r is Some && r->Some_0@ == (
                            IdentView::Id(i),
                            !m[i].spec_is_file(),
                        ),
                    },
                }
            }),
    {
        self.fs.open(ident)
    }

    /// The size of the node with the given raw id.
    pub fn size(&self, ident: u16) -> (r: Option<usize>)
        requires
            self.wf(),
        ensures
            match r {
                Some(s) => self.spec_map().dom().contains(ident) && s == spec_size_of(
                    self.spec_map(),
                    ident,
                ),
                None => !self.spec_map().dom().contains(ident) || spec_size_of(
                    self.spec_map(),
                    ident,
                ) > usize::MAX,
            },
    {
        self.fs.size(ident)
    }

    /// The filesystem's node of the given raw id, for reading.
    pub fn get_node(&self, id: u16) -> (r: Option<&Node>)
        ensures
            match r {
                Some(n) => self.spec_map().dom().contains(id) && *n == self.spec_map()[id],
                None => !self.spec_map().dom().contains(id),
            },
    {
        self.fs.imap.get(&id)
    }
}

impl FileSyetemRef {
    /// The underlying filesystem, for read-only inspection.
    pub fn fs(&self) -> (r: &BTFS)
        ensures
            r.spec_map() == self.spec_map(),
            r.spec_next() == self.spec_next(),
            self.wf() ==> r.wf(),
    {
        &self.fs
    }

    /// The next raw id the filesystem will hand out.
    pub fn next_id(&self) -> (r: u16)
        ensures
            r == self.spec_next(),
    {
        self.fs.next_id
    }
}

/// The facts the filesystem invariant gives any caller: the root exists and
/// is a directory, ids stay below the counter, and children are live nodes
/// with ids above their parent's.
pub proof fn lemma_wf_ref_facts(fs: &FileSyetemRef)
    requires
        fs.wf(),
    ensures
        fs.spec_map().dom().contains(0u16),
        !fs.spec_map()[0u16].spec_is_file(),
        forall|k: u16| #[trigger] fs.spec_map().dom().contains(k) ==> k < fs.spec_next(),
        forall|k: u16, c: u16|
            fs.spec_map().dom().contains(k) && #[trigger] fs.spec_map()[
                k
            ].spec_children().dom().contains(c) ==> fs.spec_map().dom().contains(c) && c > k,
{
}

/// A successful name search returns a live id below the counter whose node
/// answers to the name.
pub proof fn lemma_find_name_props(m: Map<u16, Node>, next: u16, name: Seq<u8>)
    ensures
        match spec_find_name(m, next, name) {
            Some(i) => m.dom().contains(i) && i < next && m[i].spec_basename() == name,
            None => true,
        },
{
    lemma_find_from_props(m, name, 0, next as int);
}

/// The filesystem handle, as kernel code asks for it.
pub fn filesystemref(clock: &SystemClock) -> (r: FileSyetemRef)
    ensures
        r.wf(),
        r.spec_next() == 1,
{
    FileSyetemRef::new(clock)
}

} // verus!
