//! The flat in-memory filesystem behind the shell's file commands: a map
//! from names to nodes, where a node may carry a file, a directory, both or
//! neither. Entries are kept as an association list in creation order, with
//! names unique.

use vstd::prelude::*;
use vstd::string::StringSliceAdditionalSpecFns;

use crate::shellstring::String;
use crate::status::Status;

verus! {

/// What one node holds: the names inside its directory part, if it has one,
/// and the bytes of its file part, if it has one.
#[verifier::ext_equal]
pub struct NodeView {
    pub dir: Option<Seq<Seq<u8>>>,
    pub file: Option<Seq<u8>>,
}

/// An open file: a write cursor and the bytes written so far. The cursor
/// only ever advances past freshly written bytes, so it always sits at the
/// end of the data.
#[derive(Debug)]
pub struct File {
    position: usize,
    data: Vec<u8>,
}

/// What a read returns: the length and a copy of the bytes.
pub struct FileRead {
    pub len: usize,
    pub data: Vec<u8>,
}

/// A directory: named child nodes, in creation order.
#[derive(Debug)]
pub struct Directory(Vec<(String, Node)>);

/// A filesystem node: an optional directory part and an optional file part.
#[derive(Debug)]
pub struct Node {
    directory: Option<Directory>,
    file: Option<File>,
}

/// The filesystem: named nodes, in creation order, names unique.
#[derive(Debug)]
pub struct Filesystem(Vec<(String, Node)>);

impl View for File {
    type V = Seq<u8>;

    closed spec fn view(&self) -> Seq<u8> {
        self.data@
    }
}

impl File {
    /// The write cursor sits at the end of the data.
    pub closed spec fn wf(&self) -> bool {
        self.position == self.data@.len()
    }

    /// An empty file.
    pub fn new() -> (f: File)
        ensures
            f.wf(),
            f@ == Seq::<u8>::empty(),
    {
        File { position: 0, data: Vec::new() }
    }

    /// Writes the bytes at the cursor and returns how many were written;
    /// every byte is always written.
    pub fn write(&mut self, bytes: &[u8]) -> (count: usize)
        requires
            old(self).wf(),
            old(self)@.len() + bytes@.len() <= usize::MAX,
        ensures
            final(self).wf(),
            count == bytes@.len(),
            final(self)@ == old(self)@ + bytes@,
    {
        let mut count: usize = 0;
        while count < bytes.len()
            invariant
                self.wf(),
                count <= bytes@.len(),
                old(self)@.len() + bytes@.len() <= usize::MAX,
                self@ == old(self)@ + bytes@.take(count as int),
            decreases bytes@.len() - count,
        {
            self.data.insert(self.position, bytes[count]);
            self.position = self.position + 1;
            count = count + 1;
            proof {
                assert(self@ =~= old(self)@ + bytes@.take(count as int));
            }
        }
        proof {
            assert(bytes@.take(bytes@.len() as int) =~= bytes@);
        }
        count
    }

    /// A copy of the file's contents.
    pub fn read(&self) -> (r: FileRead)
        ensures
            r.len == self@.len(),
            r.data@ == self@,
    {
        FileRead { len: self.data.len(), data: vstd::slice::slice_to_vec(self.data.as_slice()) }
    }
}

impl View for Directory {
    type V = Seq<Seq<u8>>;

    closed spec fn view(&self) -> Seq<Seq<u8>> {
        self.0@.map_values(|p: (String, Node)| p.0@)
    }
}

impl Directory {
    /// The names of the directory's entries, in stored order.
    pub fn list_node(&self) -> (r: Vec<&String>)
        ensures
            r@.len() == self@.len(),
            forall|i: int| 0 <= i < r@.len() ==> r@[i]@ == self@[i],
    {
        let mut vd: Vec<&String> = Vec::new();
        let mut i: usize = 0;
        while i < self.0.len()
            invariant
                i <= self.0@.len(),
                vd@.len() == i,
                forall|j: int| 0 <= j < i ==> vd@[j]@ == self@[j],
            decreases self.0@.len() - i,
        {
            vd.push(&self.0[i].0);
            i = i + 1;
        }
        vd
    }
}

/// The view of a node.
pub closed spec fn node_view(n: Node) -> NodeView {
    NodeView {
        dir: match n.directory {
            Some(d) => Some(d@),
            None => None,
        },
        file: match n.file {
            Some(f) => Some(f@),
            None => None,
        },
    }
}

impl View for Node {
    type V = NodeView;

    closed spec fn view(&self) -> NodeView {
        node_view(*self)
    }
}

impl Node {
    /// The file part, if any, has its cursor at the end.
    pub closed spec fn wf(&self) -> bool {
        match self.file {
            Some(f) => f.wf(),
            None => true,
        }
    }

    /// A node holding neither a directory nor a file.
    pub fn new() -> (n: Node)
        ensures
            n.wf(),
            n@ == (NodeView { dir: None, file: None }),
    {
        Node { directory: None, file: None }
    }

    /// Whether the node has a directory part.
    pub fn is_directory(&self) -> (r: bool)
        ensures
            r == (self@.dir is Some),
    {
        self.directory.is_some()
    }

    /// Whether the node has a file part.
    pub fn is_file(&self) -> (r: bool)
        ensures
            r == (self@.file is Some),
    {
        self.file.is_some()
    }

    /// Whether the node holds nothing at all.
    pub fn is_empty(&self) -> (r: bool)
        ensures
            r == (self@.file is None && self@.dir is None),
    {
        !self.is_file() && !self.is_directory()
    }

    /// Whether the node is both a directory and a file.
    pub fn is_both(&self) -> (r: bool)
        ensures
            r == (self@.file is Some && self@.dir is Some),
    {
        self.is_directory() && self.is_file()
    }

    /// The directory part.
    pub fn as_directory(&self) -> (r: &Option<Directory>)
        ensures
            match r {
                Some(d) => self@.dir == Some(d@),
                None => self@.dir is None,
            },
    {
        &self.directory
    }

    /// The file part.
    pub fn as_file(&self) -> (r: &Option<File>)
        ensures
            match r {
                Some(f) => self@.file == Some(f@),
                None => self@.file is None,
            },
    {
        &self.file
    }
}

/// Whether an entry list holds the given name.
pub open spec fn contains_name(s: Seq<(Seq<u8>, NodeView)>, name: Seq<u8>) -> bool {
    exists|i: int| 0 <= i < s.len() && s[i].0 == name
}

/// The index of the given name; meaningful only when the list holds it and
/// names are unique.
pub open spec fn idx_of(s: Seq<(Seq<u8>, NodeView)>, name: Seq<u8>) -> int {
    choose|i: int| 0 <= i < s.len() && s[i].0 == name
}

/// Unique names: no two entries share a name.
pub open spec fn names_unique(s: Seq<(Seq<u8>, NodeView)>) -> bool {
    forall|i: int, j: int| 0 <= i < j < s.len() ==> s[i].0 != s[j].0
}

impl View for Filesystem {
    type V = Seq<(Seq<u8>, NodeView)>;

    closed spec fn view(&self) -> Seq<(Seq<u8>, NodeView)> {
        self.0@.map_values(|p: (String, Node)| (p.0@, node_view(p.1)))
    }
}

impl Filesystem {
    /// Names are unique, and every node is well formed.
    pub closed spec fn wf(&self) -> bool {
        names_unique(self@) && (forall|i: int|
            0 <= i < self.0@.len() ==> (#[trigger] self.0@[i].1).wf())
    }

    /// An empty filesystem.
    pub fn new() -> (fs: Filesystem)
        ensures
            fs.wf(),
            fs@ == Seq::<(Seq<u8>, NodeView)>::empty(),
    {
        let fs = Filesystem(Vec::new());
        proof {
            assert(fs@ =~= Seq::<(Seq<u8>, NodeView)>::empty());
        }
        fs
    }

    /// The greeting text a fresh filesystem carries in its `readme` file.
    pub open spec fn spec_readme_text() -> Seq<u8> {
        "# flario shell\n\nWelcome to flario shell. A shell integrated inside the flario kernel, written in\nthe Rust #![no_std] environment. The operating system also implements a\ntemporary filesystem using BTrees and nodes.\n\nTo view a list of commands, run `help`. To read some more about information, run `about`.\n\nThank you!\n".spec_bytes()
    }

    /// Seeds a fresh filesystem with its `readme` file.
    pub fn write_readme(&mut self)
        requires
            old(self).wf(),
            !contains_name(old(self)@, "readme".spec_bytes()),
        ensures
            final(self).wf(),
            final(self)@ == old(self)@.push(
                ("readme".spec_bytes(), NodeView { dir: None, file: Some(Self::spec_readme_text()) }),
            ),
    {
        let readme = String::from_bytes("readme".as_bytes());
        let ghost pre = self@;
        let created = self.create_file(readme);
        let _ = created;
        let ghost s2 = self@;
        let readme = String::from_bytes("readme".as_bytes());
        let text =
            "# flario shell\n\nWelcome to flario shell. A shell integrated inside the flario kernel, written in\nthe Rust #![no_std] environment. The operating system also implements a\ntemporary filesystem using BTrees and nodes.\n\nTo view a list of commands, run `help`. To read some more about information, run `about`.\n\nThank you!\n";
        let data = vstd::slice::slice_to_vec(text.as_bytes());
        proof {
            reveal_strlit(
                "# flario shell\n\nWelcome to flario shell. A shell integrated inside the flario kernel, written in\nthe Rust #![no_std] environment. The operating system also implements a\ntemporary filesystem using BTrees and nodes.\n\nTo view a list of commands, run `help`. To read some more about information, run `about`.\n\nThank you!\n",
            );
            assert(data@ =~= Self::spec_readme_text());
            assert(s2[pre.len() as int].0 == "readme".spec_bytes());
            assert(contains_name(s2, "readme".spec_bytes()));
            let w = idx_of(s2, "readme".spec_bytes());
            assert(0 <= w < s2.len() && s2[w].0 == "readme".spec_bytes());
            assert(w == pre.len() as int);
        }
        let ghost name_v = readme@;
        let ghost data_v = data@;
        let data_len = data.len();
        proof {
            assert(data_v.len() == data_len);
        }
        let written = self.write_to_file(readme, data);
        let _ = written;
        proof {
            assert(name_v == "readme".spec_bytes());
            assert(data_v == Self::spec_readme_text());
            assert(contains_name(s2, name_v));
            let w = idx_of(s2, "readme".spec_bytes());
            assert(idx_of(s2, name_v) == w);
            assert(w == pre.len() as int);
            assert(s2[w].1.file == Some(Seq::<u8>::empty()));
            assert(Seq::<u8>::empty() + Self::spec_readme_text() =~= Self::spec_readme_text());
            assert(self@.len() == pre.len() + 1);
            assert(self@[pre.len() as int].0 == "readme".spec_bytes());
            assert(self@ == s2.update(
                w,
                (s2[w].0, NodeView { file: Some(s2[w].1.file->Some_0 + data@), ..s2[w].1 }),
            ));
            assert(self@[pre.len() as int].1.file == Some(s2[w].1.file->Some_0 + data@));
            assert(s2[w].1.file->Some_0 + data@ == Self::spec_readme_text());
            assert(self@[pre.len() as int].1.file == Some(Self::spec_readme_text()));
            assert(self@[pre.len() as int].1.dir is None);
            assert(self@ =~~= pre.push(
                ("readme".spec_bytes(), NodeView { dir: None, file: Some(Self::spec_readme_text()) }),
            ));
        }
    }

    /// The index of the entry with this name, if any.
    fn find(&self, name: &String) -> (r: Option<usize>)
        requires
            self.wf(),
        ensures
            match r {
                Some(j) => {
                    &&& j < self@.len()
                    &&& self@[j as int].0 == name@
                    &&& contains_name(self@, name@)
                    &&& idx_of(self@, name@) == j as int
                },
                None => !contains_name(self@, name@),
            },
    {
        let mut j: usize = 0;
        while j < self.0.len()
            invariant
                self.wf(),
                j <= self@.len(),
                self@.len() == self.0@.len(),
                forall|k: int| 0 <= k < j ==> self@[k].0 != name@,
            decreases self.0@.len() - j,
        {
            if self.0[j].0 == *name {
                proof {
                    assert(self@[j as int].0 == name@);
                    let w = idx_of(self@, name@);
                    assert(0 <= w < self@.len() && self@[w].0 == name@);
                    assert(w == j as int);
                }
                return Some(j);
            }
            j = j + 1;
        }
        proof {
            assert(!contains_name(self@, name@));
        }
        None
    }

    /// Creates an empty file under the given name; an existing entry of that
    /// name, of whatever kind, is left alone and reported.
    pub fn create_file(&mut self, name: String) -> (r: Status)
        requires
            old(self).wf(),
        ensures
            final(self).wf(),
            if contains_name(old(self)@, name@) {
                r == Status::AlreadyExists && final(self)@ == old(self)@
            } else {
                r == Status::Success && final(self)@ == old(self)@.push(
                    (name@, NodeView { dir: None, file: Some(Seq::<u8>::empty()) }),
                )
            },
    {
        match self.find(&name) {
            Some(_) => Status::AlreadyExists,
            None => {
                let mut node = Node::new();
                node.file = Some(File::new());
                let ghost pre = self@;
                self.0.push((name, node));
                proof {
                    assert(self@ =~= pre.push(
                        (self.0@[pre.len() as int].0@, node_view(self.0@[pre.len() as int].1)),
                    ));
                }
                Status::Success
            },
        }
    }

    /// Creates an empty directory under the given name; an existing entry is
    /// left alone and reported.
    pub fn create_dir(&mut self, name: &str) -> (r: Status)
        requires
            old(self).wf(),
        ensures
            final(self).wf(),
            if contains_name(old(self)@, name.spec_bytes()) {
                r == Status::AlreadyExists && final(self)@ == old(self)@
            } else {
                r == Status::Success && final(self)@ == old(self)@.push(
                    (name.spec_bytes(), NodeView { dir: Some(Seq::<Seq<u8>>::empty()), file: None }),
                )
            },
    {
        let owned = String::from_bytes(name.as_bytes());
        match self.find(&owned) {
            Some(_) => Status::AlreadyExists,
            None => {
                let mut node = Node::new();
                node.directory = Some(Directory(Vec::new()));
                let ghost pre = self@;
                self.0.push((owned, node));
                proof {
                    let i = pre.len() as int;
                    assert(self.0@[i].1.directory->Some_0@ =~= Seq::<Seq<u8>>::empty());
                    assert(self@ =~= pre.push((self.0@[i].0@, node_view(self.0@[i].1))));
                }
                Status::Success
            },
        }
    }

    /// Appends bytes to the named file. A missing entry or one without a
    /// file part is reported without change.
    pub fn write_to_file(&mut self, name: String, data: Vec<u8>) -> (r: Status)
        requires
            old(self).wf(),
        ensures
            final(self).wf(),
            ({
                let s = old(self)@;
                if !contains_name(s, name@) {
                    r == Status::NotFound && final(self)@ == s
                } else {
                    let j = idx_of(s, name@);
                    match s[j].1.file {
                        Some(bytes) => if bytes.len() + data@.len() <= usize::MAX {
                            r == Status::Success && final(self)@ == s.update(
                                j,
                                (s[j].0, NodeView { file: Some(bytes + data@), ..s[j].1 }),
                            )
                        } else {
                            r == Status::FailedToWrite && final(self)@ == s
                        },
                        None => r == Status::WrongType && final(self)@ == s,
                    }
                }
            }),
    {
        let found = self.find(&name);
        match found {
            None => Status::NotFound,
            Some(j) => {
                let is_file = match &self.0[j].1.file {
                    Some(f) => {
                        if f.data.len() > usize::MAX - data.len() {
                            // the write would outgrow the address space
                            return Status::FailedToWrite;
                        }
                        true
                    },
                    None => false,
                };
                if !is_file {
                    return Status::WrongType;
                }
                let ghost pre = self@;
                let (nm, mut node) = self.0.remove(j);
                match &mut node.file {
                    Some(f) => {
                        let _ = f.write(data.as_slice());
                    },
                    None => {
                        // unreachable: the entry was just seen to hold a file
                        proof {
                            assert(false);
                        }
                    },
                }
                self.0.insert(j, (nm, node));
                proof {
                    assert(self@ =~= pre.update(
                        j as int,
                        (
                            pre[j as int].0,
                            NodeView {
                                file: Some(pre[j as int].1.file->Some_0 + data@),
                                ..pre[j as int].1
                            },
                        ),
                    ));
                }
                Status::Success
            },
        }
    }

    /// Removes the named file. Only an empty file may be removed; a missing
    /// entry, a non-file, or a file still holding data is reported.
    pub fn remove_file(&mut self, name: String) -> (r: Status)
        requires
            old(self).wf(),
        ensures
            final(self).wf(),
            ({
                let s = old(self)@;
                if !contains_name(s, name@) {
                    r == Status::NotFound && final(self)@ == s
                } else {
                    let j = idx_of(s, name@);
                    match s[j].1.file {
                        Some(bytes) => if bytes.len() == 0 {
                            r == Status::Success && final(self)@ == s.remove(j)
                        } else {
                            r == Status::FailedToWrite && final(self)@ == s
                        },
                        None => r == Status::WrongType && final(self)@ == s,
                    }
                }
            }),
    {
        let found = self.find(&name);
        match found {
            None => Status::NotFound,
            Some(j) => {
                let has_empty_file = match &self.0[j].1.file {
                    Some(f) => f.data.len() == 0,
                    None => {
                        return Status::WrongType;
                    },
                };
                if has_empty_file {
                    let ghost pre = self@;
                    let _ = self.0.remove(j);
                    proof {
                        assert(self@ =~= pre.remove(j as int));
                    }
                    Status::Success
                } else {
                    Status::FailedToWrite
                }
            },
        }
    }

    /// The names of all entries, in stored order.
    pub fn list_node(&self) -> (r: Vec<&String>)
        ensures
            r@.len() == self@.len(),
            forall|i: int| 0 <= i < r@.len() ==> r@[i]@ == self@[i].0,
    {
        let mut vd: Vec<&String> = Vec::new();
        let mut i: usize = 0;
        while i < self.0.len()
            invariant
                i <= self.0@.len(),
                self@.len() == self.0@.len(),
                vd@.len() == i,
                forall|j: int| 0 <= j < i ==> vd@[j]@ == self@[j].0,
            decreases self.0@.len() - i,
        {
            vd.push(&self.0[i].0);
            i = i + 1;
        }
        vd
    }

    /// A copy of the named file's contents, with a status: the data on
    /// success, nothing for a missing entry or a non-file.
    pub fn read_file(&self, name: String) -> (r: (Status, Vec<u8>))
        requires
            self.wf(),
        ensures
            ({
                let s = self@;
                if !contains_name(s, name@) {
                    r.0 == Status::NotFound && r.1@ == Seq::<u8>::empty()
                } else {
                    match s[idx_of(s, name@)].1.file {
                        Some(bytes) => r.0 == Status::Success && r.1@ == bytes,
                        None => r.0 == Status::WrongType && r.1@ == Seq::<u8>::empty(),
                    }
                }
            }),
    {
        let found = self.find(&name);
        match found {
            None => (Status::NotFound, Vec::new()),
            Some(j) => {
                match &self.0[j].1.file {
                    Some(f) => {
                        let fr = f.read();
                        (Status::Success, fr.data)
                    },
                    None => (Status::WrongType, Vec::new()),
                }
            },
        }
    }

    /// Removes the named directory if it is empty; a missing entry, a
    /// non-directory, or a non-empty directory is reported.
    pub fn remove_dir(&mut self, name: String) -> (r: Status)
        requires
            old(self).wf(),
        ensures
            final(self).wf(),
            ({
                let s = old(self)@;
                if !contains_name(s, name@) {
                    r == Status::NotFound && final(self)@ == s
                } else {
                    let j = idx_of(s, name@);
                    match s[j].1.dir {
                        Some(entries) => if entries.len() == 0 {
                            r == Status::Success && final(self)@ == s.remove(j)
                        } else {
                            r == Status::NotEmpty && final(self)@ == s
                        },
                        None => r == Status::WrongType && final(self)@ == s,
                    }
                }
            }),
    {
        let found = self.find(&name);
        match found {
            None => Status::NotFound,
            Some(j) => {
                let has_empty_dir = match &self.0[j].1.directory {
                    Some(d) => d.0.len() == 0,
                    None => {
                        return Status::WrongType;
                    },
                };
                if has_empty_dir {
                    let ghost pre = self@;
                    let _ = self.0.remove(j);
                    proof {
                        assert(self@ =~= pre.remove(j as int));
                    }
                    Status::Success
                } else {
                    Status::NotEmpty
                }
            },
        }
    }
}

} // verus!
