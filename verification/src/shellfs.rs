//! The shell's own scratch filesystem: a flat table of named entries, each a
//! file or a directory. Creating under an existing name replaces the entry,
//! as a map insert would.

use vstd::prelude::*;

use crate::shellstring::String;

verus! {

/// What an entry is.
#[derive(Debug, Clone, Copy, PartialEq, Eq, Structural)]
pub enum EntryKind {
    File,
    Directory,
}

/// The scratch filesystem: named entries in creation order, names unique.
#[derive(Debug)]
pub struct Filesystem(Vec<(String, EntryKind)>);

impl View for Filesystem {
    type V = Seq<(Seq<u8>, EntryKind)>;

    closed spec fn view(&self) -> Seq<(Seq<u8>, EntryKind)> {
        self.0@.map_values(|p: (String, EntryKind)| (p.0@, p.1))
    }
}

/// Whether the table holds an entry with this name.
pub open spec fn shellfs_has(s: Seq<(Seq<u8>, EntryKind)>, name: Seq<u8>) -> bool {
    exists|i: int| 0 <= i < s.len() && s[i].0 == name
}

/// The index of the entry with this name; meaningful only when present and
/// names are unique.
pub open spec fn shellfs_idx(s: Seq<(Seq<u8>, EntryKind)>, name: Seq<u8>) -> int {
    choose|i: int| 0 <= i < s.len() && s[i].0 == name
}

impl Filesystem {
    /// Names are unique.
    pub closed spec fn wf(&self) -> bool {
        forall|i: int, j: int| 0 <= i < j < self@.len() ==> self@[i].0 != self@[j].0
    }

    /// An empty filesystem.
    pub fn new() -> (fs: Filesystem)
        ensures
            fs.wf(),
            fs@ == Seq::<(Seq<u8>, EntryKind)>::empty(),
    {
        let fs = Filesystem(Vec::new());
        proof {
            assert(fs@ =~= Seq::<(Seq<u8>, EntryKind)>::empty());
        }
        fs
    }

    /// The index of the entry with this name, if any.
    fn find(&self, name: &String) -> (r: Option<usize>)
        requires
            self.wf(),
        ensures
            match r {
                Some(j) => j < self@.len() && self@[j as int].0 == name@ && shellfs_has(
                    self@,
                    name@,
                ) && shellfs_idx(self@, name@) == j as int,
                None => !shellfs_has(self@, name@),
            },
    {
        let mut j: usize = 0;
        while j < self.0.len()
            invariant
                self.wf(),
                j <= self.0@.len(),
                self@.len() == self.0@.len(),
                forall|k: int| 0 <= k < j ==> self@[k].0 != name@,
            decreases self.0@.len() - j,
        {
            if self.0[j].0.eq_bytes(name.as_bytes()) {
                proof {
                    assert(self@[j as int].0 == name@);
                    let w = shellfs_idx(self@, name@);
                    assert(0 <= w < self@.len() && self@[w].0 == name@);
                    assert(w == j as int);
                }
                return Some(j);
            }
            j = j + 1;
        }
        None
    }

    /// Installs an entry of the given kind, replacing any entry of the same
    /// name.
    fn install(&mut self, name: String, kind: EntryKind)
        requires
            old(self).wf(),
        ensures
            final(self).wf(),
            if shellfs_has(old(self)@, name@) {
                final(self)@ == old(self)@.update(
                    shellfs_idx(old(self)@, name@),
                    (name@, kind),
                )
            } else {
                final(self)@ == old(self)@.push((name@, kind))
            },
    {
        let found = self.find(&name);
        let ghost pre = self@;
        match found {
            Some(j) => {
                let _ = self.0.remove(j);
                self.0.insert(j, (name, kind));
                proof {
                    assert(self@ =~= pre.update(j as int, (pre[j as int].0, kind)));
                }
            },
            None => {
                self.0.push((name, kind));
                proof {
                    assert(self@ =~= pre.push((self.0@[pre.len() as int].0@, kind)));
                }
            },
        }
    }

    /// Creates (or replaces) a file entry.
    pub fn create_file(&mut self, name: &String)
        requires
            old(self).wf(),
        ensures
            final(self).wf(),
            if shellfs_has(old(self)@, name@) {
                final(self)@ == old(self)@.update(
                    shellfs_idx(old(self)@, name@),
                    (name@, EntryKind::File),
                )
            } else {
                final(self)@ == old(self)@.push((name@, EntryKind::File))
            },
    {
        self.install(name.clone(), EntryKind::File);
    }

    /// Creates (or replaces) a directory entry.
    pub fn create_dir(&mut self, name: &String)
        requires
            old(self).wf(),
        ensures
            final(self).wf(),
            if shellfs_has(old(self)@, name@) {
                final(self)@ == old(self)@.update(
                    shellfs_idx(old(self)@, name@),
                    (name@, EntryKind::Directory),
                )
            } else {
                final(self)@ == old(self)@.push((name@, EntryKind::Directory))
            },
    {
        self.install(name.clone(), EntryKind::Directory);
    }

    /// How many entries the filesystem holds.
    pub fn len(&self) -> (r: usize)
        ensures
            r == self@.len(),
    {
        self.0.len()
    }
}

} // verus!
