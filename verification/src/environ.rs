//! The kernel's environment table: named values such as the shell's current
//! working directory. Entries are kept in insertion order with unique names;
//! the table always starts with `cwd` set to `/`.

use vstd::prelude::*;
use vstd::string::StringSliceAdditionalSpecFns;

use crate::shellstring::String;
use crate::status::Status;

verus! {

/// One environment entry: a name and its value.
#[derive(Debug)]
pub struct Key {
    pub name: String,
    pub value: String,
}

impl View for Key {
    type V = (Seq<u8>, Seq<u8>);

    open spec fn view(&self) -> (Seq<u8>, Seq<u8>) {
        (self.name@, self.value@)
    }
}

impl Key {
    /// An entry from a name and a value.
    pub fn new(name: String, value: String) -> (k: Key)
        ensures
            k@ == (name@, value@),
    {
        Key { name, value }
    }
}

impl Clone for Key {
    fn clone(&self) -> (r: Key)
        ensures
            r@ == self@,
    {
        Key { name: self.name.clone(), value: self.value.clone() }
    }
}

impl PartialEq for Key {
    fn eq(&self, other: &Key) -> (r: bool) {
        self.name == other.name && self.value == other.value
    }
}

impl Eq for Key {

}

impl vstd::std_specs::cmp::PartialEqSpecImpl for Key {
    open spec fn obeys_eq_spec() -> bool {
        true
    }

    open spec fn eq_spec(&self, other: &Key) -> bool {
        self@ == other@
    }
}

/// Whether the table holds an entry with this name.
pub open spec fn env_has_name(s: Seq<(Seq<u8>, Seq<u8>)>, name: Seq<u8>) -> bool {
    exists|i: int| 0 <= i < s.len() && s[i].0 == name
}

/// The index of the entry with this name; meaningful only when present and
/// names are unique.
pub open spec fn env_idx(s: Seq<(Seq<u8>, Seq<u8>)>, name: Seq<u8>) -> int {
    choose|i: int| 0 <= i < s.len() && s[i].0 == name
}

/// Unique names: no two entries share a name.
pub open spec fn env_names_unique(s: Seq<(Seq<u8>, Seq<u8>)>) -> bool {
    forall|i: int, j: int| 0 <= i < j < s.len() ==> s[i].0 != s[j].0
}

/// The environment table itself.
#[derive(Debug)]
pub struct Environment(Vec<Key>);

impl View for Environment {
    type V = Seq<(Seq<u8>, Seq<u8>)>;

    closed spec fn view(&self) -> Seq<(Seq<u8>, Seq<u8>)> {
        self.0@.map_values(|k: Key| k@)
    }
}

impl Environment {
    /// Names are unique.
    pub closed spec fn wf(&self) -> bool {
        env_names_unique(self@)
    }

    /// An empty table.
    pub fn new() -> (e: Environment)
        ensures
            e.wf(),
            e@ == Seq::<(Seq<u8>, Seq<u8>)>::empty(),
    {
        let e = Environment(Vec::new());
        proof {
            assert(e@ =~= Seq::<(Seq<u8>, Seq<u8>)>::empty());
        }
        e
    }

    /// The index of the entry with this name, if any.
    fn find(&self, name: &[u8]) -> (r: Option<usize>)
        requires
            self.wf(),
        ensures
            match r {
                Some(j) => {
                    &&& j < self@.len()
                    &&& self@[j as int].0 == name@
                    &&& env_has_name(self@, name@)
                    &&& env_idx(self@, name@) == j as int
                },
                None => !env_has_name(self@, name@),
            },
    {
        let mut j: usize = 0;
        while j < self.0.len()
            invariant
                self.wf(),
                j <= self.0@.len(),
                self@.len() == self.0@.len(),
                forall|k: int| 0 <= k < j ==> self@[k].0 != name@,
            decreases self.0@.len() - j,
        {
            if self.0[j].name.eq_bytes(name) {
                proof {
                    assert(self@[j as int].0 == name@);
                    let w = env_idx(self@, name@);
                    assert(0 <= w < self@.len() && self@[w].0 == name@);
                    assert(w == j as int);
                }
                return Some(j);
            }
            j = j + 1;
        }
        None
    }

    /// The current working directory; the table must hold `cwd`, as it does
    /// from initialization on.
    pub fn cwd(&self) -> (r: String)
        requires
            self.wf(),
            env_has_name(self@, "cwd".spec_bytes()),
        ensures
            r@ == self@[env_idx(self@, "cwd".spec_bytes())].1,
    {
        match self.get(&String::from_bytes("cwd".as_bytes())) {
            Some(v) => v,
            None => {
                // unreachable: the table holds cwd by precondition
                proof {
                    assert(false);
                }
                String::new()
            },
        }
    }

    /// Whether the table holds an entry equal to this one, name and value.
    pub fn contains_key(&self, key: &Key) -> (r: bool)
        requires
            self.wf(),
        ensures
            r == (exists|i: int| 0 <= i < self@.len() && self@[i] == key@),
    {
        let mut j: usize = 0;
        while j < self.0.len()
            invariant
                j <= self.0@.len(),
                self@.len() == self.0@.len(),
                forall|k: int| 0 <= k < j ==> self@[k] != key@,
            decreases self.0@.len() - j,
        {
            if &self.0[j] == key {
                proof {
                    assert(self@[j as int] == key@);
                }
                return true;
            }
            j = j + 1;
        }
        false
    }

    /// Whether the table holds an entry with this name.
    pub fn contains_entry(&self, key: &String) -> (r: bool)
        requires
            self.wf(),
        ensures
            r == env_has_name(self@, key@),
    {
        match self.find(key.as_bytes()) {
            Some(_) => true,
            None => false,
        }
    }

    /// Adds a fresh entry at the end and returns its index; a name already
    /// present is reported instead, and nothing changes.
    pub fn add(&mut self, name: &String, value: &String) -> (r: Result<usize, Status>)
        requires
            old(self).wf(),
        ensures
            final(self).wf(),
            if env_has_name(old(self)@, name@) {
                r == Result::<usize, Status>::Err(Status::AlreadyExists) && final(self)@ == old(
                    self,
                )@
            } else {
                r == Result::<usize, Status>::Ok(old(self)@.len() as usize) && final(self)@ == old(
                    self,
                )@.push((name@, value@))
            },
    {
        let key = Key::new(name.clone(), value.clone());
        if self.contains_key(&key) || self.contains_entry(name) {
            return Err(Status::AlreadyExists);
        }
        let idx = self.0.len();
        let ghost pre = self@;
        self.0.push(key);
        proof {
            assert(self@ =~= pre.push((name@, value@)));
        }
        Ok(idx)
    }

    /// Replaces the value of the named entry; a missing name is reported.
    pub fn update(&mut self, name: &String, value: &String) -> (r: Status)
        requires
            old(self).wf(),
        ensures
            final(self).wf(),
            if env_has_name(old(self)@, name@) {
                r == Status::Success && final(self)@ == old(self)@.update(
                    env_idx(old(self)@, name@),
                    (name@, value@),
                )
            } else {
                r == Status::NotFound && final(self)@ == old(self)@
            },
    {
        let found = self.find(name.as_bytes());
        match found {
            None => Status::NotFound,
            Some(j) => {
                let key = Key::new(name.clone(), value.clone());
                let ghost pre = self@;
                let _ = self.0.remove(j);
                self.0.insert(j, key);
                proof {
                    assert(self@ =~= pre.update(j as int, (name@, value@)));
                }
                Status::Success
            },
        }
    }

    /// The value of the named entry, if any.
    pub fn get(&self, name: &String) -> (r: Option<String>)
        requires
            self.wf(),
        ensures
            match r {
                Some(v) => env_has_name(self@, name@) && v@ == self@[env_idx(self@, name@)].1,
                None => !env_has_name(self@, name@),
            },
    {
        let found = self.find(name.as_bytes());
        match found {
            None => None,
            Some(j) => Some(self.0[j].value.clone()),
        }
    }

    /// All entries, in insertion order.
    pub fn keys(&self) -> (r: &Vec<Key>)
        ensures
            r@.len() == self@.len(),
            forall|i: int| 0 <= i < r@.len() ==> r@[i]@ == self@[i],
    {
        &self.0
    }
}

/// A handle on the kernel's environment table; the handle owns the one
/// table the kernel keeps, already initialized with `cwd` set to `/`.
#[derive(Debug)]
pub struct EnvironmentRef(Environment);

impl View for EnvironmentRef {
    type V = Seq<(Seq<u8>, Seq<u8>)>;

    closed spec fn view(&self) -> Seq<(Seq<u8>, Seq<u8>)> {
        self.0@
    }
}

impl EnvironmentRef {
    /// Names are unique.
    pub closed spec fn wf(&self) -> bool {
        self.0.wf()
    }

    /// The table as the kernel boots it: holding only `cwd = /`.
    pub fn new() -> (e: EnvironmentRef)
        ensures
            e.wf(),
            e@ == seq![("cwd".spec_bytes(), "/".spec_bytes())],
    {
        let mut env = Environment::new();
        let added = env.add(
            &String::from_bytes("cwd".as_bytes()),
            &String::from_bytes("/".as_bytes()),
        );
        let _ = added;
        proof {
            assert(env@ =~= seq![("cwd".spec_bytes(), "/".spec_bytes())]);
        }
        EnvironmentRef(env)
    }

    /// The current working directory.
    pub fn cwd(&self) -> (r: String)
        requires
            self.wf(),
            env_has_name(self@, "cwd".spec_bytes()),
        ensures
            r@ == self@[env_idx(self@, "cwd".spec_bytes())].1,
    {
        self.0.cwd()
    }

    /// Whether the table holds an entry equal to this one, name and value.
    pub fn contains_key(&self, key: &Key) -> (r: bool)
        requires
            self.wf(),
        ensures
            r == (exists|i: int| 0 <= i < self@.len() && self@[i] == key@),
    {
        self.0.contains_key(key)
    }

    /// Whether the table holds an entry with this name.
    pub fn contains_entry(&self, key: &String) -> (r: bool)
        requires
            self.wf(),
        ensures
            r == env_has_name(self@, key@),
    {
        self.0.contains_entry(key)
    }

    /// Adds a fresh entry; a duplicate name is reported.
    pub fn add(&mut self, key: &String, value: &String) -> (r: Result<usize, Status>)
        requires
            old(self).wf(),
        ensures
            final(self).wf(),
            if env_has_name(old(self)@, key@) {
                r == Result::<usize, Status>::Err(Status::AlreadyExists) && final(self)@ == old(
                    self,
                )@
            } else {
                r == Result::<usize, Status>::Ok(old(self)@.len() as usize) && final(self)@ == old(
                    self,
                )@.push((key@, value@))
            },
    {
        self.0.add(key, value)
    }

    /// Replaces the value of the named entry; a missing name is reported.
    pub fn update(&mut self, name: &String, value: &String) -> (r: Status)
        requires
            old(self).wf(),
        ensures
            final(self).wf(),
            if env_has_name(old(self)@, name@) {
                r == Status::Success && final(self)@ == old(self)@.update(
                    env_idx(old(self)@, name@),
                    (name@, value@),
                )
            } else {
                r == Status::NotFound && final(self)@ == old(self)@
            },
    {
        self.0.update(name, value)
    }

    /// The value of the named entry, if any.
    pub fn get(&self, name: &String) -> (r: Option<String>)
        requires
            self.wf(),
        ensures
            match r {
                Some(v) => env_has_name(self@, name@) && v@ == self@[env_idx(self@, name@)].1,
                None => !env_has_name(self@, name@),
            },
    {
        self.0.get(name)
    }

    /// A copy of every entry, in insertion order.
    pub fn keys(&self) -> (r: Vec<Key>)
        ensures
            r@.len() == self@.len(),
            forall|i: int| 0 <= i < r@.len() ==> r@[i]@ == self@[i],
    {
        let source = self.0.keys();
        let mut out: Vec<Key> = Vec::new();
        let mut i: usize = 0;
        while i < source.len()
            invariant
                i <= source@.len(),
                source@.len() == self@.len(),
                forall|k: int| 0 <= k < source@.len() ==> source@[k]@ == self@[k],
                out@.len() == i,
                forall|k: int| 0 <= k < i ==> out@[k]@ == self@[k],
            decreases source@.len() - i,
        {
            out.push(source[i].clone());
            i = i + 1;
        }
        out
    }
}

/// The environment handle, as kernel code asks for it.
pub fn environmentref() -> (e: EnvironmentRef)
    ensures
        e.wf(),
        e@ == seq![("cwd".spec_bytes(), "/".spec_bytes())],
{
    EnvironmentRef::new()
}

} // verus!
