//! The shell's own string type: a plain sequence of bytes, with none of the
//! encoding machinery of the host string type. Names in the filesystem and
//! words typed at the prompt are byte strings.

use vstd::prelude::*;
use vstd::string::StringSliceAdditionalSpecFns;

verus! {

/// A shell string: an owned sequence of bytes.
#[derive(Debug)]
pub struct String(Vec<u8>);

impl View for String {
    type V = Seq<u8>;

    closed spec fn view(&self) -> Seq<u8> {
        self.0@
    }
}

/// Whether two byte vectors hold the same bytes.
fn bytes_eq(a: &Vec<u8>, b: &Vec<u8>) -> (r: bool)
    ensures
        r == (a@ == b@),
{
    if a.len() != b.len() {
        return false;
    }
    let mut i: usize = 0;
    while i < a.len()
        invariant
            i <= a.len(),
            a@.len() == b@.len(),
            forall|j: int| 0 <= j < i ==> a@[j] == b@[j],
        decreases a.len() - i,
    {
        if a[i] != b[i] {
            return false;
        }
        i = i + 1;
    }
    proof {
        assert(a@ =~= b@);
    }
    true
}

impl PartialEq for String {
    fn eq(&self, other: &String) -> (r: bool) {
        bytes_eq(&self.0, &other.0)
    }
}

impl Eq for String {

}

impl vstd::std_specs::cmp::PartialEqSpecImpl for String {
    open spec fn obeys_eq_spec() -> bool {
        true
    }

    open spec fn eq_spec(&self, other: &String) -> bool {
        self@ == other@
    }
}

impl Clone for String {
    fn clone(&self) -> (r: String)
        ensures
            r@ == self@,
    {
        String(vstd::slice::slice_to_vec(self.0.as_slice()))
    }
}

impl String {
    /// The empty string.
    pub fn new() -> (s: String)
        ensures
            s@ == Seq::<u8>::empty(),
    {
        String(Vec::new())
    }

    /// A string holding a copy of the given bytes.
    pub fn from_bytes(bytes: &[u8]) -> (s: String)
        ensures
            s@ == bytes@,
    {
        String(vstd::slice::slice_to_vec(bytes))
    }

    /// A copy of the string's bytes.
    pub fn bytes(&self) -> (r: Vec<u8>)
        ensures
            r@ == self@,
    {
        vstd::slice::slice_to_vec(self.0.as_slice())
    }

    /// Whether the string holds no bytes.
    pub fn is_empty(&self) -> (r: bool)
        ensures
            r == (self@.len() == 0),
    {
        self.0.len() == 0
    }

    /// How many bytes the string holds.
    pub fn len(&self) -> (r: usize)
        ensures
            r == self@.len(),
    {
        self.0.len()
    }

    /// The byte at the given position.
    pub fn at(&self, i: usize) -> (r: u8)
        requires
            i < self@.len(),
        ensures
            r == self@[i as int],
    {
        self.0[i]
    }

    /// The string's bytes, borrowed.
    pub fn as_bytes(&self) -> (r: &[u8])
        ensures
            r@ == self@,
    {
        self.0.as_slice()
    }

    /// Whether the string holds exactly these bytes.
    pub fn eq_bytes(&self, b: &[u8]) -> (r: bool)
        ensures
            r == (self@ == b@),
    {
        if self.len() != b.len() {
            return false;
        }
        let mut i: usize = 0;
        while i < b.len()
            invariant
                i <= b@.len(),
                self@.len() == b@.len(),
                forall|j: int| 0 <= j < i ==> self@[j] == b@[j],
            decreases b@.len() - i,
        {
            if self.at(i) != b[i] {
                return false;
            }
            i = i + 1;
        }
        proof {
            assert(self@ =~= b@);
        }
        true
    }

    /// Appends one byte.
    pub fn push_byte(&mut self, b: u8)
        ensures
            final(self)@ == old(self)@.push(b),
    {
        self.0.push(b);
    }

    /// Whether the pattern occurs at position `at`.
    fn matches_at(&self, pat: &String, at: usize) -> (r: bool)
        requires
            at + pat@.len() <= self@.len(),
        ensures
            r == (self@.subrange(at as int, at + pat@.len()) == pat@),
    {
        let slen = self.len();
        let mut i: usize = 0;
        while i < pat.len()
            invariant
                i <= pat@.len(),
                at + pat@.len() <= self@.len(),
                self@.len() == slen,
                forall|j: int| 0 <= j < i ==> self@[at + j] == pat@[j],
            decreases pat@.len() - i,
        {
            if self.at(at + i) != pat.at(i) {
                proof {
                    assert(self@.subrange(at as int, at + pat@.len())[i as int] != pat@[i as int]);
                }
                return false;
            }
            i = i + 1;
        }
        proof {
            assert(self@.subrange(at as int, at + pat@.len()) =~= pat@);
        }
        true
    }

    /// The string with every occurrence of the pattern removed, scanning
    /// left to right without overlap. An empty pattern removes nothing.
    pub fn remove_matches(&self, pat: &String) -> (r: String)
        ensures
            r@ == spec_remove_matches(self@, pat@),
        decreases self@.len(),
    {
        if pat.is_empty() {
            return self.clone();
        }
        if self.len() < pat.len() {
            return self.clone();
        }
        if self.matches_at(pat, 0) {
            let rest = self.suffix_from(pat.len());
            proof {
                assert(self@.skip(pat@.len() as int) =~= self@.subrange(
                    pat@.len() as int,
                    self@.len() as int,
                ));
            }
            rest.remove_matches(pat)
        } else {
            let rest = self.suffix_from(1);
            proof {
                assert(self@.skip(1) =~= self@.subrange(1, self@.len() as int));
            }
            let mut out = String::new();
            out.push_byte(self.at(0));
            let tail = rest.remove_matches(pat);
            let out2 = out.concat(&tail);
            proof {
                assert(out2@ =~= seq![self@[0]] + spec_remove_matches(self@.skip(1), pat@));
            }
            out2
        }
    }

    /// The suffix of the string starting at the given position.
    pub fn suffix_from(&self, at: usize) -> (r: String)
        requires
            at <= self@.len(),
        ensures
            r@ == self@.subrange(at as int, self@.len() as int),
    {
        let mut out = String::new();
        let mut i: usize = at;
        while i < self.len()
            invariant
                at <= i <= self@.len(),
                out@ == self@.subrange(at as int, i as int),
            decreases self@.len() - i,
        {
            out.push_byte(self.at(i));
            i = i + 1;
            proof {
                assert(self@.subrange(at as int, i as int) =~= self@.subrange(
                    at as int,
                    i - 1,
                ).push(self@[i - 1]));
            }
        }
        out
    }

    /// This string followed by another.
    pub fn concat(&self, other: &String) -> (r: String)
        ensures
            r@ == self@ + other@,
    {
        let mut out = self.clone();
        let mut i: usize = 0;
        while i < other.len()
            invariant
                i <= other@.len(),
                out@ == self@ + other@.take(i as int),
            decreases other@.len() - i,
        {
            out.push_byte(other.at(i));
            i = i + 1;
            proof {
                assert(self@ + other@.take(i as int) =~= (self@ + other@.take(i - 1)).push(
                    other@[i - 1],
                ));
            }
        }
        proof {
            assert(other@.take(other@.len() as int) =~= other@);
        }
        out
    }
}

/// `s` with every occurrence of `pat` removed, scanning left to right
/// without overlap; an empty pattern removes nothing.
pub open spec fn spec_remove_matches(s: Seq<u8>, pat: Seq<u8>) -> Seq<u8>
    decreases s.len(),
{
    if pat.len() == 0 || s.len() < pat.len() {
        s
    } else if s.take(pat.len() as int) == pat {
        spec_remove_matches(s.skip(pat.len() as int), pat)
    } else {
        seq![s[0]] + spec_remove_matches(s.skip(1), pat)
    }
}

/// The decimal digits of `n`, most significant first.
pub open spec fn spec_decimal(n: nat) -> Seq<u8>
    decreases n,
{
    if n < 10 {
        seq![(0x30 + n) as u8]
    } else {
        spec_decimal(n / 10).push((0x30 + n % 10) as u8)
    }
}

/// Rendering a value as a shell string.
pub trait ToString {
    /// This value, rendered as a string of bytes.
    fn to_string(&self) -> String;
}

/// Renders a number in decimal.
pub fn decimal_of(n: u64) -> (s: String)
    ensures
        s@ == spec_decimal(n as nat),
    decreases n,
{
    if n < 10 {
        let mut s = String::new();
        s.push_byte(0x30 + (n as u8));
        proof {
            assert(s@ =~= spec_decimal(n as nat));
        }
        s
    } else {
        let mut s = decimal_of(n / 10);
        s.push_byte(0x30 + ((n % 10) as u8));
        s
    }
}

/// The status names as the shell prints them.
pub open spec fn spec_status_text(code: crate::status::Status) -> Seq<u8> {
    match code {
        crate::status::Status::Success => "Success".spec_bytes(),
        crate::status::Status::NotFound => "NotFound".spec_bytes(),
        crate::status::Status::WrongType => "WrongType".spec_bytes(),
        crate::status::Status::FailedToWrite => "FailedToWrite".spec_bytes(),
        crate::status::Status::FailedToRead => "FailedToRead".spec_bytes(),
        crate::status::Status::AlreadyExists => "AlreadyExists".spec_bytes(),
        crate::status::Status::NotEmpty => "NotEmpty".spec_bytes(),
    }
}

impl ToString for crate::status::Status {
    fn to_string(&self) -> (s: String)
        ensures
            s@ == spec_status_text(*self),
    {
        match *self {
            crate::status::Status::Success => String::from_bytes("Success".as_bytes()),
            crate::status::Status::NotFound => String::from_bytes("NotFound".as_bytes()),
            crate::status::Status::WrongType => String::from_bytes("WrongType".as_bytes()),
            crate::status::Status::FailedToWrite => String::from_bytes("FailedToWrite".as_bytes()),
            crate::status::Status::FailedToRead => String::from_bytes("FailedToRead".as_bytes()),
            crate::status::Status::AlreadyExists => String::from_bytes("AlreadyExists".as_bytes()),
            crate::status::Status::NotEmpty => String::from_bytes("NotEmpty".as_bytes()),
        }
    }
}

} // verus!
