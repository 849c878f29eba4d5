//! Wrappers for secrets: their contents are overwritten with zeros when they are dropped.

use vstd::prelude::*;

verus! {

/// Relies on `String::into_bytes`: hands over the string's own buffer, without copying, so that
/// the caller can overwrite it.
#[verifier::external_body]
fn into_owned_bytes(s: String) -> (r: Vec<u8>)
    opens_invariants none
    no_unwind
{
    s.into_bytes()
}

/// Relies on `slice::fill`: every byte of the buffer becomes zero.
#[verifier::external_body]
fn zero_fill(bytes: &mut Vec<u8>)
    ensures
        final(bytes)@.len() == old(bytes)@.len(),
        forall|i: int| 0 <= i < final(bytes)@.len() ==> final(bytes)@[i] == 0u8,
    opens_invariants none
    no_unwind
{
    bytes.fill(0u8)
}

/// Relies on `core::mem::take`: moves the text out and leaves an empty string behind.
#[verifier::external_body]
fn take_text(s: &mut String) -> (r: String)
    ensures
        r@ == old(s)@,
        final(s)@ == Seq::<char>::empty(),
    opens_invariants none
    no_unwind
{
    core::mem::take(s)
}

/// A string that holds a credential. It is never printed, and its memory is zeroed when it is
/// dropped.
pub struct SecureString(String);

impl View for SecureString {
    type V = Seq<char>;

    closed spec fn view(&self) -> Seq<char> {
        self.0@
    }
}

impl SecureString {
    /// Takes ownership of `s` as a secret.
    pub fn from_string(s: String) -> (r: Self)
        ensures
            r@ == s@,
    {
        SecureString(s)
    }

    /// Copies `s` into a new secret.
    pub fn from_str(s: &str) -> (r: Self)
        ensures
            r@ == s@,
    {
        SecureString(s.to_owned())
    }

    /// The secret's text.
    pub fn as_str(&self) -> (r: &str)
        ensures
            r@ == self@,
    {
        self.0.as_str()
    }

    /// The text that stands in for the secret wherever it would be displayed.
    pub fn redacted(&self) -> (r: &'static str)
        ensures
            r@ == "**********"@,
    {
        "**********"
    }
}

impl Clone for SecureString {
    fn clone(&self) -> (r: Self)
        ensures
            r@ == self@,
    {
        SecureString(self.0.clone())
    }
}

impl PartialEq for SecureString {
    fn eq(&self, other: &SecureString) -> (r: bool) {
        self.0 == other.0
    }
}

impl vstd::std_specs::cmp::PartialEqSpecImpl for SecureString {
    open spec fn obeys_eq_spec() -> bool {
        true
    }

    open spec fn eq_spec(&self, other: &SecureString) -> bool {
        self@ == other@
    }
}

impl Eq for SecureString {}

impl Drop for SecureString {
    fn drop(&mut self)
        opens_invariants none
        no_unwind
    {
        let taken = take_text(&mut self.0);
        let mut bytes = into_owned_bytes(taken);
        zero_fill(&mut bytes);
    }
}

/// A byte buffer that holds a credential. It is never printed, and its memory is zeroed when it
/// is dropped.
pub struct SecureBytes(Vec<u8>);

impl View for SecureBytes {
    type V = Seq<u8>;

    closed spec fn view(&self) -> Seq<u8> {
        self.0@
    }
}

impl SecureBytes {
    /// Takes ownership of `b` as a secret.
    pub fn from_vec(b: Vec<u8>) -> (r: Self)
        ensures
            r@ == b@,
    {
        SecureBytes(b)
    }

    /// The secret's bytes.
    pub fn as_slice(&self) -> (r: &[u8])
        ensures
            r@ == self@,
    {
        self.0.as_slice()
    }
}

impl Clone for SecureBytes {
    fn clone(&self) -> (r: Self)
        ensures
            r@ == self@,
    {
        SecureBytes(self.0.clone())
    }
}

impl PartialEq for SecureBytes {
    fn eq(&self, other: &SecureBytes) -> (r: bool) {
        let a = self.0.as_slice();
        let b = other.0.as_slice();
        if a.len() != b.len() {
            return false;
        }
        let mut i: usize = 0;
        while i < a.len()
            invariant
                a@ == self@,
                b@ == other@,
                a@.len() == b@.len(),
                i <= a@.len(),
                forall|j: int| 0 <= j < i ==> a@[j] == b@[j],
            decreases a@.len() - i,
        {
            if a[i] != b[i] {
                return false;
            }
            i = i + 1;
        }
        proof {
            assert(a@ =~= b@);
        }
        true
    }
}

impl vstd::std_specs::cmp::PartialEqSpecImpl for SecureBytes {
    open spec fn obeys_eq_spec() -> bool {
        true
    }

    open spec fn eq_spec(&self, other: &SecureBytes) -> bool {
        self@ == other@
    }
}

impl Eq for SecureBytes {}

impl Drop for SecureBytes {
    fn drop(&mut self)
        opens_invariants none
        no_unwind
    {
        zero_fill(&mut self.0);
    }
}

} // verus!
