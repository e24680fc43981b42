//! Segment names: strings of at most 32 bytes, stored inline so that they can
//! live in the registry's shared block.
use arrayvec::ArrayString;
use vstd::prelude::*;

verus! {

/// The most bytes a segment name may hold.
pub const MAX_NAME_BYTES: usize = 32;

/// The number of bytes the UTF-8 encoding of `c` takes.
pub open spec fn utf8_width(c: char) -> nat {
    if (c as u32) < 0x80 {
        1
    } else if (c as u32) < 0x800 {
        2
    } else if (c as u32) < 0x1_0000 {
        3
    } else {
        4
    }
}

/// The number of bytes the UTF-8 encoding of `s` takes.
pub open spec fn utf8_len(s: Seq<char>) -> nat
    decreases s.len(),
{
    if s.len() == 0 {
        0
    } else {
        utf8_width(s[0]) + utf8_len(s.drop_first())
    }
}

/// The name of a segment, by which any process can attach it. The bytes are
/// stored inline, so that the name can live in the registry's shared block.
#[verifier::external_body]
pub struct ShmemName {
    inner: ArrayString<[u8; 32]>,
}

/// The characters a segment name holds.
pub uninterp spec fn name_chars(n: ShmemName) -> Seq<char>;

impl View for ShmemName {
    type V = Seq<char>;

    open spec fn view(&self) -> Seq<char> {
        name_chars(*self)
    }
}

/// Relies on `ArrayString::from`: it copies `s` when its UTF-8 length fits the
/// 32-byte capacity and fails otherwise.
#[verifier::external_body]
fn inline_from(s: &str) -> (r: Option<ShmemName>)
    ensures
        r is Some <==> utf8_len(s@) <= MAX_NAME_BYTES,
        r matches Some(n) ==> name_chars(n) == s@,
{
    match ArrayString::from(s) {
        Ok(inner) => Some(ShmemName { inner }),
        Err(_) => None,
    }
}

/// Relies on `ArrayString::as_str`: the string the inline buffer holds.
#[verifier::external_body]
fn inline_as_str(n: &ShmemName) -> (r: &str)
    ensures
        r@ == name_chars(*n),
{
    n.inner.as_str()
}

impl ShmemName {
    /// The name `name`, if its UTF-8 encoding fits in 32 bytes.
    pub fn from_str(name: &str) -> (r: Option<ShmemName>)
        ensures
            r is Some <==> utf8_len(name@) <= MAX_NAME_BYTES,
            r matches Some(n) ==> n@ == name@,
    {
        inline_from(name)
    }

    /// The name as a string.
    pub fn as_str(&self) -> (r: &str)
        ensures
            r@ == self@,
    {
        inline_as_str(self)
    }
}

} // verus!
