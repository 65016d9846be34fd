//! Preparation of the NUL-terminated byte strings handed to the C library.

use vstd::prelude::*;

use vstd::string::StringSliceAdditionalSpecFns;
use vstd::utf8::{decode_utf8, encode_utf8, valid_utf8};

use crate::error::Error;

verus! {

/// `b` holds no NUL byte.
pub open spec fn nul_free(b: Seq<u8>) -> bool {
    forall|i: int| 0 <= i < b.len() ==> b[i] != 0
}

/// The bytes of a C string holding `b`: `b` followed by a NUL terminator.
pub open spec fn c_string_bytes(b: Seq<u8>) -> Seq<u8> {
    b.push(0)
}

/// The contents of a fixed-size C character buffer of `cap` bytes that holds
/// `b`: `b`, then NUL bytes up to the end of the buffer.
pub open spec fn fixed_buffer_bytes(b: Seq<u8>, cap: nat) -> Seq<u8> {
    Seq::new(cap, |i: int| if i < b.len() { b[i] } else { 0u8 })
}

fn position_of_nul(b: &[u8]) -> (found: bool)
    ensures
        found == !nul_free(b@),
{
    let mut i: usize = 0;
    while i < b.len()
        invariant
            i <= b@.len(),
            forall|j: int| 0 <= j < i ==> b@[j] != 0,
        decreases b@.len() - i,
    {
        if b[i] == 0 {
            return true;
        }
        i = i + 1;
    }
    false
}

/// The NUL-terminated bytes of `s`, or `None` when `s` holds an interior
/// NUL byte (which no C string can carry).
pub fn to_c_string(s: &str) -> (r: Option<Vec<u8>>)
    ensures
        r is None <==> !nul_free(s.spec_bytes()),
        r matches Some(v) ==> v@ == c_string_bytes(s.spec_bytes()),
{
    bytes_to_c_string(s.as_bytes())
}

/// The NUL-terminated copy of the bytes `b`, or `None` when `b` holds a NUL
/// byte (which no C string can carry).
pub fn bytes_to_c_string(b: &[u8]) -> (r: Option<Vec<u8>>)
    ensures
        r is None <==> !nul_free(b@),
        r matches Some(v) ==> v@ == c_string_bytes(b@),
{
    if position_of_nul(b) {
        return None;
    }
    let mut v: Vec<u8> = Vec::new();
    let mut i: usize = 0;
    while i < b.len()
        invariant
            i <= b@.len(),
            v@ == b@.subrange(0, i as int),
        decreases b@.len() - i,
    {
        v.push(b[i]);
        i = i + 1;
    }
    v.push(0);
    assert(b@.subrange(0, b@.len() as int) =~= b@);
    Some(v)
}

/// A `cap`-byte C character buffer holding `s`, NUL padded.
///
/// Fails with [`Error::Parse`] exactly when `s` holds a NUL byte or does not
/// leave room for the terminator (`cap` bytes or more).
pub fn fixed_c_buffer(s: &str, cap: usize) -> (r: Result<Vec<u8>, Error>)
    ensures
        r is Err <==> (!nul_free(s.spec_bytes()) || s.spec_bytes().len() >= cap),
        r matches Err(e) ==> e is Parse,
        r matches Ok(v) ==> v@ == fixed_buffer_bytes(s.spec_bytes(), cap as nat),
{
    let b = s.as_bytes();
    if position_of_nul(b) || b.len() >= cap {
        return Err(Error::Parse);
    }
    let mut v: Vec<u8> = Vec::new();
    let mut i: usize = 0;
    while i < cap
        invariant
            b@.len() < cap,
            i <= cap,
            v@.len() == i,
            forall|j: int| 0 <= j < i ==> v@[j] == (if j < b@.len() { b@[j] } else { 0u8 }),
        decreases cap - i,
    {
        if i < b.len() {
            v.push(b[i]);
        } else {
            v.push(0);
        }
        i = i + 1;
    }
    assert(v@ =~= fixed_buffer_bytes(b@, cap as nat));
    Ok(v)
}

/// A buffer built by [`fixed_c_buffer`] holds a valid C string: the text is
/// read back up to the first NUL, and that NUL lies inside the buffer.
pub proof fn law_fixed_buffer_reads_back(b: Seq<u8>, cap: nat)
    requires
        nul_free(b),
        b.len() < cap,
    ensures
        fixed_buffer_bytes(b, cap).len() == cap,
        fixed_buffer_bytes(b, cap).subrange(0, b.len() as int) =~= b,
        fixed_buffer_bytes(b, cap)[b.len() as int] == 0,
{
}

/// `n` is the length of the C string at the start of `b`: the bytes before
/// the first NUL, or all of `b` when it holds none.
pub open spec fn is_c_text_length(b: Seq<u8>, n: int) -> bool {
    &&& 0 <= n <= b.len()
    &&& nul_free(b.subrange(0, n))
    &&& n < b.len() ==> b[n] == 0
}

/// The length of the C string at the start of `buf`.
pub fn c_text_length(buf: &[u8]) -> (n: usize)
    ensures
        is_c_text_length(buf@, n as int),
{
    let mut i: usize = 0;
    while i < buf.len()
        invariant
            i <= buf@.len(),
            forall|j: int| 0 <= j < i ==> buf@[j] != 0,
        decreases buf@.len() - i,
    {
        if buf[i] == 0 {
            assert(buf@.subrange(0, i as int) =~= buf@.subrange(0, i as int));
            return i;
        }
        i = i + 1;
    }
    i
}

/// `std::str::from_utf8`: the string whose UTF-8 encoding is `b`, or `None`
/// when `b` is not valid UTF-8. Claimed: exactly that.
#[verifier::external_body]
fn str_from_utf8(b: &[u8]) -> (r: Option<&str>)
    ensures
        r is Some <==> valid_utf8(b@),
        r matches Some(s) ==> s.spec_bytes() == b@,
{
    std::str::from_utf8(b).ok()
}

/// The text held in a C character buffer: the bytes up to the first NUL
/// (or the whole buffer), read as UTF-8; `None` when they are not UTF-8.
pub fn c_buffer_text(buf: &[u8]) -> (r: Option<&str>)
    ensures
        forall|n: int|
            is_c_text_length(buf@, n) ==> {
                &&& r is Some <==> valid_utf8(buf@.subrange(0, n))
                &&& r matches Some(s) ==> s.spec_bytes() == buf@.subrange(0, n)
            },
{
    let n: usize = c_text_length(buf);
    proof {
        assert forall|m: int| is_c_text_length(buf@, m) implies m == n by {
            lemma_c_text_length_unique(buf@, n as int, m);
        }
    }
    let (head, _) = buf.split_at(n);
    str_from_utf8(head)
}

/// The C string length of a buffer is unique.
pub proof fn lemma_c_text_length_unique(b: Seq<u8>, n: int, m: int)
    requires
        is_c_text_length(b, n),
        is_c_text_length(b, m),
    ensures
        n == m,
{
    if m < n {
        assert(b.subrange(0, n)[m] == b[m]);
    } else if m > n {
        assert(b.subrange(0, m)[n] == b[n]);
    }
}

/// A name written into a fixed buffer reads back unchanged: the C string in
/// the buffer is exactly the name's bytes, and they decode to the name.
pub proof fn law_name_buffer_reads_back(name: Seq<char>, cap: nat)
    requires
        nul_free(encode_utf8(name)),
        encode_utf8(name).len() < cap,
    ensures
        is_c_text_length(fixed_buffer_bytes(encode_utf8(name), cap), encode_utf8(name).len() as int),
        fixed_buffer_bytes(encode_utf8(name), cap).subrange(0, encode_utf8(name).len() as int)
            =~= encode_utf8(name),
        valid_utf8(encode_utf8(name)),
        decode_utf8(encode_utf8(name)) =~= name,
{
    let b = encode_utf8(name);
    assert(fixed_buffer_bytes(b, cap).subrange(0, b.len() as int) =~= b);
    vstd::utf8::encode_utf8_valid_utf8(name);
    vstd::utf8::encode_utf8_decode_utf8(name);
}

/// The C string of a NUL-free byte string carries every byte of it: it is
/// one byte longer, its first `b.len()` bytes are `b` itself, its last byte
/// is the terminator, and that terminator is its only NUL.
pub proof fn law_c_string_keeps_every_byte(b: Seq<u8>)
    requires
        nul_free(b),
    ensures
        c_string_bytes(b).len() == b.len() + 1,
        c_string_bytes(b).subrange(0, b.len() as int) =~= b,
        c_string_bytes(b)[b.len() as int] == 0,
        is_c_text_length(c_string_bytes(b), b.len() as int),
{
    assert(c_string_bytes(b).subrange(0, b.len() as int) =~= b);
}

} // verus!
