//! Bounded copy of connection strings into the native fixed-size buffer.
//!
//! The native open call takes a connection string as a fixed buffer of 1024
//! bytes, read as a C string: the bytes before the first zero. A caller's
//! string is copied into such a buffer explicitly: at most 1023 bytes are
//! taken, so a terminating zero always remains, and the rest of the buffer
//! is zero-padded. A longer string is truncated, never an error — a
//! documented boundary, not a hidden one.

use vstd::prelude::*;

verus! {

/// Size in bytes of the native connection-string buffer.
pub const CONNSTRING_BUF_LEN: usize = 1024;

/// How many bytes of a string of length `n` the buffer copy takes: all of
/// them when they leave room for the terminating zero, 1023 otherwise.
pub open spec fn copied_len(n: nat) -> nat {
    if n < 1023 {
        n
    } else {
        1023
    }
}

/// The buffer that a string copies to: its first `copied_len` bytes, then
/// zeros up to the full 1024 bytes.
pub open spec fn connstring_buffer_of(s: Seq<u8>) -> Seq<u8> {
    Seq::new(
        1024,
        |i: int|
            if i < copied_len(s.len()) {
                s[i]
            } else {
                0u8
            },
    )
}

/// Index of the first zero byte, or the length if there is none: where a C
/// string read of the buffer stops.
pub open spec fn nul_index(b: Seq<u8>) -> int
    decreases b.len(),
{
    if b.len() == 0 {
        0
    } else if b[0] == 0 {
        0
    } else {
        1 + nul_index(b.drop_first())
    }
}

/// The bytes a C string read of the buffer yields: everything before the
/// first zero.
pub open spec fn cstr_of(b: Seq<u8>) -> Seq<u8> {
    b.take(nul_index(b))
}

/// `nul_index` is what its name says: it is in bounds, every byte before it
/// is nonzero, and the byte at it (when it is not the end) is zero.
pub proof fn lemma_nul_index_char(b: Seq<u8>)
    ensures
        0 <= nul_index(b) <= b.len(),
        forall|j: int| 0 <= j < nul_index(b) ==> b[j] != 0,
        nul_index(b) < b.len() ==> b[nul_index(b)] == 0,
    decreases b.len(),
{
    if b.len() == 0 {
    } else if b[0] == 0 {
    } else {
        let t = b.drop_first();
        lemma_nul_index_char(t);
        assert forall|j: int| 0 <= j < nul_index(b) implies b[j] != 0 by {
            if j > 0 {
                assert(t[j - 1] == b[j]);
            }
        }
        if nul_index(b) < b.len() {
            assert(t[nul_index(t)] == b[nul_index(b)]);
        }
    }
}

/// Copy a connection string into the native fixed-size buffer: the first
/// `copied_len` bytes of the string, zero-padded to 1024 bytes. Strings of
/// 1023 bytes or more are truncated, with a terminating zero always left in
/// place; no error is raised.
pub fn make_connstring_buffer(s: &[u8]) -> (r: Vec<u8>)
    ensures
        r@ == connstring_buffer_of(s@),
        r@.len() == 1024,
{
    let n: usize = if s.len() < CONNSTRING_BUF_LEN - 1 {
        s.len()
    } else {
        CONNSTRING_BUF_LEN - 1
    };
    let mut buf: Vec<u8> = Vec::new();
    let mut i: usize = 0;
    while i < n
        invariant
            i <= n,
            n == copied_len(s@.len()),
            n <= s@.len(),
            buf@.len() == i,
            forall|j: int| 0 <= j < i ==> buf@[j] == s@[j],
        decreases n - i,
    {
        buf.push(s[i]);
        i += 1;
    }
    while i < CONNSTRING_BUF_LEN
        invariant
            n <= i <= 1024,
            n == copied_len(s@.len()),
            buf@.len() == i,
            forall|j: int| 0 <= j < n ==> buf@[j] == s@[j],
            forall|j: int| n <= j < i ==> buf@[j] == 0u8,
        decreases 1024 - i,
    {
        buf.push(0);
        i += 1;
    }
    proof {
        assert(buf@ =~= connstring_buffer_of(s@));
    }
    buf
}

/// Round trip through the native buffer. A connection string without
/// interior zero bytes is preserved byte-for-byte up to null termination:
/// shorter than 1024 bytes it is read back whole, at 1024 bytes or longer it
/// is read back truncated to its first 1023 bytes.
pub proof fn lemma_connstring_round_trip(s: Seq<u8>)
    requires
        forall|i: int| 0 <= i < s.len() ==> s[i] != 0,
    ensures
        s.len() < 1024 ==> cstr_of(connstring_buffer_of(s)) == s,
        s.len() >= 1024 ==> cstr_of(connstring_buffer_of(s)) == s.take(1023),
{
    let b = connstring_buffer_of(s);
    let n = copied_len(s.len()) as int;
    lemma_nul_index_char(b);
    if nul_index(b) < n {
        assert(b[nul_index(b)] == s[nul_index(b)]);
    }
    if nul_index(b) > n {
        assert(b[n] == 0);
    }
    assert(nul_index(b) == n);
    if s.len() < 1024 {
        assert(b.take(n) =~= s);
    } else {
        assert(b.take(n) =~= s.take(1023));
    }
}

} // verus!
