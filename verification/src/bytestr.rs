//! Byte-string rules of the foreign convention.
//!
//! The host hands strings around as NUL-terminated byte runs and reports
//! errors through bounded byte buffers.  This module fixes those rules over
//! plain byte sequences: where the first terminator sits, what the prefix
//! before it is, how a message is copied into a bounded reply buffer
//! (truncate, never overflow, always terminate), and how a name is encoded
//! for a registration call.

use vstd::prelude::*;

verus! {

/// Whether `s` holds a terminator byte anywhere.
pub open spec fn contains_nul(s: Seq<u8>) -> bool {
    exists|i: int| 0 <= i < s.len() && s[i] == 0u8
}

/// The index of the first terminator byte of `s`, or `s.len()` when there
/// is none.
pub open spec fn nul_pos(s: Seq<u8>) -> int
    decreases s.len(),
{
    if s.len() == 0 {
        0
    } else if s[0] == 0u8 {
        0
    } else {
        1 + nul_pos(s.subrange(1, s.len() as int))
    }
}

/// The bytes of the C string at the start of `s`: everything before the
/// first terminator (all of `s` when no terminator is present).
pub open spec fn c_prefix_of(s: Seq<u8>) -> Seq<u8> {
    s.take(nul_pos(s))
}

/// What `nul_pos` points at: it stays within `s`, it is a terminator
/// exactly when `s` holds one, and nothing before it is a terminator.
pub proof fn lemma_nul_pos(s: Seq<u8>)
    ensures
        0 <= nul_pos(s) <= s.len(),
        contains_nul(s) ==> nul_pos(s) < s.len() && s[nul_pos(s)] == 0u8,
        forall|j: int| 0 <= j < nul_pos(s) ==> s[j] != 0u8,
        !contains_nul(s) ==> nul_pos(s) == s.len(),
    decreases s.len(),
{
    if s.len() == 0 {
    } else if s[0] == 0u8 {
        assert(contains_nul(s));
    } else {
        let t = s.subrange(1, s.len() as int);
        lemma_nul_pos(t);
        if contains_nul(s) {
            let i = choose|i: int| 0 <= i < s.len() && s[i] == 0u8;
            assert(t[i - 1] == 0u8);
            assert(contains_nul(t));
        }
        if contains_nul(t) {
            let i = choose|i: int| 0 <= i < t.len() && t[i] == 0u8;
            assert(s[i + 1] == 0u8);
            assert(contains_nul(s));
        }
        assert forall|j: int| 0 <= j < nul_pos(s) implies s[j] != 0u8 by {
            if j >= 1 {
                assert(s[j] == t[j - 1]);
            }
        }
        if contains_nul(s) {
            assert(s[nul_pos(s)] == t[nul_pos(t)]);
        }
    }
}

/// Finds the first terminator byte of `buf`, if any.
pub fn find_nul(buf: &Vec<u8>) -> (r: Option<usize>)
    ensures
        r matches Some(i) ==> contains_nul(buf@) && i == nul_pos(buf@),
        r is None <==> !contains_nul(buf@),
{
    let n = buf.len();
    let mut i: usize = 0;
    while i < n
        invariant
            n == buf@.len(),
            0 <= i <= n,
            forall|j: int| 0 <= j < i ==> buf@[j] != 0u8,
        decreases n - i,
    {
        if buf[i] == 0u8 {
            proof {
                assert(buf@[i as int] == 0u8);
                assert(contains_nul(buf@));
                lemma_nul_pos(buf@);
            }
            return Some(i);
        }
        i = i + 1;
    }
    proof {
        lemma_nul_pos(buf@);
        if contains_nul(buf@) {
            assert(buf@[nul_pos(buf@)] == 0u8);
            assert(false);
        }
    }
    None
}

/// Extracts the C string at the start of `buf`: the bytes before the first
/// terminator.  Refuses a buffer with no terminator at all rather than
/// reading past it.
pub fn c_prefix(buf: &Vec<u8>) -> (r: Option<Vec<u8>>)
    ensures
        r matches Some(p) ==> contains_nul(buf@) && p@ == c_prefix_of(buf@),
        r is None <==> !contains_nul(buf@),
{
    match find_nul(buf) {
        Some(end) => {
            proof {
                lemma_nul_pos(buf@);
            }
            let mut p: Vec<u8> = Vec::new();
            let mut i: usize = 0;
            while i < end
                invariant
                    0 <= i <= end,
                    end == nul_pos(buf@),
                    end <= buf@.len(),
                    p@ == buf@.take(i as int),
                decreases end - i,
            {
                p.push(buf[i]);
                proof {
                    assert(p@ =~= buf@.take(i + 1 as int));
                }
                i = i + 1;
            }
            Some(p)
        },
        None => None,
    }
}

/// The bytes that the bounded error-reply copy places in a buffer of
/// capacity `maxlength` for the message `msg`: the message, stopped at its
/// first terminator and truncated to `maxlength - 1` bytes, followed by one
/// terminator.  A zero-capacity buffer takes nothing.
pub open spec fn error_buffer_spec(msg: Seq<u8>, maxlength: nat) -> Seq<u8> {
    if maxlength == 0 {
        Seq::<u8>::empty()
    } else {
        let k = if nul_pos(msg) <= maxlength - 1 {
            nul_pos(msg)
        } else {
            maxlength - 1
        };
        msg.take(k) + seq![0u8]
    }
}

/// Copies the message `msg` into a fresh reply buffer of capacity
/// `maxlength`, truncating rather than overflowing and always placing a
/// terminator when there is room for one.
pub fn fill_error_buffer(msg: &Vec<u8>, maxlength: usize) -> (buf: Vec<u8>)
    ensures
        buf@ == error_buffer_spec(msg@, maxlength as nat),
        buf@.len() <= maxlength,
{
    proof {
        lemma_nul_pos(msg@);
    }
    let mut buf: Vec<u8> = Vec::new();
    if maxlength == 0 {
        proof {
            assert(buf@ =~= error_buffer_spec(msg@, 0));
        }
        return buf;
    }
    let limit = maxlength - 1;
    let n = msg.len();
    let mut i: usize = 0;
    while i < limit && i < n && msg[i] != 0u8
        invariant
            n == msg@.len(),
            0 <= i <= n,
            i <= limit,
            limit == maxlength - 1,
            maxlength >= 1,
            forall|j: int| 0 <= j < i ==> msg@[j] != 0u8,
            buf@ == msg@.take(i as int),
        decreases limit - i,
    {
        buf.push(msg[i]);
        proof {
            assert(buf@ =~= msg@.take(i + 1 as int));
        }
        i = i + 1;
    }
    buf.push(0u8);
    proof {
        lemma_nul_pos(msg@);
        let k = if nul_pos(msg@) <= maxlength - 1 {
            nul_pos(msg@)
        } else {
            maxlength - 1
        };
        if i < limit {
            // the scan stopped on the end of the message or on its terminator
            if i < n {
                assert(msg@[i as int] == 0u8);
                assert(contains_nul(msg@));
            } else {
                if contains_nul(msg@) {
                    assert(msg@[nul_pos(msg@)] == 0u8);
                }
            }
            assert(nul_pos(msg@) == i);
        } else {
            assert(nul_pos(msg@) >= i);
        }
        assert(k == i);
        assert(buf@ =~= msg@.take(i as int) + seq![0u8]);
        assert(buf@ =~= error_buffer_spec(msg@, maxlength as nat));
    }
    buf
}

/// The bounded reply copy truncates and terminates: with room the whole
/// message is copied, without room exactly the first `maxlength - 1` bytes
/// are, and either way the reply fits the buffer and ends in a terminator.
/// Stated for a message with no embedded terminator.
pub proof fn lemma_error_buffer_truncation(msg: Seq<u8>, maxlength: nat)
    requires
        maxlength > 0,
        !contains_nul(msg),
    ensures
        msg.len() <= maxlength - 1 ==> error_buffer_spec(msg, maxlength) == msg + seq![0u8],
        msg.len() > maxlength - 1 ==> error_buffer_spec(msg, maxlength) == msg.take(
            maxlength - 1,
        ) + seq![0u8],
        error_buffer_spec(msg, maxlength).len() <= maxlength,
        error_buffer_spec(msg, maxlength).last() == 0u8,
{
    lemma_nul_pos(msg);
    if msg.len() <= maxlength - 1 {
        assert(error_buffer_spec(msg, maxlength) =~= msg + seq![0u8]);
    }
}

/// Encodes a name for a registration or lookup call: the name's bytes plus
/// a terminator.  A name holding an embedded terminator cannot be encoded;
/// the position of the offending byte is reported.
pub fn encode_c_name(name: &Vec<u8>) -> (r: Result<Vec<u8>, usize>)
    ensures
        r matches Ok(e) ==> !contains_nul(name@) && e@ == name@ + seq![0u8],
        r matches Err(p) ==> contains_nul(name@) && p == nul_pos(name@),
{
    match find_nul(name) {
        Some(p) => Err(p),
        None => {
            let n = name.len();
            let mut e: Vec<u8> = Vec::new();
            let mut i: usize = 0;
            while i < n
                invariant
                    n == name@.len(),
                    0 <= i <= n,
                    e@ == name@.take(i as int),
                decreases n - i,
            {
                e.push(name[i]);
                proof {
                    assert(e@ =~= name@.take(i + 1 as int));
                }
                i = i + 1;
            }
            e.push(0u8);
            proof {
                assert(e@ =~= name@ + seq![0u8]);
            }
            Ok(e)
        },
    }
}

} // verus!
