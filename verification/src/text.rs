//! Content digests for stored wikitext.
//!
//! Revisions do not compare wikitext bodies character by character: each
//! body is stored under a fixed-width content digest, and two bodies are
//! taken as equal exactly when their digests are. The digest here is the
//! 64-bit FNV-1a fold over the text's characters, emitted big-endian as
//! eight bytes; it is specified exactly, so every contract built on it
//! is about a defined mathematical function of the text.

use vstd::prelude::*;
use vstd::string::StrSliceExecFns;

verus! {

/// The FNV-1a 64-bit offset basis.
pub open spec fn fnv_offset() -> u64 {
    0xcbf29ce484222325
}

/// The FNV-1a 64-bit prime.
pub open spec fn fnv_prime() -> u64 {
    0x100000001b3
}

/// One FNV-1a step: fold a character's code point into the state.
pub open spec fn fnv_step(h: u64, c: char) -> u64 {
    (h ^ (c as u64)).wrapping_mul(fnv_prime())
}

/// The FNV-1a state after folding the characters from `i` on into `h`.
pub open spec fn fnv_from(s: Seq<char>, i: int, h: u64) -> u64
    decreases s.len() - i when 0 <= i <= s.len()
{
    if i >= s.len() {
        h
    } else {
        fnv_from(s, i + 1, fnv_step(h, s[i]))
    }
}

/// The digest state of a whole text.
pub open spec fn spec_hash_state(s: Seq<char>) -> u64 {
    fnv_from(s, 0, fnv_offset())
}

/// The eight digest bytes of a text, big-endian.
pub open spec fn spec_hash_bytes(s: Seq<char>) -> Seq<u8> {
    let h = spec_hash_state(s);
    seq![
        (h >> 56) as u8,
        (h >> 48) as u8,
        (h >> 40) as u8,
        (h >> 32) as u8,
        (h >> 24) as u8,
        (h >> 16) as u8,
        (h >> 8) as u8,
        h as u8,
    ]
}

/// Computes content digests of wikitext bodies.
#[derive(Debug)]
pub struct TextService;

impl TextService {
    /// The eight-byte content digest of a text.
    pub fn hash(text: &str) -> (r: Vec<u8>)
        ensures
            r@ == spec_hash_bytes(text@),
            r@.len() == 8,
    {
        let len = text.unicode_len();
        let mut h: u64 = 0xcbf29ce484222325;
        let mut i: usize = 0;
        while i < len
            invariant
                i <= len,
                len == text@.len(),
                spec_hash_state(text@) == fnv_from(text@, i as int, h),
            decreases len - i,
        {
            let c = text.get_char(i);
            h = (h ^ (c as u64)).wrapping_mul(0x100000001b3);
            i = i + 1;
        }
        let mut out: Vec<u8> = Vec::new();
        out.push((h >> 56) as u8);
        out.push((h >> 48) as u8);
        out.push((h >> 40) as u8);
        out.push((h >> 32) as u8);
        out.push((h >> 24) as u8);
        out.push((h >> 16) as u8);
        out.push((h >> 8) as u8);
        out.push(h as u8);
        proof {
            assert(out@ =~= spec_hash_bytes(text@));
        }
        out
    }
}

} // verus!
