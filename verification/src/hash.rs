//! The cache key: a 64-bit non-cryptographic fingerprint of the source tree
//! path, the toolchain commit identifier, and the variant tag, folded in that
//! fixed order.

use vstd::prelude::*;
use vstd::string::*;

verus! {

/// The starting state of the fold.
pub open spec fn fnv_offset() -> u64 {
    0xcbf29ce484222325u64
}

/// The multiplier of the fold.
pub open spec fn fnv_prime() -> u64 {
    0x100000001b3u64
}

/// Folded between the three fields, so that field boundaries shift the state;
/// it lies outside the range of any character value.
pub open spec fn field_separator() -> u64 {
    0x200000u64
}

/// Folded in place of a missing commit identifier, as its sentinel.
pub open spec fn missing_commit_sentinel() -> u64 {
    0x200001u64
}

/// One fold step: mix a value into the state.
pub open spec fn mix(h: u64, v: u64) -> u64 {
    vstd::wrapping::u64_specs::wrapping_mul(h ^ v, fnv_prime())
}

/// The state after folding every character of `s`, in order, into `h`.
pub open spec fn mix_chars(h: u64, s: Seq<char>) -> u64
    decreases s.len(),
{
    if s.len() == 0 {
        h
    } else {
        mix(mix_chars(h, s.drop_last()), s.last() as u64)
    }
}

/// The cache key of a sysroot configuration. A missing commit identifier is
/// replaced by a sentinel; a missing variant tag means the baseline variant
/// and is folded as the empty tag.
pub open spec fn spec_cache_key(
    src_dir: Seq<char>,
    commit: Option<Seq<char>>,
    variant: Option<Seq<char>>,
) -> u64 {
    let h0 = mix_chars(fnv_offset(), src_dir);
    let h1 = mix(h0, field_separator());
    let h2 = match commit {
        Some(c) => mix_chars(h1, c),
        None => mix(h1, missing_commit_sentinel()),
    };
    let h3 = mix(h2, field_separator());
    match variant {
        Some(v) => mix_chars(h3, v),
        None => h3,
    }
}

fn mix_exec(h: u64, v: u64) -> (r: u64)
    ensures
        r == mix(h, v),
{
    (h ^ v).wrapping_mul(0x100000001b3u64)
}

fn mix_chars_exec(h: u64, s: &str) -> (r: u64)
    ensures
        r == mix_chars(h, s@),
{
    let len = s.unicode_len();
    let mut i: usize = 0;
    let mut acc = h;
    while i < len
        invariant
            len == s@.len(),
            i <= len,
            acc == mix_chars(h, s@.subrange(0, i as int)),
        decreases len - i,
    {
        let c = s.get_char(i);
        acc = mix_exec(acc, c as u64);
        proof {
            let cur = s@.subrange(0, i as int + 1);
            assert(cur.drop_last() =~= s@.subrange(0, i as int));
            assert(cur.last() == s@[i as int]);
        }
        i += 1;
    }
    proof {
        assert(s@.subrange(0, len as int) =~= s@);
    }
    acc
}

/// The fingerprint that identifies one exact sysroot configuration.
pub fn compute_cache_key(src_dir: &str, commit: Option<&String>, variant: Option<&String>) -> (r:
    u64)
    ensures
        r == spec_cache_key(
            src_dir@,
            match commit {
                Some(c) => Some(c@),
                None => None,
            },
            match variant {
                Some(v) => Some(v@),
                None => None,
            },
        ),
{
    let h0 = mix_chars_exec(0xcbf29ce484222325u64, src_dir);
    let h1 = mix_exec(h0, 0x200000u64);
    let h2 = match commit {
        Some(c) => mix_chars_exec(h1, c.as_str()),
        None => mix_exec(h1, 0x200001u64),
    };
    let h3 = mix_exec(h2, 0x200000u64);
    match variant {
        Some(v) => mix_chars_exec(h3, v.as_str()),
        None => h3,
    }
}

} // verus!
