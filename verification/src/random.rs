//! Random identifiers and secrets.
//!
//! Every generator draws characters from a fixed charset; the drawing goes
//! through one trusted wrapper over the random source, and everything else
//! is verified: the result's length and that every character comes from the
//! charset.

use vstd::prelude::*;
use vstd::string::StrSliceExecFns;
use rand::Rng;

verus! {

/// The characters an identifier or secret is drawn from.
pub const UID_CHARSET: &'static str =
    "ABCDEFGHIJKLMNOPQRSTUVWXYZabcdefghijklmnopqrstuvwxyz0123456789)(*&^%$#@!~";

/// The characters a simple identifier is drawn from: letters and digits.
pub const SIMPLE_CHARSET: &'static str =
    "ABCDEFGHIJKLMNOPQRSTUVWXYZabcdefghijklmnopqrstuvwxyz0123456789";

/// The decimal digits.
pub const DIGIT_CHARSET: &'static str = "0123456789";

/// Relies on rand's `Rng::random_range` over `0..bound`: a value drawn
/// uniformly from the range, which is non-empty by the precondition.
#[verifier::external_body]
fn random_below(bound: usize) -> (r: usize)
    requires
        bound > 0,
    ensures
        r < bound,
{
    rand::rng().random_range(0..bound)
}

/// A string of `len` characters drawn from `charset`.
fn random_string_from(charset: &str, len: usize) -> (r: String)
    requires
        charset@.len() > 0,
    ensures
        r@.len() == len,
        forall|i: int| 0 <= i < len ==> charset@.contains(#[trigger] r@[i]),
{
    let n = charset.unicode_len();
    let mut r = String::new();
    let mut k: usize = 0;
    while k < len
        invariant
            charset@.len() == n,
            n > 0,
            r@.len() == k,
            0 <= k <= len,
            forall|i: int| 0 <= i < k ==> charset@.contains(#[trigger] r@[i]),
        decreases len - k,
    {
        let idx = random_below(n);
        let c = charset.substring_char(idx, idx + 1);
        r.append(c);
        proof {
            assert(r@[k as int] == charset@[idx as int]);
            assert(charset@.contains(r@[k as int]));
        }
        k += 1;
    }
    r
}

/// A generated identifier of `len` characters from the full charset.
pub fn generate_uid(len: usize) -> (r: String)
    ensures
        r@.len() == len,
        forall|i: int| 0 <= i < len ==> UID_CHARSET@.contains(#[trigger] r@[i]),
{
    proof {
        reveal_strlit("ABCDEFGHIJKLMNOPQRSTUVWXYZabcdefghijklmnopqrstuvwxyz0123456789)(*&^%$#@!~");
    }
    random_string_from(UID_CHARSET, len)
}

/// A generated secret of 80 to 99 characters from the full charset.
pub fn generate_secret() -> (r: String)
    ensures
        80 <= r@.len() < 100,
        forall|i: int| 0 <= i < r@.len() ==> UID_CHARSET@.contains(#[trigger] r@[i]),
{
    proof {
        reveal_strlit("ABCDEFGHIJKLMNOPQRSTUVWXYZabcdefghijklmnopqrstuvwxyz0123456789)(*&^%$#@!~");
    }
    let len = 80 + random_below(20);
    random_string_from(UID_CHARSET, len)
}

/// A generated identifier of `len` letters and digits.
pub fn simple_uid(len: usize) -> (r: String)
    ensures
        r@.len() == len,
        forall|i: int| 0 <= i < len ==> SIMPLE_CHARSET@.contains(#[trigger] r@[i]),
{
    proof {
        reveal_strlit("ABCDEFGHIJKLMNOPQRSTUVWXYZabcdefghijklmnopqrstuvwxyz0123456789");
    }
    random_string_from(SIMPLE_CHARSET, len)
}

/// A string of `len` decimal digits drawn at random.
pub fn random_numbers(len: usize) -> (r: String)
    ensures
        r@.len() == len,
        forall|i: int| 0 <= i < len ==> DIGIT_CHARSET@.contains(#[trigger] r@[i]),
{
    proof {
        reveal_strlit("0123456789");
    }
    random_string_from(DIGIT_CHARSET, len)
}

/// A fresh opaque collection identifier: the literal prefix `moo_` followed
/// by nine decimal digits drawn from the random source.  Collisions are not
/// checked; the probability is accepted as negligible.
pub fn new_collection_id() -> (r: String)
    ensures
        r@.len() == 13,
        r@.subrange(0, 4) == "moo_"@,
        forall|i: int| 4 <= i < 13 ==> DIGIT_CHARSET@.contains(#[trigger] r@[i]),
{
    proof {
        reveal_strlit("moo_");
    }
    let mut r = String::from_str("moo_");
    let digits = random_numbers(9);
    r.append(digits.as_str());
    proof {
        assert(r@.subrange(0, 4) =~= "moo_"@);
        assert forall|i: int| 4 <= i < 13 implies DIGIT_CHARSET@.contains(#[trigger] r@[i]) by {
            assert(r@[i] == digits@[i - 4]);
        }
    }
    r
}

} // verus!
