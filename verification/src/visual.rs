//! The integer side of a planet's picture: the hash behind its noise, and
//! the seed and temperature read from the planet's id.
use vstd::prelude::*;
use vstd::string::StrSliceExecFns;
use crate::consumers::uuid_value;

verus! {

/// One mixing round of the hash: the high half folded onto the low one,
/// then multiplied by 0x45d9f3b, wrapping.
pub open spec fn mix(a: u32) -> u32 {
    ((((a >> 16u32) ^ a) as nat * 0x45d9f3b) % 0x1_0000_0000) as u32
}

/// The integer hash behind the planet's noise: `x` shifted by the golden
/// ratio constant 0x9e3779b9 (wrapping), mixed twice, and folded once more.
pub open spec fn spec_hash_u32(x: u32) -> u32 {
    let a = ((x as nat + 0x9e3779b9) % 0x1_0000_0000) as u32;
    let c = mix(mix(a));
    (c >> 16u32) ^ c
}

/// The integer hash behind the planet's noise.
pub fn hash_u32(x: u32) -> (r: u32)
    ensures
        r == spec_hash_u32(x),
{
    let a = x.wrapping_add(0x9e3779b9);
    let b = ((a >> 16) ^ a).wrapping_mul(0x45d9f3b);
    let c = ((b >> 16) ^ b).wrapping_mul(0x45d9f3b);
    (c >> 16) ^ c
}

/// The 16 bytes of the UUID whose 128-bit value is `v`, most significant
/// first (`as_u128` reads them big-endian).
pub open spec fn be_bytes(v: u128) -> Seq<u8> {
    Seq::new(16, |i: int| ((v as nat / pow256((15 - i) as nat)) % 256) as u8)
}

/// `uuid::Uuid::parse_str(s)`, then `as_bytes()`: `None` exactly where the
/// parser refuses `s`; else the UUID's 16 bytes, whose big-endian value is
/// the one the parser reads (`uuid_value`, as `Uuid::as_u128` shows).
#[verifier::external_body]
pub(crate) fn parse_uuid_bytes(s: &str) -> (r: Option<Vec<u8>>)
    ensures
        match r {
            Some(b) => uuid_value(s@) is Some && b@ == be_bytes(uuid_value(s@)->0),
            None => uuid_value(s@) is None,
        },
{
    match uuid::Uuid::parse_str(s) {
        Ok(u) => Some(u.as_bytes().to_vec()),
        Err(_) => None,
    }
}

/// The bytes read as a little-endian number.
pub open spec fn le_value(bytes: Seq<u8>) -> nat
    decreases bytes.len(),
{
    if bytes.len() == 0 {
        0
    } else {
        bytes[0] as nat + 256 * le_value(bytes.drop_first())
    }
}

/// The seed and the raw temperature of the planet named `id`: its UUID is
/// its last 36 characters; the seed is the UUID's first 8 bytes read
/// little-endian, the temperature its next 2 bytes read the same way.
pub open spec fn spec_planet_seed(id: Seq<char>) -> Option<(u64, u16)> {
    if id.len() < 36 {
        None
    } else {
        match uuid_value(id.subrange(id.len() - 36, id.len() as int)) {
            None => None,
            Some(v) => Some(
                (le_value(be_bytes(v).subrange(0, 8)) as u64, le_value(be_bytes(v).subrange(8, 10)) as u16),
            ),
        }
    }
}

/// A little-endian number of at most `n` bytes is below `256^n`.
proof fn lemma_le_value_bound(bytes: Seq<u8>)
    ensures
        bytes.len() <= 8 ==> le_value(bytes) < pow256(bytes.len()),
    decreases bytes.len(),
{
    if bytes.len() > 0 {
        lemma_le_value_bound(bytes.drop_first());
    }
}

/// `256^n`.
pub open spec fn pow256(n: nat) -> nat
    decreases n,
{
    if n == 0 {
        1
    } else {
        256 * pow256((n - 1) as nat)
    }
}

/// The bytes `from..to` of `b` read as a little-endian number.
fn le_read(b: &Vec<u8>, from: usize, to: usize) -> (r: u64)
    requires
        from <= to <= b@.len(),
        to - from <= 8,
    ensures
        r == le_value(b@.subrange(from as int, to as int)),
{
    let mut acc: u64 = 0;
    let mut k: usize = to;
    proof {
        assert(b@.subrange(to as int, to as int) =~= Seq::<u8>::empty());
        assert(pow256(8) == 0x1_0000_0000_0000_0000) by {
            reveal_with_fuel(pow256, 9);
        }
    }
    while k > from
        invariant
            from <= k <= to <= b@.len(),
            to - from <= 8,
            acc == le_value(b@.subrange(k as int, to as int)),
            acc < pow256((to - k) as nat),
            pow256(8) == 0x1_0000_0000_0000_0000,
        decreases k,
    {
        k = k - 1;
        proof {
            assert(b@.subrange(k as int, to as int).drop_first() =~= b@.subrange(k + 1, to as int));
            assert(b@.subrange(k as int, to as int)[0] == b@[k as int]);
            lemma_pow256_monotonic((to - k - 1) as nat, 7);
            lemma_le_value_bound(b@.subrange(k as int, to as int));
            lemma_pow256_monotonic((to - k) as nat, 8);
        }
        acc = (b[k] as u64) + 256 * acc;
    }
    acc
}

/// `256^n` grows with `n`.
proof fn lemma_pow256_monotonic(n: nat, m: nat)
    requires
        n <= m,
    ensures
        pow256(n) <= pow256(m),
    decreases m,
{
    if n < m {
        lemma_pow256_monotonic(n, (m - 1) as nat);
    }
}

/// The seed and the raw temperature of the planet named `id`.
pub fn planet_seed(id: &str) -> (r: Option<(u64, u16)>)
    ensures
        r == spec_planet_seed(id@),
{
    let n = id.unicode_len();
    if n < 36 {
        return None;
    }
    let tail = id.substring_char(n - 36, n);
    let bytes = match parse_uuid_bytes(tail) {
        Some(b) => b,
        None => return None,
    };
    let seed = le_read(&bytes, 0, 8);
    let temp = le_read(&bytes, 8, 10);
    proof {
        lemma_le_value_bound(bytes@.subrange(8, 10));
        assert(pow256(2) == 65536) by {
            reveal_with_fuel(pow256, 3);
        }
    }
    Some((seed, temp as u16))
}

} // verus!
