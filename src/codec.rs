//! The binary encodings the ledger expects: compact integers and
//! little-endian fixed-width values.
use vstd::prelude::*;
use parity_scale_codec::{Compact, Decode, DecodeAll, Encode};

verus! {

/// The `n` low-order bytes of `v`, least significant first.
pub open spec fn le_bytes(v: nat, n: nat) -> Seq<u8>
    decreases n,
{
    if n == 0 {
        Seq::empty()
    } else {
        seq![(v % 256) as u8] + le_bytes(v / 256, (n - 1) as nat)
    }
}

/// The number read from bytes, least significant first.
pub open spec fn le_value(s: Seq<u8>) -> nat
    decreases s.len(),
{
    if s.len() == 0 {
        0
    } else {
        s[0] as nat + 256 * le_value(s.drop_first())
    }
}

/// The least number of bytes that hold `v` (at least one).
pub open spec fn byte_len(v: nat) -> nat
    decreases v,
{
    if v < 256 {
        1
    } else {
        1 + byte_len(v / 256)
    }
}

/// The compact encoding of `x`: one, two or four bytes holding `x` shifted
/// left by two with the length class in the low bits, or a prefix byte giving
/// the byte count followed by `x` in that many bytes.
pub open spec fn compact_bytes(x: u128) -> Seq<u8> {
    let v = x as nat;
    if v < 64 {
        seq![(4 * v) as u8]
    } else if v < 16384 {
        le_bytes(4 * v + 1, 2)
    } else if v < 1073741824 {
        le_bytes(4 * v + 2, 4)
    } else {
        seq![(4 * (byte_len(v) - 4) + 3) as u8] + le_bytes(v, byte_len(v))
    }
}

/// `p` is a prefix of `s`.
pub open spec fn is_prefix(p: Seq<u8>, s: Seq<u8>) -> bool {
    p.len() <= s.len() && s.subrange(0, p.len() as int) == p
}

/// Relies on parity_scale_codec's `Encode` for `Compact<u128>`: the compact
/// encoding of the value.
#[verifier::external_body]
fn scale_encode_compact(x: u128) -> (r: Vec<u8>)
    ensures
        r@ == compact_bytes(x),
{
    Compact(x).encode()
}

/// Relies on parity_scale_codec's `Decode` for `Compact<u128>`: it reads the
/// one canonical encoding that starts the input and rejects anything else.
/// Gives the value and the number of bytes left after it.
#[verifier::external_body]
fn scale_decode_compact(b: &[u8]) -> (r: Option<(u128, usize)>)
    ensures
        forall|v: u128| #[trigger] is_prefix(compact_bytes(v), b@)
            ==> r == Some((v, (b@.len() - compact_bytes(v).len()) as usize)),
        r matches Some((v, rest)) ==> is_prefix(compact_bytes(v), b@)
            && rest == b@.len() - compact_bytes(v).len(),
{
    let mut input = b;
    match Compact::<u128>::decode(&mut input) {
        Ok(c) => Some((c.0, input.len())),
        Err(_) => None,
    }
}

/// The compact encoding of `x`.
pub fn encode_compact(x: u128) -> (r: Vec<u8>)
    ensures
        r@ == compact_bytes(x),
        r@.len() >= 1,
{
    proof {
        lemma_compact_shape(x);
    }
    scale_encode_compact(x)
}

/// Reads the compact value at the start of `b`: the value and the number of
/// bytes after its encoding, or `None` when no value's encoding starts `b`.
pub fn decode_compact(b: &[u8]) -> (r: Option<(u128, usize)>)
    ensures
        r is Some <==> exists|v: u128| #[trigger] is_prefix(compact_bytes(v), b@),
        r matches Some((v, rest)) ==> is_prefix(compact_bytes(v), b@)
            && rest == b@.len() - compact_bytes(v).len(),
{
    scale_decode_compact(b)
}

/// Relies on parity_scale_codec's `DecodeAll` for `u128`: sixteen bytes,
/// least significant first, and nothing after them.
#[verifier::external_body]
pub(crate) fn decode_u128(b: &[u8]) -> (r: Option<u128>)
    ensures
        r is Some <==> b@.len() == 16,
        r matches Some(v) ==> v as nat == le_value(b@),
{
    let mut input = b;
    u128::decode_all(&mut input).ok()
}

/// Relies on parity_scale_codec's `DecodeAll` for `u64`: eight bytes,
/// least significant first, and nothing after them.
#[verifier::external_body]
pub(crate) fn decode_u64(b: &[u8]) -> (r: Option<u64>)
    ensures
        r is Some <==> b@.len() == 8,
        r matches Some(v) ==> v as nat == le_value(b@),
{
    let mut input = b;
    u64::decode_all(&mut input).ok()
}

} // verus!

verus! {

/// `v` is held by its `n` low-order bytes.
pub open spec fn fits(v: nat, n: nat) -> bool
    decreases n,
{
    if n == 0 {
        v == 0
    } else {
        fits(v / 256, (n - 1) as nat)
    }
}

proof fn lemma_le_bytes_len(v: nat, n: nat)
    ensures
        le_bytes(v, n).len() == n,
    decreases n,
{
    if n > 0 {
        lemma_le_bytes_len(v / 256, (n - 1) as nat);
    }
}

proof fn lemma_le_bytes_injective(v: nat, w: nat, n: nat)
    requires
        fits(v, n),
        fits(w, n),
        le_bytes(v, n) == le_bytes(w, n),
    ensures
        v == w,
    decreases n,
{
    if n > 0 {
        let a = le_bytes(v, n);
        let b = le_bytes(w, n);
        assert(a[0] == b[0]);
        assert((v % 256) as u8 == (w % 256) as u8);
        assert(v % 256 == w % 256);
        assert(a.drop_first() =~= le_bytes(v / 256, (n - 1) as nat));
        assert(b.drop_first() =~= le_bytes(w / 256, (n - 1) as nat));
        lemma_le_bytes_injective(v / 256, w / 256, (n - 1) as nat);
    }
}

proof fn lemma_byte_len_fits(v: nat)
    ensures
        fits(v, byte_len(v)),
        byte_len(v) >= 1,
    decreases v,
{
    if v >= 256 {
        lemma_byte_len_fits(v / 256);
        let n = byte_len(v);
        assert(n == 1 + byte_len(v / 256));
        assert(fits(v, n) == fits(v / 256, (n - 1) as nat));
    } else {
        assert(v / 256 == 0);
        assert(fits(v / 256, 0));
        assert(fits(v, 1) == fits(v / 256, 0));
    }
}

proof fn lemma_byte_len_bounds(v: nat)
    requires
        1073741824 <= v < 0x1_0000_0000_0000_0000_0000_0000_0000_0000,
    ensures
        4 <= byte_len(v) <= 16,
{
    reveal_with_fuel(byte_len, 17);
    assert(v / 256 >= 256);
    assert(v / 256 / 256 >= 256);
    assert(v / 256 / 256 / 256 >= 1);
    reveal_with_fuel(pow256, 17);
    assert(pow256(16) == 0x1_0000_0000_0000_0000_0000_0000_0000_0000);
    lemma_byte_len_at_most(v, 16);
}

proof fn lemma_byte_len_at_most(v: nat, n: nat)
    requires
        n >= 1,
        v < pow256(n),
    ensures
        byte_len(v) <= n,
    decreases n,
{
    if v >= 256 {
        assert(n > 1) by {
            if n == 1 {
                assert(pow256(1) == 256 * pow256(0));
            }
        }
        assert(pow256(n) == 256 * pow256((n - 1) as nat));
        assert(v / 256 < pow256((n - 1) as nat)) by (nonlinear_arith)
            requires v < 256 * pow256((n - 1) as nat);
        lemma_byte_len_at_most(v / 256, (n - 1) as nat);
    }
}

/// 256 to the power `n`.
pub open spec fn pow256(n: nat) -> nat
    decreases n,
{
    if n == 0 {
        1
    } else {
        256 * pow256((n - 1) as nat)
    }
}

} // verus!

verus! {

/// The length class of a value: the low two bits of its first encoded byte.
pub open spec fn compact_class(x: u128) -> int {
    let v = x as nat;
    if v < 64 {
        0
    } else if v < 16384 {
        1
    } else if v < 1073741824 {
        2
    } else {
        3
    }
}

proof fn lemma_compact_shape(x: u128)
    ensures
        compact_bytes(x).len() >= 1,
        compact_bytes(x)[0] as int % 4 == compact_class(x),
        compact_class(x) == 0 ==> compact_bytes(x).len() == 1,
        compact_class(x) == 1 ==> compact_bytes(x).len() == 2,
        compact_class(x) == 2 ==> compact_bytes(x).len() == 4,
        compact_class(x) == 3 ==> {
            let n = byte_len(x as nat);
            &&& 4 <= n <= 16
            &&& compact_bytes(x)[0] as int == 4 * (n - 4) + 3
            &&& compact_bytes(x).len() == n + 1
            &&& compact_bytes(x).drop_first() == le_bytes(x as nat, n)
        },
{
    let v = x as nat;
    let c = compact_bytes(x);
    if v < 64 {
    } else if v < 16384 {
        lemma_le_bytes_len(4 * v + 1, 2);
        let w = 4 * v + 1;
        assert(c[0] == (w % 256) as u8);
        assert((w % 256) % 4 == 1) by (nonlinear_arith)
            requires w == 4 * v + 1;
    } else if v < 1073741824 {
        lemma_le_bytes_len(4 * v + 2, 4);
        let w = 4 * v + 2;
        assert(c[0] == (w % 256) as u8);
        assert((w % 256) % 4 == 2) by (nonlinear_arith)
            requires w == 4 * v + 2;
    } else {
        let n = byte_len(v);
        lemma_byte_len_bounds(v);
        lemma_le_bytes_len(v, n);
        assert(c.drop_first() =~= le_bytes(v, n));
    }
}

proof fn lemma_fits_small(v: nat, n: nat)
    requires
        (n == 2 && v < 65536) || (n == 4 && v < 0x1_0000_0000),
    ensures
        fits(v, n),
{
    reveal_with_fuel(fits, 5);
    assert(v / 256 / 256 / 256 / 256 == 0);
    assert(n == 2 ==> v / 256 / 256 == 0);
}

/// The compact encodings are prefix-free and one-to-one: if the encoding of
/// `x` starts the encoding of `y`, the two are the same value.
pub proof fn lemma_compact_prefix_unique(x: u128, y: u128)
    requires
        is_prefix(compact_bytes(x), compact_bytes(y)),
    ensures
        x == y,
{
    let cx = compact_bytes(x);
    let cy = compact_bytes(y);
    lemma_compact_shape(x);
    lemma_compact_shape(y);
    assert(cx[0] == cy.subrange(0, cx.len() as int)[0]);
    assert(cx[0] == cy[0]);
    assert(compact_class(x) == compact_class(y));
    assert(cx.len() == cy.len());
    assert(cy.subrange(0, cy.len() as int) =~= cy);
    assert(cx == cy);
    let v = x as nat;
    let w = y as nat;
    if compact_class(x) == 0 {
        assert(cx[0] == (4 * v) as u8);
        assert(cy[0] == (4 * w) as u8);
    } else if compact_class(x) == 1 {
        lemma_fits_small(4 * v + 1, 2);
        lemma_fits_small(4 * w + 1, 2);
        lemma_le_bytes_injective(4 * v + 1, 4 * w + 1, 2);
    } else if compact_class(x) == 2 {
        lemma_fits_small(4 * v + 2, 4);
        lemma_fits_small(4 * w + 2, 4);
        lemma_le_bytes_injective(4 * v + 2, 4 * w + 2, 4);
    } else {
        let n = byte_len(v);
        assert(byte_len(w) == n);
        lemma_byte_len_fits(v);
        lemma_byte_len_fits(w);
        lemma_le_bytes_injective(v, w, n);
    }
}

/// Decoding an encoded value gives it back: the encoding of `x` is the
/// whole input, and no other value's encoding starts it.
pub proof fn lemma_compact_round_trip(x: u128)
    ensures
        is_prefix(compact_bytes(x), compact_bytes(x)),
        forall|v: u128| #[trigger] is_prefix(compact_bytes(v), compact_bytes(x)) ==> v == x,
{
    let c = compact_bytes(x);
    assert(c.subrange(0, c.len() as int) =~= c);
    assert forall|v: u128| #[trigger] is_prefix(compact_bytes(v), compact_bytes(x)) implies v == x by {
        lemma_compact_prefix_unique(v, x);
    }
}

} // verus!
