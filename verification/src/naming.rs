//! Synthesis of the on-ledger metadata name and the off-chain URI.
//!
//! The visible name embeds the loot id, the rendered coordinates and the
//! location hint; the URI is a fixed base path followed by the loot id and
//! a `.json` suffix. Both are built as ASCII byte strings; the coordinate
//! text is rendered by the caller, since it comes from floating-point
//! values the library does not hold.

use vstd::prelude::*;

verus! {

/// The decimal digits of `n`, most significant first.
pub open spec fn dec_spec(n: u64) -> Seq<u8>
    decreases n,
{
    if n < 10 {
        seq![(48 + n) as u8]
    } else {
        dec_spec((n / 10) as u64) + seq![(48 + n % 10) as u8]
    }
}

/// The fixed name prefix, `Fizz Cache #`.
pub open spec fn name_prefix() -> Seq<u8> {
    seq![70u8, 105u8, 122u8, 122u8, 32u8, 67u8, 97u8, 99u8, 104u8, 101u8, 32u8, 35u8]
}

/// The fixed token symbol, `FIZZLOOT`.
pub open spec fn symbol_spec() -> Seq<u8> {
    seq![70u8, 73u8, 90u8, 90u8, 76u8, 79u8, 79u8, 84u8]
}

/// The fixed URI base, `https://atomicfizzcaps.xyz/loot/`.
pub open spec fn uri_prefix() -> Seq<u8> {
    seq![
        104u8, 116u8, 116u8, 112u8, 115u8, 58u8, 47u8, 47u8,
        97u8, 116u8, 111u8, 109u8, 105u8, 99u8, 102u8, 105u8, 122u8, 122u8,
        99u8, 97u8, 112u8, 115u8, 46u8, 120u8, 121u8, 122u8, 47u8,
        108u8, 111u8, 111u8, 116u8, 47u8,
    ]
}

/// The fixed URI suffix, `.json`.
pub open spec fn uri_suffix() -> Seq<u8> {
    seq![46u8, 106u8, 115u8, 111u8, 110u8]
}

/// The metadata name: the prefix, the loot id in decimal, the rendered
/// coordinates in parentheses, and the location hint.
pub open spec fn loot_name_spec(
    loot_id: u64,
    lat_text: Seq<u8>,
    lon_text: Seq<u8>,
    hint: Seq<u8>,
) -> Seq<u8> {
    name_prefix() + dec_spec(loot_id) + seq![32u8, 64u8, 32u8, 40u8] + lat_text + seq![44u8]
        + lon_text + seq![41u8, 32u8] + hint
}

/// The off-chain URI: the fixed base, the loot id in decimal, and `.json`.
pub open spec fn loot_uri_spec(loot_id: u64) -> Seq<u8> {
    uri_prefix() + dec_spec(loot_id) + uri_suffix()
}

/// Appends every byte of `s` to `out`.
pub fn push_all(out: &mut Vec<u8>, s: &[u8])
    ensures
        final(out)@ == old(out)@ + s@,
{
    let n = s.len();
    let mut k: usize = 0;
    while k < n
        invariant
            n == s@.len(),
            k <= n,
            out@ == old(out)@ + s@.subrange(0, k as int),
        decreases n - k,
    {
        out.push(s[k]);
        assert(out@ =~= old(out)@ + s@.subrange(0, k + 1));
        k += 1;
    }
    assert(out@ =~= old(out)@ + s@);
}

/// Renders `n` in decimal, most significant digit first.
pub fn u64_to_dec(n: u64) -> (r: Vec<u8>)
    ensures
        r@ == dec_spec(n),
    decreases n,
{
    if n < 10 {
        let mut v: Vec<u8> = Vec::new();
        v.push((48 + n) as u8);
        assert(v@ =~= dec_spec(n));
        v
    } else {
        let mut v = u64_to_dec(n / 10);
        v.push((48 + n % 10) as u8);
        assert(v@ =~= dec_spec(n));
        v
    }
}

/// The token symbol as executable bytes.
pub fn symbol_bytes() -> (r: Vec<u8>)
    ensures
        r@ == symbol_spec(),
{
    let mut v: Vec<u8> = Vec::new();
    v.push(70u8);
    v.push(73u8);
    v.push(90u8);
    v.push(90u8);
    v.push(76u8);
    v.push(79u8);
    v.push(79u8);
    v.push(84u8);
    assert(v@ =~= symbol_spec());
    v
}

/// Builds the metadata name for a loot reward from the loot id, the rendered
/// coordinate texts and the location hint.
pub fn loot_name(loot_id: u64, lat_text: &[u8], lon_text: &[u8], hint: &[u8]) -> (r: Vec<u8>)
    ensures
        r@ == loot_name_spec(loot_id, lat_text@, lon_text@, hint@),
{
    let mut out: Vec<u8> = Vec::new();
    out.push(70u8);
    out.push(105u8);
    out.push(122u8);
    out.push(122u8);
    out.push(32u8);
    out.push(67u8);
    out.push(97u8);
    out.push(99u8);
    out.push(104u8);
    out.push(101u8);
    out.push(32u8);
    out.push(35u8);
    assert(out@ =~= name_prefix());
    let mut digits = u64_to_dec(loot_id);
    out.append(&mut digits);
    out.push(32u8);
    out.push(64u8);
    out.push(32u8);
    out.push(40u8);
    push_all(&mut out, lat_text);
    out.push(44u8);
    push_all(&mut out, lon_text);
    out.push(41u8);
    out.push(32u8);
    push_all(&mut out, hint);
    assert(out@ =~= loot_name_spec(loot_id, lat_text@, lon_text@, hint@));
    out
}

/// Builds the off-chain URI for a loot reward.
pub fn loot_uri(loot_id: u64) -> (r: Vec<u8>)
    ensures
        r@ == loot_uri_spec(loot_id),
{
    let mut out: Vec<u8> = Vec::new();
    out.push(104u8);
    out.push(116u8);
    out.push(116u8);
    out.push(112u8);
    out.push(115u8);
    out.push(58u8);
    out.push(47u8);
    out.push(47u8);
    out.push(97u8);
    out.push(116u8);
    out.push(111u8);
    out.push(109u8);
    out.push(105u8);
    out.push(99u8);
    out.push(102u8);
    out.push(105u8);
    out.push(122u8);
    out.push(122u8);
    out.push(99u8);
    out.push(97u8);
    out.push(112u8);
    out.push(115u8);
    out.push(46u8);
    out.push(120u8);
    out.push(121u8);
    out.push(122u8);
    out.push(47u8);
    out.push(108u8);
    out.push(111u8);
    out.push(111u8);
    out.push(116u8);
    out.push(47u8);
    assert(out@ =~= uri_prefix());
    let mut digits = u64_to_dec(loot_id);
    out.append(&mut digits);
    out.push(46u8);
    out.push(106u8);
    out.push(115u8);
    out.push(111u8);
    out.push(110u8);
    assert(out@ =~= loot_uri_spec(loot_id));
    out
}

} // verus!
