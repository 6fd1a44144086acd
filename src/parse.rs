//! Parsing of the command-line forms of addresses, block identifiers and
//! storage slots. Contracts speak of the input's UTF-8 bytes.
use vstd::prelude::*;
use vstd::string::StringSliceAdditionalSpecFns;
use crate::types::Addr;

verus! {

/// An account given by address, or a name left for the resolver.
#[derive(Clone, Debug)]
pub enum NameOrAddress {
    Name(String),
    Address(Addr),
}

/// A block number or tag.
#[derive(Clone, Copy, Debug, PartialEq, Eq, Structural)]
pub enum BlockNumber {
    Earliest,
    Latest,
    Pending,
    Number(u64),
}

/// A block, by hash (32 bytes) or by number or tag.
#[derive(Clone, Debug)]
pub enum BlockId {
    Hash(Vec<u8>),
    Number(BlockNumber),
}

/// Why an input could not be parsed.
#[derive(Clone, Copy, Debug, PartialEq, Eq, Structural)]
pub enum ParseError {
    /// Not the right number of hex digits, or a byte that is not one.
    InvalidHex,
    /// Not a decimal number that fits in 64 bits.
    InvalidNumber,
}

/// The bytes `0x`.
pub open spec fn hex_prefix() -> Seq<u8> {
    seq![48u8, 120u8]
}

pub open spec fn has_hex_prefix(b: Seq<u8>) -> bool {
    b.len() >= 2 && b[0] == 48u8 && b[1] == 120u8
}

/// `b` without a leading `0x`, if it has one.
pub open spec fn strip_hex_prefix(b: Seq<u8>) -> Seq<u8> {
    if has_hex_prefix(b) { b.subrange(2, b.len() as int) } else { b }
}

/// Space, tab, carriage return and line feed, which hex input may hold
/// anywhere.
pub open spec fn is_hex_space(c: u8) -> bool {
    c == 32u8 || c == 9u8 || c == 10u8 || c == 13u8
}

/// The value of a hex digit of either case.
pub open spec fn hex_value(c: u8) -> Option<nat> {
    if 48u8 <= c <= 57u8 {
        Some((c - 48u8) as nat)
    } else if 97u8 <= c <= 102u8 {
        Some((c - 87u8) as nat)
    } else if 65u8 <= c <= 70u8 {
        Some((c - 55u8) as nat)
    } else {
        None
    }
}

/// The hash of `n` bytes written in `b`: after an optional `0x` and with
/// spaces dropped, exactly `2 * n` hex digits, two per byte, most
/// significant first.
pub open spec fn fixed_hash(b: Seq<u8>, n: nat) -> Option<Seq<u8>> {
    let d = strip_hex_prefix(b).filter(|c: u8| !is_hex_space(c));
    if d.len() == 2 * n && forall|i: int| 0 <= i < d.len() ==> (#[trigger] hex_value(d[i])) is Some {
        Some(Seq::new(n, |i: int| (16 * hex_value(d[2 * i])->Some_0 + hex_value(d[2 * i + 1])->Some_0) as u8))
    } else {
        None
    }
}

/// The number that big-endian bytes `b` spell.
pub open spec fn be_value(b: Seq<u8>) -> nat
    decreases b.len(),
{
    if b.len() == 0 { 0 } else { (be_value(b.drop_last()) * 256 + b.last()) as nat }
}

/// The number that the decimal digits `b` spell.
pub open spec fn decimal_value(b: Seq<u8>) -> nat
    decreases b.len(),
{
    if b.len() == 0 { 0 } else { (decimal_value(b.drop_last()) * 10 + (b.last() - 48u8)) as nat }
}

pub open spec fn all_decimal(b: Seq<u8>) -> bool {
    forall|i: int| 0 <= i < b.len() ==> 48u8 <= #[trigger] b[i] <= 57u8
}

/// The `u64` that `b` writes in decimal, after an optional `+`, when it
/// fits.
pub open spec fn decimal_u64(b: Seq<u8>) -> Option<u64> {
    let d = if b.len() > 0 && b[0] == 43u8 { b.subrange(1, b.len() as int) } else { b };
    if d.len() > 0 && all_decimal(d) && decimal_value(d) <= u64::MAX {
        Some(decimal_value(d) as u64)
    } else {
        None
    }
}

/// Relies on `<H160 as FromStr>::from_str` (fixed-hash, through rustc-hex):
/// the address written in hex, and its bytes as the three fields of `Addr`.
#[verifier::external_body]
fn address_from_hex(s: &str) -> (r: Option<Addr>)
    ensures
        r is Some <==> fixed_hash(s.spec_bytes(), 20) is Some,
        r is Some ==> ({
            let h = fixed_hash(s.spec_bytes(), 20)->Some_0;
            &&& r->Some_0.hi == be_value(h.subrange(0, 8))
            &&& r->Some_0.mid == be_value(h.subrange(8, 16))
            &&& r->Some_0.lo == be_value(h.subrange(16, 20))
        }),
{
    let a = s.parse::<ethers::types::Address>().ok()?;
    let b = a.as_bytes();
    Some(Addr {
        hi: u64::from_be_bytes(b[0..8].try_into().unwrap()),
        mid: u64::from_be_bytes(b[8..16].try_into().unwrap()),
        lo: u32::from_be_bytes(b[16..20].try_into().unwrap()),
    })
}

/// Relies on `<H256 as FromStr>::from_str` (fixed-hash, through rustc-hex):
/// the 32-byte hash written in hex. Bytes that are not UTF-8 are no hex
/// digits and give `None` too.
#[verifier::external_body]
fn hash_from_hex(b: &[u8]) -> (r: Option<Vec<u8>>)
    ensures
        r is Some <==> fixed_hash(b@, 32) is Some,
        r is Some ==> r->Some_0@ == fixed_hash(b@, 32)->Some_0,
{
    let s = std::str::from_utf8(b).ok()?;
    s.parse::<ethers::types::H256>().ok().map(|h| h.as_bytes().to_vec())
}

proof fn lemma_next_byte(v: nat, p: nat)
    requires
        p > 0,
    ensures
        (v / (p * 256)) * 256 + (v / p) % 256 == v / p,
{
    vstd::arithmetic::div_mod::lemma_div_denominator(v as int, p as int, 256);
    vstd::arithmetic::div_mod::lemma_fundamental_div_mod((v / p) as int, 256);
}

/// Appends the byte of `v` at place value `p`, given that the bytes after
/// position 24 already spell `v / (256 * p)`.
fn push_byte(r: &mut Vec<u8>, v: u64, p: u64)
    requires
        p > 0,
        old(r)@.len() >= 24,
        be_value(old(r)@.subrange(24, old(r)@.len() as int)) == v as nat / (p as nat * 256),
    ensures
        final(r)@ == old(r)@.push(((v / p) % 256) as u8),
        be_value(final(r)@.subrange(24, final(r)@.len() as int)) == v as nat / p as nat,
{
    let ghost before = r@;
    r.push(((v / p) % 256) as u8);
    proof {
        let tail = r@.subrange(24, r@.len() as int);
        assert(tail.drop_last() =~= before.subrange(24, before.len() as int));
        lemma_next_byte(v as nat, p as nat);
    }
}

/// The 32-byte hash holding `v` in its last 8 bytes, most significant
/// first, after 24 zero bytes (as `H256::from_low_u64_be` lays it out).
fn hash_from_u64(v: u64) -> (r: Vec<u8>)
    ensures
        r@.len() == 32,
        forall|i: int| 0 <= i < 24 ==> r@[i] == 0,
        be_value(r@.subrange(24, 32)) == v,
{
    let mut r: Vec<u8> = Vec::new();
    let mut i: usize = 0;
    while i < 24
        invariant
            i <= 24,
            r@.len() == i,
            forall|k: int| 0 <= k < i ==> r@[k] == 0,
        decreases 24 - i,
    {
        r.push(0u8);
        i += 1;
    }
    proof {
        assert(r@.subrange(24, 24) =~= Seq::<u8>::empty());
        assert(v as nat / (0x100_0000_0000_0000nat * 256) == 0) by (nonlinear_arith)
            requires v < 0x1_0000_0000_0000_0000nat;
    }
    push_byte(&mut r, v, 0x100_0000_0000_0000u64);
    push_byte(&mut r, v, 0x1_0000_0000_0000u64);
    push_byte(&mut r, v, 0x100_0000_0000u64);
    push_byte(&mut r, v, 0x1_0000_0000u64);
    push_byte(&mut r, v, 0x100_0000u64);
    push_byte(&mut r, v, 0x1_0000u64);
    push_byte(&mut r, v, 0x100u64);
    push_byte(&mut r, v, 1u64);
    proof {
        assert forall|k: int| 0 <= k < 24 implies r@[k] == 0 by {}
        assert(v as nat / 1nat == v);
    }
    r
}

/// Relies on `<u64 as FromStr>::from_str` (std): an optional `+`, then one
/// or more decimal digits whose value fits in 64 bits.
#[verifier::external_body]
fn u64_from_decimal(s: &str) -> (r: Option<u64>)
    ensures
        r == decimal_u64(s.spec_bytes()),
{
    s.parse::<u64>().ok()
}

fn starts_with_hex_prefix(b: &[u8]) -> (r: bool)
    ensures
        r == has_hex_prefix(b@),
{
    b.len() >= 2 && b[0] == 48u8 && b[1] == 120u8
}

fn bytes_equal(a: &[u8], b: &[u8]) -> (r: bool)
    ensures
        r == (a@ == b@),
{
    if a.len() != b.len() {
        return false;
    }
    let mut i: usize = 0;
    while i < a.len()
        invariant
            a@.len() == b@.len(),
            i <= a@.len(),
            forall|k: int| 0 <= k < i ==> a@[k] == b@[k],
        decreases a@.len() - i,
    {
        if a[i] != b[i] {
            return false;
        }
        i += 1;
    }
    proof {
        assert(a@ =~= b@);
    }
    true
}

/// The tags of block numbers, as bytes.
pub open spec fn earliest_tag() -> Seq<u8> {
    seq![101u8, 97u8, 114u8, 108u8, 105u8, 101u8, 115u8, 116u8]
}

pub open spec fn latest_tag() -> Seq<u8> {
    seq![108u8, 97u8, 116u8, 101u8, 115u8, 116u8]
}

pub open spec fn pending_tag() -> Seq<u8> {
    seq![112u8, 101u8, 110u8, 100u8, 105u8, 110u8, 103u8]
}

/// The address whose 20 bytes are `h`.
pub open spec fn addr_of_bytes(h: Seq<u8>) -> Addr {
    Addr {
        hi: be_value(h.subrange(0, 8)) as u64,
        mid: be_value(h.subrange(8, 16)) as u64,
        lo: be_value(h.subrange(16, 20)) as u32,
    }
}

/// `b` padded on the left with the digit `0` to `n` bytes (unchanged when
/// it is that long already).
pub open spec fn zero_padded(b: Seq<u8>, n: nat) -> Seq<u8> {
    if b.len() >= n { b } else { Seq::new((n - b.len()) as nat, |i: int| 48u8) + b }
}

/// Reads an account: input starting with `0x` must be a hex address;
/// anything else is taken as a name.
pub fn parse_name_or_address(s: &str) -> (r: Result<NameOrAddress, ParseError>)
    ensures
        !has_hex_prefix(s.spec_bytes()) ==> r is Ok && r->Ok_0 is Name && r->Ok_0->Name_0@ == s@,
        has_hex_prefix(s.spec_bytes()) ==> match fixed_hash(s.spec_bytes(), 20) {
            Some(h) => r is Ok && r->Ok_0 is Address && r->Ok_0->Address_0 == addr_of_bytes(h),
            None => r == Err::<NameOrAddress, ParseError>(ParseError::InvalidHex),
        },
{
    if starts_with_hex_prefix(s.as_bytes()) {
        match address_from_hex(s) {
            Some(a) => Ok(NameOrAddress::Address(a)),
            None => Err(ParseError::InvalidHex),
        }
    } else {
        Ok(NameOrAddress::Name(s.to_owned()))
    }
}

/// Reads a block: a tag (`earliest`, `latest`, `pending`), a hash written
/// as `0x` and 64 hex digits, or a decimal block number.
pub fn parse_block_id(s: &str) -> (r: Result<BlockId, ParseError>)
    ensures
        s.spec_bytes() == earliest_tag() ==> r is Ok && r->Ok_0 == BlockId::Number(BlockNumber::Earliest),
        s.spec_bytes() == latest_tag() ==> r is Ok && r->Ok_0 == BlockId::Number(BlockNumber::Latest),
        s.spec_bytes() == pending_tag() ==> r is Ok && r->Ok_0 == BlockId::Number(BlockNumber::Pending),
        has_hex_prefix(s.spec_bytes()) ==> match fixed_hash(s.spec_bytes(), 32) {
            Some(h) => r is Ok && r->Ok_0 is Hash && r->Ok_0->Hash_0@ == h,
            None => r == Err::<BlockId, ParseError>(ParseError::InvalidHex),
        },
        s.spec_bytes() != earliest_tag() && s.spec_bytes() != latest_tag() && s.spec_bytes() != pending_tag()
            && !has_hex_prefix(s.spec_bytes()) ==> match decimal_u64(s.spec_bytes()) {
            Some(n) => r is Ok && r->Ok_0 == BlockId::Number(BlockNumber::Number(n)),
            None => r == Err::<BlockId, ParseError>(ParseError::InvalidNumber),
        },
{
    let b = s.as_bytes();
    let earliest: [u8; 8] = [101u8, 97u8, 114u8, 108u8, 105u8, 101u8, 115u8, 116u8];
    let latest: [u8; 6] = [108u8, 97u8, 116u8, 101u8, 115u8, 116u8];
    let pending: [u8; 7] = [112u8, 101u8, 110u8, 100u8, 105u8, 110u8, 103u8];
    proof {
        assert(earliest@ =~= earliest_tag());
        assert(latest@ =~= latest_tag());
        assert(pending@ =~= pending_tag());
    }
    if bytes_equal(b, earliest.as_slice()) {
        Ok(BlockId::Number(BlockNumber::Earliest))
    } else if bytes_equal(b, latest.as_slice()) {
        Ok(BlockId::Number(BlockNumber::Latest))
    } else if bytes_equal(b, pending.as_slice()) {
        Ok(BlockId::Number(BlockNumber::Pending))
    } else if starts_with_hex_prefix(b) {
        match hash_from_hex(b) {
            Some(h) => Ok(BlockId::Hash(h)),
            None => Err(ParseError::InvalidHex),
        }
    } else {
        match u64_from_decimal(s) {
            Some(n) => Ok(BlockId::Number(BlockNumber::Number(n))),
            None => Err(ParseError::InvalidNumber),
        }
    }
}

/// Reads a storage slot as 32 bytes: `0x` and up to 64 hex digits (padded
/// on the left with zeros), or a decimal number, stored big-endian in the
/// last 8 bytes.
pub fn parse_slot(s: &str) -> (r: Result<Vec<u8>, ParseError>)
    ensures
        has_hex_prefix(s.spec_bytes()) ==> match fixed_hash(
            zero_padded(s.spec_bytes().subrange(2, s.spec_bytes().len() as int), 64),
            32,
        ) {
            Some(h) => r is Ok && r->Ok_0@ == h,
            None => r == Err::<Vec<u8>, ParseError>(ParseError::InvalidHex),
        },
        !has_hex_prefix(s.spec_bytes()) ==> match decimal_u64(s.spec_bytes()) {
            Some(n) => r is Ok && r->Ok_0@.len() == 32
                && (forall|i: int| 0 <= i < 24 ==> r->Ok_0@[i] == 0)
                && be_value(r->Ok_0@.subrange(24, 32)) == n,
            None => r == Err::<Vec<u8>, ParseError>(ParseError::InvalidNumber),
        },
{
    let b = s.as_bytes();
    if starts_with_hex_prefix(b) {
        let rest_len = b.len() - 2;
        let mut padded: Vec<u8> = Vec::new();
        let mut k: usize = rest_len;
        while k < 64
            invariant
                rest_len <= k <= 64 || (rest_len >= 64 && k == rest_len),
                padded@ == Seq::new((k - rest_len) as nat, |i: int| 48u8),
            decreases 64 - k,
        {
            padded.push(48u8);
            k += 1;
            proof {
                assert(padded@ =~= Seq::new((k - rest_len) as nat, |i: int| 48u8));
            }
        }
        let ghost zeros = padded@;
        let mut i: usize = 2;
        while i < b.len()
            invariant
                2 <= i <= b@.len(),
                rest_len == b@.len() - 2,
                padded@ == zeros + b@.subrange(2, i as int),
            decreases b@.len() - i,
        {
            padded.push(b[i]);
            i += 1;
            proof {
                assert(padded@ =~= zeros + b@.subrange(2, i as int));
            }
        }
        proof {
            let rest = b@.subrange(2, b@.len() as int);
            if rest.len() >= 64 {
                assert(zeros =~= Seq::<u8>::empty());
                assert(padded@ =~= rest);
            } else {
                assert(zeros =~= Seq::new((64 - rest.len()) as nat, |j: int| 48u8));
                assert(padded@ =~= zero_padded(rest, 64));
            }
        }
        match hash_from_hex(padded.as_slice()) {
            Some(h) => Ok(h),
            None => Err(ParseError::InvalidHex),
        }
    } else {
        match u64_from_decimal(s) {
            Some(n) => Ok(hash_from_u64(n)),
            None => Err(ParseError::InvalidNumber),
        }
    }
}

} // verus!
