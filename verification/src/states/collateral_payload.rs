use crate::common::constant::MAX_DECIMALS;
use crate::common::error::ParseVaaError;
use vstd::prelude::*;

verus! {

/// Length of a collateral payload: two bytes of target chain, eight of
/// collateral amount, one of decimals, eight of remaining collateral.
pub const COLLATERAL_PAYLOAD_BYTES: usize = 19;

/// What a foreign chain attests of a collateral deposit.
#[derive(Clone, Copy, Debug, PartialEq, Eq, Structural)]
pub struct ParsedCollateralPayload {
    /// The chain that the message is meant for.
    pub target_chain_id: u16,
    /// The collateral deposited, in the collateral asset's smallest units.
    pub collateral_amount: u64,
    /// The collateral asset's decimals.
    pub collateral_decimals: u8,
    /// The collateral that remains on the foreign chain.
    pub remaining_collateral_amount: u64,
}

/// The number that the first two bytes of `s` spell, most significant first.
pub open spec fn be_u16(s: Seq<u8>) -> int {
    s[0] as int * 0x100 + s[1] as int
}

/// The number that the first eight bytes of `s` spell, most significant first.
pub open spec fn be_u64(s: Seq<u8>) -> int {
    s[0] as int * 0x100_0000_0000_0000 + s[1] as int * 0x1_0000_0000_0000 + s[2] as int
        * 0x100_0000_0000 + s[3] as int * 0x1_0000_0000 + s[4] as int * 0x100_0000 + s[5] as int
        * 0x1_0000 + s[6] as int * 0x100 + s[7] as int
}

/// The two bytes that spell `v`, most significant first.
pub open spec fn be_u16_bytes(v: u16) -> Seq<u8> {
    seq![(v / 0x100) as u8, (v % 0x100) as u8]
}

/// The eight bytes that spell `v`, most significant first.
pub open spec fn be_u64_bytes(v: u64) -> Seq<u8> {
    seq![
        (v / 0x100_0000_0000_0000) as u8,
        (v / 0x1_0000_0000_0000 % 0x100) as u8,
        (v / 0x100_0000_0000 % 0x100) as u8,
        (v / 0x1_0000_0000 % 0x100) as u8,
        (v / 0x100_0000 % 0x100) as u8,
        (v / 0x1_0000 % 0x100) as u8,
        (v / 0x100 % 0x100) as u8,
        (v % 0x100) as u8,
    ]
}

/// The payload that carries `p`.
pub open spec fn payload_bytes(p: ParsedCollateralPayload) -> Seq<u8> {
    be_u16_bytes(p.target_chain_id) + be_u64_bytes(p.collateral_amount) + seq![
        p.collateral_decimals,
    ] + be_u64_bytes(p.remaining_collateral_amount)
}

/// What parsing a payload gives: its four fields, or the error of the first
/// field, in the order of the layout, that breaks the schema. A field breaks
/// it when the payload ends before the field does; the collateral amount also
/// when it is zero; the decimals also when they pass [`MAX_DECIMALS`]; the
/// remaining collateral also when bytes follow it.
pub open spec fn parse_spec(payload: Seq<u8>) -> Result<ParsedCollateralPayload, ParseVaaError> {
    if payload.len() < 2 {
        Err(ParseVaaError::InvalidTargetChain)
    } else if payload.len() < 10 || be_u64(payload.subrange(2, 10)) == 0 {
        Err(ParseVaaError::InvalidCollateralAmount)
    } else if payload.len() < 11 || payload[10] > MAX_DECIMALS {
        Err(ParseVaaError::InvalidCollateralDecimal)
    } else if payload.len() != COLLATERAL_PAYLOAD_BYTES {
        Err(ParseVaaError::InvalidRemainingCollateralAmount)
    } else {
        Ok(
            ParsedCollateralPayload {
                target_chain_id: be_u16(payload.subrange(0, 2)) as u16,
                collateral_amount: be_u64(payload.subrange(2, 10)) as u64,
                collateral_decimals: payload[10],
                remaining_collateral_amount: be_u64(payload.subrange(11, 19)) as u64,
            },
        )
    }
}

/// Reads the eight bytes from `at` on as one big-endian number.
fn read_be_u64(bytes: &[u8], at: usize) -> (value: u64)
    requires
        at + 8 <= bytes@.len(),
    ensures
        value == be_u64(bytes@.subrange(at as int, at + 8)),
{
    let b0: u64 = bytes[at] as u64;
    let b1: u64 = bytes[at + 1] as u64;
    let b2: u64 = bytes[at + 2] as u64;
    let b3: u64 = bytes[at + 3] as u64;
    let b4: u64 = bytes[at + 4] as u64;
    let b5: u64 = bytes[at + 5] as u64;
    let b6: u64 = bytes[at + 6] as u64;
    let b7: u64 = bytes[at + 7] as u64;
    b0 * 0x100_0000_0000_0000 + b1 * 0x1_0000_0000_0000 + b2 * 0x100_0000_0000 + b3
        * 0x1_0000_0000 + b4 * 0x100_0000 + b5 * 0x1_0000 + b6 * 0x100 + b7
}

/// Appends the eight bytes that spell `v`, most significant first.
fn write_be_u64(out: &mut Vec<u8>, v: u64)
    ensures
        final(out)@ == old(out)@ + be_u64_bytes(v),
{
    out.push((v / 0x100_0000_0000_0000) as u8);
    out.push((v / 0x1_0000_0000_0000 % 0x100) as u8);
    out.push((v / 0x100_0000_0000 % 0x100) as u8);
    out.push((v / 0x1_0000_0000 % 0x100) as u8);
    out.push((v / 0x100_0000 % 0x100) as u8);
    out.push((v / 0x1_0000 % 0x100) as u8);
    out.push((v / 0x100 % 0x100) as u8);
    out.push((v % 0x100) as u8);
}

impl ParsedCollateralPayload {
    /// Whether the fields are ones that a payload may carry: a collateral
    /// amount above zero and supported decimals.
    pub open spec fn is_valid(&self) -> bool {
        self.collateral_amount > 0 && self.collateral_decimals <= MAX_DECIMALS
    }

    /// Reads the fields of a payload; see [`parse_spec`].
    pub fn parse(payload: &[u8]) -> (result: Result<ParsedCollateralPayload, ParseVaaError>)
        ensures
            result == parse_spec(payload@),
    {
        let len: usize = payload.len();
        if len < 2 {
            return Err(ParseVaaError::InvalidTargetChain);
        }
        let target_chain_id: u16 = (payload[0] as u16) * 0x100 + (payload[1] as u16);
        if len < 10 {
            return Err(ParseVaaError::InvalidCollateralAmount);
        }
        let collateral_amount: u64 = read_be_u64(payload, 2);
        if collateral_amount == 0 {
            return Err(ParseVaaError::InvalidCollateralAmount);
        }
        if len < 11 {
            return Err(ParseVaaError::InvalidCollateralDecimal);
        }
        let collateral_decimals: u8 = payload[10];
        if collateral_decimals > MAX_DECIMALS {
            return Err(ParseVaaError::InvalidCollateralDecimal);
        }
        if len != COLLATERAL_PAYLOAD_BYTES {
            return Err(ParseVaaError::InvalidRemainingCollateralAmount);
        }
        let remaining_collateral_amount: u64 = read_be_u64(payload, 11);
        Ok(
            ParsedCollateralPayload {
                target_chain_id,
                collateral_amount,
                collateral_decimals,
                remaining_collateral_amount,
            },
        )
    }

    /// The payload that carries these fields.
    pub fn to_bytes(&self) -> (bytes: Vec<u8>)
        ensures
            bytes@ == payload_bytes(*self),
            bytes@.len() == COLLATERAL_PAYLOAD_BYTES,
    {
        let mut bytes: Vec<u8> = Vec::with_capacity(COLLATERAL_PAYLOAD_BYTES);
        bytes.push((self.target_chain_id / 0x100) as u8);
        bytes.push((self.target_chain_id % 0x100) as u8);
        assert(bytes@ =~= be_u16_bytes(self.target_chain_id));
        write_be_u64(&mut bytes, self.collateral_amount);
        bytes.push(self.collateral_decimals);
        write_be_u64(&mut bytes, self.remaining_collateral_amount);
        bytes
    }
}

/// Eight bytes spell the number that they were written for.
pub proof fn lemma_be_u64_round_trip(v: u64)
    ensures
        be_u64_bytes(v).len() == 8,
        be_u64(be_u64_bytes(v)) == v,
{
    let s = be_u64_bytes(v);
    let v1 = v as int / 0x100;
    let v2 = v1 / 0x100;
    let v3 = v2 / 0x100;
    let v4 = v3 / 0x100;
    let v5 = v4 / 0x100;
    let v6 = v5 / 0x100;
    let v7 = v6 / 0x100;
    assert(v1 == v as int / 0x100);
    assert(v2 == v as int / 0x1_0000);
    assert(v3 == v as int / 0x100_0000);
    assert(v4 == v as int / 0x1_0000_0000);
    assert(v5 == v as int / 0x100_0000_0000);
    assert(v6 == v as int / 0x1_0000_0000_0000);
    assert(v7 == v as int / 0x100_0000_0000_0000);
    assert(v7 < 0x100);
    assert(s[0] == v7);
    assert(s[1] == v6 % 0x100);
    assert(s[2] == v5 % 0x100);
    assert(s[3] == v4 % 0x100);
    assert(s[4] == v3 % 0x100);
    assert(s[5] == v2 % 0x100);
    assert(s[6] == v1 % 0x100);
    assert(s[7] == v as int % 0x100);
}

/// The schema is symmetric: fields that a payload may carry are read back
/// from the payload that carries them.
pub proof fn lemma_parse_payload_bytes(p: ParsedCollateralPayload)
    requires
        p.is_valid(),
    ensures
        payload_bytes(p).len() == COLLATERAL_PAYLOAD_BYTES,
        parse_spec(payload_bytes(p)) == Ok::<ParsedCollateralPayload, ParseVaaError>(p),
{
    let bytes = payload_bytes(p);
    lemma_be_u64_round_trip(p.collateral_amount);
    lemma_be_u64_round_trip(p.remaining_collateral_amount);
    assert(bytes.len() == 19);
    assert(bytes.subrange(0, 2) =~= be_u16_bytes(p.target_chain_id));
    assert(bytes.subrange(2, 10) =~= be_u64_bytes(p.collateral_amount));
    assert(bytes.subrange(11, 19) =~= be_u64_bytes(p.remaining_collateral_amount));
    assert(bytes[10] == p.collateral_decimals);
    assert(be_u16(be_u16_bytes(p.target_chain_id)) == p.target_chain_id);
}

} // verus!
