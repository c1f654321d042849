use vstd::prelude::*;

verus! {

/// Decimal digits of `n` in ASCII, most significant first.
pub open spec fn spec_decimal(n: nat) -> Seq<u8>
    decreases n,
{
    if n < 10 {
        seq![(48 + n) as u8]
    } else {
        spec_decimal(n / 10).push((48 + n % 10) as u8)
    }
}

/// Byte offset of the balance field in the host token program's account
/// layout: mint (32 bytes), then owner (32 bytes), then the balance.
pub const BALANCE_FIELD_OFFSET: usize = 64;

/// Read the balance field of a raw token-account image at its fixed
/// offset, without decoding the rest of the structure.  Returns nothing
/// when the image is too short to hold the field.
pub fn read_balance_field(data: &[u8]) -> (r: Option<u64>)
    ensures
        r == (if data@.len() >= BALANCE_FIELD_OFFSET + 8 {
            Some(
                vstd::bytes::spec_u64_from_le_bytes(
                    data@.subrange(
                        BALANCE_FIELD_OFFSET as int,
                        BALANCE_FIELD_OFFSET + 8,
                    ),
                ),
            )
        } else {
            None::<u64>
        }),
{
    if data.len() < BALANCE_FIELD_OFFSET + 8 {
        return None;
    }
    let field = vstd::slice::slice_subrange(data, BALANCE_FIELD_OFFSET, BALANCE_FIELD_OFFSET + 8);
    Some(vstd::bytes::u64_from_le_bytes(field))
}

/// Render `n` as decimal digit bytes, most significant first.
pub fn decimal_bytes(n: u64) -> (r: Vec<u8>)
    ensures
        r@ == spec_decimal(n as nat),
    decreases n,
{
    if n < 10 {
        let mut v: Vec<u8> = Vec::new();
        v.push(48 + (n as u8));
        v
    } else {
        let mut v = decimal_bytes(n / 10);
        v.push(48 + ((n % 10) as u8));
        v
    }
}

} // verus!
