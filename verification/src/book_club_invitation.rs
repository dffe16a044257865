//! Invitations to book clubs.

use vstd::prelude::*;
use uuid::Uuid;

verus! {

/// The state of one field of a record about to be saved.
#[derive(Clone, Copy, Debug)]
pub enum ActiveValue<V> {
    /// A new value to store.
    Changed(V),
    /// The stored value, unchanged.
    Unchanged(V),
    /// No value given.
    NotSet,
}

/// The 128-bit value of an identifier, its sixteen bytes read big-endian
/// (what `Uuid::as_u128` returns).
pub uninterp spec fn uuid_value(u: Uuid) -> u128;

/// Sixteen bytes read as one big-endian 128-bit number.
pub open spec fn u128_from_be_bytes(b: Seq<u8>) -> u128 {
    ((b[0] as u128) << 120u128) | ((b[1] as u128) << 112u128) | ((b[2] as u128) << 104u128) | ((
    b[3] as u128) << 96u128) | ((b[4] as u128) << 88u128) | ((b[5] as u128) << 80u128) | ((
    b[6] as u128) << 72u128) | ((b[7] as u128) << 64u128) | ((b[8] as u128) << 56u128) | ((
    b[9] as u128) << 48u128) | ((b[10] as u128) << 40u128) | ((b[11] as u128) << 32u128) | ((
    b[12] as u128) << 24u128) | ((b[13] as u128) << 16u128) | ((b[14] as u128) << 8u128) | (
    b[15] as u128)
}

/// The version-4 identifier made of random bytes: the bytes as they are,
/// but for the version field (the high half of byte 6), set to 4, and the
/// variant field (the two high bits of byte 8), set to `10`.
pub open spec fn random_v4_value(bytes: Seq<u8>) -> u128 {
    (u128_from_be_bytes(bytes) & 0xFFFF_FFFF_FFFF_0FFF_3FFF_FFFF_FFFF_FFFFu128)
        | 0x0000_0000_0000_4000_8000_0000_0000_0000u128
}

/// `uuid::Builder::from_random_bytes(bytes).into_uuid()`: the identifier
/// whose bytes are `bytes` with the version set to 4 (byte 6 becomes
/// `(b & 0x0f) | 0x40`) and the variant set to RFC 4122 (byte 8 becomes
/// `(b & 0x3f) | 0x80`). The call takes no randomness of its own and
/// cannot fail.
#[verifier::external_body]
fn uuid_from_random_bytes(bytes: [u8; 16]) -> (r: Uuid)
    ensures
        uuid_value(r) == random_v4_value(bytes@),
{
    uuid::Builder::from_random_bytes(bytes).into_uuid()
}

/// The identifier an invitation is saved with. When it is inserted without
/// one, the version-4 identifier made of `random_bytes` is set (the caller
/// draws the bytes from a random source); otherwise it keeps what it has.
/// A version-4 identifier is never the nil identifier: its version field
/// is 4.
pub fn invitation_id_before_save(id: ActiveValue<Uuid>, insert: bool, random_bytes: [u8; 16]) -> (r:
    ActiveValue<Uuid>)
    ensures
        (insert && id is NotSet) ==> (r matches ActiveValue::Changed(u) && uuid_value(u)
            == random_v4_value(random_bytes@)),
        (insert && id is NotSet) ==> (r matches ActiveValue::Changed(u) && (uuid_value(u) >> 76u128)
            & 0xFu128 == 4 && (uuid_value(u) >> 62u128) & 0x3u128 == 2),
        !(insert && id is NotSet) ==> r == id,
{
    match id {
        ActiveValue::NotSet => {
            if insert {
                let u = uuid_from_random_bytes(random_bytes);
                let ghost v = uuid_value(u);
                let ghost b = u128_from_be_bytes(random_bytes@);
                assert(v == (b & 0xFFFF_FFFF_FFFF_0FFF_3FFF_FFFF_FFFF_FFFFu128)
                    | 0x0000_0000_0000_4000_8000_0000_0000_0000u128);
                assert((v >> 76u128) & 0xFu128 == 4 && (v >> 62u128) & 0x3u128 == 2) by (bit_vector)
                    requires
                        v == (b & 0xFFFF_FFFF_FFFF_0FFF_3FFF_FFFF_FFFF_FFFFu128)
                            | 0x0000_0000_0000_4000_8000_0000_0000_0000u128,
                ;
                ActiveValue::Changed(u)
            } else {
                ActiveValue::NotSet
            }
        },
        other => other,
    }
}

} // verus!
