//! Version 4 UUIDs, as RFC 9562 (section 5.4) defines them.
use vstd::prelude::*;
use crate::text::{hex_byte, hex_bytes, hex_bytes_has_two_digits_per_byte, hex_digit_char, push_char};

verus! {

/// Fills 16 bytes from the operating system's random source
/// (`rand::rngs::OsRng`, with `TryRngCore::try_fill_bytes`), or gives `None`
/// when that source fails. Nothing is claimed of the bytes.
#[verifier::external_body]
fn random_bytes_16() -> (r: Option<[u8; 16]>) {
    let mut bytes = [0u8; 16];
    match rand::TryRngCore::try_fill_bytes(&mut rand::rngs::OsRng, &mut bytes) {
        Ok(()) => Some(bytes),
        Err(_) => None,
    }
}

/// A random UUID of version 4.
#[derive(Debug, Clone, PartialEq, Eq)]
pub struct UuidV4([u8; 16]);

/// The bytes of a version 4 UUID made from the random bytes `b`: byte 6
/// gets the version bits `0100`, byte 8 the variant bits `10`.
pub open spec fn spec_uuid_bytes(b: Seq<u8>) -> Seq<u8> {
    b.update(6, (b[6] & 0x0f) | 0x40).update(8, (b[8] & 0x3f) | 0x80)
}

/// The text of a UUID: its bytes in lowercase hexadecimal, in groups of 4,
/// 2, 2, 2 and 6 bytes joined by hyphens.
pub open spec fn spec_uuid_text(b: Seq<u8>) -> Seq<char> {
    hex_bytes(b.subrange(0, 4)) + seq!['-'] + hex_bytes(b.subrange(4, 6)) + seq!['-'] + hex_bytes(
        b.subrange(6, 8),
    ) + seq!['-'] + hex_bytes(b.subrange(8, 10)) + seq!['-'] + hex_bytes(b.subrange(10, 16))
}

impl UuidV4 {
    /// The UUID's bytes.
    pub closed spec fn spec_bytes(&self) -> Seq<u8> {
        self.0@
    }

    /// The version 4 UUID made from the random bytes `b`.
    pub fn from_random_bytes(b: [u8; 16]) -> (r: UuidV4)
        ensures
            r.spec_bytes() == spec_uuid_bytes(b@),
    {
        let bytes: [u8; 16] = [
            b[0],
            b[1],
            b[2],
            b[3],
            b[4],
            b[5],
            (b[6] & 0x0f) | 0x40,
            b[7],
            (b[8] & 0x3f) | 0x80,
            b[9],
            b[10],
            b[11],
            b[12],
            b[13],
            b[14],
            b[15],
        ];
        proof {
            assert(bytes@ =~= spec_uuid_bytes(b@));
        }
        UuidV4(bytes)
    }

    /// A version 4 UUID made from cryptographically random bytes, or `None`
    /// when the operating system's random source fails.
    pub fn random() -> (r: Option<UuidV4>)
        ensures
            r matches Some(u) ==> exists|b: Seq<u8>| b.len() == 16 && u.spec_bytes() == spec_uuid_bytes(b),
    {
        match random_bytes_16() {
            Some(b) => Some(UuidV4::from_random_bytes(b)),
            None => None,
        }
    }

    /// The UUID as lowercase hexadecimal in hyphenated groups:
    /// `xxxxxxxx-xxxx-xxxx-xxxx-xxxxxxxxxxxx`.
    pub fn to_string(&self) -> (r: String)
        ensures
            r@ == spec_uuid_text(self.spec_bytes()),
    {
        let ghost b = self.0@;
        let mut s = String::new();
        let mut i: usize = 0;
        let ghost mut done: Seq<char> = seq![];
        while i < 16
            invariant
                i <= 16,
                b == self.0@,
                b.len() == 16,
                s@ == done,
                done == (if i <= 4 {
                    hex_bytes(b.subrange(0, i as int))
                } else if i <= 6 {
                    hex_bytes(b.subrange(0, 4)) + seq!['-'] + hex_bytes(b.subrange(4, i as int))
                } else if i <= 8 {
                    hex_bytes(b.subrange(0, 4)) + seq!['-'] + hex_bytes(b.subrange(4, 6))
                        + seq!['-'] + hex_bytes(b.subrange(6, i as int))
                } else if i <= 10 {
                    hex_bytes(b.subrange(0, 4)) + seq!['-'] + hex_bytes(b.subrange(4, 6))
                        + seq!['-'] + hex_bytes(b.subrange(6, 8)) + seq!['-'] + hex_bytes(
                        b.subrange(8, i as int),
                    )
                } else {
                    hex_bytes(b.subrange(0, 4)) + seq!['-'] + hex_bytes(b.subrange(4, 6))
                        + seq!['-'] + hex_bytes(b.subrange(6, 8)) + seq!['-'] + hex_bytes(
                        b.subrange(8, 10),
                    ) + seq!['-'] + hex_bytes(b.subrange(10, i as int))
                }),
            decreases 16 - i,
        {
            if i == 4 || i == 6 || i == 8 || i == 10 {
                push_char(&mut s, '-');
                proof {
                    done = done.push('-');
                    assert(b.subrange(i as int, i as int) =~= seq![]);
                }
            }
            let byte = self.0[i];
            let hi = hex_digit_char(byte / 16);
            let lo = hex_digit_char(byte % 16);
            push_char(&mut s, hi);
            push_char(&mut s, lo);
            proof {
                let start: int = if i < 4 {
                    0
                } else if i < 6 {
                    4
                } else if i < 8 {
                    6
                } else if i < 10 {
                    8
                } else {
                    10
                };
                assert(b.subrange(start, i + 1).drop_last() =~= b.subrange(start, i as int));
                assert(b.subrange(start, i + 1).last() == byte);
                assert(hex_bytes(b.subrange(start, i + 1)) == hex_bytes(b.subrange(start, i as int))
                    + hex_byte(byte));
                done = done + hex_byte(byte);
                assert(s@ =~= done);
            }
            i = i + 1;
        }
        s
    }
}

/// A version 4 UUID carries the version number 4 in the high half of byte 6
/// and the variant bits `10` at the top of byte 8, whatever the random bytes
/// it was made from.
pub proof fn uuid_carries_version_and_variant(b: Seq<u8>)
    requires
        b.len() == 16,
    ensures
        spec_uuid_bytes(b)[6] >> 4 == 4,
        spec_uuid_bytes(b)[8] >> 6 == 2,
        forall|i: int| 0 <= i < 16 && i != 6 && i != 8 ==> spec_uuid_bytes(b)[i] == b[i],
{
    let x = b[6];
    let y = b[8];
    assert(((x & 0x0f) | 0x40) >> 4 == 4) by (bit_vector);
    assert(((y & 0x3f) | 0x80) >> 6 == 2) by (bit_vector);
}


/// The text of a UUID is 36 characters long, with hyphens at indices 8, 13,
/// 18 and 23.
pub proof fn uuid_text_layout(b: Seq<u8>)
    requires
        b.len() == 16,
    ensures
        spec_uuid_text(b).len() == 36,
        spec_uuid_text(b)[8] == '-',
        spec_uuid_text(b)[13] == '-',
        spec_uuid_text(b)[18] == '-',
        spec_uuid_text(b)[23] == '-',
{
    hex_bytes_has_two_digits_per_byte(b.subrange(0, 4));
    hex_bytes_has_two_digits_per_byte(b.subrange(4, 6));
    hex_bytes_has_two_digits_per_byte(b.subrange(6, 8));
    hex_bytes_has_two_digits_per_byte(b.subrange(8, 10));
    hex_bytes_has_two_digits_per_byte(b.subrange(10, 16));
}

} // verus!
