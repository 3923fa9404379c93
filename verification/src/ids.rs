//! Keys: random UUIDs as 128-bit numbers, and their text.

use uuid::Uuid;
use vstd::prelude::*;

verus! {

/// Whether `id` has the version and variant bits of a random (version 4) UUID.
pub open spec fn is_random_uuid(id: u128) -> bool {
    id & 0x0000_0000_0000_F000_C000_0000_0000_0000 == 0x0000_0000_0000_4000_8000_0000_0000_0000
}

/// Draws a key with `Uuid::new_v4`, which fills a UUID with random bits and sets
/// its version to 4 and its variant to RFC 4122, and hands it out as a number
/// with `Uuid::as_u128`, most significant byte first. The contract claims the
/// version and variant bits and nothing of the others. The call panics where the
/// operating system gives no random bytes.
#[verifier::external_body]
pub(crate) fn fresh_id() -> (id: u128)
    ensures
        is_random_uuid(id),
{
    Uuid::new_v4().as_u128()
}

/// The number of characters of a UUID written with hyphens.
pub const UUID_TEXT_LEN: usize = 36;

/// The lower-case hexadecimal digit for `n`, for `n` below sixteen.
pub open spec fn hex_digit(n: u8) -> char
    recommends
        n < 16,
{
    if n < 10 {
        ((48 + n) as u8) as char
    } else {
        ((87 + n) as u8) as char
    }
}

/// Whether a hyphen stands at `position` of a UUID's text.
pub open spec fn is_hyphen_position(position: int) -> bool {
    position == 8 || position == 13 || position == 18 || position == 23
}

/// The number of bits that stand to the right of the hexadecimal digit written
/// at `position` of a UUID's text.
pub open spec fn digit_shift(position: int) -> int
    recommends
        0 <= position < UUID_TEXT_LEN,
        !is_hyphen_position(position),
{
    let hyphens_before: int = if position > 23 {
        4
    } else if position > 18 {
        3
    } else if position > 13 {
        2
    } else if position > 8 {
        1
    } else {
        0
    };
    4 * (31 - (position - hyphens_before))
}

/// The character at `position` of the text of the UUID `id`.
pub open spec fn uuid_char(id: u128, position: int) -> char
    recommends
        0 <= position < UUID_TEXT_LEN,
{
    if is_hyphen_position(position) {
        '-'
    } else {
        hex_digit(((id >> (digit_shift(position) as u128)) & 0xF) as u8)
    }
}

/// The UUID `id` as text: 32 lower-case hexadecimal digits, most significant
/// first, in groups of 8, 4, 4, 4 and 12 with hyphens between them.
pub open spec fn uuid_text(id: u128) -> Seq<char> {
    Seq::new(UUID_TEXT_LEN as nat, |position: int| uuid_char(id, position))
}

/// The UUID `id` written as text.
pub fn uuid_string(id: u128) -> (text: String)
    ensures
        text@ == uuid_text(id),
{
    let mut text = String::new();
    let mut position: usize = 0;
    while position < UUID_TEXT_LEN
        invariant
            position <= UUID_TEXT_LEN,
            text@ == Seq::new(position as nat, |p: int| uuid_char(id, p)),
        decreases UUID_TEXT_LEN - position,
    {
        let c: char = if position == 8 || position == 13 || position == 18 || position == 23 {
            '-'
        } else {
            let hyphens_before: usize = if position > 23 {
                4
            } else if position > 18 {
                3
            } else if position > 13 {
                2
            } else if position > 8 {
                1
            } else {
                0
            };
            let shift: u128 = (4 * (31 - (position - hyphens_before))) as u128;
            let masked: u128 = (id >> shift) & 0xF;
            assert(masked < 16) by (bit_vector)
                requires
                    masked == (id >> shift) & 0xF,
            ;
            let n: u8 = masked as u8;
            if n < 10 {
                (48 + n) as char
            } else {
                (87 + n) as char
            }
        };
        assert(c == uuid_char(id, position as int));
        text.push(c);
        position += 1;
        assert(text@ =~= Seq::new(position as nat, |p: int| uuid_char(id, p)));
    }
    text
}

/// The text of a UUID has 36 characters, each a hyphen or a lower-case
/// hexadecimal digit, so it holds no quotation mark.
pub proof fn uuid_text_is_plain(id: u128)
    ensures
        uuid_text(id).len() == UUID_TEXT_LEN,
        forall|i: int|
            0 <= i < UUID_TEXT_LEN ==> {
                let c = #[trigger] uuid_text(id)[i];
                c == '-' || ('0' <= c <= '9') || ('a' <= c <= 'f')
            },
{
    assert forall|i: int| 0 <= i < UUID_TEXT_LEN implies {
        let c = #[trigger] uuid_text(id)[i];
        c == '-' || ('0' <= c <= '9') || ('a' <= c <= 'f')
    } by {
        if !is_hyphen_position(i) {
            let shift = digit_shift(i) as u128;
            let masked = (id >> shift) & 0xF;
            assert(masked < 16) by (bit_vector)
                requires
                    masked == (id >> shift) & 0xF,
            ;
        }
    }
}

/// At each place of a digit, two UUIDs with the same text have the same four bits.
proof fn same_digit_at(a: u128, b: u128, position: int)
    requires
        uuid_text(a) == uuid_text(b),
        0 <= position < UUID_TEXT_LEN,
        !is_hyphen_position(position),
    ensures
        (a >> (digit_shift(position) as u128)) & 0xF == (b >> (digit_shift(position) as u128))
            & 0xF,
{
    let shift = digit_shift(position) as u128;
    let x = (a >> shift) & 0xF;
    let y = (b >> shift) & 0xF;
    assert(x < 16) by (bit_vector)
        requires
            x == (a >> shift) & 0xF,
    ;
    assert(y < 16) by (bit_vector)
        requires
            y == (b >> shift) & 0xF,
    ;
    assert(uuid_text(a)[position] == hex_digit(x as u8));
    assert(uuid_text(b)[position] == hex_digit(y as u8));
}

/// Different UUIDs have different texts.
pub proof fn distinct_ids_have_distinct_texts(a: u128, b: u128)
    requires
        a != b,
    ensures
        uuid_text(a) != uuid_text(b),
{
    if uuid_text(a) == uuid_text(b) {
        same_digit_at(a, b, 0);
        same_digit_at(a, b, 1);
        same_digit_at(a, b, 2);
        same_digit_at(a, b, 3);
        same_digit_at(a, b, 4);
        same_digit_at(a, b, 5);
        same_digit_at(a, b, 6);
        same_digit_at(a, b, 7);
        same_digit_at(a, b, 9);
        same_digit_at(a, b, 10);
        same_digit_at(a, b, 11);
        same_digit_at(a, b, 12);
        same_digit_at(a, b, 14);
        same_digit_at(a, b, 15);
        same_digit_at(a, b, 16);
        same_digit_at(a, b, 17);
        same_digit_at(a, b, 19);
        same_digit_at(a, b, 20);
        same_digit_at(a, b, 21);
        same_digit_at(a, b, 22);
        same_digit_at(a, b, 24);
        same_digit_at(a, b, 25);
        same_digit_at(a, b, 26);
        same_digit_at(a, b, 27);
        same_digit_at(a, b, 28);
        same_digit_at(a, b, 29);
        same_digit_at(a, b, 30);
        same_digit_at(a, b, 31);
        same_digit_at(a, b, 32);
        same_digit_at(a, b, 33);
        same_digit_at(a, b, 34);
        same_digit_at(a, b, 35);
        assert(a == b) by (bit_vector)
            requires
                (a >> 124u128) & 0xF == (b >> 124u128) & 0xF,
                (a >> 120u128) & 0xF == (b >> 120u128) & 0xF,
                (a >> 116u128) & 0xF == (b >> 116u128) & 0xF,
                (a >> 112u128) & 0xF == (b >> 112u128) & 0xF,
                (a >> 108u128) & 0xF == (b >> 108u128) & 0xF,
                (a >> 104u128) & 0xF == (b >> 104u128) & 0xF,
                (a >> 100u128) & 0xF == (b >> 100u128) & 0xF,
                (a >> 96u128) & 0xF == (b >> 96u128) & 0xF,
                (a >> 92u128) & 0xF == (b >> 92u128) & 0xF,
                (a >> 88u128) & 0xF == (b >> 88u128) & 0xF,
                (a >> 84u128) & 0xF == (b >> 84u128) & 0xF,
                (a >> 80u128) & 0xF == (b >> 80u128) & 0xF,
                (a >> 76u128) & 0xF == (b >> 76u128) & 0xF,
                (a >> 72u128) & 0xF == (b >> 72u128) & 0xF,
                (a >> 68u128) & 0xF == (b >> 68u128) & 0xF,
                (a >> 64u128) & 0xF == (b >> 64u128) & 0xF,
                (a >> 60u128) & 0xF == (b >> 60u128) & 0xF,
                (a >> 56u128) & 0xF == (b >> 56u128) & 0xF,
                (a >> 52u128) & 0xF == (b >> 52u128) & 0xF,
                (a >> 48u128) & 0xF == (b >> 48u128) & 0xF,
                (a >> 44u128) & 0xF == (b >> 44u128) & 0xF,
                (a >> 40u128) & 0xF == (b >> 40u128) & 0xF,
                (a >> 36u128) & 0xF == (b >> 36u128) & 0xF,
                (a >> 32u128) & 0xF == (b >> 32u128) & 0xF,
                (a >> 28u128) & 0xF == (b >> 28u128) & 0xF,
                (a >> 24u128) & 0xF == (b >> 24u128) & 0xF,
                (a >> 20u128) & 0xF == (b >> 20u128) & 0xF,
                (a >> 16u128) & 0xF == (b >> 16u128) & 0xF,
                (a >> 12u128) & 0xF == (b >> 12u128) & 0xF,
                (a >> 8u128) & 0xF == (b >> 8u128) & 0xF,
                (a >> 4u128) & 0xF == (b >> 4u128) & 0xF,
                (a >> 0u128) & 0xF == (b >> 0u128) & 0xF,
        ;
    }
}

} // verus!
