//! Pipeline identifiers: 128-bit UUIDs, displayed in hyphenated form.

use vstd::prelude::*;

verus! {

/// The lower-case hexadecimal digit for `n`, where `0 <= n < 16`.
pub open spec fn hex_digit(n: int) -> char {
    if n < 10 {
        (('0' as int) + n) as char
    } else {
        (('a' as int) + n - 10) as char
    }
}

/// The `width` least significant hexadecimal digits of `v`, most significant first.
pub open spec fn hex_digits(v: nat, width: nat) -> Seq<char>
    decreases width,
{
    if width == 0 {
        Seq::empty()
    } else {
        hex_digits(v / 16, (width - 1) as nat).push(hex_digit((v % 16) as int))
    }
}

/// The hyphenated lower-case text of the UUID whose big-endian value is `v`:
/// its 32 hexadecimal digits, split into groups of 8, 4, 4, 4 and 12 digits
/// joined by `-`.
pub open spec fn uuid_text(v: u128) -> Seq<char> {
    let h = hex_digits(v as nat, 32);
    h.subrange(0, 8) + seq!['-'] + h.subrange(8, 12) + seq!['-'] + h.subrange(12, 16) + seq![
        '-',
    ] + h.subrange(16, 20) + seq!['-'] + h.subrange(20, 32)
}

/// Text of the UUID built by `uuid::Uuid::from_u128(value)`, as its `Display`
/// impl writes it. The contract claims that this is the hyphenated lower-case
/// form that the uuid crate documents and that `Hyphenated::encode_lower`
/// produces from the value's big-endian bytes.
#[verifier::external_body]
fn uuid_hyphenated(value: u128) -> (text: String)
    ensures
        text@ == uuid_text(value),
{
    uuid::Uuid::from_u128(value).to_string()
}

/// Identifier of a pipeline: a UUID, held as its 128-bit big-endian value.
#[derive(Clone, Copy, Debug, PartialEq, Eq, Structural, Hash)]
pub struct PipelineId(pub u128);

impl PipelineId {
    /// The text under which the pipeline is shown: its UUID, hyphenated.
    pub open spec fn text(self) -> Seq<char> {
        uuid_text(self.0)
    }

    /// The hyphenated lower-case UUID text of this identifier.
    pub fn to_string(&self) -> (text: String)
        ensures
            text@ == self.text(),
    {
        uuid_hyphenated(self.0)
    }
}

/// `c` is a lower-case hexadecimal digit.
pub open spec fn is_lower_hex_digit(c: char) -> bool {
    ('0' <= c <= '9') || ('a' <= c <= 'f')
}

/// The value of the lower-case hexadecimal digit `c`.
pub open spec fn hex_digit_value(c: char) -> int {
    if c <= '9' {
        c as int - '0' as int
    } else {
        c as int - 'a' as int + 10
    }
}

/// The number that the hexadecimal digits `s` stand for, most significant first.
pub open spec fn hex_value(s: Seq<char>) -> int
    decreases s.len(),
{
    if s.len() == 0 {
        0
    } else {
        hex_value(s.drop_last()) * 16 + hex_digit_value(s.last())
    }
}

/// Sixteen to the power `w`.
pub open spec fn pow16(w: nat) -> nat
    decreases w,
{
    if w == 0 {
        1
    } else {
        16 * pow16((w - 1) as nat)
    }
}

/// `hex_digits(v, w)` is `w` lower-case hexadecimal digits that stand for
/// `v` modulo `16^w`.
proof fn lemma_hex_digits(v: nat, w: nat)
    ensures
        hex_digits(v, w).len() == w,
        forall|i: int| 0 <= i < w ==> is_lower_hex_digit(#[trigger] hex_digits(v, w)[i]),
        hex_value(hex_digits(v, w)) == v % pow16(w),
    decreases w,
{
    let h = hex_digits(v, w);
    if w == 0 {
    } else {
        lemma_hex_digits(v / 16, (w - 1) as nat);
        let t = hex_digits(v / 16, (w - 1) as nat);
        let d = hex_digit((v % 16) as int);
        assert(is_lower_hex_digit(d) && hex_digit_value(d) == v % 16);
        assert(h =~= t.push(d));
        assert(h.drop_last() =~= t);
        assert forall|i: int| 0 <= i < w implies is_lower_hex_digit(#[trigger] h[i]) by {
            if i < w - 1 {
                assert(h[i] == t[i]);
            }
        }
        assert(pow16(w) == 16 * pow16((w - 1) as nat));
        assert(pow16((w - 1) as nat) > 0) by {
            lemma_pow16_positive((w - 1) as nat);
        }
        vstd::arithmetic::div_mod::lemma_mod_breakdown(v as int, 16, pow16((w - 1) as nat) as int);
        assert(hex_value(h) == hex_value(t) * 16 + v % 16);
    }
}

/// Powers of sixteen are positive.
proof fn lemma_pow16_positive(w: nat)
    ensures
        pow16(w) > 0,
    decreases w,
{
    if w > 0 {
        lemma_pow16_positive((w - 1) as nat);
    }
}

/// The text of a UUID has 36 characters: `-` at positions 8, 13, 18 and 23,
/// lower-case hexadecimal digits everywhere else, and those 32 digits read
/// in base sixteen give the UUID's value.
pub proof fn lemma_uuid_text_layout(v: u128)
    ensures
        uuid_text(v).len() == 36,
        uuid_text(v)[8] == '-',
        uuid_text(v)[13] == '-',
        uuid_text(v)[18] == '-',
        uuid_text(v)[23] == '-',
        forall|i: int|
            0 <= i < 36 && i != 8 && i != 13 && i != 18 && i != 23 ==> is_lower_hex_digit(
                #[trigger] uuid_text(v)[i],
            ),
        hex_value(
            uuid_text(v).subrange(0, 8) + uuid_text(v).subrange(9, 13) + uuid_text(v).subrange(
                14,
                18,
            ) + uuid_text(v).subrange(19, 23) + uuid_text(v).subrange(24, 36),
        ) == v,
{
    let t = uuid_text(v);
    let h = hex_digits(v as nat, 32);
    lemma_hex_digits(v as nat, 32);
    assert(t.subrange(0, 8) + t.subrange(9, 13) + t.subrange(14, 18) + t.subrange(19, 23)
        + t.subrange(24, 36) =~= h);
    assert forall|i: int|
        0 <= i < 36 && i != 8 && i != 13 && i != 18 && i != 23 implies is_lower_hex_digit(
            #[trigger] t[i],
        ) by {
        if i < 8 {
            assert(t[i] == h[i]);
        } else if i < 13 {
            assert(t[i] == h[i - 1]);
        } else if i < 18 {
            assert(t[i] == h[i - 2]);
        } else if i < 23 {
            assert(t[i] == h[i - 3]);
        } else {
            assert(t[i] == h[i - 4]);
        }
    }
    reveal_with_fuel(pow16, 33);
    assert(pow16(32) == 0x1_0000_0000_0000_0000_0000_0000_0000_0000);
    assert(v < pow16(32));
}

} // verus!
