use vstd::prelude::*;

verus! {

pub open spec fn hex_digits() -> Seq<char> {
    seq!['0', '1', '2', '3', '4', '5', '6', '7', '8', '9', 'a', 'b', 'c', 'd', 'e', 'f']
}

/// The decimal digits of `n`, most significant first, without leading zeros.
pub open spec fn decimal(n: nat) -> Seq<char>
    decreases n,
{
    if n < 10 {
        seq![hex_digits()[n as int]]
    } else {
        decimal(n / 10).push(hex_digits()[(n % 10) as int])
    }
}

pub open spec fn pow16(e: nat) -> nat
    decreases e,
{
    if e == 0 {
        1
    } else {
        16 * pow16((e - 1) as nat)
    }
}

/// The hexadecimal digit of `v` at position `d`, counted from the most
/// significant of its 32 digits.
pub open spec fn nibble(v: u128, d: int) -> int {
    (v as int / pow16((31 - d) as nat) as int) % 16
}

/// Which of the 32 hexadecimal digits stands at position `k` of the
/// hyphenated form.
pub open spec fn digit_index(k: int) -> int {
    if k < 8 {
        k
    } else if k < 13 {
        k - 1
    } else if k < 18 {
        k - 2
    } else if k < 23 {
        k - 3
    } else {
        k - 4
    }
}

pub open spec fn is_hyphen_position(k: int) -> bool {
    k == 8 || k == 13 || k == 18 || k == 23
}

/// The hyphenated lower-case form of a UUID given as its 128-bit value:
/// 32 hexadecimal digits in groups of 8, 4, 4, 4 and 12.
pub open spec fn uuid_text(v: u128) -> Seq<char> {
    Seq::new(
        36,
        |k: int|
            if is_hyphen_position(k) {
                '-'
            } else {
                hex_digits()[nibble(v, digit_index(k))]
            },
    )
}

/// The form of a UUID holds only hexadecimal digits and hyphens, so no quote.
pub proof fn lemma_uuid_text_has_no_quote(v: u128)
    ensures
        uuid_text(v).len() == 36,
        forall|k: int| 0 <= k < 36 ==> #[trigger] uuid_text(v)[k] != '\'',
{
    assert forall|k: int| 0 <= k < 36 implies #[trigger] uuid_text(v)[k] != '\'' by {
        if !is_hyphen_position(k) {
            let d = nibble(v, digit_index(k));
            assert(0 <= d < 16);
        }
    }
}

/// Relies on uuid's `Uuid::from_u128` (the value's bytes, most significant
/// first) and its `Display`, which writes the hyphenated lower-case form.
#[verifier::external_body]
pub(crate) fn uuid_string(id: u128) -> (r: String)
    ensures
        r@ == uuid_text(id),
{
    uuid::Uuid::from_u128(id).to_string()
}

fn digit_str(d: u64) -> (r: &'static str)
    requires
        d < 10,
    ensures
        r@ == seq![hex_digits()[d as int]],
{
    proof {
        reveal_strlit("0");
        reveal_strlit("1");
        reveal_strlit("2");
        reveal_strlit("3");
        reveal_strlit("4");
        reveal_strlit("5");
        reveal_strlit("6");
        reveal_strlit("7");
        reveal_strlit("8");
        reveal_strlit("9");
    }
    let r = match d {
        0 => "0",
        1 => "1",
        2 => "2",
        3 => "3",
        4 => "4",
        5 => "5",
        6 => "6",
        7 => "7",
        8 => "8",
        _ => "9",
    };
    assert(r@ =~= seq![hex_digits()[d as int]]);
    r
}

/// Appends the decimal digits of `n`.
pub fn append_decimal(s: &mut String, n: u64)
    ensures
        final(s)@ == old(s)@ + decimal(n as nat),
    decreases n,
{
    if n >= 10 {
        append_decimal(s, n / 10);
    }
    s.append(digit_str(n % 10));
    proof {
        if n >= 10 {
            assert(decimal(n as nat) == decimal((n / 10) as nat).push(hex_digits()[(n % 10) as int]));
        }
    }
    assert(s@ =~= old(s)@ + decimal(n as nat));
}

pub open spec fn sign_bit() -> int {
    0x8000_0000_0000_0000
}

/// The IEEE-754 binary64 bit pattern `b` without its sign bit.
pub open spec fn magnitude(b: u64) -> int {
    if b >= sign_bit() {
        b - sign_bit()
    } else {
        b as int
    }
}

/// A NaN: all exponent bits set and a non-zero fraction.
pub open spec fn is_nan_bits(b: u64) -> bool {
    magnitude(b) > 0x7ff0_0000_0000_0000
}

/// An integer in the order of the value that `b` encodes; both zeros map to 0.
pub open spec fn order_key(b: u64) -> int {
    if b >= sign_bit() {
        -magnitude(b)
    } else {
        b as int
    }
}

/// The binary64 value encoded by `a` is less than the one encoded by `b`.
pub open spec fn float_lt(a: u64, b: u64) -> bool {
    !is_nan_bits(a) && !is_nan_bits(b) && order_key(a) < order_key(b)
}

/// Compares two binary64 values given by their bit patterns.
pub fn float_less(a: u64, b: u64) -> (r: bool)
    ensures
        r == float_lt(a, b),
{
    let sign: u64 = 0x8000_0000_0000_0000;
    let ma: u64 = if a >= sign { a - sign } else { a };
    let mb: u64 = if b >= sign { b - sign } else { b };
    if ma > 0x7ff0_0000_0000_0000 || mb > 0x7ff0_0000_0000_0000 {
        return false;
    }
    if a >= sign && b >= sign {
        mb < ma
    } else if a >= sign {
        ma > 0 || mb > 0
    } else if b >= sign {
        false
    } else {
        ma < mb
    }
}

} // verus!
