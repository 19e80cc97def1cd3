use vstd::prelude::*;
use vstd::utf8::*;

verus! {

/// Two byte strings that are the UTF-8 encodings of texts are equal exactly when the texts are.
pub proof fn lemma_encoding_is_injective(a: Seq<char>, b: Seq<char>)
    ensures
        (encode_utf8(a) == encode_utf8(b)) <==> (a == b),
{
    encode_utf8_decode_utf8(a);
    encode_utf8_decode_utf8(b);
}

/// Whether two byte slices hold the same bytes.
pub fn same_bytes(a: &[u8], b: &[u8]) -> (same: bool)
    ensures
        same == (a@ == b@),
{
    if a.len() != b.len() {
        return false;
    }
    let mut i: usize = 0;
    while i < a.len()
        invariant
            a@.len() == b@.len(),
            i <= a@.len(),
            a@.subrange(0, i as int) == b@.subrange(0, i as int),
        decreases a@.len() - i,
    {
        if a[i] != b[i] {
            return false;
        }
        assert(a@.subrange(0, i + 1) == a@.subrange(0, i as int).push(a@[i as int]));
        assert(b@.subrange(0, i + 1) == b@.subrange(0, i as int).push(b@[i as int]));
        i += 1;
    }
    assert(a@ == a@.subrange(0, i as int));
    assert(b@ == b@.subrange(0, i as int));
    true
}

/// Whether two strings hold the same text.
pub fn same_text(a: &str, b: &str) -> (same: bool)
    ensures
        same == (a@ == b@),
{
    proof {
        lemma_encoding_is_injective(a@, b@);
    }
    same_bytes(a.as_bytes(), b.as_bytes())
}

/// The sixteen lower-case hexadecimal digits, in order.
pub open spec fn hex_digits() -> Seq<char> {
    "0123456789abcdef"@
}

/// A byte string in lower-case hexadecimal: two digits for each byte, the
/// high half first.
pub open spec fn hex(bytes: Seq<u8>) -> Seq<char>
    decreases bytes.len(),
{
    if bytes.len() == 0 {
        Seq::empty()
    } else {
        hex(bytes.drop_last()).push(hex_digits()[bytes.last() as int / 16]).push(
            hex_digits()[bytes.last() as int % 16],
        )
    }
}

/// The hexadecimal form of a byte string has two characters for each byte.
pub proof fn lemma_hex_len(bytes: Seq<u8>)
    ensures
        hex(bytes).len() == 2 * bytes.len(),
    decreases bytes.len(),
{
    if bytes.len() > 0 {
        lemma_hex_len(bytes.drop_last());
    }
}

/// The sixteen hexadecimal digits differ from one another.
pub proof fn lemma_hex_digits_differ(x: int, y: int)
    requires
        0 <= x < 16,
        0 <= y < 16,
        hex_digits()[x] == hex_digits()[y],
    ensures
        x == y,
{
    reveal_strlit("0123456789abcdef");
    assert(hex_digits()[0] == '0');
    assert(hex_digits()[1] == '1');
    assert(hex_digits()[2] == '2');
    assert(hex_digits()[3] == '3');
    assert(hex_digits()[4] == '4');
    assert(hex_digits()[5] == '5');
    assert(hex_digits()[6] == '6');
    assert(hex_digits()[7] == '7');
    assert(hex_digits()[8] == '8');
    assert(hex_digits()[9] == '9');
    assert(hex_digits()[10] == 'a');
    assert(hex_digits()[11] == 'b');
    assert(hex_digits()[12] == 'c');
    assert(hex_digits()[13] == 'd');
    assert(hex_digits()[14] == 'e');
    assert(hex_digits()[15] == 'f');
}

/// Byte strings with the same hexadecimal form are the same.
pub proof fn lemma_hex_is_injective(a: Seq<u8>, b: Seq<u8>)
    requires
        hex(a) == hex(b),
    ensures
        a == b,
    decreases a.len(),
{
    lemma_hex_len(a);
    lemma_hex_len(b);
    if a.len() == 0 {
        assert(a =~= b);
    } else {
        let ha = hex(a.drop_last());
        let hb = hex(b.drop_last());
        let whole_a = ha.push(hex_digits()[a.last() as int / 16]).push(
            hex_digits()[a.last() as int % 16],
        );
        let whole_b = hb.push(hex_digits()[b.last() as int / 16]).push(
            hex_digits()[b.last() as int % 16],
        );
        assert(hex(a) == whole_a);
        assert(hex(b) == whole_b);
        lemma_hex_len(a.drop_last());
        lemma_hex_len(b.drop_last());
        assert(whole_a[whole_a.len() - 1] == hex_digits()[a.last() as int % 16]);
        assert(whole_b[whole_b.len() - 1] == hex_digits()[b.last() as int % 16]);
        assert(whole_a[whole_a.len() - 2] == hex_digits()[a.last() as int / 16]);
        assert(whole_b[whole_b.len() - 2] == hex_digits()[b.last() as int / 16]);
        lemma_hex_digits_differ(a.last() as int % 16, b.last() as int % 16);
        lemma_hex_digits_differ(a.last() as int / 16, b.last() as int / 16);
        assert(a.last() == b.last());
        assert(ha =~= whole_a.subrange(0, whole_a.len() - 2));
        assert(hb =~= whole_b.subrange(0, whole_b.len() - 2));
        lemma_hex_is_injective(a.drop_last(), b.drop_last());
        assert(a =~= a.drop_last().push(a.last()));
        assert(b =~= b.drop_last().push(b.last()));
    }
}

/// The hexadecimal digit for a number below sixteen, as a string of one character.
fn hex_digit(n: u8) -> (digit: &'static str)
    requires
        n < 16,
    ensures
        digit@ == seq![hex_digits()[n as int]],
{
    proof {
        reveal_strlit("0123456789abcdef");
        reveal_strlit("0");
        reveal_strlit("1");
        reveal_strlit("2");
        reveal_strlit("3");
        reveal_strlit("4");
        reveal_strlit("5");
        reveal_strlit("6");
        reveal_strlit("7");
        reveal_strlit("8");
        reveal_strlit("9");
        reveal_strlit("a");
        reveal_strlit("b");
        reveal_strlit("c");
        reveal_strlit("d");
        reveal_strlit("e");
        reveal_strlit("f");
    }
    let digit = if n == 0 {
        "0"
    } else if n == 1 {
        "1"
    } else if n == 2 {
        "2"
    } else if n == 3 {
        "3"
    } else if n == 4 {
        "4"
    } else if n == 5 {
        "5"
    } else if n == 6 {
        "6"
    } else if n == 7 {
        "7"
    } else if n == 8 {
        "8"
    } else if n == 9 {
        "9"
    } else if n == 10 {
        "a"
    } else if n == 11 {
        "b"
    } else if n == 12 {
        "c"
    } else if n == 13 {
        "d"
    } else if n == 14 {
        "e"
    } else {
        "f"
    };
    assert(digit@ =~= seq![hex_digits()[n as int]]);
    digit
}

/// Appends the lower-case hexadecimal form of `bytes` to `out`.
pub fn push_hex(out: &mut String, bytes: &[u8])
    ensures
        final(out)@ == old(out)@ + hex(bytes@),
{
    let ghost start = out@;
    let mut i: usize = 0;
    assert(bytes@.subrange(0, 0) =~= Seq::<u8>::empty());
    assert(start + hex(Seq::<u8>::empty()) =~= start);
    while i < bytes.len()
        invariant
            i <= bytes.len(),
            out@ == start + hex(bytes@.subrange(0, i as int)),
        decreases bytes.len() - i,
    {
        let b = bytes[i];
        let ghost upto = bytes@.subrange(0, i + 1);
        assert(upto.drop_last() =~= bytes@.subrange(0, i as int));
        assert(upto.last() == b);
        let ghost before = out@;
        out.append(hex_digit(b / 16));
        out.append(hex_digit(b % 16));
        assert(out@ =~= before.push(hex_digits()[b as int / 16]).push(
            hex_digits()[b as int % 16],
        ));
        assert(out@ =~= start + hex(upto));
        i += 1;
    }
    assert(bytes@.subrange(0, i as int) =~= bytes@);
}

/// Whether a character is one of the ten decimal digits.
pub open spec fn is_digit(c: char) -> bool {
    '0' <= c <= '9'
}

/// Whether a text is made of decimal digits only.
pub open spec fn all_digits(s: Seq<char>) -> bool {
    forall|i: int| 0 <= i < s.len() ==> is_digit(#[trigger] s[i])
}

/// The number that a run of decimal digits denotes.
pub open spec fn decimal(digits: Seq<char>) -> int
    decreases digits.len(),
{
    if digits.len() == 0 {
        0
    } else {
        decimal(digits.drop_last()) * 10 + (digits.last() as int - '0' as int)
    }
}

/// The 64-bit signed integer that a text denotes in decimal: an optional sign,
/// `+` or `-`, then at least one digit and nothing else, and a value that
/// fits. Any other text denotes none.
pub open spec fn parse_integer(s: Seq<char>) -> Option<int> {
    let signed = s.len() > 0 && (s[0] == '-' || s[0] == '+');
    let digits = if signed {
        s.drop_first()
    } else {
        s
    };
    let value = if s.len() > 0 && s[0] == '-' {
        -decimal(digits)
    } else {
        decimal(digits)
    };
    if digits.len() > 0 && all_digits(digits) && i64::MIN <= value <= i64::MAX {
        Some(value)
    } else {
        None
    }
}

/// One more digit behind a beginning of a run of digits: the longer beginning
/// is made of digits too, and denotes ten times as much and the digit more.
pub proof fn lemma_decimal_step(digits: Seq<char>, k: int)
    requires
        0 <= k < digits.len(),
        all_digits(digits.subrange(0, k)),
        is_digit(digits[k]),
    ensures
        all_digits(digits.subrange(0, k + 1)),
        decimal(digits.subrange(0, k + 1)) == decimal(digits.subrange(0, k)) * 10 + (digits[k] as int
            - '0' as int),
{
    let longer = digits.subrange(0, k + 1);
    assert(longer.drop_last() =~= digits.subrange(0, k));
    assert(longer.last() == digits[k]);
    assert forall|i: int| 0 <= i < longer.len() implies is_digit(#[trigger] longer[i]) by {
        if i < k {
            assert(longer[i] == digits.subrange(0, k)[i]);
        }
    }
}

/// A run of digits denotes a natural number.
pub proof fn lemma_decimal_is_natural(digits: Seq<char>)
    requires
        all_digits(digits),
    ensures
        0 <= decimal(digits),
    decreases digits.len(),
{
    if digits.len() > 0 {
        assert(is_digit(digits.last()));
        assert forall|i: int| 0 <= i < digits.drop_last().len() implies is_digit(
            #[trigger] digits.drop_last()[i],
        ) by {
            assert(digits.drop_last()[i] == digits[i]);
        }
        lemma_decimal_is_natural(digits.drop_last());
    }
}

/// A run of digits denotes at least what any of its beginnings denotes.
pub proof fn lemma_decimal_grows(digits: Seq<char>, k: int)
    requires
        all_digits(digits),
        0 <= k <= digits.len(),
    ensures
        0 <= decimal(digits.subrange(0, k)) <= decimal(digits),
    decreases digits.len() - k,
{
    assert forall|i: int| 0 <= i < k implies is_digit(#[trigger] digits.subrange(0, k)[i]) by {
        assert(digits.subrange(0, k)[i] == digits[i]);
    }
    lemma_decimal_is_natural(digits.subrange(0, k));
    if k == digits.len() {
        assert(digits.subrange(0, k) =~= digits);
    } else {
        lemma_decimal_grows(digits, k + 1);
        assert(is_digit(digits[k]));
        lemma_decimal_step(digits, k);
    }
}

/// The decimal digits of a natural number, without leading zeros.
pub open spec fn digits_of(n: nat) -> Seq<char>
    decreases n,
{
    if n < 10 {
        Seq::empty().push(hex_digits()[n as int])
    } else {
        digits_of(n / 10).push(hex_digits()[(n % 10) as int])
    }
}

/// An integer in decimal: its digits, behind a `-` where it is negative.
pub open spec fn integer_text(n: int) -> Seq<char> {
    if n < 0 {
        "-"@ + digits_of((-n) as nat)
    } else {
        digits_of(n as nat)
    }
}

/// The first ten hexadecimal digits are the decimal digits.
pub proof fn lemma_decimal_digits(d: int)
    requires
        0 <= d < 10,
    ensures
        is_digit(hex_digits()[d]),
        hex_digits()[d] as int - '0' as int == d,
{
    reveal_strlit("0123456789abcdef");
    assert(hex_digits()[0] == '0');
    assert(hex_digits()[1] == '1');
    assert(hex_digits()[2] == '2');
    assert(hex_digits()[3] == '3');
    assert(hex_digits()[4] == '4');
    assert(hex_digits()[5] == '5');
    assert(hex_digits()[6] == '6');
    assert(hex_digits()[7] == '7');
    assert(hex_digits()[8] == '8');
    assert(hex_digits()[9] == '9');
}

/// The digits of a number are digits, at least one, and denote the number.
pub proof fn lemma_digits_denote(n: nat)
    ensures
        digits_of(n).len() > 0,
        all_digits(digits_of(n)),
        decimal(digits_of(n)) == n,
    decreases n,
{
    let digits = digits_of(n);
    if n < 10 {
        lemma_decimal_digits(n as int);
        assert(digits.drop_last() =~= Seq::<char>::empty());
        assert(digits.last() == hex_digits()[n as int]);
        assert(decimal(digits.drop_last()) == 0);
    } else {
        lemma_digits_denote(n / 10);
        lemma_decimal_digits((n % 10) as int);
        assert(digits.drop_last() =~= digits_of(n / 10));
        assert(digits.last() == hex_digits()[(n % 10) as int]);
        assert(decimal(digits) == decimal(digits.drop_last()) * 10 + (n % 10));
        assert forall|i: int| 0 <= i < digits.len() implies is_digit(#[trigger] digits[i]) by {
            if i < digits.len() - 1 {
                assert(digits[i] == digits_of(n / 10)[i]);
            }
        }
    }
}

/// What is written is read back. The decimal text of a 64-bit integer
/// denotes that integer.
pub proof fn lemma_integer_text_round_trip(n: int)
    requires
        i64::MIN <= n <= i64::MAX,
    ensures
        parse_integer(integer_text(n)) == Some(n),
{
    reveal_strlit("-");
    let text = integer_text(n);
    if n < 0 {
        let digits = digits_of((-n) as nat);
        lemma_digits_denote((-n) as nat);
        assert(text[0] == '-');
        assert(text.drop_first() =~= digits);
    } else {
        lemma_digits_denote(n as nat);
        assert(is_digit(text[0]));
    }
}

/// Appends the decimal text of `n` to `out`.
pub fn push_integer(out: &mut String, n: i64)
    ensures
        final(out)@ == old(out)@ + integer_text(n as int),
{
    let ghost start = out@;
    let magnitude: u64 = if n < 0 {
        if n == i64::MIN {
            0x8000_0000_0000_0000u64
        } else {
            (-n) as u64
        }
    } else {
        n as u64
    };
    if n < 0 {
        out.append("-");
    }
    let ghost signed = out@;
    assert(start + integer_text(n as int) =~= signed + digits_of(magnitude as nat));
    // The digits behind the first, the last of them first.
    let mut behind: Vec<u8> = Vec::new();
    let mut rest: u64 = magnitude;
    assert(digits_of(magnitude as nat) =~= digits_of(rest as nat) + Seq::<char>::empty());
    while rest >= 10
        invariant
            forall|k: int| 0 <= k < behind.len() ==> behind@[k] < 10,
            digits_of(magnitude as nat) == digits_of(rest as nat) + Seq::new(
                behind.len() as nat,
                |k: int| hex_digits()[behind@[behind.len() - 1 - k] as int],
            ),
        decreases rest,
    {
        let ghost tail = Seq::new(
            behind.len() as nat,
            |k: int| hex_digits()[behind@[behind.len() - 1 - k] as int],
        );
        let d: u8 = (rest % 10) as u8;
        behind.push(d);
        rest = rest / 10;
        assert(Seq::empty().push(hex_digits()[d as int]) + tail =~= Seq::new(
            behind.len() as nat,
            |k: int| hex_digits()[behind@[behind.len() - 1 - k] as int],
        ));
        assert(digits_of(rest as nat).push(hex_digits()[d as int]) + tail =~= digits_of(
            rest as nat,
        ) + (Seq::empty().push(hex_digits()[d as int]) + tail));
    }
    let ghost tail = Seq::new(
        behind.len() as nat,
        |k: int| hex_digits()[behind@[behind.len() - 1 - k] as int],
    );
    out.append(hex_digit(rest as u8));
    let mut i: usize = behind.len();
    assert(tail.subrange(0, 0) =~= Seq::<char>::empty());
    assert(out@ =~= signed + digits_of(rest as nat) + tail.subrange(0, 0));
    while i > 0
        invariant
            i <= behind.len(),
            forall|k: int| 0 <= k < behind.len() ==> behind@[k] < 10,
            tail == Seq::new(
                behind.len() as nat,
                |k: int| hex_digits()[behind@[behind.len() - 1 - k] as int],
            ),
            out@ == signed + digits_of(rest as nat) + tail.subrange(0, behind.len() - i),
        decreases i,
    {
        i -= 1;
        let ghost before = out@;
        out.append(hex_digit(behind[i]));
        assert(tail.subrange(0, behind.len() - i) =~= tail.subrange(0, behind.len() - i - 1).push(
            hex_digits()[behind@[i as int] as int],
        ));
        assert(out@ =~= signed + digits_of(rest as nat) + tail.subrange(0, behind.len() - i));
    }
    assert(tail.subrange(0, behind.len() as int) =~= tail);
    assert(out@ =~= signed + (digits_of(rest as nat) + tail));
}

/// Reads a 64-bit signed integer from its decimal text.
pub fn parse_i64(s: &str) -> (value: Option<i64>)
    ensures
        match value {
            Some(v) => parse_integer(s@) == Some(v as int),
            None => parse_integer(s@) is None,
        },
{
    if !s.is_ascii() {
        proof {
            let i = choose|i: int| 0 <= i < s@.len() && !('\0' <= #[trigger] s@[i] <= '\u{7f}');
            if i > 0 || !(s@[0] == '-' || s@[0] == '+') {
                let signed = s@.len() > 0 && (s@[0] == '-' || s@[0] == '+');
                if signed {
                    assert(s@.drop_first()[i - 1] == s@[i]);
                }
            }
        }
        return None;
    }
    let bytes = s.as_bytes();
    proof {
        vstd::string::is_ascii_spec_bytes(s);
        vstd::utf8::is_ascii_chars_nat_bound(s@);
        assert forall|k: int| 0 <= k < s@.len() implies (#[trigger] s@[k]) as int == bytes@[
            k
        ] as int by {
            assert((s@[k] as nat) < 128);
            assert(bytes@[k] == s@[k] as u8);
        }
    }
    let n = bytes.len();
    if n == 0 {
        return None;
    }
    let negative = bytes[0] == 45u8;
    let signed = negative || bytes[0] == 43u8;
    let first: usize = if signed {
        1
    } else {
        0
    };
    let ghost digits = if signed {
        s@.drop_first()
    } else {
        s@
    };
    assert(s@[0] as int == bytes@[0] as int);
    assert(negative == (s@[0] == '-'));
    assert(signed == (s@[0] == '-' || s@[0] == '+'));
    assert(digits =~= s@.subrange(first as int, n as int));
    if first == n {
        return None;
    }
    let limit: u64 = if negative {
        0x8000_0000_0000_0000u64
    } else {
        0x7fff_ffff_ffff_ffffu64
    };
    let mut magnitude: u64 = 0;
    let mut i: usize = first;
    assert(digits.subrange(0, 0) =~= Seq::<char>::empty());
    while i < n
        invariant
            first <= i <= n,
            n == bytes@.len(),
            n == s@.len(),
            digits == s@.subrange(first as int, n as int),
            forall|k: int| 0 <= k < n ==> (#[trigger] s@[k]) as int == bytes@[k] as int,
            all_digits(digits.subrange(0, i - first)),
            magnitude == decimal(digits.subrange(0, i - first)),
            magnitude <= limit,
            limit == if negative {
                0x8000_0000_0000_0000u64
            } else {
                0x7fff_ffff_ffff_ffffu64
            },
            negative == (s@.len() > 0 && s@[0] == '-'),
            digits == if s@.len() > 0 && (s@[0] == '-' || s@[0] == '+') {
                s@.drop_first()
            } else {
                s@
            },
        decreases n - i,
    {
        let b = bytes[i];
        assert(digits[i - first] == s@[i as int]);
        assert(s@[i as int] as int == b as int);
        if b < 48u8 || b > 57u8 {
            assert(!is_digit(digits[i - first]));
            return None;
        }
        let d: u64 = (b - 48u8) as u64;
        proof {
            assert(is_digit(digits[i - first]));
            lemma_decimal_step(digits, i - first);
        }
        if magnitude > (limit - d) / 10 {
            proof {
                if all_digits(digits) {
                    lemma_decimal_grows(digits, i - first + 1);
                }
            }
            return None;
        }
        magnitude = magnitude * 10 + d;
        i += 1;
    }
    assert(digits.subrange(0, i - first) =~= digits);
    if negative {
        if magnitude == 0x8000_0000_0000_0000u64 {
            Some(i64::MIN)
        } else {
            Some(-(magnitude as i64))
        }
    } else {
        Some(magnitude as i64)
    }
}

} // verus!
