//! The few operations on text that naming and describing icons takes.

use vstd::prelude::*;
use vstd::string::*;

verus! {

/// The digit of a number below sixteen.
pub open spec fn digit(d: int) -> char {
    if d < 10 {
        (48 + d) as char
    } else {
        (87 + d) as char
    }
}

/// A number in decimal, without leading zeros.
pub open spec fn decimal(n: nat) -> Seq<char>
    decreases n,
{
    if n < 10 {
        seq![digit(n as int)]
    } else {
        decimal(n / 10).push(digit(n as int % 10))
    }
}

/// The lowest `len` digits of a number in lower-case hexadecimal.
pub open spec fn hexadecimal(n: nat, len: nat) -> Seq<char>
    decreases len,
{
    if len == 0 {
        Seq::empty()
    } else {
        hexadecimal(n / 16, (len - 1) as nat).push(digit(n as int % 16))
    }
}

/// A digit as text.
fn digit_text(d: u32) -> (text: &'static str)
    requires
        d < 16,
    ensures
        text@ == seq![digit(d as int)],
{
    proof {
        reveal_strlit("0");
        reveal_strlit("1");
        reveal_strlit("2");
        reveal_strlit("3");
        reveal_strlit("4");
        reveal_strlit("5");
        reveal_strlit("6");
        reveal_strlit("7");
        reveal_strlit("8");
        reveal_strlit("9");
        reveal_strlit("a");
        reveal_strlit("b");
        reveal_strlit("c");
        reveal_strlit("d");
        reveal_strlit("e");
        reveal_strlit("f");
    }
    match d {
        0 => "0",
        1 => "1",
        2 => "2",
        3 => "3",
        4 => "4",
        5 => "5",
        6 => "6",
        7 => "7",
        8 => "8",
        9 => "9",
        10 => "a",
        11 => "b",
        12 => "c",
        13 => "d",
        14 => "e",
        _ => "f",
    }
}

/// Writes a number in decimal.
pub fn decimal_text(n: u64) -> (text: String)
    ensures
        text@ == decimal(n as nat),
    decreases n,
{
    if n < 10 {
        digit_text(n as u32).to_owned()
    } else {
        let mut text: String = decimal_text(n / 10);
        text.append(digit_text((n % 10) as u32));
        assert(text@ =~= decimal(n as nat / 10).push(digit(n as int % 10)));
        text
    }
}

/// Writes the lowest `len` digits of a number in lower-case hexadecimal.
pub fn hexadecimal_text(n: u32, len: u32) -> (text: String)
    ensures
        text@ == hexadecimal(n as nat, len as nat),
    decreases len,
{
    if len == 0 {
        String::new()
    } else {
        let mut text: String = hexadecimal_text(n / 16, len - 1);
        text.append(digit_text(n % 16));
        assert(text@ =~= hexadecimal(n as nat / 16, (len - 1) as nat).push(digit(n as int % 16)));
        text
    }
}

/// Whether two texts are the same.
pub fn same_text(left: &str, right: &str) -> (same: bool)
    ensures
        same == (left@ == right@),
{
    left.to_owned() == right.to_owned()
}

/// A letter of the alphabet in lower case; any other character as it is.
pub open spec fn ascii_lower(c: char) -> char {
    if 'A' <= c && c <= 'Z' {
        (c as int + 32) as char
    } else {
        c
    }
}

/// Whether two texts differ at most in the case of ASCII letters.
pub open spec fn same_but_case(left: Seq<char>, right: Seq<char>) -> bool {
    left.map_values(|c: char| ascii_lower(c)) == right.map_values(|c: char| ascii_lower(c))
}

/// A character's number, with upper-case ASCII letters taken for lower-case
/// ones.
fn lower_number(c: char) -> (n: u32)
    ensures
        n == ascii_lower(c) as u32,
{
    if 'A' <= c && c <= 'Z' {
        c as u32 + 32
    } else {
        c as u32
    }
}

/// Compares two texts without regard to the case of ASCII letters.
pub fn eq_ignore_ascii_case(left: &str, right: &str) -> (same: bool)
    ensures
        same == same_but_case(left@, right@),
{
    let ghost l = left@.map_values(|c: char| ascii_lower(c));
    let ghost r = right@.map_values(|c: char| ascii_lower(c));
    let len: usize = left.unicode_len();
    if right.unicode_len() != len {
        assert(l.len() != r.len());
        return false;
    }
    let mut i: usize = 0;
    while i < len
        invariant
            i <= len,
            len == left@.len(),
            len == right@.len(),
            l == left@.map_values(|c: char| ascii_lower(c)),
            r == right@.map_values(|c: char| ascii_lower(c)),
            forall|k: int| 0 <= k < i ==> #[trigger] l[k] == r[k],
        decreases len - i,
    {
        if lower_number(left.get_char(i)) != lower_number(right.get_char(i)) {
            assert(l[i as int] != r[i as int]);
            return false;
        }
        i = i + 1;
    }
    assert(l =~= r);
    true
}

/// The text that bytes of unknown encoding are shown as.
pub uninterp spec fn lossy_utf8(bytes: Seq<u8>) -> Seq<char>;

/// Calls `String::from_utf8_lossy` of std. Its result is a function of the
/// bytes. The claim on it is that bytes that are valid UTF-8 are decoded as
/// they are, and that some bytes never give an empty text: what is not valid is
/// replaced, not dropped. What it is replaced by is left unsaid.
#[verifier::external_body]
pub(crate) fn from_utf8_lossy(bytes: &[u8]) -> (text: String)
    ensures
        text@ == lossy_utf8(bytes@),
        vstd::utf8::valid_utf8(bytes@) ==> text@ == vstd::utf8::decode_utf8(bytes@),
        bytes@.len() > 0 ==> text@.len() > 0,
{
    String::from_utf8_lossy(bytes).into_owned()
}

/// Different numbers are written differently.
pub proof fn law_decimal_is_injective(m: nat, n: nat)
    requires
        decimal(m) == decimal(n),
    ensures
        m == n,
    decreases m,
{
    lemma_decimal_is_not_empty(m / 10);
    lemma_decimal_is_not_empty(n / 10);
    assert(decimal(m).last() == digit(m as int % 10));
    assert(decimal(n).last() == digit(n as int % 10));
    lemma_digit_is_injective(m as int % 10, n as int % 10);
    if m >= 10 && n >= 10 {
        assert(decimal(m).drop_last() =~= decimal(m / 10));
        assert(decimal(n).drop_last() =~= decimal(n / 10));
        law_decimal_is_injective(m / 10, n / 10);
    } else {
        assert(decimal(m).len() == 1 <==> m < 10);
        assert(decimal(n).len() == 1 <==> n < 10);
    }
}

/// A number is written in digits.
pub(crate) proof fn lemma_decimal_has_digits(n: nat, i: int)
    requires
        0 <= i < decimal(n).len(),
    ensures
        '0' <= decimal(n)[i] && decimal(n)[i] <= '9',
    decreases n,
{
    if n >= 10 && i < decimal(n).len() - 1 {
        lemma_decimal_has_digits(n / 10, i);
    }
}

/// No number is written as nothing.
pub(crate) proof fn lemma_decimal_is_not_empty(n: nat)
    ensures
        decimal(n).len() > 0,
    decreases n,
{
    if n >= 10 {
        lemma_decimal_is_not_empty(n / 10);
    }
}

proof fn lemma_digit_is_injective(c: int, d: int)
    requires
        0 <= c < 16,
        0 <= d < 16,
        digit(c) == digit(d),
    ensures
        c == d,
{
    assert(digit(c) as int == if c < 10 {
        48 + c
    } else {
        87 + c
    });
    assert(digit(d) as int == if d < 10 {
        48 + d
    } else {
        87 + d
    });
}

/// Numbers that fit into the digits are written differently.
pub proof fn law_hexadecimal_is_injective(m: nat, n: nat, len: nat)
    requires
        m < vstd::arithmetic::power::pow(16, len),
        n < vstd::arithmetic::power::pow(16, len),
        hexadecimal(m, len) == hexadecimal(n, len),
    ensures
        m == n,
    decreases len,
{
    reveal(vstd::arithmetic::power::pow);
    if len > 0 {
        let shorter = (len - 1) as nat;
        let limit = vstd::arithmetic::power::pow(16, shorter);
        assert(hexadecimal(m, len).last() == digit(m as int % 16));
        assert(hexadecimal(n, len).last() == digit(n as int % 16));
        lemma_digit_is_injective(m as int % 16, n as int % 16);
        assert(hexadecimal(m, len).drop_last() =~= hexadecimal(m / 16, shorter));
        assert(hexadecimal(n, len).drop_last() =~= hexadecimal(n / 16, shorter));
        assert(m / 16 < limit && n / 16 < limit);
        law_hexadecimal_is_injective(m / 16, n / 16, shorter);
    }
}

/// The worth of a digit: ten and more are written in small letters.
pub open spec fn worth(c: char) -> int {
    if c <= '9' {
        c as int - '0' as int
    } else {
        c as int - 'a' as int + 10
    }
}

/// The number that some digits spell, the first of them the most significant.
pub open spec fn spelled(digits: Seq<char>, base: int) -> int
    decreases digits.len(),
{
    if digits.len() == 0 {
        0
    } else {
        spelled(digits.drop_last(), base) * base + worth(digits.last())
    }
}

/// A number that is written in decimal reads back as itself; it has decimal digits
/// only, and starts with a zero only if it is zero.
pub proof fn law_decimal_reads_back(n: nat)
    ensures
        spelled(decimal(n), 10) == n,
        decimal(n).len() > 0,
        decimal(n)[0] == '0' <==> n == 0,
        forall|i: int|
            0 <= i < decimal(n).len() ==> '0' <= #[trigger] decimal(n)[i] && decimal(n)[i] <= '9',
    decreases n,
{
    reveal_with_fuel(spelled, 2);
    let last = digit(n as int % 10);
    assert(worth(last) == n as int % 10);
    if n < 10 {
        assert(decimal(n).drop_last() =~= Seq::empty());
        assert(decimal(n)[0] == last);
    } else {
        law_decimal_reads_back(n / 10);
        assert(decimal(n).drop_last() =~= decimal(n / 10));
        assert(decimal(n)[0] == decimal(n / 10)[0]);
        assert forall|i: int| 0 <= i < decimal(n).len() implies '0' <= #[trigger] decimal(n)[i]
            && decimal(n)[i] <= '9' by {
            lemma_decimal_has_digits(n, i);
        }
    }
}

/// A number that is written in hexadecimal has as many digits as asked for, decimal
/// ones and small letters, and reads back as what fits into them.
pub proof fn law_hexadecimal_reads_back(n: nat, len: nat)
    requires
        n < vstd::arithmetic::power::pow(16, len),
    ensures
        hexadecimal(n, len).len() == len,
        spelled(hexadecimal(n, len), 16) == n,
        forall|i: int|
            0 <= i < len ==> {
                let c = #[trigger] hexadecimal(n, len)[i];
                '0' <= c && c <= '9' || 'a' <= c && c <= 'f'
            },
    decreases len,
{
    reveal(vstd::arithmetic::power::pow);
    if len > 0 {
        let shorter = (len - 1) as nat;
        assert(n / 16 < vstd::arithmetic::power::pow(16, shorter));
        law_hexadecimal_reads_back(n / 16, shorter);
        assert(hexadecimal(n, len).drop_last() =~= hexadecimal(n / 16, shorter));
        assert(worth(digit(n as int % 16)) == n as int % 16);
        assert forall|i: int| 0 <= i < len implies {
            let c = #[trigger] hexadecimal(n, len)[i];
            '0' <= c && c <= '9' || 'a' <= c && c <= 'f'
        } by {
            if i < shorter {
                assert(hexadecimal(n, len)[i] == hexadecimal(n / 16, shorter)[i]);
            }
        }
    }
}

/// Texts are the same but for case where they are as long and differ, if at all, in
/// letters of the alphabet that are small in the one and capital in the other.
pub proof fn law_only_case_is_ignored(left: Seq<char>, right: Seq<char>)
    ensures
        same_but_case(left, right) <==> left.len() == right.len() && forall|i: int|
            0 <= i < left.len() ==> {
                ||| #[trigger] left[i] == right[i]
                ||| 'A' <= left[i] && left[i] <= 'Z' && right[i] as int == left[i] as int + 32
                ||| 'A' <= right[i] && right[i] <= 'Z' && left[i] as int == right[i] as int + 32
            },
{
    let l = left.map_values(|c: char| ascii_lower(c));
    let r = right.map_values(|c: char| ascii_lower(c));
    if same_but_case(left, right) {
        assert(l.len() == r.len());
        assert forall|i: int| 0 <= i < left.len() implies {
            ||| #[trigger] left[i] == right[i]
            ||| 'A' <= left[i] && left[i] <= 'Z' && right[i] as int == left[i] as int + 32
            ||| 'A' <= right[i] && right[i] <= 'Z' && left[i] as int == right[i] as int + 32
        } by {
            assert(l[i] == r[i]);
            assert(ascii_lower(left[i]) == ascii_lower(right[i]));
        }
    } else if left.len() == right.len() && forall|i: int|
        0 <= i < left.len() ==> {
            ||| #[trigger] left[i] == right[i]
            ||| 'A' <= left[i] && left[i] <= 'Z' && right[i] as int == left[i] as int + 32
            ||| 'A' <= right[i] && right[i] <= 'Z' && left[i] as int == right[i] as int + 32
        } {
        assert forall|i: int| 0 <= i < l.len() implies l[i] == r[i] by {
            assert(left[i] == left[i]);
        }
        assert(l =~= r);
    }
}

} // verus!
