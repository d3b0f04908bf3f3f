//! Text that the daemon reads and writes: comparison of words, numbers in
//! decimal, and setpoints.
use vstd::prelude::*;

verus! {

/// Whether two strings hold the same characters.
pub fn same(a: &str, b: &str) -> (answer: bool)
    ensures
        answer == (a@ == b@),
{
    a.to_owned() == b.to_owned()
}

/// The character of a decimal digit.
pub open spec fn digit(d: int) -> char {
    (48 + d) as char
}

pub open spec fn is_digit(c: char) -> bool {
    48 <= c as int <= 57
}

/// A number in decimal, without leading zeros.
pub open spec fn decimal(n: nat) -> Seq<char>
    decreases n,
{
    if n < 10 {
        seq![digit(n as int)]
    } else {
        decimal(n / 10).push(digit((n % 10) as int))
    }
}

/// What a string of decimal digits is worth.
pub open spec fn decimal_worth(s: Seq<char>) -> nat
    decreases s.len(),
{
    if s.len() == 0 {
        0
    } else {
        10 * decimal_worth(s.drop_last()) + (s.last() as int - 48) as nat
    }
}

pub open spec fn all_digits(s: Seq<char>) -> bool {
    forall|i: int| 0 <= i < s.len() ==> is_digit(#[trigger] s[i])
}

/// Tenths written as the number they make, with a point only where there is
/// something behind it: `25`, `22.5`.
pub open spec fn tenths(t: nat) -> Seq<char> {
    if t % 10 == 0 {
        decimal(t / 10)
    } else {
        one_place(t)
    }
}

/// Tenths written with exactly one place: `25.0`, `22.5`.
pub open spec fn one_place(t: nat) -> Seq<char> {
    decimal(t / 10).push('.').push(digit((t % 10) as int))
}

/// A string as an unsigned port number: an optional plus sign, then digits
/// alone, worth no more than sixteen bits.
pub open spec fn port_number(s: Seq<char>) -> Option<u16> {
    let digits = if s.len() > 0 && s[0] == '+' {
        s.skip(1)
    } else {
        s
    };
    if digits.len() > 0 && all_digits(digits) && decimal_worth(digits) <= u16::MAX {
        Some(decimal_worth(digits) as u16)
    } else {
        None
    }
}

fn digit_text(d: u64) -> (text: &'static str)
    requires
        d < 10,
    ensures
        text@ == seq![digit(d as int)],
{
    proof {
        reveal_strlit("0");
        reveal_strlit("1");
        reveal_strlit("2");
        reveal_strlit("3");
        reveal_strlit("4");
        reveal_strlit("5");
        reveal_strlit("6");
        reveal_strlit("7");
        reveal_strlit("8");
        reveal_strlit("9");
    }
    let text: &'static str = match d {
        0 => "0",
        1 => "1",
        2 => "2",
        3 => "3",
        4 => "4",
        5 => "5",
        6 => "6",
        7 => "7",
        8 => "8",
        _ => "9",
    };
    assert(text@ =~= seq![digit(d as int)]);
    text
}

/// Writes a number in decimal.
pub fn decimal_text(n: u64) -> (text: String)
    ensures
        text@ == decimal(n as nat),
    decreases n,
{
    if n < 10 {
        digit_text(n).to_owned()
    } else {
        let mut text = decimal_text(n / 10);
        text.append(digit_text(n % 10));
        assert(text@ =~= decimal(n as nat));
        text
    }
}

/// Writes tenths with exactly one decimal place.
pub fn one_place_text(t: u32) -> (text: String)
    ensures
        text@ == one_place(t as nat),
{
    let mut text = decimal_text((t / 10) as u64);
    proof {
        reveal_strlit(".");
    }
    text.append(".");
    text.append(digit_text((t % 10) as u64));
    assert(text@ =~= one_place(t as nat));
    text
}

/// Writes tenths as the number they make.
pub fn tenths_text(t: u32) -> (text: String)
    ensures
        text@ == tenths(t as nat),
{
    if t % 10 == 0 {
        decimal_text((t / 10) as u64)
    } else {
        one_place_text(t)
    }
}

/// Reads a port number.
pub fn parse_port(s: &str) -> (port: Option<u16>)
    ensures
        port == port_number(s@),
{
    let length: usize = s.unicode_len();
    let start: usize = if length > 0 && s.get_char(0) == '+' {
        1
    } else {
        0
    };
    let ghost digits = s@.skip(start as int);
    assert(start == 0 ==> digits =~= s@);
    if start == length {
        return None;
    }
    let mut worth: u32 = 0;
    let mut i: usize = start;
    assert(digits.take(0) =~= Seq::<char>::empty());
    while i < length
        invariant
            start <= i <= length,
            length == s@.len(),
            digits == s@.skip(start as int),
            digits == (if s@.len() > 0 && s@[0] == '+' {
                s@.skip(1)
            } else {
                s@
            }),
            worth <= u16::MAX,
            all_digits(digits.take(i - start)),
            worth == decimal_worth(digits.take(i - start)),
        decreases length - i,
    {
        let c: char = s.get_char(i);
        let ghost read = digits.take(i - start);
        let ghost next = digits.take(i + 1 - start);
        assert(digits[i - start] == c);
        assert(next.drop_last() =~= read);
        if c < '0' || c > '9' {
            return None;
        }
        assert(all_digits(next)) by {
            assert forall|k: int| 0 <= k < next.len() implies is_digit(#[trigger] next[k]) by {
                if k < read.len() {
                    assert(is_digit(read[k]));
                }
            }
        }
        worth = worth * 10 + (c as u32 - 48);
        if worth > u16::MAX as u32 {
            proof {
                if all_digits(digits) {
                    lemma_prefix_worth(digits, i + 1 - start);
                }
            }
            return None;
        }
        i = i + 1;
    }
    assert(digits.take(length - start) =~= digits);
    Some(worth as u16)
}

/// A string of digits is worth at least what any prefix of it is worth.
proof fn lemma_prefix_worth(s: Seq<char>, k: int)
    requires
        0 <= k <= s.len(),
    ensures
        decimal_worth(s.take(k)) <= decimal_worth(s),
    decreases s.len() - k,
{
    if k == s.len() {
        assert(s.take(k) =~= s);
    } else {
        lemma_prefix_worth(s, k + 1);
        assert(s.take(k + 1).drop_last() =~= s.take(k));
    }
}

/// A number written in decimal is made of digits and reads back as itself.
pub proof fn law_decimal_reads_back(n: nat)
    ensures
        decimal(n).len() > 0,
        all_digits(decimal(n)),
        decimal_worth(decimal(n)) == n,
    decreases n,
{
    reveal_with_fuel(decimal_worth, 2);
    if n < 10 {
        assert(decimal(n).drop_last() =~= Seq::<char>::empty());
    } else {
        law_decimal_reads_back(n / 10);
        assert(decimal(n).drop_last() =~= decimal(n / 10));
    }
}

/// Every port number written in decimal is read back as that port.
pub proof fn law_port_reads_back(port: u16)
    ensures
        port_number(decimal(port as nat)) == Some(port),
{
    law_decimal_reads_back(port as nat);
    let s = decimal(port as nat);
    assert(is_digit(s[0]));
}

/// Different setpoints are written differently.
pub proof fn law_tenths_text_is_faithful(a: nat, b: nat)
    requires
        tenths(a) == tenths(b),
    ensures
        a == b,
{
    lemma_tenths_parts(a);
    lemma_tenths_parts(b);
    let (da, db) = (decimal(a / 10), decimal(b / 10));
    law_decimal_reads_back(a / 10);
    law_decimal_reads_back(b / 10);
    if a % 10 != 0 && b % 10 != 0 {
        assert(tenths(a).drop_last().drop_last() =~= da);
        assert(tenths(b).drop_last().drop_last() =~= db);
        assert(tenths(a).last() == digit((a % 10) as int));
        assert(tenths(b).last() == digit((b % 10) as int));
        assert(a % 10 == b % 10);
    } else if a % 10 != 0 {
        assert(tenths(a)[da.len() as int] == '.');
        assert(is_digit(tenths(b)[da.len() as int]));
    } else if b % 10 != 0 {
        assert(tenths(b)[db.len() as int] == '.');
        assert(is_digit(tenths(a)[db.len() as int]));
    }
}

/// A written setpoint holds digits and at most a point.
pub proof fn lemma_tenths_parts(t: nat)
    ensures
        forall|i: int|
            0 <= i < tenths(t).len() ==> is_digit(#[trigger] tenths(t)[i]) || tenths(t)[i] == '.',
{
    law_decimal_reads_back(t / 10);
    assert forall|i: int| 0 <= i < tenths(t).len() implies is_digit(#[trigger] tenths(t)[i])
        || tenths(t)[i] == '.' by {
        if i < decimal(t / 10).len() {
            assert(is_digit(decimal(t / 10)[i]));
        }
    }
}

/// A digit behind a number makes it ten times as much and the digit more.
pub proof fn law_digits_count_in_tens(s: Seq<char>, c: char)
    requires
        '0' <= c <= '9',
    ensures
        decimal_worth(Seq::empty()) == 0,
        decimal_worth(s.push(c)) == 10 * decimal_worth(s) + (c as int - '0' as int),
        is_digit(c),
{
    assert(s.push(c).drop_last() =~= s);
}

/// Nothing but the ten digits is a digit.
pub proof fn law_ten_digits(c: char)
    ensures
        is_digit(c) <==> '0' <= c <= '9',
{
}

/// A number of more than one digit does not begin with a zero.
pub proof fn law_no_leading_zero(n: nat)
    ensures
        decimal(n).len() == 1 <==> n < 10,
        n > 0 ==> decimal(n)[0] != '0',
    decreases n,
{
    law_decimal_reads_back(n);
    if n >= 10 {
        law_no_leading_zero(n / 10);
        law_decimal_reads_back(n / 10);
        assert(decimal(n)[0] == decimal(n / 10)[0]);
    }
}

/// The text spells `t` tenths: a whole number, or a whole number, a point and one
/// digit.
pub open spec fn spells_tenths(s: Seq<char>, t: nat) -> bool {
    ||| s.len() > 0 && all_digits(s) && t == 10 * decimal_worth(s)
    ||| {
        let whole = s.take(s.len() - 2);
        &&& s.len() > 2
        &&& all_digits(whole)
        &&& s[s.len() - 2] == '.'
        &&& is_digit(s.last())
        &&& t == 10 * decimal_worth(whole) + (s.last() as int - '0' as int)
    }
}

/// A text spells one setpoint at most.
pub proof fn law_text_spells_one_setpoint(s: Seq<char>, a: nat, b: nat)
    requires
        spells_tenths(s, a),
        spells_tenths(s, b),
    ensures
        a == b,
{
    if s.len() > 2 && s[s.len() - 2] == '.' {
        assert(!is_digit(s[s.len() - 2]));
    }
}

/// A written setpoint spells that setpoint: with one place always, or with a
/// place only where the setpoint is no whole degree.
pub proof fn law_written_setpoint_spells_itself(t: nat)
    ensures
        spells_tenths(one_place(t), t),
        one_place(t)[one_place(t).len() - 2] == '.',
        spells_tenths(tenths(t), t),
        tenths(t).contains('.') <==> t % 10 != 0,
{
    let whole = decimal(t / 10);
    law_decimal_reads_back(t / 10);
    assert(one_place(t).take(one_place(t).len() - 2) =~= whole);
    if t % 10 == 0 {
        if tenths(t).contains('.') {
            let i = choose|i: int| 0 <= i < whole.len() && whole[i] == '.';
            assert(is_digit(whole[i]));
        }
    } else {
        assert(tenths(t)[tenths(t).len() - 2] == '.');
    }
}

/// A port may carry a plus sign and leading zeros.
pub proof fn law_sign_and_leading_zeros_keep_the_port(s: Seq<char>)
    requires
        s.len() > 0,
        all_digits(s),
    ensures
        port_number(seq!['+'] + s) == port_number(s),
        port_number(seq!['0'] + s) == port_number(s),
{
    assert(is_digit(s[0]));
    assert((seq!['+'] + s).skip(1) =~= s);
    let padded = seq!['0'] + s;
    assert(all_digits(padded)) by {
        assert forall|i: int| 0 <= i < padded.len() implies is_digit(#[trigger] padded[i]) by {
            if i > 0 {
                assert(is_digit(s[i - 1]));
            }
        }
    }
    lemma_leading_zero_is_worthless(s);
}

proof fn lemma_leading_zero_is_worthless(s: Seq<char>)
    ensures
        decimal_worth(seq!['0'] + s) == decimal_worth(s),
    decreases s.len(),
{
    let padded = seq!['0'] + s;
    reveal_with_fuel(decimal_worth, 2);
    if s.len() == 0 {
        assert(padded.drop_last() =~= Seq::<char>::empty());
    } else {
        lemma_leading_zero_is_worthless(s.drop_last());
        assert(padded.drop_last() =~= seq!['0'] + s.drop_last());
    }
}

/// A port is worth what its digits are worth, and every number of sixteen bits is
/// a port; nothing larger is.
pub proof fn law_port_is_worth_its_digits(s: Seq<char>)
    requires
        s.len() > 0,
        all_digits(s),
    ensures
        decimal_worth(s) <= 65535 ==> port_number(s) == Some(decimal_worth(s) as u16),
        decimal_worth(s) > 65535 ==> port_number(s) is None,
{
    assert(is_digit(s[0]));
}

/// Anything but digits behind the sign, or no digits at all, is no port.
pub proof fn law_port_takes_digits_alone(s: Seq<char>, i: int)
    requires
        0 <= i < s.len() && !('0' <= s[i] <= '9') && (i > 0 || s[0] != '+') || s.len() == 0
            || s == seq!['+'],
    ensures
        port_number(s) is None,
{
    let digits = if s.len() > 0 && s[0] == '+' {
        s.skip(1)
    } else {
        s
    };
    if digits.len() > 0 && all_digits(digits) && s.len() > 0 {
        if s[0] == '+' {
            assert(digits.len() == s.len() - 1);
            assert(digits[i - 1] == s[i]);
        } else {
            assert(is_digit(digits[i]));
        }
    }
}

} // verus!
