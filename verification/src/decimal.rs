//! Decimal text of node ids.

use vstd::prelude::*;

verus! {

/// The character of a decimal digit.
pub open spec fn digit_char(digit: nat) -> char {
    (48 + digit) as char
}

/// The decimal text of a number, without leading zeros.
pub open spec fn decimal(n: nat) -> Seq<char>
    decreases n,
{
    if n < 10 {
        seq![digit_char(n)]
    } else {
        decimal(n / 10).push(digit_char(n % 10))
    }
}

/// Whether a character is a decimal digit.
pub open spec fn is_digit(c: char) -> bool {
    '0' <= c && c <= '9'
}

/// What a digit is worth.
pub open spec fn digit_value(c: char) -> nat {
    if is_digit(c) {
        (c as int - 48) as nat
    } else {
        0
    }
}

/// The number that a sequence of digits stands for.
pub open spec fn decimal_value(digits: Seq<char>) -> nat
    decreases digits.len(),
{
    if digits.len() == 0 {
        0
    } else {
        10 * decimal_value(digits.drop_last()) + digit_value(digits.last())
    }
}

/// Whether a text consists of one or more decimal digits.
pub open spec fn is_decimal(label: Seq<char>) -> bool {
    label.len() > 0 && forall|i: int| 0 <= i < label.len() ==> is_digit(#[trigger] label[i])
}

/// The node id that a label stands for: its decimal value, if that is a number of 64 bits.
pub open spec fn node_id_of(label: Seq<char>) -> Option<u64> {
    if is_decimal(label) && decimal_value(label) <= u64::MAX {
        Some(decimal_value(label) as u64)
    } else {
        None
    }
}

/// A prefix of a digit sequence is worth no more than the whole.
proof fn lemma_prefix_value(digits: Seq<char>, n: int)
    requires
        0 <= n <= digits.len(),
    ensures
        decimal_value(digits.take(n)) <= decimal_value(digits),
    decreases digits.len() - n,
{
    if n == digits.len() {
        assert(digits.take(n) =~= digits);
    } else {
        lemma_prefix_value(digits, n + 1);
        assert(digits.take(n + 1).drop_last() =~= digits.take(n));
    }
}

/// The decimal text of a number is made of digits and has that number as its value.
pub proof fn decimal_text_reads_back(n: nat)
    ensures
        is_decimal(decimal(n)),
        decimal_value(decimal(n)) == n,
    decreases n,
{
    reveal_with_fuel(decimal_value, 2);
    if n < 10 {
        assert(decimal(n).drop_last() =~= Seq::<char>::empty());
    } else {
        decimal_text_reads_back(n / 10);
        let front = decimal(n / 10);
        assert(decimal(n).drop_last() =~= front);
        assert forall|i: int| 0 <= i < decimal(n).len() implies is_digit(
            #[trigger] decimal(n)[i],
        ) by {
            if i < front.len() {
                assert(decimal(n)[i] == front[i]);
            }
        }
    }
}

/// A node id is found again from its decimal text.
pub proof fn node_id_reads_back(id: u64)
    ensures
        node_id_of(decimal(id as nat)) == Some(id),
{
    decimal_text_reads_back(id as nat);
}

/// Two numbers with the same decimal text are the same number.
pub proof fn decimal_text_is_unique(a: nat, b: nat)
    requires
        decimal(a) == decimal(b),
    ensures
        a == b,
{
    decimal_text_reads_back(a);
    decimal_text_reads_back(b);
}

/// The text of a single digit.
fn digit_text(digit: u64) -> (text: &'static str)
    requires
        digit < 10,
    ensures
        text@ == seq![digit_char(digit as nat)],
{
    proof {
        reveal_strlit("0");
        reveal_strlit("1");
        reveal_strlit("2");
        reveal_strlit("3");
        reveal_strlit("4");
        reveal_strlit("5");
        reveal_strlit("6");
        reveal_strlit("7");
        reveal_strlit("8");
        reveal_strlit("9");
    }
    let text = match digit {
        0 => "0",
        1 => "1",
        2 => "2",
        3 => "3",
        4 => "4",
        5 => "5",
        6 => "6",
        7 => "7",
        8 => "8",
        _ => "9",
    };
    assert(text@ =~= seq![digit_char(digit as nat)]);
    text
}

/// Writes a number in decimal.
pub fn decimal_text(n: u64) -> (text: String)
    ensures
        text@ == decimal(n as nat),
    decreases n,
{
    if n < 10 {
        String::from_str(digit_text(n))
    } else {
        let front = decimal_text(n / 10);
        let text = front.concat(digit_text(n % 10));
        assert(text@ =~= decimal(n as nat));
        text
    }
}

/// Reads a node label.
pub fn parse_node_id(label: &String) -> (id: Option<u64>)
    ensures
        id == node_id_of(label@),
{
    let len: usize = label.as_str().unicode_len();
    if len == 0 {
        return None;
    }
    let mut value: u64 = 0;
    let mut i: usize = 0;
    while i < len
        invariant
            len == label@.len(),
            i <= len,
            value == decimal_value(label@.take(i as int)),
            forall|j: int| 0 <= j < i ==> is_digit(#[trigger] label@[j]),
        decreases len - i,
    {
        let c: char = label.as_str().get_char(i);
        if c < '0' || '9' < c {
            assert(!is_digit(label@[i as int]));
            return None;
        }
        let digit: u64 = (c as u32 - 48) as u64;
        proof {
            lemma_prefix_value(label@, i + 1);
            assert(label@.take(i + 1).drop_last() =~= label@.take(i as int));
        }
        if value > (u64::MAX - digit) / 10 {
            return None;
        }
        value = value * 10 + digit;
        i = i + 1;
    }
    assert(label@.take(len as int) =~= label@);
    Some(value)
}

} // verus!
