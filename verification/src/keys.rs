use crate::globals::DecodeError;
use vstd::prelude::*;
use vstd::string::*;

verus! {

/// The value of a decimal digit; no other character has one.
pub open spec fn digit_value(c: char) -> Option<nat> {
    if c == '0' {
        Some(0)
    } else if c == '1' {
        Some(1)
    } else if c == '2' {
        Some(2)
    } else if c == '3' {
        Some(3)
    } else if c == '4' {
        Some(4)
    } else if c == '5' {
        Some(5)
    } else if c == '6' {
        Some(6)
    } else if c == '7' {
        Some(7)
    } else if c == '8' {
        Some(8)
    } else if c == '9' {
        Some(9)
    } else {
        None
    }
}

/// The digit that writes a number below ten.
pub open spec fn digit_char(d: nat) -> char {
    if d == 0 {
        '0'
    } else if d == 1 {
        '1'
    } else if d == 2 {
        '2'
    } else if d == 3 {
        '3'
    } else if d == 4 {
        '4'
    } else if d == 5 {
        '5'
    } else if d == 6 {
        '6'
    } else if d == 7 {
        '7'
    } else if d == 8 {
        '8'
    } else {
        '9'
    }
}

/// The number that a run of digits writes, most significant digit first.
pub open spec fn decimal_value(digits: Seq<char>) -> nat
    decreases digits.len(),
{
    if digits.len() == 0 {
        0
    } else {
        decimal_value(digits.drop_last()) * 10 + match digit_value(digits.last()) {
            Some(d) => d,
            None => 0,
        }
    }
}

/// Whether `text` is the plain decimal writing of a natural number: digits
/// only, at least one, and no leading zero before another digit.
pub open spec fn is_decimal(text: Seq<char>) -> bool {
    &&& text.len() >= 1
    &&& forall|i: int| 0 <= i < text.len() ==> digit_value(#[trigger] text[i]) is Some
    &&& text.len() > 1 ==> text[0] != '0'
}

/// The plain decimal writing of `n`.
pub open spec fn decimal_text(n: nat) -> Seq<char>
    decreases n,
{
    if n < 10 {
        seq![digit_char(n)]
    } else {
        decimal_text(n / 10).push(digit_char(n % 10))
    }
}

/// The `u32` that the key of an object entry names.
pub open spec fn key_as_u32(key: Seq<char>) -> Result<u32, DecodeError> {
    if !is_decimal(key) {
        Err(DecodeError::InvalidKey)
    } else if decimal_value(key) > u32::MAX {
        Err(DecodeError::OutOfRange)
    } else {
        Ok(decimal_value(key) as u32)
    }
}

/// Writing a number and reading the text gives the number back.
pub proof fn lemma_decimal_text_reads_back(n: nat)
    ensures
        is_decimal(decimal_text(n)),
        decimal_value(decimal_text(n)) == n,
        n > 0 ==> decimal_text(n)[0] != '0',
    decreases n,
{
    if n < 10 {
        let text = decimal_text(n);
        assert(text.drop_last() =~= Seq::<char>::empty());
        assert(decimal_value(text.drop_last()) == 0);
    } else {
        lemma_decimal_text_reads_back(n / 10);
        let head = decimal_text(n / 10);
        let text = decimal_text(n);
        assert(text.drop_last() =~= head);
        assert(text[0] == head[0]);
        assert forall|i: int| 0 <= i < text.len() implies digit_value(#[trigger] text[i]) is Some by {
            if i < head.len() {
                assert(text[i] == head[i]);
            }
        }
    }
}

/// Reading a plain decimal text and writing the number gives the text back.
pub proof fn lemma_decimal_value_writes_back(text: Seq<char>)
    requires
        is_decimal(text),
    ensures
        decimal_text(decimal_value(text)) == text,
        text.len() > 1 ==> decimal_value(text) >= 10,
        text[0] != '0' ==> decimal_value(text) > 0,
    decreases text.len(),
{
    let last = text.last();
    assert(digit_value(last) is Some);
    if text.len() == 1 {
        assert(text.drop_last() =~= Seq::<char>::empty());
        assert(decimal_value(text.drop_last()) == 0);
        assert(decimal_text(decimal_value(text)) =~= text);
    } else {
        let head = text.drop_last();
        assert(head[0] == text[0]);
        assert forall|i: int| 0 <= i < head.len() implies digit_value(#[trigger] head[i]) is Some by {
            assert(head[i] == text[i]);
        }
        if head.len() > 1 {
            lemma_decimal_value_writes_back(head);
        } else {
            assert(head.drop_last() =~= Seq::<char>::empty());
            assert(decimal_value(head.drop_last()) == 0);
            assert(decimal_text(decimal_value(head)) =~= head);
        }
        let h = decimal_value(head);
        let d = digit_value(last)->Some_0;
        assert(h > 0);
        assert(decimal_value(text) == h * 10 + d);
        assert((h * 10 + d) / 10 == h && (h * 10 + d) % 10 == d) by (nonlinear_arith)
            requires
                0 <= d < 10,
                h >= 0,
        ;
        assert(decimal_text(decimal_value(text)) =~= text);
    }
}

/// A prefix of a run of digits writes a number no larger than the whole run.
pub proof fn lemma_decimal_prefix_bound(digits: Seq<char>, n: int)
    requires
        0 <= n <= digits.len(),
    ensures
        decimal_value(digits.take(n)) <= decimal_value(digits),
    decreases digits.len() - n,
{
    if n == digits.len() {
        assert(digits.take(n) =~= digits);
    } else {
        lemma_decimal_prefix_bound(digits, n + 1);
        assert(digits.take(n + 1).drop_last() =~= digits.take(n));
    }
}

/// The value of `c` as a decimal digit.
pub fn digit_of(c: char) -> (d: Option<u32>)
    ensures
        match d {
            Some(n) => digit_value(c) == Some(n as nat),
            None => digit_value(c) is None,
        },
{
    if c == '0' {
        Some(0)
    } else if c == '1' {
        Some(1)
    } else if c == '2' {
        Some(2)
    } else if c == '3' {
        Some(3)
    } else if c == '4' {
        Some(4)
    } else if c == '5' {
        Some(5)
    } else if c == '6' {
        Some(6)
    } else if c == '7' {
        Some(7)
    } else if c == '8' {
        Some(8)
    } else if c == '9' {
        Some(9)
    } else {
        None
    }
}

/// The one-character text that writes a number below ten.
fn digit_text(d: u32) -> (text: &'static str)
    requires
        d < 10,
    ensures
        text@ == seq![digit_char(d as nat)],
{
    proof {
        reveal_strlit("0");
        reveal_strlit("1");
        reveal_strlit("2");
        reveal_strlit("3");
        reveal_strlit("4");
        reveal_strlit("5");
        reveal_strlit("6");
        reveal_strlit("7");
        reveal_strlit("8");
        reveal_strlit("9");
    }
    let text = if d == 0 {
        "0"
    } else if d == 1 {
        "1"
    } else if d == 2 {
        "2"
    } else if d == 3 {
        "3"
    } else if d == 4 {
        "4"
    } else if d == 5 {
        "5"
    } else if d == 6 {
        "6"
    } else if d == 7 {
        "7"
    } else if d == 8 {
        "8"
    } else {
        "9"
    };
    assert(text@ =~= seq![digit_char(d as nat)]);
    text
}

/// Writes `n` as the key of an object entry.
pub fn encode_key(n: u32) -> (text: String)
    ensures
        text@ == decimal_text(n as nat),
        key_as_u32(text@) == Ok::<u32, DecodeError>(n),
    decreases n,
{
    proof {
        lemma_decimal_text_reads_back(n as nat);
    }
    if n < 10 {
        String::from_str(digit_text(n))
    } else {
        let mut text = encode_key(n / 10);
        text.append(digit_text(n % 10));
        assert(text@ =~= decimal_text(n as nat));
        text
    }
}

/// Reads the key of an object entry as a `u32`.
pub fn decode_key(key: &str) -> (r: Result<u32, DecodeError>)
    ensures
        r == key_as_u32(key@),
{
    let len = key.unicode_len();
    if len == 0 {
        return Err(DecodeError::InvalidKey);
    }
    let mut i: usize = 0;
    while i < len
        invariant
            i <= len,
            len == key@.len(),
            forall|j: int| 0 <= j < i ==> digit_value(#[trigger] key@[j]) is Some,
        decreases len - i,
    {
        let c = key.get_char(i);
        if digit_of(c).is_none() {
            return Err(DecodeError::InvalidKey);
        }
        i += 1;
    }
    if len > 1 && key.get_char(0) == '0' {
        return Err(DecodeError::InvalidKey);
    }
    assert(is_decimal(key@));
    let mut value: u64 = 0;
    let mut i: usize = 0;
    assert(key@.take(0) =~= Seq::<char>::empty());
    while i < len
        invariant
            i <= len,
            len == key@.len(),
            is_decimal(key@),
            value == decimal_value(key@.take(i as int)),
            value <= u32::MAX,
        decreases len - i,
    {
        let c = key.get_char(i);
        let d = match digit_of(c) {
            Some(d) => d,
            None => 0,
        };
        assert(key@.take(i + 1).drop_last() =~= key@.take(i as int));
        value = value * 10 + d as u64;
        if value > u32::MAX as u64 {
            proof {
                lemma_decimal_prefix_bound(key@, i + 1);
            }
            return Err(DecodeError::OutOfRange);
        }
        i += 1;
    }
    assert(key@.take(len as int) =~= key@);
    Ok(value as u32)
}

} // verus!
