use vstd::prelude::*;
use vstd::string::{StrSliceExecFns, StringExecFns};

verus! {

/// The lower-case hexadecimal digit of a value below sixteen.
pub open spec fn hex_digit(value: int) -> char {
    if value == 0 {
        '0'
    } else if value == 1 {
        '1'
    } else if value == 2 {
        '2'
    } else if value == 3 {
        '3'
    } else if value == 4 {
        '4'
    } else if value == 5 {
        '5'
    } else if value == 6 {
        '6'
    } else if value == 7 {
        '7'
    } else if value == 8 {
        '8'
    } else if value == 9 {
        '9'
    } else if value == 10 {
        'a'
    } else if value == 11 {
        'b'
    } else if value == 12 {
        'c'
    } else if value == 13 {
        'd'
    } else if value == 14 {
        'e'
    } else {
        'f'
    }
}

/// The value of a hexadecimal digit, in either case, and `None` for any
/// other character.
pub open spec fn hex_value(digit: char) -> Option<u8> {
    if digit == '0' {
        Some(0u8)
    } else if digit == '1' {
        Some(1u8)
    } else if digit == '2' {
        Some(2u8)
    } else if digit == '3' {
        Some(3u8)
    } else if digit == '4' {
        Some(4u8)
    } else if digit == '5' {
        Some(5u8)
    } else if digit == '6' {
        Some(6u8)
    } else if digit == '7' {
        Some(7u8)
    } else if digit == '8' {
        Some(8u8)
    } else if digit == '9' {
        Some(9u8)
    } else if digit == 'a' || digit == 'A' {
        Some(10u8)
    } else if digit == 'b' || digit == 'B' {
        Some(11u8)
    } else if digit == 'c' || digit == 'C' {
        Some(12u8)
    } else if digit == 'd' || digit == 'D' {
        Some(13u8)
    } else if digit == 'e' || digit == 'E' {
        Some(14u8)
    } else if digit == 'f' || digit == 'F' {
        Some(15u8)
    } else {
        None
    }
}

/// The hexadecimal text of bytes: two lower-case digits for each byte, the
/// high half first.
pub open spec fn hex_text(bytes: Seq<u8>) -> Seq<char>
    decreases bytes.len(),
{
    if bytes.len() == 0 {
        Seq::empty()
    } else {
        hex_text(bytes.drop_last()).push(hex_digit(bytes.last() as int / 16)).push(
            hex_digit(bytes.last() as int % 16),
        )
    }
}

/// The bytes that a hexadecimal text stands for: `None` for a text of odd
/// length and for one that holds a character that is no hexadecimal digit.
pub open spec fn hex_bytes(text: Seq<char>) -> Option<Seq<u8>>
    decreases text.len(),
{
    if text.len() == 0 {
        Some(Seq::empty())
    } else if text.len() % 2 == 1 {
        None
    } else {
        match (
            hex_bytes(text.subrange(0, text.len() - 2)),
            hex_value(text[text.len() - 2]),
            hex_value(text[text.len() - 1]),
        ) {
            (Some(bytes), Some(high), Some(low)) => Some(bytes.push((16 * high + low) as u8)),
            _ => None,
        }
    }
}

/// The hexadecimal text of bytes has two characters for each byte.
pub proof fn lemma_hex_text_len(bytes: Seq<u8>)
    ensures
        hex_text(bytes).len() == 2 * bytes.len(),
    decreases bytes.len(),
{
    if bytes.len() > 0 {
        lemma_hex_text_len(bytes.drop_last());
    }
}

/// Reading the hexadecimal text of bytes gives the bytes back.
pub proof fn lemma_hex_round_trip(bytes: Seq<u8>)
    ensures
        hex_bytes(hex_text(bytes)) == Some(bytes),
    decreases bytes.len(),
{
    if bytes.len() > 0 {
        let init = bytes.drop_last();
        let last = bytes.last();
        let text = hex_text(bytes);
        lemma_hex_text_len(bytes);
        lemma_hex_text_len(init);
        lemma_hex_round_trip(init);
        assert(text.subrange(0, text.len() - 2) =~= hex_text(init));
        assert(text[text.len() - 2] == hex_digit(last as int / 16));
        assert(text[text.len() - 1] == hex_digit(last as int % 16));
        assert(hex_value(hex_digit(last as int / 16)) == Some((last / 16) as u8));
        assert(hex_value(hex_digit(last as int % 16)) == Some((last % 16) as u8));
        assert(init.push(last) =~= bytes);
    } else {
        assert(bytes =~= Seq::<u8>::empty());
    }
}

fn hex_digit_str(value: u8) -> (digit: &'static str)
    requires
        value < 16,
    ensures
        digit@ == seq![hex_digit(value as int)],
{
    proof {
        reveal_strlit("0");
        reveal_strlit("1");
        reveal_strlit("2");
        reveal_strlit("3");
        reveal_strlit("4");
        reveal_strlit("5");
        reveal_strlit("6");
        reveal_strlit("7");
        reveal_strlit("8");
        reveal_strlit("9");
        reveal_strlit("a");
        reveal_strlit("b");
        reveal_strlit("c");
        reveal_strlit("d");
        reveal_strlit("e");
        reveal_strlit("f");
    }
    let digit = if value == 0 {
        "0"
    } else if value == 1 {
        "1"
    } else if value == 2 {
        "2"
    } else if value == 3 {
        "3"
    } else if value == 4 {
        "4"
    } else if value == 5 {
        "5"
    } else if value == 6 {
        "6"
    } else if value == 7 {
        "7"
    } else if value == 8 {
        "8"
    } else if value == 9 {
        "9"
    } else if value == 10 {
        "a"
    } else if value == 11 {
        "b"
    } else if value == 12 {
        "c"
    } else if value == 13 {
        "d"
    } else if value == 14 {
        "e"
    } else {
        "f"
    };
    assert(digit@ =~= seq![hex_digit(value as int)]);
    digit
}

fn hex_digit_value(digit: char) -> (value: Option<u8>)
    ensures
        value == hex_value(digit),
{
    if digit == '0' {
        Some(0)
    } else if digit == '1' {
        Some(1)
    } else if digit == '2' {
        Some(2)
    } else if digit == '3' {
        Some(3)
    } else if digit == '4' {
        Some(4)
    } else if digit == '5' {
        Some(5)
    } else if digit == '6' {
        Some(6)
    } else if digit == '7' {
        Some(7)
    } else if digit == '8' {
        Some(8)
    } else if digit == '9' {
        Some(9)
    } else if digit == 'a' || digit == 'A' {
        Some(10)
    } else if digit == 'b' || digit == 'B' {
        Some(11)
    } else if digit == 'c' || digit == 'C' {
        Some(12)
    } else if digit == 'd' || digit == 'D' {
        Some(13)
    } else if digit == 'e' || digit == 'E' {
        Some(14)
    } else if digit == 'f' || digit == 'F' {
        Some(15)
    } else {
        None
    }
}

/// Writes bytes as hexadecimal text.
pub fn to_hex(bytes: &[u8]) -> (text: String)
    ensures
        text@ == hex_text(bytes@),
        hex_bytes(text@) == Some(bytes@),
{
    let mut text = String::new();
    let mut i: usize = 0;
    while i < bytes.len()
        invariant
            i <= bytes.len(),
            text@ == hex_text(bytes@.subrange(0, i as int)),
        decreases bytes.len() - i,
    {
        let byte = bytes[i];
        text.append(hex_digit_str(byte / 16));
        text.append(hex_digit_str(byte % 16));
        proof {
            let next = bytes@.subrange(0, i as int + 1);
            assert(next.drop_last() =~= bytes@.subrange(0, i as int));
            assert(next.last() == byte);
            assert(text@ =~= hex_text(next));
        }
        i += 1;
    }
    proof {
        assert(bytes@.subrange(0, i as int) =~= bytes@);
        lemma_hex_round_trip(bytes@);
    }
    text
}

/// Reads hexadecimal text, with digits in either case, as bytes. A text of
/// odd length, or with a character that is no hexadecimal digit, is refused.
pub fn from_hex(text: &str) -> (bytes: Option<Vec<u8>>)
    ensures
        match bytes {
            Some(bytes) => hex_bytes(text@) == Some(bytes@),
            None => hex_bytes(text@) is None,
        },
{
    let len = text.unicode_len();
    if len % 2 == 1 {
        proof {
            lemma_odd_text_is_refused(text@);
        }
        return None;
    }
    let mut bytes: Vec<u8> = Vec::new();
    let mut i: usize = 0;
    while i < len
        invariant
            len == text@.len(),
            len % 2 == 0,
            i % 2 == 0,
            i <= len,
            hex_bytes(text@.subrange(0, i as int)) == Some(bytes@),
        decreases len - i,
    {
        let high = hex_digit_value(text.get_char(i));
        let low = hex_digit_value(text.get_char(i + 1));
        let ghost prefix = text@.subrange(0, i as int + 2);
        proof {
            assert(prefix.subrange(0, prefix.len() - 2) =~= text@.subrange(0, i as int));
            assert(prefix[prefix.len() - 2] == text@[i as int]);
            assert(prefix[prefix.len() - 1] == text@[i as int + 1]);
        }
        match (high, low) {
            (Some(high), Some(low)) => {
                bytes.push(16 * high + low);
            },
            _ => {
                proof {
                    assert(hex_bytes(prefix) is None);
                    lemma_bad_prefix_is_refused(text@, i as int + 2);
                }
                return None;
            },
        }
        i += 2;
    }
    proof {
        assert(text@.subrange(0, i as int) =~= text@);
    }
    Some(bytes)
}

/// A text of odd length stands for no bytes.
proof fn lemma_odd_text_is_refused(text: Seq<char>)
    requires
        text.len() % 2 == 1,
    ensures
        hex_bytes(text) is None,
{
}

/// A text stands for no bytes where a prefix of even length stands for
/// none.
proof fn lemma_bad_prefix_is_refused(text: Seq<char>, end: int)
    requires
        0 <= end <= text.len(),
        end % 2 == 0,
        text.len() % 2 == 0,
        hex_bytes(text.subrange(0, end)) is None,
    ensures
        hex_bytes(text) is None,
    decreases text.len() - end,
{
    if end < text.len() {
        let longer = text.subrange(0, end + 2);
        assert(longer.subrange(0, longer.len() - 2) =~= text.subrange(0, end));
        assert(hex_bytes(longer) is None);
        lemma_bad_prefix_is_refused(text, end + 2);
    } else {
        assert(text.subrange(0, end) =~= text);
    }
}

} // verus!
