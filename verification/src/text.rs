//! Text produced by the library: the hexadecimal listing of a command, as it
//! appears in replies.

use vstd::prelude::*;

verus! {

/// The lower-case hexadecimal digit of a value below 16.
pub open spec fn hex_digit_spec(n: u8) -> char
    recommends
        n < 16,
{
    if n < 10 {
        (n + 48) as char
    } else {
        (n + 87) as char
    }
}

/// A byte as two lower-case hexadecimal digits, the high one first.
pub open spec fn hex_byte_spec(b: u8) -> Seq<char> {
    seq![hex_digit_spec(b / 16), hex_digit_spec(b % 16)]
}

/// The digits are those of `{:02x?}`: the digit of `n` is the `n`-th
/// character of `0123456789abcdef`, so a byte is written as its two-digit
/// lower-case hexadecimal, the high digit first.
pub proof fn lemma_hex_digits(b: u8)
    ensures
        "0123456789abcdef"@.len() == 16,
        hex_byte_spec(b) == seq!["0123456789abcdef"@[(b / 16) as int], "0123456789abcdef"@[(b % 16) as int]],
        b < 16 ==> hex_digit_spec(b) == "0123456789abcdef"@[b as int],
{
    reveal_strlit("0123456789abcdef");
    assert("0123456789abcdef"@ =~= seq![
        '0', '1', '2', '3', '4', '5', '6', '7', '8', '9', 'a', 'b', 'c', 'd', 'e', 'f',
    ]);
}

/// The bytes in hexadecimal, separated by a comma and a space.
pub open spec fn hex_items_spec(s: Seq<u8>) -> Seq<char>
    decreases s.len(),
{
    if s.len() == 0 {
        Seq::empty()
    } else if s.len() == 1 {
        hex_byte_spec(s[0])
    } else {
        hex_items_spec(s.drop_last()) + seq![',', ' '] + hex_byte_spec(s.last())
    }
}

/// The listing between the brackets, position by position: byte `i` takes
/// positions `4i` and `4i + 1` (high digit, low digit), and `", "` follows
/// every byte but the last, so `n` bytes take `4n - 2` characters.
pub proof fn lemma_hex_items_layout(s: Seq<u8>)
    ensures
        hex_items_spec(s).len() == if s.len() == 0 {
            0
        } else {
            4 * s.len() - 2
        },
        forall|i: int|
            #![trigger s[i]]
            0 <= i < s.len() ==> {
                &&& hex_items_spec(s)[4 * i] == hex_digit_spec(s[i] / 16)
                &&& hex_items_spec(s)[4 * i + 1] == hex_digit_spec(s[i] % 16)
                &&& i < s.len() - 1 ==> hex_items_spec(s)[4 * i + 2] == ',' && hex_items_spec(
                    s,
                )[4 * i + 3] == ' '
            },
    decreases s.len(),
{
    if s.len() > 1 {
        let t = s.drop_last();
        lemma_hex_items_layout(t);
        let items = hex_items_spec(t) + seq![',', ' '] + hex_byte_spec(s.last());
        assert(hex_items_spec(s) == items);
        assert forall|i: int| #![trigger s[i]] 0 <= i < s.len() implies {
            &&& hex_items_spec(s)[4 * i] == hex_digit_spec(s[i] / 16)
            &&& hex_items_spec(s)[4 * i + 1] == hex_digit_spec(s[i] % 16)
            &&& i < s.len() - 1 ==> hex_items_spec(s)[4 * i + 2] == ',' && hex_items_spec(s)[4
                * i + 3] == ' '
        } by {
            if i < s.len() - 1 {
                assert(t[i] == s[i]);
            }
        }
    }
}

/// The listing of a byte sequence in brackets, such as `[c3, 7f, 25, 63, 61]`.
pub open spec fn hex_listing_spec(s: Seq<u8>) -> Seq<char> {
    seq!['['] + hex_items_spec(s) + seq![']']
}

/// Appends one character to a string (`String::push`).
#[verifier::external_body]
pub(crate) fn string_push(s: &mut String, c: char)
    ensures
        final(s)@ == old(s)@.push(c),
{
    s.push(c);
}

/// Appends a string slice to a string (`String::push_str`).
#[verifier::external_body]
pub(crate) fn string_push_str(s: &mut String, t: &str)
    ensures
        final(s)@ == old(s)@ + t@,
{
    s.push_str(t);
}

fn hex_digit(n: u8) -> (c: char)
    requires
        n < 16,
    ensures
        c == hex_digit_spec(n),
{
    if n < 10 {
        (n + 48) as char
    } else {
        (n + 87) as char
    }
}

/// Lists the bytes of a command in lower-case hexadecimal, two digits each,
/// separated by `", "` and enclosed in brackets: `[c3, 7f, 25, 63, 61]`.
pub fn format_command(bytes: &[u8]) -> (text: String)
    ensures
        text@ == hex_listing_spec(bytes@),
{
    let mut text = String::new();
    string_push(&mut text, '[');
    let n = bytes.len();
    for i in 0..n
        invariant
            n == bytes@.len(),
            text@ == seq!['['] + hex_items_spec(bytes@.take(i as int)),
    {
        let ghost before = text@;
        let b = bytes[i];
        if i > 0 {
            string_push(&mut text, ',');
            string_push(&mut text, ' ');
        }
        string_push(&mut text, hex_digit(b / 16));
        string_push(&mut text, hex_digit(b % 16));
        assert(bytes@.take(i + 1).drop_last() =~= bytes@.take(i as int));
        assert(text@ =~= seq!['['] + hex_items_spec(bytes@.take(i + 1)));
    }
    string_push(&mut text, ']');
    assert(bytes@.take(n as int) =~= bytes@);
    text
}

} // verus!
