//! Helpers on strings, stated over their characters and proved over their
//! UTF-8 bytes.

use vstd::prelude::*;
use vstd::string::StringExecFns;
use vstd::string::StringSliceAdditionalSpecFns;
use vstd::utf8::*;

verus! {

/// Two character sequences with the same UTF-8 encoding are the same sequence.
pub proof fn lemma_encoding_injective(a: Seq<char>, b: Seq<char>)
    requires
        encode_utf8(a) == encode_utf8(b),
    ensures
        a == b,
{
    encode_utf8_decode_utf8(a);
    encode_utf8_decode_utf8(b);
}

/// Whether two strings hold the same characters.
pub fn str_eq(a: &str, b: &str) -> (same: bool)
    ensures
        same == (a@ == b@),
{
    let x = a.as_bytes();
    let y = b.as_bytes();
    if x.len() != y.len() {
        return false;
    }
    let mut i: usize = 0;
    while i < x.len()
        invariant
            i <= x@.len(),
            x@.len() == y@.len(),
            x@ == encode_utf8(a@),
            y@ == encode_utf8(b@),
            forall|k: int| 0 <= k < i ==> x@[k] == y@[k],
        decreases x@.len() - i,
    {
        if x[i] != y[i] {
            return false;
        }
        i += 1;
    }
    proof {
        assert(x@ =~= y@);
        lemma_encoding_injective(a@, b@);
    }
    true
}

/// In valid UTF-8, an ASCII byte is a whole character: a character starts at
/// it and another one (or the end) right behind it.
pub proof fn lemma_boundary_after_ascii(bytes: Seq<u8>, i: int)
    requires
        valid_utf8(bytes),
        0 <= i < bytes.len(),
        bytes[i] <= 0x7f,
    ensures
        is_char_boundary(bytes, i),
        is_char_boundary(bytes, i + 1),
    decreases bytes.len(),
{
    is_char_boundary_iff_not_is_continuation_byte(bytes, i);
    let first = length_of_first_scalar(bytes);
    let rest = pop_first_scalar(bytes);
    if i == 0 {
        assert(is_char_boundary(rest, 0));
        assert(is_char_boundary(bytes, 1));
    } else if i < first {
        assert(is_continuation_byte(bytes[i]));
    } else {
        assert(rest[i - first] == bytes[i]);
        lemma_boundary_after_ascii(rest, i - first);
        assert(is_char_boundary(bytes, i + 1));
    }
}

/// The part of `s` from the byte at `from` through the byte at `to`, both of
/// which are ASCII.
pub fn slice_between<'a>(s: &'a str, from: usize, to: usize) -> (part: &'a str)
    requires
        from <= to < s.spec_bytes().len(),
        s.spec_bytes()[from as int] <= 0x7f,
        s.spec_bytes()[to as int] <= 0x7f,
    ensures
        part.spec_bytes() == s.spec_bytes().subrange(from as int, to + 1),
        part@ == decode_utf8(s.spec_bytes().subrange(from as int, to + 1)),
{
    proof {
        encode_utf8_valid_utf8(s@);
        lemma_boundary_after_ascii(s.spec_bytes(), from as int);
    }
    let (_, tail) = s.split_at(from);
    proof {
        encode_utf8_valid_utf8(tail@);
        lemma_boundary_after_ascii(tail.spec_bytes(), to - from);
    }
    let rest_len: usize = tail.as_bytes().len();
    let last: usize = to - from;
    assert(last < rest_len);
    let (part, _) = tail.split_at(last + 1);
    proof {
        assert(part.spec_bytes() =~= s.spec_bytes().subrange(from as int, to + 1));
        encode_utf8_decode_utf8(part@);
    }
    part
}

/// The decimal digit for a value under ten.
pub open spec fn digit_char(value: nat) -> char {
    ((0x30 + value) as u8) as char
}

/// A number in decimal notation, without leading zeros.
pub open spec fn decimal(n: nat) -> Seq<char>
    decreases n,
{
    if n < 10 {
        seq![digit_char(n)]
    } else {
        decimal(n / 10) + seq![digit_char(n % 10)]
    }
}

/// The text of one decimal digit.
pub fn digit_text(value: u64) -> (text: &'static str)
    requires
        value < 10,
    ensures
        text@ == seq![digit_char(value as nat)],
{
    proof {
        reveal_strlit("0");
        reveal_strlit("1");
        reveal_strlit("2");
        reveal_strlit("3");
        reveal_strlit("4");
        reveal_strlit("5");
        reveal_strlit("6");
        reveal_strlit("7");
        reveal_strlit("8");
        reveal_strlit("9");
    }
    let text = if value == 0 {
        "0"
    } else if value == 1 {
        "1"
    } else if value == 2 {
        "2"
    } else if value == 3 {
        "3"
    } else if value == 4 {
        "4"
    } else if value == 5 {
        "5"
    } else if value == 6 {
        "6"
    } else if value == 7 {
        "7"
    } else if value == 8 {
        "8"
    } else {
        "9"
    };
    assert(text@ =~= seq![digit_char(value as nat)]);
    text
}

/// Writes a number in decimal notation.
pub fn decimal_text(n: u64) -> (text: String)
    ensures
        text@ == decimal(n as nat),
    decreases n,
{
    if n < 10 {
        digit_text(n).to_owned()
    } else {
        decimal_text(n / 10).concat(digit_text(n % 10))
    }
}

/// The first `count` bytes of a text, as a text. A cut inside a character
/// has no value.
pub open spec fn leading_bytes(text: Seq<char>, count: int) -> Seq<char> {
    decode_utf8(encode_utf8(text).subrange(0, count))
}

/// The part of `s` before the byte offset `count`, at which a character
/// starts or the text ends.
pub fn prefix<'a>(s: &'a str, count: usize) -> (part: &'a str)
    requires
        is_char_boundary(s.spec_bytes(), count as int),
    ensures
        part.spec_bytes() == s.spec_bytes().subrange(0, count as int),
        part@ == leading_bytes(s@, count as int),
{
    let (part, _) = s.split_at(count);
    proof {
        encode_utf8_decode_utf8(part@);
    }
    part
}

/// The index of the first byte `b` of a byte string, or the string's
/// length where it holds none.
pub open spec fn first_index_of(bytes: Seq<u8>, b: u8) -> int
    decreases bytes.len(),
{
    if bytes.len() == 0 {
        0
    } else if bytes[0] == b {
        0
    } else {
        1 + first_index_of(bytes.drop_first(), b)
    }
}

/// The text before the first occurrence of an ASCII character; the whole
/// text where the character does not occur.
pub open spec fn before_first(text: Seq<char>, b: u8) -> Seq<char> {
    leading_bytes(text, first_index_of(encode_utf8(text), b))
}

/// Where the first byte `b` stands, seen from an index at or before it.
pub proof fn lemma_first_index_from(bytes: Seq<u8>, b: u8, i: int)
    requires
        0 <= i <= bytes.len(),
        forall|k: int| 0 <= k < i ==> bytes[k] != b,
    ensures
        first_index_of(bytes, b) == i + first_index_of(bytes.subrange(i, bytes.len() as int), b),
    decreases i,
{
    if i == 0 {
        assert(bytes.subrange(0, bytes.len() as int) =~= bytes);
    } else {
        let rest = bytes.drop_first();
        assert forall|k: int| 0 <= k < i - 1 implies rest[k] != b by {
            assert(rest[k] == bytes[k + 1]);
        }
        lemma_first_index_from(rest, b, i - 1);
        assert(rest.subrange(i - 1, rest.len() as int) =~= bytes.subrange(i, bytes.len() as int));
    }
}

/// Cuts a text before the first occurrence of an ASCII character.
pub fn take_before<'a>(s: &'a str, b: u8) -> (part: &'a str)
    requires
        b <= 0x7f,
    ensures
        part@ == before_first(s@, b),
{
    let bytes = s.as_bytes();
    let mut i: usize = 0;
    while i < bytes.len() && bytes[i] != b
        invariant
            i <= bytes@.len(),
            forall|k: int| 0 <= k < i ==> bytes@[k] != b,
        decreases bytes@.len() - i,
    {
        i += 1;
    }
    proof {
        lemma_first_index_from(bytes@, b, i as int);
        encode_utf8_valid_utf8(s@);
        if i < bytes@.len() {
            lemma_boundary_after_ascii(bytes@, i as int);
        } else {
            is_char_boundary_start_end_of_seq(bytes@);
        }
    }
    prefix(s, i)
}

/// The byte `/`.
pub const SLASH: u8 = 0x2f;

/// A byte string without the slashes at its end.
pub open spec fn without_trailing_slashes(bytes: Seq<u8>) -> Seq<u8>
    decreases bytes.len(),
{
    if bytes.len() > 0 && bytes.last() == SLASH {
        without_trailing_slashes(bytes.drop_last())
    } else {
        bytes
    }
}

/// A text without the slashes at its end. In UTF-8 a slash is the one byte
/// `0x2f`, and that byte is part of no other character.
pub open spec fn trimmed_of_slashes(text: Seq<char>) -> Seq<char> {
    decode_utf8(without_trailing_slashes(encode_utf8(text)))
}

/// Cuts the slashes off the end of a text.
pub fn trim_trailing_slashes<'a>(s: &'a str) -> (part: &'a str)
    ensures
        part.spec_bytes() == without_trailing_slashes(s.spec_bytes()),
        part@ == trimmed_of_slashes(s@),
{
    let bytes = s.as_bytes();
    let mut end: usize = bytes.len();
    assert(bytes@.subrange(0, end as int) =~= bytes@);
    while end > 0 && bytes[end - 1] == SLASH
        invariant
            end <= bytes@.len(),
            without_trailing_slashes(bytes@) == without_trailing_slashes(
                bytes@.subrange(0, end as int),
            ),
            forall|k: int| end <= k < bytes@.len() ==> bytes@[k] == SLASH,
        decreases end,
    {
        proof {
            assert(bytes@.subrange(0, end as int).drop_last() =~= bytes@.subrange(0, end - 1));
        }
        end -= 1;
    }
    proof {
        encode_utf8_valid_utf8(s@);
        if end < bytes@.len() {
            lemma_boundary_after_ascii(bytes@, end as int);
        } else {
            is_char_boundary_start_end_of_seq(bytes@);
        }
    }
    let (part, _) = s.split_at(end);
    proof {
        assert(part.spec_bytes() =~= bytes@.subrange(0, end as int));
        encode_utf8_decode_utf8(part@);
    }
    part
}

} // verus!
