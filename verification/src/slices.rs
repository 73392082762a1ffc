//! Slicing words out of a string: the first word, a quirky scan for the
//! second word, and the binary digits of each byte of a string.

use vstd::prelude::*;

verus! {

use vstd::string::{StrSliceExecFns, StringSliceAdditionalSpecFns};

/// Where the first word ends when scanning from position `i`: the
/// position of the first space at or after `i`, or the end of the text
/// when no space follows.
pub open spec fn word_break(s: Seq<char>, i: int) -> int
    decreases s.len() - i,
{
    if i < 0 || i >= s.len() {
        s.len() as int
    } else if s[i] == ' ' {
        i
    } else {
        word_break(s, i + 1)
    }
}

/// Returns everything before the first space, or the whole text when it
/// holds no space at all.
pub fn first_word(s: &String) -> (word: &str)
    ensures
        word@ == s@.subrange(0, word_break(s@, 0)),
{
    let len: usize = s.as_str().unicode_len();
    let mut i: usize = 0;
    while i < len
        invariant
            i <= len,
            len == s@.len(),
            word_break(s@, i as int) == word_break(s@, 0),
        decreases len - i,
    {
        let item = s.as_str().get_char(i);
        if item == ' ' {
            return s.as_str().substring_char(0, i);
        }
        i = i + 1;
    }
    proof {
        assert(s@.subrange(0, s@.len() as int) =~= s@);
    }
    s.as_str()
}

/// The characters the second-word scan stops at.
pub open spec fn is_separator(c: char) -> bool {
    c == ' ' || c == ',' || c == '.'
}

/// The span the second-word scan settles on, starting at position `i`
/// with `start` recording where a word began after the first separator
/// (0 while no separator has been seen). The scan marks the position
/// after the first separator, returns the span up to the second one, or
/// up to the end when the text ends in a word; if it runs off the end
/// any other way, the whole text comes back.
pub open spec fn second_word_range(s: Seq<char>, i: int, start: int) -> (int, int)
    decreases s.len() - i,
{
    if i < 0 || i >= s.len() {
        (0, s.len() as int)
    } else if is_separator(s[i]) {
        if start == 0 {
            second_word_range(s, i + 1, i + 1)
        } else {
            (start, i)
        }
    } else if i + 1 == s.len() && start != 0 {
        (start, s.len() as int)
    } else {
        second_word_range(s, i + 1, start)
    }
}

/// The span of the second word of the whole text.
pub open spec fn second_word_span(s: Seq<char>) -> (int, int) {
    second_word_range(s, 0, 0)
}

/// Returns the second word when one exists, and otherwise the first
/// word. The scan cannot tell a leading separator from no separator
/// yet, so a text that opens with a space gives its first word back.
pub fn second_word(s: &String) -> (word: &str)
    ensures
        word@ == s@.subrange(second_word_span(s@).0, second_word_span(s@).1),
{
    let len: usize = s.as_str().unicode_len();
    let mut start: usize = 0;
    let mut i: usize = 0;
    while i < len
        invariant
            i <= len,
            len == s@.len(),
            start <= i,
            second_word_range(s@, i as int, start as int) == second_word_span(s@),
        decreases len - i,
    {
        let item = s.as_str().get_char(i);
        if item == ' ' || item == ',' || item == '.' {
            if start == 0 {
                start = i + 1;
            } else {
                // a second separator always ends the scan: the marker
                // that could postpone it never moves off zero
                return s.as_str().substring_char(start, i);
            }
        } else if i + 1 == len && start != 0 {
            return s.as_str().substring_char(start, len);
        }
        i = i + 1;
    }
    proof {
        assert(s@.subrange(0, s@.len() as int) =~= s@);
    }
    s.as_str()
}

/// The binary digits of a number, most significant first, with no
/// digits at all for zero.
pub open spec fn binary_digits(n: nat) -> Seq<char>
    decreases n,
{
    if n == 0 {
        Seq::empty()
    } else {
        binary_digits(n / 2).push(if n % 2 == 1 {
            '1'
        } else {
            '0'
        })
    }
}

/// How a number is displayed in binary: its digits, or a lone zero.
pub open spec fn binary_display(n: nat) -> Seq<char> {
    if n == 0 {
        seq!['0']
    } else {
        binary_digits(n)
    }
}

/// Builds the binary digits of `n` by dividing down to zero.
fn binary_digits_of(n: u8) -> (r: String)
    ensures
        r@ == binary_digits(n as nat),
    decreases n,
{
    if n == 0 {
        String::new()
    } else {
        let mut r = binary_digits_of(n / 2);
        if n % 2 == 1 {
            r.append("1");
            proof {
                reveal_strlit("1");
                assert(binary_digits((n / 2) as nat) + "1"@ =~= binary_digits(n as nat));
            }
        } else {
            r.append("0");
            proof {
                reveal_strlit("0");
                assert(binary_digits((n / 2) as nat) + "0"@ =~= binary_digits(n as nat));
            }
        }
        r
    }
}

/// Displays one byte in binary, with a lone zero for zero.
pub fn binary_of_byte(b: u8) -> (r: String)
    ensures
        r@ == binary_display(b as nat),
{
    if b == 0 {
        let mut r = String::new();
        r.append("0");
        proof {
            reveal_strlit("0");
            assert(r@ =~= seq!['0']);
        }
        r
    } else {
        binary_digits_of(b)
    }
}

/// Displays each byte of a text in binary, one line per byte.
pub fn binary_lines(s: &str) -> (lines: Vec<String>)
    ensures
        lines@.len() == s.spec_bytes().len(),
        forall|i: int|
            0 <= i < lines@.len() ==> lines@[i]@ == binary_display(s.spec_bytes()[i] as nat),
{
    let bytes: Vec<u8> = s.as_bytes_vec();
    let mut lines: Vec<String> = Vec::new();
    let mut i: usize = 0;
    while i < bytes.len()
        invariant
            i <= bytes@.len(),
            bytes@ == s.spec_bytes(),
            lines@.len() == i,
            forall|j: int| 0 <= j < i ==> lines@[j]@ == binary_display(bytes@[j] as nat),
        decreases bytes@.len() - i,
    {
        lines.push(binary_of_byte(bytes[i]));
        i = i + 1;
    }
    lines
}

} // verus!
