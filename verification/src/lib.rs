//! The canonical greeting, `Hello, world!`, and the one line of text that
//! presents it.
//!
//! [`greet`] hands out the greeting itself; [`greeting_line`] hands out what a
//! program that presents the greeting writes: the greeting followed by a
//! single line feed. Both are constant, and their contracts fix the text
//! character for character.

use vstd::prelude::*;
use vstd::string::StringSliceAdditionalSpecFns;
use vstd::utf8::{encode_utf8, is_ascii_chars, is_ascii_chars_encode_utf8};

verus! {

/// The greeting as a sequence of characters: capital `H`, a comma after
/// `Hello`, one space, and a closing exclamation mark, with nothing before or
/// after.
pub open spec fn greeting() -> Seq<char> {
    seq!['H', 'e', 'l', 'l', 'o', ',', ' ', 'w', 'o', 'r', 'l', 'd', '!']
}

/// The greeting as UTF-8: every character is ASCII, so there is one byte for
/// each.
pub open spec fn greeting_bytes() -> Seq<u8> {
    seq![0x48u8, 0x65u8, 0x6cu8, 0x6cu8, 0x6fu8, 0x2cu8, 0x20u8, 0x77u8, 0x6fu8, 0x72u8, 0x6cu8,
        0x64u8, 0x21u8]
}

/// Returns the greeting.
///
/// The result never varies: it takes no input and reads no state.
pub fn greet() -> (text: &'static str)
    ensures
        text@ == greeting(),
        text.spec_bytes() == greeting_bytes(),
{
    let text = "Hello, world!";
    proof {
        reveal_strlit("Hello, world!");
        assert(text@ =~= greeting());
        lemma_greeting_shape();
    }
    text
}

/// The greeting has thirteen characters, all of them ASCII, and its UTF-8
/// encoding is `greeting_bytes()`.
pub proof fn lemma_greeting_shape()
    ensures
        greeting().len() == 13,
        is_ascii_chars(greeting()),
        encode_utf8(greeting()) == greeting_bytes(),
{
    is_ascii_chars_encode_utf8(greeting());
    assert(encode_utf8(greeting()) =~= greeting_bytes());
}

/// A line of text: the text itself, closed by exactly one line feed.
pub open spec fn line_of(text: Seq<char>) -> Seq<char> {
    text.push('\n')
}

/// Returns the line that presents the greeting: the result of one call of
/// [`greet`], followed by a single line feed and nothing else.
///
/// Writing this value to standard output, unchanged, is all that a program
/// presenting the greeting has to do.
pub fn greeting_line() -> (line: String)
    ensures
        line@ == line_of(greeting()),
{
    let mut line = greet().to_owned();
    line.append("\n");
    proof {
        reveal_strlit("\n");
        assert(line@ =~= line_of(greeting()));
    }
    line
}

/// The line that presents the greeting has fourteen characters, all of them
/// ASCII; the line feed is its last character and occurs nowhere else; and
/// its UTF-8 encoding is the greeting's bytes followed by the byte `0x0a`.
pub proof fn lemma_greeting_line_shape()
    ensures
        line_of(greeting()).len() == 14,
        line_of(greeting()).subrange(0, 13) == greeting(),
        forall|i: int| 0 <= i < 14 ==> (#[trigger] line_of(greeting())[i] == '\n' <==> i == 13),
        is_ascii_chars(line_of(greeting())),
        encode_utf8(line_of(greeting())) == greeting_bytes().push(0x0au8),
{
    let line = line_of(greeting());
    assert(line.subrange(0, 13) =~= greeting());
    is_ascii_chars_encode_utf8(line);
    assert(encode_utf8(line) =~= greeting_bytes().push(0x0au8));
}

/// Calling [`greet`] again changes nothing: any two of its results hold the
/// same characters and the same bytes.
pub proof fn lemma_greet_is_constant(first: &str, second: &str)
    requires
        first@ == greeting(),
        second@ == greeting(),
    ensures
        first@ == second@,
        first.spec_bytes() == second.spec_bytes(),
{
}

/// Calling [`greeting_line`] again changes nothing: any two of its results
/// hold the same characters.
pub proof fn lemma_greeting_line_is_constant(first: String, second: String)
    requires
        first@ == line_of(greeting()),
        second@ == line_of(greeting()),
    ensures
        first@ == second@,
{
}

} // verus!
