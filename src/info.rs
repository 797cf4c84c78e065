use vstd::prelude::*;
use vstd::utf8::{decode_utf8, encode_utf8_decode_utf8, valid_utf8};
use vstd::string::StringSliceAdditionalSpecFns;

verus! {

/// The four counts taken over one input.
#[derive(Debug, Clone, Copy, PartialEq, Eq, Structural)]
pub struct FileInfo {
    pub num_lines: usize,
    pub num_words: usize,
    pub num_bytes: usize,
    pub num_chars: usize,
}

impl Default for FileInfo {
    fn default() -> (r: Self)
        ensures
            r == zero_info(),
    {
        FileInfo { num_lines: 0, num_words: 0, num_bytes: 0, num_chars: 0 }
    }
}

/// All four counts zero.
pub open spec fn zero_info() -> FileInfo {
    FileInfo { num_lines: 0, num_words: 0, num_bytes: 0, num_chars: 0 }
}

/// Why an input could not be counted.
#[derive(Debug, Clone, Copy, PartialEq, Eq, Structural)]
pub enum CountError {
    /// The input is not valid UTF-8.
    InvalidUtf8,
}

impl CountError {
    /// The message reported for this error.
    pub fn message(&self) -> (r: String)
        ensures
            r@ == count_error_text(),
    {
        String::from_str("stream did not contain valid UTF-8")
    }
}

pub open spec fn count_error_text() -> Seq<char> {
    "stream did not contain valid UTF-8"@
}

/// Number of line-feed bytes in `b`.
pub open spec fn newline_count(b: Seq<u8>) -> nat
    decreases b.len(),
{
    if b.len() == 0 {
        0
    } else {
        newline_count(b.drop_last()) + if b.last() == 10u8 { 1nat } else { 0nat }
    }
}

/// Number of lines in `b`: each line-feed ends one, and a non-empty tail without one
/// is one more.
pub open spec fn line_count(b: Seq<u8>) -> nat {
    newline_count(b) + if b.len() > 0 && b.last() != 10u8 { 1nat } else { 0nat }
}

/// Whether `c` is white space in the sense of `char::is_whitespace`.
pub uninterp spec fn white_space(c: char) -> bool;

/// Number of maximal runs of `false` in `spaces`: with `spaces[i]` telling whether
/// the `i`-th character is white space, the number of words.
pub open spec fn word_starts(spaces: Seq<bool>) -> nat
    decreases spaces.len(),
{
    if spaces.len() == 0 {
        0
    } else {
        let n = spaces.len() - 1;
        word_starts(spaces.drop_last()) + if !spaces[n] && (n == 0 || spaces[n - 1]) {
            1nat
        } else {
            0nat
        }
    }
}

/// The white-space mask of a character sequence.
pub open spec fn space_mask(s: Seq<char>) -> Seq<bool> {
    s.map_values(|c: char| white_space(c))
}

/// Number of words in a character sequence: maximal runs of non-white-space characters.
pub open spec fn word_count(s: Seq<char>) -> nat {
    word_starts(space_mask(s))
}

/// What counting the bytes `b` yields.
pub open spec fn counts_of(b: Seq<u8>) -> Result<FileInfo, CountError> {
    if valid_utf8(b) {
        let s = decode_utf8(b);
        Ok(
            FileInfo {
                num_lines: line_count(b) as usize,
                num_words: word_count(s) as usize,
                num_bytes: b.len() as usize,
                num_chars: s.len() as usize,
            },
        )
    } else {
        Err(CountError::InvalidUtf8)
    }
}

proof fn lemma_newline_count_bound(b: Seq<u8>)
    ensures
        newline_count(b) <= b.len(),
    decreases b.len(),
{
    if b.len() > 0 {
        lemma_newline_count_bound(b.drop_last());
    }
}

proof fn lemma_line_count_bound(b: Seq<u8>)
    ensures
        line_count(b) <= b.len(),
{
    if b.len() > 0 {
        lemma_newline_count_bound(b.drop_last());
    }
}

proof fn lemma_word_starts_bound(m: Seq<bool>)
    ensures
        word_starts(m) <= m.len(),
    decreases m.len(),
{
    if m.len() > 0 {
        lemma_word_starts_bound(m.drop_last());
    }
}

/// Relies on `std::str::from_utf8`: it accepts exactly the valid UTF-8 byte sequences,
/// and the string slice it returns is made of those same bytes.
#[verifier::external_body]
fn utf8_str(b: &[u8]) -> (r: Option<&str>)
    ensures
        r is Some <==> valid_utf8(b@),
        r matches Some(s) ==> s.spec_bytes() == b@,
{
    std::str::from_utf8(b).ok()
}

/// Relies on `char::is_whitespace`: whether the character has Unicode's White_Space
/// property, which depends on the character alone.
#[verifier::external_body]
fn is_white_space(c: char) -> (r: bool)
    ensures
        r == white_space(c),
{
    c.is_whitespace()
}

/// Counts the words described by a white-space mask: `spaces[i]` tells whether the
/// `i`-th character is white space, and a word is a maximal run of other characters.
pub fn count_words(spaces: &[bool]) -> (r: usize)
    ensures
        r == word_starts(spaces@),
{
    let mut n: usize = 0;
    let mut i: usize = 0;
    while i < spaces.len()
        invariant
            i <= spaces@.len(),
            n == word_starts(spaces@.subrange(0, i as int)),
            n <= i,
        decreases spaces@.len() - i,
    {
        proof {
            lemma_word_starts_bound(spaces@.subrange(0, i as int));
            assert(spaces@.subrange(0, i + 1).drop_last() =~= spaces@.subrange(0, i as int));
        }
        if !spaces[i] && (i == 0 || spaces[i - 1]) {
            n = n + 1;
        }
        i = i + 1;
    }
    assert(spaces@.subrange(0, spaces@.len() as int) =~= spaces@);
    n
}

/// Counts the lines of `b`.
fn count_lines(b: &[u8]) -> (r: usize)
    ensures
        r == line_count(b@),
{
    let mut n: usize = 0;
    let mut i: usize = 0;
    while i < b.len()
        invariant
            i <= b@.len(),
            n == newline_count(b@.subrange(0, i as int)),
            n <= i,
        decreases b@.len() - i,
    {
        proof {
            lemma_newline_count_bound(b@.subrange(0, i as int));
            assert(b@.subrange(0, i + 1).drop_last() =~= b@.subrange(0, i as int));
        }
        if b[i] == 10u8 {
            n = n + 1;
        }
        i = i + 1;
    }
    assert(b@.subrange(0, b@.len() as int) =~= b@);
    proof {
        lemma_line_count_bound(b@);
    }
    if b.len() > 0 && b[b.len() - 1] != 10u8 {
        n = n + 1;
    }
    n
}

/// Counts the lines, words, bytes and characters of `data`, which must be UTF-8.
pub fn count(data: &[u8]) -> (r: Result<FileInfo, CountError>)
    ensures
        r == counts_of(data@),
{
    match utf8_str(data) {
        None => Err(CountError::InvalidUtf8),
        Some(text) => {
            proof {
                encode_utf8_decode_utf8(text@);
            }
            let mut spaces: Vec<bool> = Vec::new();
            for c in it: text.chars()
                invariant
                    it.seq() == text@,
                    spaces@ == space_mask(text@.take(it.index() as int)),
            {
                assert(space_mask(text@.take(it.index() + 1)) =~= space_mask(
                    text@.take(it.index() as int),
                ).push(white_space(c)));
                spaces.push(is_white_space(c));
            }
            assert(text@.take(text@.len() as int) =~= text@);
            let words = count_words(spaces.as_slice());
            let lines = count_lines(data);
            Ok(FileInfo { num_lines: lines, num_words: words, num_bytes: data.len(), num_chars: spaces.len() })
        },
    }
}

} // verus!
