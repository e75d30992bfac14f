//! Helpers on string slices.
//!
//! A string is viewed as its sequence of characters; where a function works
//! on the bytes underneath, its contract is still stated over the characters
//! and their UTF-8 encoding.

use vstd::prelude::*;
use vstd::utf8::*;

verus! {

/// The byte that encodes the space character.
pub const SPACE: u8 = 0x20;

/// `word` is the first word of `text`: the part of `text` in front of its
/// first space, or all of `text` when it holds no space.
pub open spec fn is_first_word(word: Seq<char>, text: Seq<char>) -> bool {
    &&& word.is_prefix_of(text)
    &&& !word.contains(' ')
    &&& word.len() < text.len() ==> text[word.len() as int] == ' '
}

/// A text has one first word only.
pub proof fn lemma_first_word_unique(a: Seq<char>, b: Seq<char>, text: Seq<char>)
    requires
        is_first_word(a, text),
        is_first_word(b, text),
    ensures
        a == b,
{
    if a.len() < b.len() {
        assert(b[a.len() as int] == ' ');
    } else if b.len() < a.len() {
        assert(a[b.len() as int] == ' ');
    }
    assert(a =~= b);
}

/// The first word of a first word is that word again.
pub proof fn lemma_first_word_idempotent(word: Seq<char>, text: Seq<char>)
    requires
        is_first_word(word, text),
    ensures
        is_first_word(word, word),
{
}

/// A text without a space is its own first word.
pub proof fn lemma_first_word_without_space(word: Seq<char>, text: Seq<char>)
    requires
        is_first_word(word, text),
        !text.contains(' '),
    ensures
        word == text,
{
    assert(word =~= text);
}

/// Every character takes between one and four bytes.
pub proof fn lemma_encoded_length_bounds(chars: Seq<char>)
    ensures
        chars.len() <= encode_utf8(chars).len() <= 4 * chars.len(),
    decreases chars.len(),
{
    if chars.len() > 0 {
        lemma_encoded_length_bounds(chars.drop_first());
    }
}

/// A space among the characters shows as a space byte in their encoding.
proof fn lemma_space_char_gives_space_byte(chars: Seq<char>)
    requires
        chars.contains(' '),
    ensures
        encode_utf8(chars).contains(SPACE),
    decreases chars.len(),
{
    let head = encode_scalar(chars[0] as u32);
    let rest = chars.drop_first();
    let k = choose|k: int| 0 <= k < chars.len() && chars[k] == ' ';
    if chars[0] == ' ' {
        assert((0x20u32 & 0x7F) as u8 == 0x20u8) by (bit_vector);
        assert(head[0] == SPACE);
        assert(encode_utf8(chars)[0] == SPACE);
    } else {
        assert(rest[k - 1] == ' ');
        lemma_space_char_gives_space_byte(rest);
        let j = choose|j: int| 0 <= j < encode_utf8(rest).len() && encode_utf8(rest)[j] == SPACE;
        assert(encode_utf8(chars)[head.len() + j] == SPACE);
    }
}

/// Cutting an encoding in front of a space byte cuts the characters in front
/// of a space.
proof fn lemma_cut_at_space_byte(text: Seq<char>, word: Seq<char>, at: int)
    requires
        0 <= at < encode_utf8(text).len(),
        encode_utf8(text)[at] == SPACE,
        forall|j: int| 0 <= j < at ==> encode_utf8(text)[j] != SPACE,
        encode_utf8(word) == encode_utf8(text).subrange(0, at),
    ensures
        is_first_word(word, text),
{
    let bytes = encode_utf8(text);
    let back = bytes.subrange(at, bytes.len() as int);
    encode_utf8_valid_utf8(text);
    is_char_boundary_iff_not_is_continuation_byte(bytes, at);
    valid_utf8_split(bytes, at);
    decode_utf8_split(bytes, at);
    encode_utf8_decode_utf8(text);
    encode_utf8_decode_utf8(word);
    assert(text == word + decode_utf8(back));
    assert(decode_utf8(back)[0] == ' ') by {
        assert(back[0] == SPACE);
        assert((0x20u8 & 0x7F) as u32 == 0x20u32) by (bit_vector);
    }
    if word.contains(' ') {
        lemma_space_char_gives_space_byte(word);
    }
}

/// The first word of `s`: everything in front of the first space, or all of
/// `s` when there is none.
pub fn first_word(s: &str) -> (word: &str)
    ensures
        is_first_word(word@, s@),
{
    let bytes = s.as_bytes();
    let mut i: usize = 0;
    while i < bytes.len()
        invariant
            i <= bytes@.len(),
            bytes@ == encode_utf8(s@),
            forall|j: int| 0 <= j < i ==> bytes@[j] != SPACE,
        decreases bytes@.len() - i,
    {
        if bytes[i] == SPACE {
            proof {
                encode_utf8_valid_utf8(s@);
                is_char_boundary_iff_not_is_continuation_byte(bytes@, i as int);
            }
            let (word, _) = s.split_at(i);
            proof {
                lemma_cut_at_space_byte(s@, word@, i as int);
            }
            return word;
        }
        i += 1;
    }
    proof {
        if s@.contains(' ') {
            lemma_space_char_gives_space_byte(s@);
        }
    }
    s
}

/// The length of `s` in bytes, which is the length of its UTF-8 encoding.
pub fn calculate_length(s: &String) -> (n: usize)
    ensures
        n == encode_utf8(s@).len(),
{
    s.as_str().as_bytes().len()
}

} // verus!
