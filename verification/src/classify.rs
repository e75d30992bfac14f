//! Classifiers that sort a value into one of a few named groups.

use vstd::prelude::*;

verus! {

/// The half of the lower-case alphabet that a character falls in.
#[derive(Clone, Copy, Debug, PartialEq, Eq, Structural)]
pub enum LetterGroup {
    /// `'a'` to `'j'`.
    Early,
    /// `'k'` to `'z'`.
    Late,
    /// Any other character.
    Other,
}

/// Sorts a character into the early or the late lower-case letters.
pub fn letter_group(c: char) -> (g: LetterGroup)
    ensures
        g == LetterGroup::Early <==> 'a' <= c <= 'j',
        g == LetterGroup::Late <==> 'k' <= c <= 'z',
{
    match c {
        'a'..='j' => LetterGroup::Early,
        'k'..='z' => LetterGroup::Late,
        _ => LetterGroup::Other,
    }
}

/// The range that an identifier was found in.
#[derive(Clone, Copy, Debug, PartialEq, Eq, Structural)]
pub enum IdRange {
    /// In 3 to 7; the identifier is kept.
    Low(i32),
    /// In 10 to 12; the identifier is not kept.
    High,
    /// In neither range; the identifier is kept.
    Outside(i32),
}

/// Sorts an identifier by the two ranges 3 to 7 and 10 to 12.
pub fn id_range(id: i32) -> (r: IdRange)
    ensures
        3 <= id <= 7 ==> r == IdRange::Low(id),
        10 <= id <= 12 ==> r == IdRange::High,
        !(3 <= id <= 7) && !(10 <= id <= 12) ==> r == IdRange::Outside(id),
{
    match id {
        3..=7 => IdRange::Low(id),
        10..=12 => IdRange::High,
        _ => IdRange::Outside(id),
    }
}

/// Whether a number is even or odd.
#[derive(Clone, Copy, Debug, PartialEq, Eq, Structural)]
pub enum Parity {
    Even,
    Odd,
}

/// The parity of the number, where there is one.
pub fn parity(num: Option<i32>) -> (p: Option<Parity>)
    ensures
        num is None <==> p is None,
        num matches Some(x) ==> p == Some(
            if x % 2 == 0 {
                Parity::Even
            } else {
                Parity::Odd
            },
        ),
{
    match num {
        Some(x) if x % 2 == 0 => Some(Parity::Even),
        Some(_) => Some(Parity::Odd),
        None => None,
    }
}

/// What a look at an optional number found.
#[derive(Clone, Copy, Debug, PartialEq, Eq, Structural)]
pub enum Found {
    /// The number 50.
    Fifty,
    /// Another number, which is given.
    Number(i32),
    /// No number.
    Nothing,
}

/// Looks for 50 first, then for any number.
pub fn find_fifty(x: Option<i32>) -> (f: Found)
    ensures
        f == match x {
            Some(n) => if n == 50 {
                Found::Fifty
            } else {
                Found::Number(n)
            },
            None => Found::Nothing,
        },
{
    match x {
        Some(50) => Found::Fifty,
        Some(y) => Found::Number(y),
        _ => Found::Nothing,
    }
}

} // verus!
