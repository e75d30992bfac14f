//! A setting that keeps its customized value, and the background color
//! picked from what is known of the user.

use vstd::prelude::*;

verus! {

/// Takes over `new` unless both the setting and `new` hold a value: a
/// customized value is never overwritten by another, but it can be cleared.
///
/// Returns whether the overwrite was refused.
pub fn update_setting(setting: &mut Option<i32>, new: Option<i32>) -> (refused: bool)
    ensures
        refused <==> (*old(setting)) is Some && new is Some,
        *final(setting) == if refused {
            *old(setting)
        } else {
            new
        },
{
    match (*setting, new) {
        (Some(_), Some(_)) => true,
        _ => {
            *setting = new;
            false
        },
    }
}

/// A background color.
#[derive(Clone, Copy, Debug, PartialEq, Eq)]
pub enum Background<'a> {
    /// The user's favorite color.
    Favorite(&'a str),
    Green,
    Purple,
    Orange,
    Blue,
}

/// The choice that `background` makes.
pub open spec fn spec_background<'a, E>(
    favorite_color: Option<&'a str>,
    is_tuesday: bool,
    age: Result<u8, E>,
) -> Background<'a> {
    match favorite_color {
        Some(color) => Background::Favorite(color),
        None => if is_tuesday {
            Background::Green
        } else {
            match age {
                Ok(years) => if years > 30 {
                    Background::Purple
                } else {
                    Background::Orange
                },
                Err(_) => Background::Blue,
            }
        },
    }
}

/// Picks the background: the favorite color where one is given, else green
/// on a Tuesday, else purple for those over thirty and orange for the
/// others, and blue where the age is not known.
pub fn background<'a, E>(
    favorite_color: Option<&'a str>,
    is_tuesday: bool,
    age: Result<u8, E>,
) -> (b: Background<'a>)
    ensures
        b == spec_background(favorite_color, is_tuesday, age),
{
    if let Some(color) = favorite_color {
        Background::Favorite(color)
    } else if is_tuesday {
        Background::Green
    } else if let Ok(age) = age {
        if age > 30 {
            Background::Purple
        } else {
            Background::Orange
        }
    } else {
        Background::Blue
    }
}

} // verus!
