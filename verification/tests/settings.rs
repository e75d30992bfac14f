use primer::settings::{background, update_setting, Background};

#[test]
fn customized_value_is_not_overwritten() {
    let mut setting_value = Some(5);
    let new_setting_value = Some(10);
    assert!(update_setting(&mut setting_value, new_setting_value));
    assert_eq!(setting_value, Some(5));
}

#[test]
fn unset_value_takes_the_new_one() {
    let mut setting_value = None;
    assert!(!update_setting(&mut setting_value, Some(10)));
    assert_eq!(setting_value, Some(10));
}

#[test]
fn customized_value_can_be_cleared() {
    let mut setting_value = Some(5);
    assert!(!update_setting(&mut setting_value, None));
    assert_eq!(setting_value, None);
}

#[test]
fn unset_value_stays_unset() {
    let mut setting_value: Option<i32> = None;
    assert!(!update_setting(&mut setting_value, None));
    assert_eq!(setting_value, None);
}

#[test]
fn background_for_a_parsed_age_of_34() {
    let favorite_color: Option<&str> = None;
    let is_tuesday = false;
    let age: Result<u8, _> = "34".parse();
    assert_eq!(background(favorite_color, is_tuesday, age), Background::Purple);
}

#[test]
fn favorite_color_comes_first() {
    let age: Result<u8, ()> = Ok(34);
    assert_eq!(background(Some("teal"), true, age), Background::Favorite("teal"));
    assert_eq!(background(Some("teal"), false, Err(())), Background::Favorite("teal"));
}

#[test]
fn tuesday_is_green() {
    let age: Result<u8, ()> = Ok(34);
    assert_eq!(background(None, true, age), Background::Green);
    assert_eq!(background(None, true, Err(())), Background::Green);
}

#[test]
fn age_of_30_is_orange_and_31_is_purple() {
    let thirty: Result<u8, ()> = Ok(30);
    let thirty_one: Result<u8, ()> = Ok(31);
    assert_eq!(background(None, false, thirty), Background::Orange);
    assert_eq!(background(None, false, thirty_one), Background::Purple);
    assert_eq!(background(None, false, Ok::<u8, ()>(0)), Background::Orange);
    assert_eq!(background(None, false, Ok::<u8, ()>(255)), Background::Purple);
}

#[test]
fn unknown_age_is_blue() {
    let age: Result<u8, _> = "not a number".parse();
    assert_eq!(background(None, false, age), Background::Blue);
}
