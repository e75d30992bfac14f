use primer::naming::{Animal, Dog};

#[test]
fn dog_names_its_puppy_spot() {
    assert_eq!(Dog::baby_name(), "Spot");
}

#[test]
fn a_young_dog_is_a_puppy() {
    assert_eq!(<Dog as Animal>::baby_name(), "puppy");
}

#[test]
fn the_two_names_differ() {
    assert_ne!(Dog::baby_name(), <Dog as Animal>::baby_name());
}
