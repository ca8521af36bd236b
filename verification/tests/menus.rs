use shared_prims::colors::PrimaryColor;
use shared_prims::colors::SecondaryColor;
use shared_prims::colors::mix;
use shared_prims::restaurant::Appetizer;
use shared_prims::restaurant::Breakfast;
use shared_prims::restaurant::add_to_waitlist;

#[test]
fn summer_breakfast_takes_the_requested_toast() {
    let mut meal = Breakfast::summer("Rye");
    assert_eq!(meal.toast, "Rye");
    meal.toast = String::from("Wheat");
    assert_eq!(meal.toast, "Wheat");
    let _soup = Appetizer::Soup;
    let _salad = Appetizer::Salad;
    add_to_waitlist();
}

#[test]
fn mixing_primaries_gives_green() {
    assert!(matches!(mix(PrimaryColor::Red, PrimaryColor::Yellow), SecondaryColor::Green));
    assert!(matches!(mix(PrimaryColor::Blue, PrimaryColor::Blue), SecondaryColor::Green));
}
