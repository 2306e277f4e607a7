use rust_basics::front_desk::{
    self, customer, function1, function2, function3, function4, host, hosting as desk_hosting, insert,
};
use rust_basics::restaurant::back_of_house::{cook_order, fix_incorrect_order, Appetizer, Breakfast};
use rust_basics::restaurant::{
    _eat_at_restaurant, eat_again, eat_at_restaurant, hosting, serving,
};

#[test]
fn summer_breakfast_keeps_the_toast() {
    let mut meal = Breakfast::summer("Rye");
    assert_eq!(meal.toast, "Rye");
    assert_eq!(meal.toast(), "Rye");
    meal.set_toast("Wheat");
    assert_eq!(meal.toast(), "Wheat");
}

#[test]
fn order_line_asks_for_wheat() {
    assert_eq!(eat_at_restaurant(), "I'd like Wheat toast please");
}

#[test]
fn appetizers_differ() {
    assert_ne!(Appetizer::Soup, Appetizer::Salad);
}

#[test]
fn kitchen_and_front_run() {
    _eat_at_restaurant();
    eat_again();
    hosting::add_to_waitlist();
    hosting::seat_at_table();
    serving::take_order();
    serving::serve_order();
    serving::take_payment();
    cook_order();
    fix_incorrect_order();
}

#[test]
fn front_desk_paths() {
    front_desk::eat_at_restaurant();
    customer::eat_at_restaurant();
    desk_hosting::add_to_waitlist();
    host::add_to_waitlist();
    front_desk::call();
    assert!(function1().is_ok());
    assert!(function2().is_ok());
    assert!(function3().is_ok());
    assert!(function4().is_ok());
}

#[test]
fn insert_builds_one_entry() {
    let map = insert();
    assert_eq!(map.len(), 1);
    assert_eq!(map.get(&1), Some(&2));
}
