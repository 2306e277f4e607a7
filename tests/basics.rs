use rust_basics::control_flow::{for_loop, loops, value_in_cents, whiles, Coin, LoopEnds, UsState};
use rust_basics::functions::{add_nums, function_return, route, IpAddrKind};
use rust_basics::largest::{largest_char, largest_i32};
use rust_basics::ownership::{
    calculate_length, calculate_length_tup, change, first_word, gives_ownership, no_dangle,
    scope, takes_and_gives_back,
};
use rust_basics::users::{build_user, build_user_verbose};
use rust_basics::variables::shadow;

#[test]
fn loops_end_where_expected() {
    assert_eq!(loops(), LoopEnds { passes: 6, result: 20, end_count: 2 });
}

#[test]
fn countdowns() {
    assert_eq!(whiles(), vec![3, 2, 1]);
    let (elements, countdown) = for_loop();
    assert_eq!(elements, vec![10, 20, 30, 40, 50]);
    assert_eq!(countdown, vec![3, 2, 1]);
}

#[test]
fn coins_are_worth_their_cents() {
    assert_eq!(value_in_cents(Coin::Penny), 1);
    assert_eq!(value_in_cents(Coin::Nickel), 5);
    assert_eq!(value_in_cents(Coin::Dime), 10);
    assert_eq!(value_in_cents(Coin::Quarter(UsState::Alaska)), 25);
    assert_eq!(value_in_cents(Coin::Quarter(UsState::Alabama)), 25);
}

#[test]
fn functions_return_values() {
    assert_eq!(function_return(), 5);
    assert_eq!(add_nums(4, 3), 7);
    assert_eq!(add_nums(i32::MAX, -1), i32::MAX - 1);
    assert_eq!(route(IpAddrKind::V4), IpAddrKind::V4);
    assert_eq!(route(IpAddrKind::V6), IpAddrKind::V6);
}

#[test]
fn largest_elements() {
    assert_eq!(*largest_i32(&[34, 50, 25, 100, 65]), 100);
    assert_eq!(*largest_i32(&[102, 34, 6000, 89, 54, 2, 43, 8]), 6000);
    assert_eq!(*largest_i32(&[-5]), -5);
    assert_eq!(*largest_char(&['y', 'm', 'a', 'q']), 'y');
}

#[test]
fn strings_move_and_borrow() {
    scope();
    assert_eq!(gives_ownership(), ", Mom!");
    assert_eq!(takes_and_gives_back(String::from("Hi")), "Hi");
    let (s, len) = calculate_length_tup(String::from("hello"));
    assert_eq!(s, "hello");
    assert_eq!(len, 5);
    assert_eq!(calculate_length(&String::from("hello again")), 11);
    assert_eq!(calculate_length(&String::from("héllo")), 6);
    let mut s = String::from("Hi");
    change(&mut s);
    assert_eq!(s, "Hi, Mom!");
    assert_eq!(no_dangle(), "hello");
}

#[test]
fn first_words() {
    assert_eq!(first_word("Hi Mom!"), "Hi");
    assert_eq!(first_word("hello world"), "hello");
    assert_eq!(first_word(&"hello world"[0..6]), "hello");
    assert_eq!(first_word("hello"), "hello");
    assert_eq!(first_word(""), "");
    assert_eq!(first_word(" leading"), "");
}

#[test]
fn new_users_are_active() {
    let u = build_user_verbose(String::from("email@email.com"), String::from("a_username"));
    assert!(u.active);
    assert_eq!(u.email, "email@email.com");
    assert_eq!(u.username, "a_username");
    assert_eq!(u.sign_in_count, 1);
    let u = build_user(String::from("email2@email.com"), String::from("a_username"));
    assert!(u.active);
    assert_eq!(u.email, "email2@email.com");
    assert_eq!(u.username, "a_username");
    assert_eq!(u.sign_in_count, 1);
}

#[test]
fn shadowed_values() {
    let r = shadow();
    assert_eq!(r.inner, 12);
    assert_eq!(r.outer, 6);
    assert_eq!(r.spaces, 6);
}
