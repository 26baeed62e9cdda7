use oop::control_flow::{calculate_fibonacci, degc_to_degf, degf_to_degc, gift, ordinal, verse};
use oop::enums::{dice_roll, plus_one, value_in_cents, Coin, HatAction, IpAddr, Ipv4Addr, Ipv6Addr, UsState};
use oop::restaurant::{cook_order, fix_incorrect_order, Appetizer, Breakfast};
use oop::slices::{first_word, last_char_of_first_line};
use oop::structs::{area1, area2, area3, build_user, Rectangle};

#[test]
fn temperatures_pass_through() {
    assert_eq!(212, degf_to_degc(212));
    assert_eq!(0, degc_to_degf(0));
}

#[test]
fn fibonacci_values() {
    assert_eq!(0, calculate_fibonacci(0));
    assert_eq!(1, calculate_fibonacci(1));
    assert_eq!(1, calculate_fibonacci(2));
    assert_eq!(55, calculate_fibonacci(10));
    assert_eq!(6765, calculate_fibonacci(20));
    assert_eq!(-4, calculate_fibonacci(-4));
}

#[test]
fn fibonacci_largest_that_fits() {
    assert_eq!(1836311903, calculate_fibonacci(46));
}

#[test]
fn carol_words() {
    assert_eq!("first", ordinal(1));
    assert_eq!("twelfth", ordinal(12));
    assert_eq!("", ordinal(13));
    assert_eq!("a partridge in a pear tree.\n", gift(1));
    assert_eq!("Twelve drummers drumming,", gift(12));
    assert_eq!("", gift(0));
}

#[test]
fn carol_verses() {
    assert_eq!(
        vec![
            String::from("On the first day of Christmas\nmy true love sent to me"),
            String::from("a partridge in a pear tree.\n"),
        ],
        verse(1)
    );
    assert_eq!(
        vec![
            String::from("On the third day of Christmas\nmy true love sent to me"),
            String::from("three French hens,"),
            String::from("two turtle doves,"),
            String::from("and a partridge in a pear tree.\n"),
        ],
        verse(3)
    );
    assert_eq!(13, verse(12).len());
}

#[test]
fn coins_and_dice() {
    assert_eq!(1, value_in_cents(Coin::Penny));
    assert_eq!(5, value_in_cents(Coin::Nickel));
    assert_eq!(10, value_in_cents(Coin::Dime));
    assert_eq!(25, value_in_cents(Coin::Quarter(UsState::Alaska)));
    assert_eq!(Some(6), plus_one(Some(5)));
    assert_eq!(None, plus_one(None));
    assert_eq!(HatAction::AddFancyHat, dice_roll(3));
    assert_eq!(HatAction::RemoveFancyHat, dice_roll(7));
    assert_eq!(HatAction::Nothing, dice_roll(9));
}

#[test]
fn addresses_keep_their_text() {
    let v4 = IpAddr::V4(Ipv4Addr::new(String::from("127.0.0.1")));
    let v6 = IpAddr::V6(Ipv6Addr::new(String::from("::1")));
    assert!(format!("{:?}", v4).contains("127.0.0.1"));
    assert!(format!("{:?}", v6).contains("::1"));
}

#[test]
fn first_words() {
    assert_eq!("hello", first_word("hello world"));
    assert_eq!("hello", first_word(&String::from("hello world")[0..6]));
    assert_eq!("single", first_word("single"));
    assert_eq!("", first_word(" leading"));
    assert_eq!("", first_word(""));
    assert_eq!("grüße", first_word("grüße aus"));
}

#[test]
fn last_chars_of_first_lines() {
    assert_eq!(Some('o'), last_char_of_first_line("hello\nworld"));
    assert_eq!(Some('o'), last_char_of_first_line("hello\r\nworld"));
    assert_eq!(Some('\r'), last_char_of_first_line("hello\r"));
    assert_eq!(Some('d'), last_char_of_first_line("word"));
    assert_eq!(None, last_char_of_first_line(""));
    assert_eq!(None, last_char_of_first_line("\nsecond"));
    assert_eq!(None, last_char_of_first_line("\r\nsecond"));
}

#[test]
fn users_and_rectangles() {
    let user = build_user(String::from("user2@example.com"), String::from("user2"));
    assert!(user.active);
    assert_eq!(1, user.sign_in_count);
    assert_eq!("user2@example.com", user.email);
    assert_eq!("user2", user.username);
    assert_eq!(100, area1(10, 10));
    assert_eq!(2500, area2((50, 50)));
    assert_eq!(20000, area3(&Rectangle { width: 100, height: 200 }));
    assert_eq!(u32::MAX, area1(u32::MAX, 1));
}

#[test]
fn breakfast_and_orders() {
    let meal = Breakfast::summer("Rye");
    assert_eq!("Rye", meal.toast);
    let _soup = Appetizer::Soup;
    let _salad = Appetizer::Salad;
    fix_incorrect_order();
    cook_order();
}
