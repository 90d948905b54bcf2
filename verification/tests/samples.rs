use example_runner::samples::borrowing::{
    append_exclamation, calculate_length, change, count_words, double_values, find_longest_word,
    first_word, longest_among, no_dangle, sum_slice,
};
use example_runner::samples::coins::{Coin, UsState};
use example_runner::samples::numbers::{double_parsed, process_number, try_process_number};
use example_runner::samples::options::{find_item, plus_one, same_text};
use example_runner::samples::shapes::Rectangle;
use example_runner::samples::tuples::{calculate, divide_with_remainder, get_user_info};
use example_runner::samples::validation::{
    can_vote, is_in_range, is_strong_password, is_valid_age, is_valid_username,
};

#[test]
fn calculate_gives_sum_and_product() {
    assert_eq!(calculate(5, 10), (15, 50));
    assert_eq!(calculate(-3, 4), (1, -12));
    assert_eq!(calculate(0, 0), (0, 0));
}

#[test]
fn user_info_is_bob() {
    assert_eq!(get_user_info(), (String::from("Bob"), 25, true));
}

#[test]
fn division_rounds_toward_zero() {
    assert_eq!(divide_with_remainder(17, 5), (3, 2));
    assert_eq!(divide_with_remainder(-17, 5), (-3, -2));
    assert_eq!(divide_with_remainder(17, -5), (-3, 2));
    assert_eq!(divide_with_remainder(-17, -5), (3, -2));
    assert_eq!(divide_with_remainder(0, 7), (0, 0));
    assert_eq!(divide_with_remainder(i32::MIN, 1), (i32::MIN, 0));
    assert_eq!(divide_with_remainder(i32::MIN, 2), (i32::MIN / 2, 0));
    assert_eq!(divide_with_remainder(i32::MAX, -1), (-i32::MAX, 0));
}

#[test]
fn length_counts_bytes() {
    assert_eq!(calculate_length(&String::from("hello")), 5);
    assert_eq!(calculate_length(&String::new()), 0);
    assert_eq!(calculate_length(&String::from("h\u{e9}llo")), 6);
}

#[test]
fn change_appends_world() {
    let mut s = String::from("hello");
    change(&mut s);
    assert_eq!(s, "hello, world");
}

#[test]
fn no_dangle_hands_over_hello() {
    assert_eq!(no_dangle(), "hello");
}

#[test]
fn append_exclamation_appends_three() {
    let mut s = String::from("Hello");
    append_exclamation(&mut s);
    assert_eq!(s, "Hello!!!");
    let mut empty = String::new();
    append_exclamation(&mut empty);
    assert_eq!(empty, "!!!");
}

#[test]
fn first_word_stops_at_first_space() {
    assert_eq!(first_word("hello world"), "hello");
    assert_eq!(first_word("hello"), "hello");
    assert_eq!(first_word(""), "");
    assert_eq!(first_word(" leading"), "");
    assert_eq!(first_word("a b c"), "a");
    assert_eq!(first_word("caf\u{e9} au lait"), "caf\u{e9}");
    assert_eq!(first_word("tab\tis no space"), "tab\tis");
}

#[test]
fn sum_slice_adds_up() {
    let a = [1, 2, 3, 4, 5];
    assert_eq!(sum_slice(&a[..]), 15);
    assert_eq!(sum_slice(&a[1..4]), 9);
    assert_eq!(sum_slice(&[]), 0);
    assert_eq!(sum_slice(&[i32::MAX, -1, -i32::MAX]), -1);
}

#[test]
fn count_words_splits_on_whitespace() {
    assert_eq!(count_words("The quick brown fox"), 4);
    assert_eq!(count_words(""), 0);
    assert_eq!(count_words("   "), 0);
    assert_eq!(count_words("  two\t\nwords  "), 2);
}

#[test]
fn double_values_doubles_each() {
    let mut numbers = vec![1, 2, 3, 4, 5];
    double_values(&mut numbers);
    assert_eq!(numbers, vec![2, 4, 6, 8, 10]);
    let mut mixed = vec![-7, 0, i32::MAX / 2];
    double_values(&mut mixed);
    assert_eq!(mixed, vec![-14, 0, i32::MAX - 1]);
    let mut empty: Vec<i32> = Vec::new();
    double_values(&mut empty);
    assert!(empty.is_empty());
}

#[test]
fn longest_word_is_first_of_the_longest() {
    assert_eq!(find_longest_word("Rust is a systems programming language"), "programming");
    assert_eq!(find_longest_word("aa bb cc"), "aa");
    assert_eq!(find_longest_word("a bbb cc ddd"), "bbb");
    assert_eq!(find_longest_word(""), "");
    assert_eq!(find_longest_word(" \t "), "");
    assert_eq!(find_longest_word("  padded  "), "padded");
}

#[test]
fn longest_among_given_words() {
    assert_eq!(longest_among(&["x", "yyy", "zz"]), "yyy");
    assert_eq!(longest_among(&["same", "size"]), "same");
    assert_eq!(longest_among(&[]), "");
    assert_eq!(longest_among(&["", ""]), "");
    // Length is counted in bytes: two accented letters outweigh three plain ones.
    assert_eq!(longest_among(&["abc", "\u{e9}\u{e9}"]), "\u{e9}\u{e9}");
}

#[test]
fn states_existed_after_statehood() {
    assert!(UsState::Alabama.existed_in(1819));
    assert!(!UsState::Alabama.existed_in(1818));
    assert!(UsState::Alaska.existed_in(1959));
    assert!(!UsState::Alaska.existed_in(1900));
    assert!(UsState::California.existed_in(1900));
    assert!(!UsState::California.existed_in(1849));
    assert!(UsState::Texas.existed_in(1845));
    assert!(!UsState::Texas.existed_in(1844));
    assert_eq!(Coin::Quarter(UsState::Texas), Coin::Quarter(UsState::Texas));
    assert_ne!(Coin::Quarter(UsState::Texas), Coin::Penny);
}

#[test]
fn plus_one_of_options() {
    assert_eq!(plus_one(Some(5)), Some(6));
    assert_eq!(plus_one(None), None);
    assert_eq!(plus_one(Some(-1)), Some(0));
    assert_eq!(plus_one(Some(i32::MAX - 1)), Some(i32::MAX));
}

#[test]
fn find_item_gives_first_match() {
    let items = ["apple", "banana", "cherry", "banana"];
    assert_eq!(find_item(&items, "banana"), Some(1));
    assert_eq!(find_item(&items, "apple"), Some(0));
    assert_eq!(find_item(&items, "orange"), None);
    assert_eq!(find_item(&items, "banan"), None);
    assert_eq!(find_item(&[], "apple"), None);
}

#[test]
fn same_text_compares_contents() {
    assert!(same_text("abc", "abc"));
    assert!(same_text("", ""));
    assert!(!same_text("abc", "abd"));
    assert!(!same_text("abc", "ab"));
    assert!(!same_text("", "a"));
}

#[test]
fn rectangle_measures() {
    let rect = Rectangle::new(30, 50);
    assert_eq!(rect.area(), 1500);
    assert_eq!(rect.perimeter(), 160);
    assert!(!rect.is_square());
    assert_eq!(rect.width(), 30);
    assert!(rect.has_width());
    assert!(!Rectangle::new(0, 4).has_width());
    assert!(Rectangle::square(25).is_square());
    assert_eq!(Rectangle::square(25), Rectangle { width: 25, height: 25 });
    assert_eq!(Rectangle::default(), Rectangle { width: 1, height: 1 });
}

#[test]
fn rectangle_can_hold_needs_room_on_both_sides() {
    let rect1 = Rectangle::new(30, 50);
    assert!(rect1.can_hold(&Rectangle::new(10, 40)));
    assert!(!rect1.can_hold(&Rectangle::new(60, 45)));
    assert!(!rect1.can_hold(&Rectangle::new(30, 10)));
    assert!(rect1.can_hold(&Rectangle::square(25)));
}

#[test]
fn rectangle_changes_in_place() {
    let mut rect = Rectangle::new(10, 20);
    rect.set_width(15);
    assert_eq!(rect, Rectangle::new(15, 20));
    rect.set_height(25);
    assert_eq!(rect, Rectangle::new(15, 25));
    rect.scale(2);
    assert_eq!(rect, Rectangle::new(30, 50));
    rect.double();
    assert_eq!(rect, Rectangle::new(60, 100));
    rect.resize(3, 4);
    assert_eq!(rect, Rectangle::new(3, 4));
    rect.scale(0);
    assert_eq!(rect, Rectangle::new(0, 0));
}

#[test]
fn rectangle_max_and_square() {
    let max = Rectangle::new(30, 50).max(Rectangle::new(40, 20));
    assert_eq!(max, Rectangle::new(40, 50));
    assert_eq!(Rectangle::new(30, 50).into_square(), Rectangle::square(50));
    assert_eq!(Rectangle::new(70, 50).into_square(), Rectangle::square(70));
}

#[test]
fn validation_of_numbers() {
    assert!(is_valid_age(25));
    assert!(!is_valid_age(-5));
    assert!(is_valid_age(0));
    assert!(is_valid_age(150));
    assert!(!is_valid_age(151));
    assert!(is_in_range(85, 0, 100));
    assert!(is_in_range(0, 0, 100));
    assert!(is_in_range(100, 0, 100));
    assert!(!is_in_range(101, 0, 100));
    assert!(!is_in_range(5, 10, 0));
    assert!(can_vote(20, true, true));
    assert!(!can_vote(16, true, true));
    assert!(can_vote(18, true, true));
    assert!(!can_vote(30, false, true));
    assert!(!can_vote(30, true, false));
}

#[test]
fn validation_of_text() {
    assert!(is_valid_username("john"));
    assert!(!is_valid_username("ab"));
    assert!(!is_valid_username(""));
    assert!(is_valid_username("abc"));
    assert!(is_valid_username("abcdefghijklmnopqrst"));
    assert!(!is_valid_username("abcdefghijklmnopqrstu"));
    assert!(is_strong_password("Password123"));
    assert!(!is_strong_password("weak"));
    assert!(!is_strong_password("password123"));
    assert!(!is_strong_password("PASSWORD123"));
    assert!(!is_strong_password("Passwordabc"));
    assert!(!is_strong_password("Pass12"));
}

#[test]
fn process_number_doubles_what_it_reads() {
    assert_eq!(process_number("42"), Ok(84));
    assert_eq!(process_number("-21"), Ok(-42));
    assert_eq!(process_number("+7"), Ok(14));
    assert_eq!(process_number("0"), Ok(0));
    assert_eq!(process_number("abc"), Err(String::from("'abc' is not a valid number")));
    assert_eq!(process_number(""), Err(String::from("'' is not a valid number")));
    assert_eq!(process_number("4 2"), Err(String::from("'4 2' is not a valid number")));
    assert_eq!(process_number("99999999999"), Err(String::from("'99999999999' is not a valid number")));
}

#[test]
fn try_process_number_declines_an_overflowing_double() {
    assert_eq!(try_process_number("42"), Some(Ok(84)));
    assert_eq!(try_process_number("1073741823"), Some(Ok(2147483646)));
    assert_eq!(try_process_number("1073741824"), None);
    assert_eq!(try_process_number("-1073741824"), Some(Ok(i32::MIN)));
    assert_eq!(try_process_number("-1073741825"), None);
    assert_eq!(
        try_process_number("x"),
        Some(Err(String::from("'x' is not a valid number")))
    );
}

#[test]
fn double_parsed_works_on_what_it_is_given() {
    assert_eq!(double_parsed("ignored", Some(5)), Ok(10));
    assert_eq!(double_parsed("12", None), Err(String::from("'12' is not a valid number")));
}
