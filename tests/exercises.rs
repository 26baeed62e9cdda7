use oop::exercises::{get_midian, get_most_frequent, is_vowel, piglatinize};

#[test]
fn midian() {
    assert_eq!(2, get_midian(&vec![1, 2, 3]));
    assert_eq!(3, get_midian(&vec![1, 2, 3, 4, 5]));
    assert_eq!(-1, get_midian(&vec![]));
    assert_eq!(-1, get_midian(&vec![1, 2, 3, 3]));
}

#[test]
fn most_frequent() {
    assert_eq!(1, get_most_frequent(&vec![1, 2, 1]));
    assert_eq!(2, get_most_frequent(&vec![1, 2, 3, 2]));
    assert_eq!(-1, get_most_frequent(&vec![]));
    assert_eq!(-1, get_most_frequent(&vec![1, 1, 2, 2]));
}

#[test]
fn pig_latin() {
    assert_eq!(String::from("irst-fay"), piglatinize("first"));
    assert_eq!(String::from("apple-hay"), piglatinize("apple"));
    assert_eq!(String::from("ess-may"), piglatinize("mess"));
    assert_eq!(String::from("ather-fay"), piglatinize("father"));
    assert_eq!(String::from("itch-bay"), piglatinize("bitch"));
}

#[test]
fn voel() {
    assert!(is_vowel('a'));
    assert!(!is_vowel('z'));
}

#[test]
fn median_of_unsorted_input_sorts_first() {
    assert_eq!(3, get_midian(&vec![5, 1, 4, 3, 2]));
    assert_eq!(-7, get_midian(&vec![-7]));
    assert_eq!(0, get_midian(&vec![9, -3, 0]));
}

#[test]
fn median_leaves_input_untouched() {
    let v = vec![3, 1, 2];
    assert_eq!(2, get_midian(&v));
    assert_eq!(vec![3, 1, 2], v);
}

#[test]
fn most_frequent_ties_go_to_first_seen() {
    assert_eq!(5, get_most_frequent(&vec![5, 5, 7, 7, 1]));
    assert_eq!(7, get_most_frequent(&vec![1, 7, 7, 5, 5]));
}

#[test]
fn most_frequent_single_value_and_distinct_values() {
    assert_eq!(-1, get_most_frequent(&vec![4]));
    assert_eq!(-1, get_most_frequent(&vec![4, 4, 4]));
    assert_eq!(-1, get_most_frequent(&vec![1, 2, 3]));
    assert_eq!(9, get_most_frequent(&vec![1, 9, 9, 9, 1, 2]));
}

#[test]
fn pig_latin_single_letters_and_unicode() {
    assert_eq!("e-hay", piglatinize("e"));
    assert_eq!("-bay", piglatinize("b"));
    assert_eq!("ber-üay", piglatinize("über"));
}

#[test]
fn all_vowels_recognised() {
    for c in ['a', 'e', 'i', 'o', 'u'] {
        assert!(is_vowel(c));
    }
    for c in ['A', 'y', ' ', 'b'] {
        assert!(!is_vowel(c));
    }
}
