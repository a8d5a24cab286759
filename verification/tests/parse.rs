use game_of_life::board::Board;
use game_of_life::cell::Cell::Dead;
use game_of_life::parse::{parse_usize, ParseError};

fn args(list: &[&str]) -> Vec<String> {
    list.iter().map(|s| s.to_string()).collect()
}

#[test]
fn parse_usize_plain_number() {
    assert_eq!(parse_usize("42"), Some(42));
}

#[test]
fn parse_usize_zero_and_leading_zeros() {
    assert_eq!(parse_usize("0"), Some(0));
    assert_eq!(parse_usize("007"), Some(7));
}

#[test]
fn parse_usize_rejects_empty_and_non_digits() {
    assert_eq!(parse_usize(""), None);
    assert_eq!(parse_usize("12a"), None);
    assert_eq!(parse_usize("-3"), None);
    assert_eq!(parse_usize("+3"), None);
    assert_eq!(parse_usize(" 3"), None);
}

#[test]
fn parse_usize_bounds() {
    assert_eq!(parse_usize("18446744073709551615"), Some(usize::MAX));
    assert_eq!(parse_usize("18446744073709551616"), None);
    assert_eq!(parse_usize("99999999999999999999999999"), None);
}

#[test]
fn from_args_list_not_enough_arguments() {
    let e = Board::from_args_list(&args(&["prog", "3", "3"])).err().unwrap();
    assert!(matches!(e, ParseError::NotEnoughArguments));
    assert_eq!(e.message(), "not enough arguments");
}

#[test]
fn from_args_list_too_many_arguments() {
    let e = Board::from_args_list(&args(&["prog", "3", "3", "50", "x"])).err().unwrap();
    assert!(matches!(e, ParseError::TooManyArguments));
    assert_eq!(e.message(), "too many arguments");
}

#[test]
fn from_args_list_invalid_width() {
    let e = Board::from_args_list(&args(&["prog", "abc", "3", "50"])).err().unwrap();
    match &e {
        ParseError::InvalidWidth { arg } => assert_eq!(arg, "abc"),
        other => panic!("unexpected error: {:?}", other),
    }
    assert_eq!(e.message(), "invalid width: abc");
}

#[test]
fn from_args_list_zero_width_is_invalid() {
    let e = Board::from_args_list(&args(&["prog", "0", "3", "50"])).err().unwrap();
    assert!(matches!(e, ParseError::InvalidWidth { .. }));
}

#[test]
fn from_args_list_invalid_height() {
    let e = Board::from_args_list(&args(&["prog", "3", "0", "50"])).err().unwrap();
    match &e {
        ParseError::InvalidHeight { arg } => assert_eq!(arg, "0"),
        other => panic!("unexpected error: {:?}", other),
    }
    assert_eq!(e.message(), "invalid height: 0");
}

#[test]
fn from_args_list_invalid_percentage() {
    let e = Board::from_args_list(&args(&["prog", "3", "3", "101"])).err().unwrap();
    match &e {
        ParseError::InvalidPercentage { arg } => assert_eq!(arg, "101"),
        other => panic!("unexpected error: {:?}", other),
    }
    assert_eq!(e.message(), "invalid percentage: 101");

    let e = Board::from_args_list(&args(&["prog", "3", "3", "half"])).err().unwrap();
    assert!(matches!(e, ParseError::InvalidPercentage { .. }));
}

#[test]
fn from_args_list_width_checked_before_height() {
    let e = Board::from_args_list(&args(&["prog", "bad", "worse", "101"])).err().unwrap();
    assert!(matches!(e, ParseError::InvalidWidth { .. }));
}

#[test]
fn from_args_list_oversized_grid_is_invalid_height() {
    let e = Board::from_args_list(&args(&["prog", "18446744073709551615", "2", "50"]))
        .err()
        .unwrap();
    match &e {
        ParseError::InvalidHeight { arg } => assert_eq!(arg, "2"),
        other => panic!("unexpected error: {:?}", other),
    }
}

#[test]
fn from_args_list_valid_arguments() {
    let b = Board::from_args_list(&args(&["prog", "10", "8", "50"])).ok().unwrap();
    assert_eq!(b.width, 10);
    assert_eq!(b.height, 8);
    assert_eq!(b.cells.len(), 80);
}

#[test]
fn from_args_list_zero_percentage_all_dead() {
    let b = Board::from_args_list(&args(&["prog", "4", "5", "0"])).ok().unwrap();
    assert_eq!(b.cells, vec![Dead; 20]);
}
