use chatwire::flag::{Flag, ParamParseError};
use chatwire::rpc_iter::RpcIterBuffer;

#[test]
fn flag_notation_parses() {
    let flag = Flag::parse("flags.1").unwrap();
    assert_eq!(flag.name, "flags");
    assert_eq!(flag.index, 1);
}

#[test]
fn flag_parses_through_from_str() {
    assert!("flags.1".parse::<Flag>().is_ok());
    let flag: Flag = "other_flags.12".parse().unwrap();
    assert_eq!(flag.name, "other_flags");
    assert_eq!(flag.index, 12);
}

#[test]
fn flag_without_dot_is_invalid() {
    assert_eq!(Flag::parse("flags").unwrap_err(), ParamParseError::InvalidFlag);
}

#[test]
fn flag_with_empty_index_is_invalid() {
    assert_eq!(Flag::parse("flags.").unwrap_err(), ParamParseError::InvalidFlag);
}

#[test]
fn flag_with_non_digit_index_is_invalid() {
    assert_eq!(Flag::parse("flags.x").unwrap_err(), ParamParseError::InvalidFlag);
    assert_eq!(Flag::parse("flags.1x").unwrap_err(), ParamParseError::InvalidFlag);
}

#[test]
fn flag_with_huge_index_is_invalid() {
    // One more than the largest machine word.
    let r = Flag::parse("flags.18446744073709551616");
    assert_eq!(r.unwrap_err(), ParamParseError::InvalidFlag);
}

#[test]
fn flag_index_splits_at_first_dot() {
    let flag = Flag::parse("a.1").unwrap();
    assert_eq!(flag.name, "a");
    assert_eq!(flag.index, 1);
    // Everything after the first dot must be digits.
    assert!(Flag::parse("a.b.1").is_err());
}

#[test]
fn flag_displays_as_its_notation() {
    let flag = Flag { name: String::from("flags"), index: 12 };
    assert_eq!(flag.display_string(), "flags.12");
    let small = Flag { name: String::from("f"), index: 0 };
    assert_eq!(small.display_string(), "f.0");
    let round_trip = Flag::parse(&flag.display_string()).unwrap();
    assert_eq!(round_trip, flag);
}

#[test]
fn flag_equality_compares_name_and_index() {
    let a = Flag { name: String::from("flags"), index: 3 };
    let b = Flag { name: String::from("flags"), index: 3 };
    let c = Flag { name: String::from("flags"), index: 4 };
    assert_eq!(a, b);
    assert!(a != c);
}

#[test]
fn rpc_buffer_pops_in_reverse_push_order() {
    let mut buffer: RpcIterBuffer<i32, i32> = RpcIterBuffer::new(0);
    assert!(buffer.should_fill());
    buffer.push(3);
    buffer.push(2);
    buffer.push(1);
    assert!(!buffer.should_fill());
    assert_eq!(buffer.pop(), Some(1));
    assert_eq!(buffer.pop(), Some(2));
    assert_eq!(buffer.pop(), Some(3));
    assert_eq!(buffer.pop(), None);
    assert!(buffer.should_fill());
    buffer.done = true;
    assert!(!buffer.should_fill());
}
