use bugzilla_query::text::{decimal_string, join_strings, join_strs};

#[test]
fn it_works() {
    let result = 2 + 2;
    assert_eq!(result, 4);
}

#[test]
fn decimal_of_zero_is_a_single_digit() {
    assert_eq!(decimal_string(0), "0");
}

#[test]
fn decimal_has_no_leading_zero() {
    assert_eq!(decimal_string(7), "7");
    assert_eq!(decimal_string(10), "10");
    assert_eq!(decimal_string(1000), "1000");
    assert_eq!(decimal_string(90210), "90210");
}

#[test]
fn decimal_of_the_largest_number() {
    assert_eq!(decimal_string(u32::MAX), "4294967295");
}

#[test]
fn join_of_nothing_is_empty() {
    let none: [&str; 0] = [];
    assert_eq!(join_strs(&none, ","), "");
    assert_eq!(join_strings(&Vec::new(), ","), "");
}

#[test]
fn join_of_one_part_has_no_separator() {
    assert_eq!(join_strs(&["123"], ","), "123");
    assert_eq!(join_strings(&vec!["flags".to_string()], ","), "flags");
}

#[test]
fn join_keeps_order_and_empty_parts() {
    assert_eq!(join_strs(&["3", "1", "2"], ","), "3,1,2");
    assert_eq!(join_strs(&["", "a", ""], ","), ",a,");
    assert_eq!(join_strs(&["a", "b"], ", "), "a, b");
    assert_eq!(
        join_strings(&vec!["_default".to_string(), "flags".to_string()], ","),
        "_default,flags"
    );
}

#[test]
fn join_of_two_lists_is_the_join_of_their_joins() {
    let front = ["1", "2"];
    let back = ["3", "4", "5"];
    let whole = ["1", "2", "3", "4", "5"];
    let expected = format!("{},{}", join_strs(&front, ","), join_strs(&back, ","));
    assert_eq!(join_strs(&whole, ","), expected);
    assert_eq!(join_strs(&whole, ","), "1,2,3,4,5");
}
