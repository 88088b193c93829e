use tmdb_api::util::empty_to_none;
use tmdb_api::util::u64_to_decimal;

#[test]
fn zero_renders_as_a_single_digit() {
    assert_eq!(u64_to_decimal(0), "0");
}

#[test]
fn single_digits_render_as_themselves() {
    assert_eq!(u64_to_decimal(7), "7");
}

#[test]
fn several_digits_render_in_order() {
    assert_eq!(u64_to_decimal(550), "550");
    assert_eq!(u64_to_decimal(1009), "1009");
}

#[test]
fn the_largest_value_renders_fully() {
    assert_eq!(u64_to_decimal(u64::MAX), "18446744073709551615");
}

#[test]
fn an_empty_string_becomes_none() {
    assert_eq!(empty_to_none(String::new()), None);
}

#[test]
fn a_nonempty_string_stays() {
    assert_eq!(empty_to_none("common".to_string()), Some("common".to_string()));
}
