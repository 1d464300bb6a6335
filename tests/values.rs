use plotly::color::{Color, ColorWrapper};
use plotly::common::{Dim, GroupNorm, Mode, Visible};
use plotly::json::JsonSerialize;
use plotly::number::Decimal;
use plotly::private::{
    copy_iterable_to_vec, is_valid_color_array, owned_string_vector, strip_quotes, to_color_array,
    to_num_or_string_wrapper, NumOrString, NumOrStringWrapper, TruthyEnum,
};
use plotly::traces::mesh3d::IntensityMode;

#[test]
fn num_or_string_from_str_is_bare_string() {
    let w = "abc".to_num_or_string();
    assert_eq!(w.to_json(), "\"abc\"");
}

#[test]
fn num_or_string_from_owned_string() {
    let w = String::from("x y").to_num_or_string();
    assert_eq!(w.to_json(), "\"x y\"");
}

#[test]
fn num_or_string_from_signed_integers() {
    assert_eq!((-42i64).to_num_or_string().to_json(), "-42");
    assert_eq!((7i32).to_num_or_string().to_json(), "7");
    assert_eq!(i64::MIN.to_num_or_string().to_json(), "-9223372036854775808");
}

#[test]
fn num_or_string_from_unsigned_integers() {
    assert_eq!((7usize).to_num_or_string().to_json(), "7");
    assert_eq!(u64::MAX.to_num_or_string().to_json(), "18446744073709551615");
}

#[test]
fn num_or_string_from_decimal() {
    let w = Decimal::new(25, -1).to_num_or_string();
    assert!(matches!(w, NumOrStringWrapper::F(_)));
    assert_eq!(w.to_json(), "25e-1");
}

#[test]
fn num_or_string_vector_keeps_order() {
    let v = to_num_or_string_wrapper(vec![3i64, -1, 3]);
    assert_eq!(v.len(), 3);
    assert_eq!(v.to_json(), "[3,-1,3]");
}

#[test]
fn decimal_with_zero_exponent_is_an_integer() {
    assert_eq!(Decimal::from_int(12).to_json(), "12");
    assert_eq!(Decimal::new(-5, 3).to_json(), "-5e3");
}

#[test]
fn string_escapes_quote_backslash_and_controls() {
    assert_eq!(String::from("a\"b\\c").to_json(), "\"a\\\"b\\\\c\"");
    assert_eq!(String::from("l1\nl2\t").to_json(), "\"l1\\nl2\\t\"");
    assert_eq!(String::from("\u{1}").to_json(), "\"\\u0001\"");
    assert_eq!(String::new().to_json(), "\"\"");
}

#[test]
fn truthy_enum_true_and_false_are_booleans() {
    assert_eq!(TruthyEnum { e: Visible::True }.to_json(), "true");
    assert_eq!(TruthyEnum { e: Visible::False }.to_json(), "false");
}

#[test]
fn truthy_enum_other_text_is_a_string() {
    assert_eq!(TruthyEnum { e: Visible::LegendOnly }.to_json(), "\"legendonly\"");
    assert_eq!(TruthyEnum { e: IntensityMode::Vertex }.to_json(), "\"vertex\"");
}

#[test]
fn truthy_enum_is_case_sensitive() {
    assert_eq!(TruthyEnum { e: String::from("True") }.to_json(), "\"True\"");
    assert_eq!(TruthyEnum { e: String::from("false") }.to_json(), "false");
}

#[test]
fn strip_quotes_removes_every_quote() {
    assert_eq!(strip_quotes("\"a\"b\""), "ab");
    assert_eq!(strip_quotes(""), "");
}

#[test]
fn dim_scalar_is_bare_value() {
    let d: Dim<String> = Dim::Scalar(String::from("abc"));
    assert_eq!(d.to_json(), "\"abc\"");
}

#[test]
fn dim_vector_is_array_in_order() {
    let d: Dim<String> = Dim::Vector(vec![String::from("a"), String::from("b")]);
    assert_eq!(d.to_json(), "[\"a\",\"b\"]");
    let dup: Dim<i64> = Dim::Vector(vec![2, 2, 1]);
    assert_eq!(dup.to_json(), "[2,2,1]");
    let empty: Dim<i64> = Dim::Vector(vec![]);
    assert_eq!(empty.to_json(), "[]");
}

#[test]
fn mixed_color_array_cases() {
    assert!(!is_valid_color_array(&[]));
    let numbers = vec![ColorWrapper::F(Decimal::from_int(1)), ColorWrapper::F(Decimal::from_int(2))];
    assert!(!is_valid_color_array(&numbers));
    let names = vec![ColorWrapper::S(String::from("red")), ColorWrapper::S(String::from("#fff"))];
    assert!(!is_valid_color_array(&names));
    let mixed = vec![ColorWrapper::S(String::from("red")), ColorWrapper::F(Decimal::from_int(1))];
    assert!(is_valid_color_array(&mixed));
}

#[test]
fn color_array_keeps_order() {
    let colors = to_color_array(vec!["red", "blue"]);
    assert_eq!(colors.to_json(), "[\"red\",\"blue\"]");
    let numbers = to_color_array(vec![Decimal::new(5, -1)]);
    assert_eq!(numbers.to_json(), "[5e-1]");
}

#[test]
fn color_of_string_and_number() {
    assert_eq!(String::from("green").to_color().to_json(), "\"green\"");
    assert_eq!(Decimal::from_int(3).to_color().to_json(), "3");
}

#[test]
fn owned_strings_copy_in_order() {
    let v = owned_string_vector(vec!["b", "a"]);
    assert_eq!(v, vec![String::from("b"), String::from("a")]);
    let w = owned_string_vector(vec![String::from("c")]);
    assert_eq!(w, vec![String::from("c")]);
}

#[test]
fn copy_of_slice_is_equal() {
    assert_eq!(copy_iterable_to_vec(&[1usize, 2, 3]), vec![1, 2, 3]);
    let empty: Vec<i64> = copy_iterable_to_vec(&[]);
    assert!(empty.is_empty());
}

#[test]
fn enum_wire_names() {
    assert_eq!(Mode::LinesMarkers.to_json(), "\"lines+markers\"");
    assert_eq!(Mode::NoMode.to_json(), "\"none\"");
    assert_eq!(GroupNorm::Default.to_json(), "\"\"");
}

#[test]
fn primitive_values() {
    assert_eq!(true.to_json(), "true");
    assert_eq!(false.to_json(), "false");
    assert_eq!(vec![vec![1i64, 2], vec![]].to_json(), "[[1,2],[]]");
}
