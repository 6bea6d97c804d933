use calc::app::MyApp;

#[test]
fn one_third_displays_seven_digits() {
    assert_eq!(
        MyApp::calculate_response("1/3"),
        Some("0.3333333".to_string())
    );
}

#[test]
fn four_halves_strips_to_integer() {
    assert_eq!(MyApp::calculate_response("4/2"), Some("2".to_string()));
}

#[test]
fn two_plus_two_is_four() {
    assert_eq!(MyApp::calculate_response("2+2"), Some("4".to_string()));
}

#[test]
fn trailing_zeros_stripped_but_not_significant_digits() {
    assert_eq!(MyApp::calculate_response("0.1+0.2"), Some("0.3".to_string()));
}

#[test]
fn negative_result_keeps_sign() {
    assert_eq!(MyApp::calculate_response("1-3"), Some("-2".to_string()));
}

#[test]
fn malformed_expression_is_invalid() {
    assert_eq!(MyApp::calculate_response("2+"), None);
}

#[test]
fn unknown_symbol_is_invalid() {
    assert_eq!(MyApp::calculate_response("foo+1"), None);
}

#[test]
fn precedence_follows_arithmetic() {
    assert_eq!(MyApp::calculate_response("2+3*4"), Some("14".to_string()));
}
