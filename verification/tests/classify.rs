use battrs::{classify, parse_life, PowerSource};

#[test]
fn none_when_unable_to_parse() {
    let result = classify("whoa");
    assert_eq!(result, PowerSource::Unknown);
}

#[test]
fn battery_with_amount_100() {
    let result = classify(
        r#"Now drawing from 'Battery Power'
-InternalBattery-0 (id=4522083)	100%; charged; 0:00 remaining present: true
    "#,
    );
    assert_eq!(result, PowerSource::Battery(100));
}

#[test]
fn none_invalid_amount() {
    let result = classify(
        r#"Now drawing from 'Battery Power'
-InternalBattery-0 (id=4522083)	abc%; charged; 0:00 remaining present: true
    "#,
    );
    assert_eq!(result, PowerSource::Unknown);
}

#[test]
fn battery_with_amount_10() {
    let result = classify(
        r#"Now drawing from 'Battery Power'
-InternalBattery-0 (id=4522083)	10%; charged; 0:00 remaining present: true
    "#,
    );
    assert_eq!(result, PowerSource::Battery(10));
}

#[test]
fn battery_with_amount_1() {
    let result = classify(
        r#"Now drawing from 'Battery Power'
-InternalBattery-0 (id=4522083)	1%; charged; 0:00 remaining present: true
    "#,
    );
    assert_eq!(result, PowerSource::Battery(1));
}

#[test]
fn other_with_name() {
    let result = classify(
        r#"Now drawing from 'AC Power'
-InternalBattery-0 (id=4522083)	100%; charged; 0:00 remaining present: true
    "#,
    );
    assert_eq!(result, PowerSource::Other(String::from("AC Power")));
}

#[test]
fn empty_input_is_unknown() {
    assert_eq!(classify(""), PowerSource::Unknown);
}

#[test]
fn single_line_with_trailing_newline_is_unknown() {
    assert_eq!(
        classify("Now drawing from 'Battery Power'\n"),
        PowerSource::Unknown
    );
}

#[test]
fn percentage_above_hundred_is_unknown() {
    let result = classify(
        "Now drawing from 'Battery Power'\n-InternalBattery-0 (id=1)\t150%; discharging\n",
    );
    assert_eq!(result, PowerSource::Unknown);
}

#[test]
fn percentage_zero_is_battery_zero() {
    let result =
        classify("Now drawing from 'Battery Power'\n-InternalBattery-0 (id=1)\t0%; draining\n");
    assert_eq!(result, PowerSource::Battery(0));
}

#[test]
fn missing_quotes_is_unknown() {
    let result = classify("Now drawing from Battery Power\n-InternalBattery-0 (id=1)\t50%;\n");
    assert_eq!(result, PowerSource::Unknown);
}

#[test]
fn unclosed_quote_takes_rest_of_line() {
    let result = classify("Now drawing from 'AC Power\n-InternalBattery-0 (id=1)\t50%;\n");
    assert_eq!(result, PowerSource::Other(String::from("AC Power")));
}

#[test]
fn line_without_semicolon_still_parses() {
    let result = classify("Now drawing from 'Battery Power'\na b 42%\n");
    assert_eq!(result, PowerSource::Battery(42));
}

#[test]
fn repeated_percent_signs_are_stripped() {
    let result = classify("Now drawing from 'Battery Power'\na b 87%%; charged\n");
    assert_eq!(result, PowerSource::Battery(87));
}

#[test]
fn percentage_without_sign_is_rejected() {
    assert_eq!(parse_life("a b 64; charged"), None);
}

#[test]
fn parse_life_reads_third_token() {
    assert_eq!(parse_life("-InternalBattery-0 (id=4522083)\t87%; charged"), Some(87));
    assert_eq!(parse_life("1 2 3%"), Some(3));
}

#[test]
fn parse_life_rejects_short_or_bad_lines() {
    assert_eq!(parse_life(""), None);
    assert_eq!(parse_life("one two"), None);
    assert_eq!(parse_life("a b cde%"), None);
    assert_eq!(parse_life("a b %"), None);
    assert_eq!(parse_life("a b 1x0%"), None);
    assert_eq!(parse_life("a b 64"), None);
}

#[test]
fn leading_plus_is_rejected() {
    assert_eq!(parse_life("a b +64%"), None);
}

#[test]
fn parse_life_ignores_text_after_semicolon() {
    assert_eq!(parse_life("a b; c 55%"), None);
    assert_eq!(parse_life("a b 55%; d 99%"), Some(55));
}
