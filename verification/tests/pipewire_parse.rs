use cpal_host::pipewire::{parse_allow_rates, parse_fraction};

#[test]
fn rate_parse() {
    // In documents, the rates are separated by space
    let rate_str = r#"  [ 44100 48000 88200 96000 176400 192000 ] "#;
    let rates = parse_allow_rates(rate_str).unwrap();
    assert_eq!(rates, vec![44100, 48000, 88200, 96000, 176400, 192000]);
    // ',' is also allowed
    let rate_str = r#"  [ 44100, 48000, 88200, 96000 ,176400 ,192000 ] "#;
    let rates = parse_allow_rates(rate_str).unwrap();
    assert_eq!(rates, vec![44100, 48000, 88200, 96000, 176400, 192000]);
    assert_eq!(rates, vec![44100, 48000, 88200, 96000, 176400, 192000]);
    // We only use [] to define the list
    let rate_str = r#"  { 44100, 48000, 88200, 96000 ,176400 ,192000 } "#;
    let rates = parse_allow_rates(rate_str);
    assert_eq!(rates, None);
}

#[test]
fn fraction_parse() {
    // node.rate format: "1/<sample_rate>"
    assert_eq!(parse_fraction("1/48000"), Some((1, 48000)));

    // node.latency format: "<quantum>/<rate>"
    assert_eq!(parse_fraction("256/48000"), Some((256, 48000)));

    // zero values are returned as-is; callers apply .filter() to reject them
    assert_eq!(parse_fraction("0/48000"), Some((0, 48000)));
    assert_eq!(parse_fraction("256/0"), Some((256, 0)));

    // invalid inputs
    assert_eq!(parse_fraction(""), None);
    assert_eq!(parse_fraction("48000"), None);
    assert_eq!(parse_fraction("abc/def"), None);
    assert_eq!(parse_fraction("/48000"), None);
    assert_eq!(parse_fraction("256/"), None);
}
