use artifact_relay::pattern::parse_candidate;

#[test]
fn versioned_name_extracts_stamp_and_tag() {
    let c = parse_candidate("2026_02_11_03_34(1.3.7.P18)");
    assert_eq!(c.name, "2026_02_11_03_34(1.3.7.P18)");
    assert_eq!(c.version, "1.3.7.P18");
    let st = c.stamp.expect("a real date must parse");
    assert_eq!(st.date.year, 2026);
    assert_eq!(st.date.month, 2);
    assert_eq!(st.date.day, 11);
    assert_eq!(st.hour, 3);
    assert_eq!(st.minute, 34);
}

#[test]
fn version_tag_is_parenthesized_text_verbatim() {
    let c = parse_candidate("1999_12_31_23_59(V (beta) 2)");
    assert_eq!(c.version, "V (beta) 2");
    let st = c.stamp.unwrap();
    assert_eq!(st.date.year, 1999);
    assert_eq!(st.minute, 59);
}

#[test]
fn unparseable_names_yield_sentinel() {
    for name in [
        "notes.txt",
        "2026_02_11_03_34",
        "2026_02_11_03_34()",
        "2026-02-11-03-34(v1)",
        "20x6_02_11_03_34(v1)",
        "",
    ] {
        let c = parse_candidate(name);
        assert_eq!(c.name, name);
        assert_eq!(c.version, "");
        assert!(c.stamp.is_none());
    }
}

#[test]
fn impossible_dates_keep_tag_but_no_stamp() {
    let c = parse_candidate("2026_13_11_03_34(v1)");
    assert_eq!(c.version, "v1");
    assert!(c.stamp.is_none());
    let c = parse_candidate("2026_02_30_03_34(v1)");
    assert!(c.stamp.is_none());
    let c = parse_candidate("2026_02_11_24_00(v1)");
    assert!(c.stamp.is_none());
    let c = parse_candidate("2026_02_11_03_60(v1)");
    assert!(c.stamp.is_none());
}

#[test]
fn leap_day_parses_only_in_leap_years() {
    assert!(parse_candidate("2024_02_29_00_00(v)").stamp.is_some());
    assert!(parse_candidate("2026_02_29_00_00(v)").stamp.is_none());
    assert!(parse_candidate("2000_02_29_00_00(v)").stamp.is_some());
    assert!(parse_candidate("1900_02_29_00_00(v)").stamp.is_none());
}
