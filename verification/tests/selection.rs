use artifact_relay::calendar::Date;
use artifact_relay::select::{parse_listing, select_latest, select_recent};

fn listing(names: &[&str]) -> Vec<String> {
    names.iter().map(|s| s.to_string()).collect()
}

const TODAY: Date = Date { year: 2026, month: 2, day: 11 };

#[test]
fn newest_tagged_candidate_wins() {
    let cands = parse_listing(&listing(&[
        "2026_02_09_10_00(1.3.7.P18)",
        "2026_02_11_03_34(1.3.7.P18)",
        "2026_02_10_22_00(2.0.0)",
    ]));
    assert_eq!(select_latest(&cands, "1.3.7.P18"), Some(1));
    assert_eq!(select_latest(&cands, "2.0.0"), Some(2));
    assert_eq!(select_latest(&cands, "9.9.9"), None);
}

#[test]
fn timestamp_ties_keep_listing_order() {
    let cands = parse_listing(&listing(&[
        "2026_02_11_03_34(v1)",
        "2026_02_11_03_34(v1)",
    ]));
    assert_eq!(select_latest(&cands, "v1"), Some(0));
}

#[test]
fn sentinel_always_loses_recency() {
    let cands = parse_listing(&listing(&[
        "garbled(v1)",
        "2026_02_11_03_34(v1)",
    ]));
    assert_eq!(select_latest(&cands, "v1"), Some(1));
}

#[test]
fn selection_admits_today_and_yesterday_only() {
    // Today.
    let cands = parse_listing(&listing(&["2026_02_11_03_34(v1)"]));
    assert_eq!(select_recent(&cands, "v1", TODAY), Some(0));
    // Yesterday.
    let cands = parse_listing(&listing(&["2026_02_10_23_59(v1)"]));
    assert_eq!(select_recent(&cands, "v1", TODAY), Some(0));
    // Two days old: skipped silently.
    let cands = parse_listing(&listing(&["2026_02_09_10_00(v1)"]));
    assert_eq!(select_recent(&cands, "v1", TODAY), None);
    // A future date is not recent either.
    let cands = parse_listing(&listing(&["2026_02_12_00_00(v1)"]));
    assert_eq!(select_recent(&cands, "v1", TODAY), None);
}

#[test]
fn yesterday_crosses_month_and_year_bounds() {
    let first_of_march = Date { year: 2026, month: 3, day: 1 };
    let cands = parse_listing(&listing(&["2026_02_28_12_00(v1)"]));
    assert_eq!(select_recent(&cands, "v1", first_of_march), Some(0));

    let new_year = Date { year: 2026, month: 1, day: 1 };
    let cands = parse_listing(&listing(&["2025_12_31_23_00(v1)"]));
    assert_eq!(select_recent(&cands, "v1", new_year), Some(0));

    let leap_march = Date { year: 2024, month: 3, day: 1 };
    let cands = parse_listing(&listing(&["2024_02_29_08_00(v1)"]));
    assert_eq!(select_recent(&cands, "v1", leap_march), Some(0));
}

#[test]
fn stale_newest_shadows_an_eligible_older_one() {
    // The newest tagged candidate is chosen first; when it is stale the
    // task is skipped even though an older candidate is dated today.
    let cands = parse_listing(&listing(&[
        "2026_02_11_01_00(v1)",
        "2027_05_05_00_00(v1)",
    ]));
    assert_eq!(select_recent(&cands, "v1", TODAY), None);
}
