use battrs::render::{
    EIGHTY, FIFTY, FORTY, HUNDRED, NINETY, SEVENTY, SIXTY, TEN, THIRTY, TWENTY,
};
use battrs::{render, PowerSource};

#[test]
fn test_draw_canon() {
    let result = PowerSource::Battery(10);
    let out = result.display_string();
    assert_eq!(out, format!("{}", TEN));
}

#[test]
fn test_draw_debug() {
    let result = PowerSource::Battery(10);
    let out = format!("{:?}", result);
    assert_eq!(out, String::from("Battery(10)"));
}

#[test]
fn same_bucket_same_glyph() {
    assert_eq!(render(1), render(10));
    assert_eq!(render(0), render(10));
    assert_ne!(render(11), render(10));
}

#[test]
fn every_bucket_boundary_changes_glyph() {
    for p in 0..=99u8 {
        let step_crosses = p >= 10 && p <= 90 && p % 10 == 0;
        assert_eq!(render(p + 1) != render(p), step_crosses, "at {}", p);
    }
}

#[test]
fn glyphs_follow_the_fixed_table() {
    let table = [
        TEN, TWENTY, THIRTY, FORTY, FIFTY, SIXTY, SEVENTY, EIGHTY, NINETY, HUNDRED,
    ];
    for p in 0..=100u8 {
        let bucket = if p <= 10 { 0 } else { (p as usize - 1) / 10 };
        assert_eq!(render(p), table[bucket], "at {}", p);
    }
}

#[test]
fn glyphs_are_distinct() {
    let table = [
        TEN, TWENTY, THIRTY, FORTY, FIFTY, SIXTY, SEVENTY, EIGHTY, NINETY, HUNDRED,
    ];
    for i in 0..10 {
        for j in 0..10 {
            if i != j {
                assert_ne!(table[i], table[j]);
            }
        }
    }
}

#[test]
fn out_of_range_falls_into_top_bucket() {
    assert_eq!(render(101), HUNDRED);
    assert_eq!(render(255), HUNDRED);
}

#[test]
fn display_shows_glyph_only_for_battery() {
    assert_eq!(PowerSource::Battery(95).display_string(), String::from("@"));
    assert_eq!(PowerSource::Battery(5).display_string(), String::from("_"));
    assert_eq!(
        PowerSource::Other(String::from("AC Power")).display_string(),
        String::new()
    );
    assert_eq!(PowerSource::Unknown.display_string(), String::new());
}
