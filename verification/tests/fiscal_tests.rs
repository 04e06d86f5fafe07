use bullseye_core::fiscal::process_fiscal_string;
use bullseye_core::fiscal::render_fiscal_string;

#[test]
fn parse_valid_fiscal_string() {
    assert_eq!(process_fiscal_string("2024-Q3"), Some((2024, 3)));
    assert_eq!(process_fiscal_string("1999-Q1"), Some((1999, 1)));
    assert_eq!(process_fiscal_string("0007-Q4"), Some((7, 4)));
}

#[test]
fn parse_rejects_non_matching_strings() {
    assert_eq!(process_fiscal_string(""), None);
    assert_eq!(process_fiscal_string("2024-Q5"), None);
    assert_eq!(process_fiscal_string("2024-Q0"), None);
    assert_eq!(process_fiscal_string("2024-q3"), None);
    assert_eq!(process_fiscal_string("24-Q3"), None);
    assert_eq!(process_fiscal_string("2024Q3"), None);
    assert_eq!(process_fiscal_string("2024-Q33"), None);
    assert_eq!(process_fiscal_string("abcd-Qx"), None);
    assert_eq!(process_fiscal_string("２024-Q3"), None);
}

#[test]
fn render_then_parse_is_identity() {
    for year in [0i16, 1, 999, 2024, 9999] {
        for quarter in 1i16..=4 {
            let s = render_fiscal_string(year, quarter);
            assert_eq!(process_fiscal_string(&s), Some((year, quarter)));
        }
    }
}

#[test]
fn parse_then_render_is_identity() {
    for s in ["2024-Q3", "0000-Q1", "9999-Q4", "0810-Q2"] {
        let (y, q) = process_fiscal_string(s).unwrap();
        assert_eq!(render_fiscal_string(y, q), s);
    }
}

#[test]
fn render_pads_year_to_four_digits() {
    assert_eq!(render_fiscal_string(7, 2), "0007-Q2");
    assert_eq!(render_fiscal_string(2024, 3), "2024-Q3");
}
