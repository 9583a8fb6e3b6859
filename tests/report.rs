use compute_pop::dataset::{render_output, states};
use compute_pop::decimal::{push_decimal, push_tenths};
use compute_pop::record::{display_name, push_record_line, same_text, Record};
use compute_pop::report::{observed_total, render_report, totals_match, EXPECTED_US_TOTAL};

fn line_of(r: &Record) -> String {
    let mut out = String::new();
    push_record_line(&mut out, r);
    out
}

fn find(name: &str) -> Record {
    *states().iter().find(|r| r.name == name).unwrap()
}

#[test]
fn output_contains_expected_totals_and_dc_label() {
    let output = render_output();
    assert!(output.contains("US Total (sum of states+DC): 341784857"));
    assert!(output.contains("Match: True"));
    assert!(output.contains("DC: pop=693645"));
}

#[test]
fn table_total_matches_expected() {
    let records = states();
    assert_eq!(records.len(), 51);
    assert_eq!(observed_total(&records), 341784857);
    assert!(totals_match(observed_total(&records)));
    assert_eq!(EXPECTED_US_TOTAL, 341784857);
}

#[test]
fn header_lines_are_exact() {
    let output = render_output();
    assert!(output.starts_with(
        "US Total (sum of states+DC): 341784857\nExpected: 341784857\nMatch: True\n\n"
    ));
}

#[test]
fn dc_line_uses_abbreviation() {
    let output = render_output();
    assert!(output.contains("\nDC: pop=693645, dn=11361.9, ch=0.6, ag=34.9\n"));
    assert!(!output.contains("District of Columbia"));
    let dc = find("District of Columbia");
    assert_eq!(dc.name, "District of Columbia");
}

#[test]
fn record_lines_follow_table_order() {
    let records = states();
    let output = render_output();
    assert_eq!(output.matches('\n').count(), 55);
    let lines: Vec<&str> = output.lines().skip(4).collect();
    assert_eq!(lines.len(), 51);
    for (line, r) in lines.iter().zip(records.iter()) {
        let shown = if r.name == "District of Columbia" { "DC" } else { r.name };
        assert!(line.starts_with(&format!("{}: pop={},", shown, r.population_current)));
    }
    assert!(lines[0].starts_with("California: "));
    assert!(lines[1].starts_with("Texas: "));
    assert!(lines[50].starts_with("Wyoming: "));
    assert!(output.ends_with("\n"));
}

#[test]
fn densities_are_rounded_to_one_decimal() {
    assert_eq!(find("California").density_tenths(), 2526);
    assert_eq!(find("Texas").density_tenths(), 1214);
    assert_eq!(find("New Jersey").density_tenths(), 12983);
    assert_eq!(find("Alaska").density_tenths(), 13);
    assert_eq!(find("District of Columbia").density_tenths(), 113619);
}

#[test]
fn exact_record_lines() {
    assert_eq!(line_of(&find("California")), "California: pop=39355309, dn=252.6, ch=-0.5, ag=38.4\n");
    assert_eq!(line_of(&find("Texas")), "Texas: pop=31709821, dn=121.4, ch=8.8, ag=35.9\n");
    assert_eq!(line_of(&find("Mississippi")), "Mississippi: pop=2954160, dn=63.0, ch=-0.2, ag=39.3\n");
    assert_eq!(line_of(&find("Wyoming")), "Wyoming: pop=588753, dn=6.1, ch=2.1, ag=40.2\n");
}

#[test]
fn change_keeps_its_sign() {
    let ca = find("California");
    assert!(ca.change_is_negative());
    assert_eq!(ca.change_tenths(), 5);
    let tx = find("Texas");
    assert!(!tx.change_is_negative());
    assert_eq!(tx.change_tenths(), 88);
}

#[test]
fn rounding_halves_go_up() {
    let r = Record {
        name: "Half",
        population_current: 105,
        population_base: 100,
        land_area_hundredths: 4000,
        median_age_tenths: 5,
    };
    // 105 / 40 = 2.625, below the half: 2.6; the change is 5.0 exactly.
    assert_eq!(r.density_tenths(), 26);
    assert_eq!(r.change_tenths(), 50);
    // 5 / 2 = 2.5 exactly.
    let s = Record { population_current: 5, land_area_hundredths: 200, ..r };
    assert_eq!(s.density_tenths(), 25);
    // 1 / 8 = 0.125, below the half: 0.1.
    let t = Record { population_current: 1, land_area_hundredths: 800, ..r };
    assert_eq!(t.density_tenths(), 1);
    let u = Record { population_current: 1, land_area_hundredths: 2000, ..r };
    // 1 / 20 = 0.05, a half of a tenth: rounds up to 0.1
    assert_eq!(u.density_tenths(), 1);
    assert_eq!(line_of(&u), "Half: pop=1, dn=0.1, ch=-99.0, ag=0.5\n");
}

#[test]
fn changing_one_population_moves_total_and_flips_match() {
    let mut records = states();
    let before = observed_total(&records);
    records[3].population_current += 1000;
    let after = observed_total(&records);
    assert_eq!(after, before + 1000);
    assert!(!totals_match(after));
    let output = render_report(&records);
    assert!(output.contains("US Total (sum of states+DC): 341785857\n"));
    assert!(output.contains("\nExpected: 341784857\n"));
    assert!(output.contains("Match: False\n"));
    assert!(output.contains("New York: pop=20003427,"));
}

#[test]
fn rendering_twice_is_identical() {
    assert_eq!(render_output(), render_output());
    let records = states();
    assert_eq!(render_report(&records), render_report(&records));
    assert_eq!(render_report(&records), render_output());
}

#[test]
fn empty_table_report() {
    let records: Vec<Record> = Vec::new();
    assert_eq!(observed_total(&records), 0);
    assert_eq!(
        render_report(&records),
        "US Total (sum of states+DC): 0\nExpected: 341784857\nMatch: False\n\n"
    );
}

#[test]
fn display_names() {
    assert_eq!(display_name("District of Columbia"), "DC");
    assert_eq!(display_name("Ohio"), "Ohio");
    assert_eq!(display_name("District of Columbia "), "District of Columbia ");
    assert!(same_text("abc", "abc"));
    assert!(!same_text("abc", "abd"));
    assert!(!same_text("abc", "ab"));
}

#[test]
fn decimal_text() {
    let mut out = String::from("x=");
    push_decimal(&mut out, 0);
    assert_eq!(out, "x=0");
    let mut big = String::new();
    push_decimal(&mut big, u128::MAX);
    assert_eq!(big, u128::MAX.to_string());
    let mut t = String::new();
    push_tenths(&mut t, 7);
    push_tenths(&mut t, 1230);
    assert_eq!(t, "0.7123.0");
}
