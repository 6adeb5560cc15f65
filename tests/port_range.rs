use lsp_on_demand::error::ParsePortRangeError;
use lsp_on_demand::port_range::PortRange;
use lsp_on_demand::text::{find_char, trim};
use rand::rngs::StdRng;
use rand::SeedableRng;

#[test]
fn parses_a_plain_range() {
    let r = PortRange::parse("5008-65535").unwrap();
    assert_eq!(r.start(), 5008);
    assert_eq!(r.end(), 65535);
}

#[test]
fn parses_through_from_str() {
    let r: PortRange = "10-20".parse().unwrap();
    assert_eq!((r.start(), r.end()), (10, 20));
}

#[test]
fn parses_with_white_space_and_plus_signs() {
    let r = PortRange::parse(" \t10 - +20\n").unwrap();
    assert_eq!((r.start(), r.end()), (10, 20));
}

#[test]
fn parses_a_single_port_range() {
    let r = PortRange::parse("7-7").unwrap();
    assert_eq!((r.start(), r.end()), (7, 7));
}

#[test]
fn parses_the_full_range() {
    let r = PortRange::parse("0-65535").unwrap();
    assert_eq!((r.start(), r.end()), (0, 65535));
}

#[test]
fn rejects_a_reversed_range() {
    assert!(matches!(PortRange::parse("10-5"), Err(ParsePortRangeError::StartLargerThanEnd)));
    assert!(matches!(PortRange::parse("65535-0"), Err(ParsePortRangeError::StartLargerThanEnd)));
}

#[test]
fn rejects_text_without_separator() {
    assert!(matches!(PortRange::parse("105"), Err(ParsePortRangeError::MissingEndSeperator)));
    assert!(matches!(PortRange::parse(""), Err(ParsePortRangeError::MissingEndSeperator)));
}

#[test]
fn rejects_halves_that_are_not_ports() {
    assert!(matches!(PortRange::parse("a-5"), Err(ParsePortRangeError::ParseInt(_))));
    assert!(matches!(PortRange::parse("5-b"), Err(ParsePortRangeError::ParseInt(_))));
    assert!(matches!(PortRange::parse("5-"), Err(ParsePortRangeError::ParseInt(_))));
    assert!(matches!(PortRange::parse("5-70000"), Err(ParsePortRangeError::ParseInt(_))));
    assert!(matches!(PortRange::parse("-5-7"), Err(ParsePortRangeError::ParseInt(_))));
    assert!(matches!(PortRange::parse("1-2-3"), Err(ParsePortRangeError::ParseInt(_))));
}

#[test]
fn new_refuses_a_reversed_range() {
    assert!(PortRange::new(9, 8).is_none());
    let r = PortRange::new(8, 9).unwrap();
    assert_eq!((r.start(), r.end()), (8, 9));
}

#[test]
fn random_ports_stay_in_range() {
    let mut rng = StdRng::seed_from_u64(42);
    let r = PortRange::parse("5008-5010").unwrap();
    let mut seen = [false; 3];
    for _ in 0..2000 {
        let p = r.pick_random(&mut rng);
        assert!((5008..=5010).contains(&p));
        seen[(p - 5008) as usize] = true;
    }
    assert!(seen.iter().all(|s| *s));
}

#[test]
fn random_port_of_single_port_range() {
    let mut rng = StdRng::seed_from_u64(1);
    let r = PortRange::parse("4000-4000").unwrap();
    for _ in 0..100 {
        assert_eq!(r.pick_random(&mut rng), 4000);
    }
}

#[test]
fn random_ports_of_full_range() {
    let mut rng = StdRng::seed_from_u64(3);
    let r = PortRange::parse("0-65535").unwrap();
    let first = r.pick_random(&mut rng);
    let differs = (0..100).any(|_| r.pick_random(&mut rng) != first);
    assert!(differs);
}

#[test]
fn trims_unicode_white_space() {
    assert_eq!(trim(" \t\u{3000}ab c\u{2028}\n"), "ab c");
    assert_eq!(trim("   "), "");
    assert_eq!(trim(""), "");
}

#[test]
fn finds_the_first_dash() {
    assert_eq!(find_char("a-b-c", '-'), 1);
    assert_eq!(find_char("abc", '-'), 3);
    assert_eq!(find_char("ä-", '-'), 1);
}

#[test]
fn from_str_reports_each_error() {
    assert!(matches!("100-1".parse::<PortRange>(), Err(ParsePortRangeError::StartLargerThanEnd)));
    assert!(matches!("5008".parse::<PortRange>(), Err(ParsePortRangeError::MissingEndSeperator)));
    assert!(matches!("abc-10".parse::<PortRange>(), Err(ParsePortRangeError::ParseInt(_))));
    assert!(matches!("1-70000".parse::<PortRange>(), Err(ParsePortRangeError::ParseInt(_))));
    let r: PortRange = " 10 - 20 ".parse().unwrap();
    assert_eq!((r.start(), r.end()), (10, 20));
    let r: PortRange = "65535-65535".parse().unwrap();
    assert_eq!((r.start(), r.end()), (65535, 65535));
}
