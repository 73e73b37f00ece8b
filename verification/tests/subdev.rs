use uhd_usrp::text::{chars_of, split_ranges};
use uhd_usrp::{SubdevPair, SubdevSpec, SubdevSpecParseError};

fn pairs(spec: &SubdevSpec) -> Vec<(String, String)> {
    (0..spec.len())
        .map(|i| {
            let pair = spec.get(i).unwrap();
            (pair.db_name().to_string(), pair.sd_name().to_string())
        })
        .collect()
}

fn pair(db: &str, sd: &str) -> (String, String) {
    (db.to_string(), sd.to_string())
}

fn invalid(part: &str) -> Result<SubdevSpec, SubdevSpecParseError> {
    Err(SubdevSpecParseError::InvalidFormat(part.to_string()))
}

#[test]
fn one_pair() {
    let spec = SubdevSpec::try_from_str("A:0").unwrap();
    assert_eq!(pairs(&spec), vec![pair("A", "0")]);
    assert_eq!(SubdevSpec::from_str("A:0"), spec);
}

#[test]
fn several_pairs() {
    let spec = SubdevSpec::try_from_str("A:0 B:AB RX2").unwrap();
    assert_eq!(pairs(&spec), vec![pair("A", "0"), pair("B", "AB"), pair("", "RX2")]);
    assert_eq!(spec.len(), 3);
    assert!(!spec.is_empty());
    assert_eq!(spec.get(3), None);
    assert_eq!(spec.get(1), Some(SubdevPair::new("B", "AB")));
}

#[test]
fn names_may_be_empty_beside_the_colon() {
    let spec = SubdevSpec::try_from_str(":0 A:").unwrap();
    assert_eq!(pairs(&spec), vec![pair("", "0"), pair("A", "")]);
    let spec = SubdevSpec::try_from_str(":").unwrap();
    assert_eq!(pairs(&spec), vec![pair("", "")]);
}

#[test]
fn an_empty_part_is_at_fault() {
    assert_eq!(SubdevSpec::try_from_str(""), invalid(""));
    assert_eq!(SubdevSpec::try_from_str("A:0  B:0"), invalid(""));
    assert_eq!(SubdevSpec::try_from_str(" A:0"), invalid(""));
    assert_eq!(SubdevSpec::try_from_str("A:0 "), invalid(""));
}

#[test]
fn a_part_with_two_colons_is_at_fault() {
    assert_eq!(SubdevSpec::try_from_str("A:0:1"), invalid("A:0:1"));
    assert_eq!(SubdevSpec::try_from_str("A:0 B::1 C:0:0"), invalid("B::1"));
    assert_eq!(SubdevSpec::try_from_str("A:0 \u{e4}:\u{f6}:\u{fc}"), invalid("\u{e4}:\u{f6}:\u{fc}"));
}

#[test]
fn the_first_part_at_fault_is_named() {
    assert_eq!(SubdevSpec::try_from_str("A:B:C  D"), invalid("A:B:C"));
    assert_eq!(SubdevSpec::try_from_str("A  B:C:D"), invalid(""));
}

#[test]
fn names_beyond_ascii() {
    let spec = SubdevSpec::try_from_str("gr\u{fc}n:\u{1f600} B:0").unwrap();
    assert_eq!(pairs(&spec), vec![pair("gr\u{fc}n", "\u{1f600}"), pair("B", "0")]);
}

#[test]
fn pairs_are_pushed_at_the_end() {
    let mut spec = SubdevSpec::new();
    assert!(spec.is_empty());
    assert_eq!(spec.len(), 0);
    spec.push("A", "0");
    spec.push("", "1");
    assert_eq!(pairs(&spec), vec![pair("A", "0"), pair("", "1")]);
    assert_eq!(spec, SubdevSpec::try_from_str("A:0 1").unwrap());
}

#[test]
fn text_is_cut_at_each_separator() {
    let chars = chars_of("a,bc,,d");
    assert_eq!(chars, vec!['a', ',', 'b', 'c', ',', ',', 'd']);
    assert_eq!(
        split_ranges(&chars, 0, chars.len(), ','),
        vec![(0, 1), (2, 4), (5, 5), (6, 7)]
    );
    assert_eq!(split_ranges(&chars, 2, 4, ','), vec![(2, 4)]);
    assert_eq!(split_ranges(&chars, 1, 2, ','), vec![(1, 1), (2, 2)]);
    assert_eq!(split_ranges(&chars, 3, 3, ','), vec![(3, 3)]);
    assert_eq!(split_ranges(&Vec::new(), 0, 0, ','), vec![(0, 0)]);
}
