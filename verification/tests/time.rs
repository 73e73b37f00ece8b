use uhd_usrp::time::{FRAC_MAX_BITS, FRAC_ONE_BITS};
use uhd_usrp::TimeSpec;

/// Splits a fraction of any size into its whole part and the encoding of
/// what is left.
fn split(frac: f64) -> (i64, u64) {
    let whole = frac.floor();
    (whole as i64, (frac - whole).to_bits())
}

fn from_parts(full_secs: i64, frac: f64) -> Option<TimeSpec> {
    let (whole, bits) = split(frac);
    TimeSpec::try_from_parts(full_secs, whole, bits)
}

#[test]
fn encodings_of_the_bounds() {
    assert_eq!(FRAC_ONE_BITS, 1.0f64.to_bits());
    assert_eq!(FRAC_MAX_BITS, (1.0 - f64::EPSILON).to_bits());
    assert_eq!(0.0f64.to_bits(), 0);
}

#[test]
fn negative_fraction_borrows_a_second() {
    let a = from_parts(-1, 0.7).unwrap();
    let b = from_parts(0, -0.3).unwrap();
    assert_eq!(a, b);
    assert_eq!(a.full_secs(), -1);
    assert_eq!(f64::from_bits(a.frac_bits()), 0.7);
    assert!(a.is_negative());
    assert!(!(a < b) && !(b < a));
}

#[test]
fn large_fraction_carries_into_the_seconds() {
    let t = from_parts(1, 1.5).unwrap();
    assert_eq!(t.full_secs(), 2);
    assert_eq!(f64::from_bits(t.frac_bits()), 0.5);
    let t = from_parts(-2, -0.5).unwrap();
    assert_eq!((t.full_secs(), f64::from_bits(t.frac_bits())), (-3, 0.5));
}

#[test]
fn overflow_fails_rather_than_wraps() {
    assert_eq!(from_parts(i64::MAX, 1.0), None);
    assert_eq!(from_parts(i64::MAX, 1.5), None);
    assert_eq!(from_parts(i64::MIN, -0.5), None);
    assert_eq!(TimeSpec::max().checked_add_secs(1), None);
    assert_eq!(TimeSpec::min().checked_add_secs(-1), None);
    let max = TimeSpec::max();
    assert_eq!(
        TimeSpec::try_from_parts(max.full_secs(), 1, 0),
        None
    );
    assert!(from_parts(i64::MAX, 0.5).is_some());
    assert!(from_parts(i64::MAX, -0.5).is_some());
}

#[test]
fn a_rest_of_one_carries_one_more_second() {
    let t = TimeSpec::try_from_parts(4, -1, FRAC_ONE_BITS).unwrap();
    assert_eq!((t.full_secs(), t.frac_bits()), (4, 0));
    assert_eq!(TimeSpec::try_from_parts(i64::MAX, 0, FRAC_ONE_BITS), None);
}

#[test]
fn what_is_no_fraction_is_refused() {
    assert_eq!(TimeSpec::try_from_parts(0, 0, f64::NAN.to_bits()), None);
    assert_eq!(TimeSpec::try_from_parts(0, 0, f64::INFINITY.to_bits()), None);
    assert_eq!(TimeSpec::try_from_parts(0, 0, f64::NEG_INFINITY.to_bits()), None);
    assert_eq!(TimeSpec::try_from_parts(0, 0, (-0.25f64).to_bits()), None);
    assert_eq!(TimeSpec::try_from_parts(0, 0, 1.5f64.to_bits()), None);
    let t = TimeSpec::from_parts_unchecked(-7, FRAC_MAX_BITS);
    assert_eq!((t.full_secs(), t.frac_bits()), (-7, FRAC_MAX_BITS));
    assert_eq!(Some(t), TimeSpec::try_from_parts(-7, 0, FRAC_MAX_BITS));
}

#[test]
fn constants() {
    assert_eq!(TimeSpec::zero(), TimeSpec::from_secs(0));
    assert!(TimeSpec::zero().is_zero());
    assert!(!TimeSpec::zero().is_negative());
    assert_eq!(TimeSpec::max().full_secs(), i64::MAX);
    assert_eq!(f64::from_bits(TimeSpec::max().frac_bits()), 1.0 - f64::EPSILON);
    assert_eq!(TimeSpec::min().full_secs(), i64::MIN);
    assert_eq!(TimeSpec::min().frac_bits(), 0);
    assert!(TimeSpec::min().is_negative());
    assert!(!from_parts(0, 0.5).unwrap().is_zero());
}

#[test]
fn order_follows_the_instant() {
    let times = [
        TimeSpec::min(),
        from_parts(-2, 0.0).unwrap(),
        from_parts(0, -1.1).unwrap(),
        from_parts(0, -0.3).unwrap(),
        TimeSpec::zero(),
        from_parts(0, 1e-9).unwrap(),
        from_parts(0, 0.5).unwrap(),
        from_parts(1, 0.0).unwrap(),
        from_parts(1, 0.25).unwrap(),
        TimeSpec::max(),
    ];
    for i in 0..times.len() {
        for j in 0..times.len() {
            assert_eq!(times[i] < times[j], i < j);
            assert_eq!(times[i].is_before(&times[j]), i < j);
            assert_eq!(times[i] == times[j], i == j);
            assert_eq!(times[i].partial_cmp(&times[j]), Some(i.cmp(&j)));
        }
    }
}

#[test]
fn whole_seconds_are_added() {
    let t = from_parts(3, 0.25).unwrap();
    let u = t.checked_add_secs(-5).unwrap();
    assert_eq!((u.full_secs(), u.frac_bits()), (-2, 0.25f64.to_bits()));
}
