use dating::dating::{is_leap, month_length, that_date, these_dates, this_date, this_period, Date,
    Dates, Period};

#[test]
fn leap_year_oracle() {
    assert_eq!(is_leap(2000), true);
    assert_eq!(is_leap(1900), false);
    assert_eq!(is_leap(2024), true);
    assert_eq!(is_leap(2023), false);
}

#[test]
fn leap_year_negative_and_zero() {
    assert_eq!(is_leap(0), true);
    assert_eq!(is_leap(-4), true);
    assert_eq!(is_leap(-100), false);
    assert_eq!(is_leap(-400), true);
}

#[test]
fn month_lengths_common_year() {
    let expected = [31, 28, 31, 30, 31, 30, 31, 31, 30, 31, 30, 31];
    for m in 1..=12 {
        assert_eq!(month_length(m), expected[(m - 1) as usize]);
    }
}

#[test]
fn add_zero_period_is_identity() {
    let d = Date::new(2019, 4, 1);
    assert_eq!(d.add(Period { y: 0, m: 0, d: 0 }), d);
    let e = Date::new(2020, 2, 29);
    assert_eq!(e.add(Period { y: 0, m: 0, d: 0 }), e);
}

#[test]
fn add_month_overflow() {
    assert_eq!(
        Date::new(2019, 4, 1).add(Period { y: 0, m: 1, d: 5 }),
        Date::new(2019, 5, 6)
    );
}

#[test]
fn add_year_rollover_via_months() {
    assert_eq!(
        Date::new(2019, 12, 1).add(Period { y: 0, m: 1, d: 0 }),
        Date::new(2020, 1, 1)
    );
}

#[test]
fn add_day_overflow_leap_february() {
    assert_eq!(
        Date::new(2020, 2, 27).add(Period { y: 0, m: 0, d: 3 }),
        Date::new(2020, 3, 1)
    );
}

#[test]
fn add_day_overflow_common_february() {
    assert_eq!(
        Date::new(2019, 2, 27).add(Period { y: 0, m: 0, d: 3 }),
        Date::new(2019, 3, 2)
    );
}

#[test]
fn add_large_day_delta_stays_in_range() {
    let cases = [
        (Date::new(2019, 1, 31), Period { y: 0, m: 0, d: 1000 }),
        (Date::new(2020, 2, 1), Period { y: 0, m: 14, d: 90 }),
        (Date::new(1999, 12, 31), Period { y: 0, m: 0, d: 366 }),
    ];
    for (d, p) in cases {
        let r = d.add(p);
        assert!(1 <= r.m && r.m <= 12);
        let max = if r.m == 2 && is_leap(r.y) { 29 } else { month_length(r.m) };
        assert!(1 <= r.d && r.d <= max);
    }
}

#[test]
fn add_negative_months_borrow() {
    assert_eq!(
        Date::new(2020, 1, 15).add(Period { y: 0, m: -1, d: 0 }),
        Date::new(2019, 12, 15)
    );
    assert_eq!(
        Date::new(2020, 3, 1).add(Period { y: 0, m: -15, d: 0 }),
        Date::new(2018, 12, 1)
    );
}

#[test]
fn add_assign_matches_add() {
    let mut d = Date::new(2019, 10, 31);
    let p = Period { y: 0, m: 1, d: 5 };
    let expected = d.add(p);
    d.add_assign(p);
    assert_eq!(d, expected);
    assert_eq!(d, Date::new(2019, 12, 6));
}

#[test]
fn period_add_componentwise() {
    let p = Period { y: 1, m: 2, d: 3 }.add(Period { y: 4, m: 5, d: 6 });
    assert_eq!(p, Period { y: 5, m: 7, d: 9 });
    let q = Period { y: 0, m: 14, d: 40 }.add(Period { y: -1, m: 0, d: 0 });
    assert_eq!(q, Period { y: -1, m: 14, d: 40 });
}

#[test]
fn date_ordering() {
    assert!(Date::new(2019, 12, 31) < Date::new(2020, 1, 1));
    assert!(Date::new(2020, 1, 1) < Date::new(2020, 1, 2));
    assert!(Date::new(2020, 1, 2) > Date::new(2020, 1, 1));
    assert!(Date::new(2020, 1, 1) <= Date::new(2020, 1, 1));
    assert!(Date::new(2020, 1, 1) >= Date::new(2020, 1, 1));
}

#[test]
fn date_rendering() {
    assert_eq!(Date::new(2020, 1, 2).render(), "2020-01-02");
    assert_eq!(Date::new(2019, 12, 31).render(), "2019-12-31");
    assert_eq!(Date::new(-44, 3, 15).render(), "-44-03-15");
}

#[test]
fn period_rendering() {
    assert_eq!(Period { y: 0, m: 1, d: 5 }.render(), "0y1m5d");
    assert_eq!(Period { y: 10, m: 0, d: 300 }.render(), "10y0m300d");
    assert_eq!(Period { y: -1, m: -2, d: -3 }.render(), "-1y-2m-3d");
}

#[test]
fn sample_values() {
    assert_eq!(this_date(), Date::new(2019, 4, 1));
    assert_eq!(that_date(), Date::new(2020, 4, 1));
    assert_eq!(this_period(), Period { y: 0, m: 1, d: 5 });
}

#[test]
fn sequence_enumeration() {
    let mut ds = these_dates();
    let mut seen: Vec<Date> = Vec::new();
    while let Some(d) = ds.next() {
        seen.push(d);
        assert!(seen.len() < 100, "sequence failed to terminate");
    }
    let start = this_date();
    let end = that_date();
    let step = this_period();
    assert!(!seen.is_empty());
    assert_eq!(seen[0], start);
    for i in 1..seen.len() {
        assert!(seen[i - 1] < seen[i]);
        assert_eq!(seen[i], seen[i - 1].add(step));
    }
    let last = seen[seen.len() - 1];
    assert!(last <= end);
    assert!(last.add(step) > end);
    assert_eq!(seen.len(), 11);
    assert_eq!(last, Date::new(2020, 3, 21));
}

#[test]
fn sequence_empty_when_start_past_end() {
    let mut ds = Dates::new(
        Date::new(2020, 1, 2),
        Date::new(2020, 1, 1),
        Period { y: 0, m: 0, d: 1 },
    );
    assert_eq!(ds.next(), None);
    assert_eq!(ds.next(), None);
}

#[test]
fn sequence_single_element_when_start_equals_end() {
    let mut ds = Dates::new(
        Date::new(2020, 1, 1),
        Date::new(2020, 1, 1),
        Period { y: 0, m: 0, d: 1 },
    );
    assert_eq!(ds.next(), Some(Date::new(2020, 1, 1)));
    assert_eq!(ds.next(), None);
}
