//! Calendar-date arithmetic on the proleptic Gregorian calendar, with a
//! stepped date sequence and a query-string builder for a tiled-imagery
//! web service.

pub mod dating;
pub mod text;
pub mod views;

pub use views::locate;

use vstd::prelude::*;

verus! {

/// The service URI for the sample scene on the sample starting date.
pub fn this_uri() -> (r: Option<http::Uri>) {
    let v = views::this_view();
    let d = dating::this_date();
    views::locate(&v, &d)
}

/// One service URI per date of the sample date sequence, or nothing if
/// any of them is rejected by the URI grammar.
pub fn these_uris() -> (r: Option<Vec<http::Uri>>) {
    let v = views::this_view();
    let mut ds = dating::these_dates();
    let mut out: Vec<http::Uri> = Vec::new();
    loop
        invariant
            dating::dates_wf(ds),
            ds.end == (dating::Date { y: 2020, m: 4, d: 1 }),
            ds.skip == (dating::Period { y: 0, m: 1, d: 5 }),
        decreases vstd::math::max(
            0,
            dating::date_measure(ds.end@) - dating::date_measure(ds.now@) + 1,
        ),
    {
        let ghost before = ds;
        let n = ds.next();
        match n {
            None => {
                return Some(out);
            },
            Some(d) => {
                proof {
                    dating::lemma_add_strictly_increases(before.now@, before.skip@);
                    dating::lemma_measure_monotone(before.now@, before.end@);
                }
                match views::locate(&v, &d) {
                    None => {
                        return None;
                    },
                    Some(u) => {
                        out.push(u);
                    },
                }
            },
        }
    }
}

} // verus!
