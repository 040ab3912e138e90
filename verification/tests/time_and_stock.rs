use chrono::{DateTime, Duration};
use horfimbor_mono::planet_shared::dto::{Production, Resource, ResourceCalc, ResourceMap};
use horfimbor_mono::time::TimeConfig;
use horfimbor_time::HfTimeConfiguration;

fn config(irl: i64, ig: i64, start: i64) -> (TimeConfig, HfTimeConfiguration) {
    let outside = HfTimeConfiguration::new(
        Duration::milliseconds(irl),
        Duration::milliseconds(ig),
        DateTime::from_timestamp_millis(start).unwrap(),
    )
    .unwrap();
    (TimeConfig { start_time: start, irl_length: irl, ig_length: ig }, outside)
}

#[test]
fn hf_millis_cycles() {
    let (c, _) = config(10, 3, 0);
    let expected = [(1, 1), (2, 2), (3, 3), (4, 3), (9, 3), (10, 3), (11, 4), (12, 5), (13, 6), (14, 6)];
    for (t, h) in expected {
        assert_eq!(c.hf_millis_at(t), Some(h));
        assert_eq!(c.diff_hf_millis(0, t), Some(h));
    }
}

#[test]
fn diff_matches_horfimbor_time() {
    let samples = [(0, 1200), (15, 215), (500, 1010), (-40, 77), (1200, 3), (7, 7), (-25, -3)];
    for (irl, ig, start) in [(1000, 500, 0), (100, 30, 0), (10, 3, 5), (900, 600, -100)] {
        let (c, outside) = config(irl, ig, start);
        for (a, b) in samples {
            let ours = c.diff_hf_millis(a, b).unwrap();
            let theirs = outside
                .diff_hf_millis(
                    DateTime::from_timestamp_millis(a).unwrap(),
                    DateTime::from_timestamp_millis(b).unwrap(),
                )
                .as_milliseconds();
            assert_eq!(ours, theirs, "irl {irl} ig {ig} start {start} from {a} to {b}");
        }
    }
}

#[test]
fn diff_matches_horfimbor_time_on_negative_cycles() {
    let samples = [(0, 1200), (15, 215), (500, 1010), (-40, 77), (1200, 3), (7, 7), (-25, -3), (-9000, 12000)];
    for (irl, ig, start) in [(-5000, -10000), (-10, -30), (7, -2), (-1, -4)].map(|(a, b)| (a, b, 0)) {
        let (c, outside) = config(irl, ig, start);
        for (a, b) in samples {
            let ours = c.diff_hf_millis(a, b).unwrap();
            let theirs = outside
                .diff_hf_millis(
                    DateTime::from_timestamp_millis(a).unwrap(),
                    DateTime::from_timestamp_millis(b).unwrap(),
                )
                .as_milliseconds();
            assert_eq!(ours, theirs, "irl {irl} ig {ig} from {a} to {b}");
        }
    }
    let c = TimeConfig { start_time: 0, irl_length: -5000, ig_length: -10000 };
    // -7000 / -5000 = 1, rest -2000 > -10000: (1 + 1) * -10000
    assert_eq!(c.hf_millis_at(-7000), Some(-20000));
    // 7000 / -5000 = -1, rest 2000 > -10000: 0
    assert_eq!(c.hf_millis_at(7000), Some(0));
    // a stock is computed on such a cycle too
    assert_eq!(
        stock(5, -1, 1000).compute_quantity_at(&c, -7000),
        Some(ResourceCalc { quantity: 1000, date_time: -7000, production: -1, stock_capacity: 1000 })
    );
}

#[test]
fn diff_undefined_cases() {
    let c = TimeConfig { start_time: 0, irl_length: 0, ig_length: 3 };
    assert_eq!(c.hf_millis_at(5), None);
    let c = TimeConfig { start_time: i64::MIN, irl_length: 10, ig_length: 3 };
    assert_eq!(c.diff_hf_millis(0, i64::MAX), None);
}

#[test]
fn diff_laws_on_values() {
    let (c, _) = config(100, 30, 0);
    assert_eq!(c.diff_hf_millis(42, 42), Some(0));
    let ab = c.diff_hf_millis(15, 215).unwrap();
    let bd = c.diff_hf_millis(215, 480).unwrap();
    assert_eq!(c.diff_hf_millis(15, 480), Some(ab + bd));
    let mut last = 0;
    for t in 0..500 {
        let h = c.hf_millis_at(t).unwrap();
        assert!(h >= last && h - last <= 1);
        last = h;
    }
    // before the start the in-game time is not monotonic
    assert!(c.hf_millis_at(-100).unwrap() > c.hf_millis_at(-99).unwrap());
}

fn stock(quantity: usize, production: i64, cap: usize) -> ResourceCalc {
    ResourceCalc { quantity, date_time: 0, production, stock_capacity: cap }
}

#[test]
fn compute_quantity_at_values() {
    let c = TimeConfig { start_time: 0, irl_length: 1000, ig_length: 500 };
    assert_eq!(
        stock(5, 2, 1000).compute_quantity_at(&c, 1200),
        Some(ResourceCalc { quantity: 1000, date_time: 1200, production: 2, stock_capacity: 1000 })
    );
    assert_eq!(stock(5, 1, 1000).compute_quantity_at(&c, 1200).unwrap().quantity, 700);
    assert_eq!(stock(5, -3, 1000).compute_quantity_at(&c, 1200).unwrap().quantity, 0);
    assert_eq!(stock(5, i64::MAX, 1000).compute_quantity_at(&c, 1200), None);
    let bad = TimeConfig { start_time: 0, irl_length: 0, ig_length: 500 };
    assert_eq!(stock(5, 1, 1000).compute_quantity_at(&bad, 1200), None);
}

#[test]
fn compute_quantity_reads_clock() {
    let c = TimeConfig { start_time: 0, irl_length: 1000, ig_length: 1000 };
    let s = ResourceCalc { quantity: 0, date_time: 0, production: 0, stock_capacity: 50 };
    let r = s.compute_quantity(&c).unwrap();
    assert_eq!(r.quantity, 0);
    assert!(r.date_time > 1_600_000_000_000);
}

#[test]
fn add_and_sub_within_capacity() {
    let s = stock(10, 0, 100);
    assert_eq!(s.add(5).quantity, 15);
    assert_eq!(s.add(200).quantity, 100);
    assert_eq!(s.sub(3).quantity, 7);
    // a negative difference read back as a usize is capped by the capacity
    assert_eq!(s.sub(20).quantity, 100);
    assert_eq!(s.sub(10).quantity, 0);
    assert_eq!(s.add(5).production, 0);
}

#[test]
fn default_stock_is_empty_and_dated_now() {
    let d = ResourceCalc::default();
    assert_eq!((d.quantity, d.production, d.stock_capacity), (0, 0, 0));
    assert!(d.date_time > 1_600_000_000_000);
}

#[test]
fn resource_names_and_maps() {
    assert_eq!(Resource::Electricity.name(), "Electricity");
    assert_eq!(Resource::Population.name(), "Population");
    assert_eq!(Resource::Steal.name(), "Steal");
    let mut m: ResourceMap<Production> = ResourceMap::new();
    m.insert(Resource::Steal, Production { quantity: 1, stock: 2 });
    m.insert(Resource::Electricity, Production { quantity: 3, stock: 4 });
    m.insert(Resource::Steal, Production { quantity: 5, stock: 6 });
    assert_eq!(m.get(Resource::Steal), Some(Production { quantity: 5, stock: 6 }));
    assert_eq!(m.get(Resource::Population), None);
    assert_eq!(
        m.to_vec(),
        vec![
            (Resource::Electricity, Production { quantity: 3, stock: 4 }),
            (Resource::Steal, Production { quantity: 5, stock: 6 })
        ]
    );
}
