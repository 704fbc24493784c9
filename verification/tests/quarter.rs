use quarterly::{Quarter, QuarterNumber};

fn all_four() -> Vec<QuarterNumber> {
    vec![
        QuarterNumber::Q1,
        QuarterNumber::Q2,
        QuarterNumber::Q3,
        QuarterNumber::Q4,
    ]
}

#[test]
fn new_pairs_its_arguments() {
    assert_eq!(
        Quarter::new(QuarterNumber::Q1, 2023),
        Quarter { quarter_number: QuarterNumber::Q1, year: 2023 }
    );
    let q: Quarter = Quarter::new(QuarterNumber::Q4, 65535);
    assert_eq!(q.quarter_number, QuarterNumber::Q4);
    assert_eq!(q.year, 65535);
    let q: Quarter = Quarter::new(QuarterNumber::Q2, 0);
    assert_eq!(q.quarter_number, QuarterNumber::Q2);
    assert_eq!(q.year, 0);
}

#[test]
fn next_quarter_within_a_year() {
    assert_eq!(
        Quarter::new(QuarterNumber::Q1, 2023).next_quarter(),
        Quarter::new(QuarterNumber::Q2, 2023)
    );
    assert_eq!(
        Quarter::new(QuarterNumber::Q2, 2023).next_quarter(),
        Quarter::new(QuarterNumber::Q3, 2023)
    );
    assert_eq!(
        Quarter::new(QuarterNumber::Q3, 2023).next_quarter(),
        Quarter::new(QuarterNumber::Q4, 2023)
    );
}

#[test]
fn next_quarter_into_the_next_year() {
    assert_eq!(
        Quarter::new(QuarterNumber::Q4, 2023).next_quarter(),
        Quarter::new(QuarterNumber::Q1, 2024)
    );
    assert_eq!(
        Quarter::new(QuarterNumber::Q4, 0).next_quarter(),
        Quarter::new(QuarterNumber::Q1, 1)
    );
    assert_eq!(
        Quarter::new(QuarterNumber::Q4, 65534).next_quarter(),
        Quarter::new(QuarterNumber::Q1, 65535)
    );
}

#[test]
fn next_quarter_wraps_after_the_last_year() {
    assert_eq!(
        Quarter::new(QuarterNumber::Q4, 65535).next_quarter(),
        Quarter::new(QuarterNumber::Q1, 0)
    );
    assert_eq!(
        Quarter::new(QuarterNumber::Q3, 65535).next_quarter(),
        Quarter::new(QuarterNumber::Q4, 65535)
    );
}

#[test]
fn next_quarter_leaves_the_receiver_alone() {
    let q: Quarter = Quarter::new(QuarterNumber::Q4, 1999);
    let next: Quarter = q.next_quarter();
    assert_eq!(q, Quarter::new(QuarterNumber::Q4, 1999));
    assert_eq!(next, Quarter::new(QuarterNumber::Q1, 2000));
}

#[test]
fn four_steps_make_a_year() {
    let years: Vec<u16> = vec![0, 1, 1999, 2023, 32767, 32768, 65533, 65534];
    for year in years {
        for quarter_number in all_four() {
            let start: Quarter = Quarter::new(quarter_number, year);
            let end: Quarter = start.next_quarter().next_quarter().next_quarter().next_quarter();
            assert_eq!(end, Quarter::new(quarter_number, year + 1));
        }
    }
}

#[test]
fn four_steps_from_the_last_year_reach_year_zero() {
    for quarter_number in all_four() {
        let start: Quarter = Quarter::new(quarter_number, 65535);
        let end: Quarter = start.next_quarter().next_quarter().next_quarter().next_quarter();
        assert_eq!(end, Quarter::new(quarter_number, 0));
    }
}

#[test]
fn the_year_changes_only_after_a_fourth_quarter() {
    let mut q: Quarter = Quarter::new(QuarterNumber::Q1, 2020);
    let mut steps: u32 = 0;
    while steps < 40 {
        let next: Quarter = q.next_quarter();
        if q.quarter_number == QuarterNumber::Q4 {
            assert_eq!(next.year, q.year + 1);
            assert_eq!(next.quarter_number, QuarterNumber::Q1);
        } else {
            assert_eq!(next.year, q.year);
            assert_ne!(next.quarter_number, QuarterNumber::Q1);
        }
        q = next;
        steps += 1;
    }
    assert_eq!(q, Quarter::new(QuarterNumber::Q1, 2030));
}

#[test]
fn the_whole_cycle_returns_to_its_start() {
    let start: Quarter = Quarter::new(QuarterNumber::Q3, 40000);
    let mut q: Quarter = start;
    let mut steps: u32 = 0;
    while steps < 4 * 65536 {
        q = q.next_quarter();
        steps += 1;
        if steps < 4 * 65536 {
            assert_ne!(q, start);
        }
    }
    assert_eq!(q, start);
}
