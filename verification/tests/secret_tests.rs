use candy_count::secret::{SecretGenerator, SecretRange};

#[test]
fn draws_stay_in_range() {
    let range = SecretRange::new(300, 1000);
    for _ in 0..2000 {
        let n = SecretGenerator::generate(range);
        assert!((300..=1000).contains(&n));
    }
}

#[test]
fn degenerate_range_is_fixed() {
    let range = SecretRange::new(7, 7);
    for _ in 0..100 {
        assert_eq!(SecretGenerator::generate(range), 7);
    }
}

#[test]
fn both_endpoints_reachable() {
    let range = SecretRange::new(1, 2);
    let mut saw_low = false;
    let mut saw_high = false;
    for _ in 0..2000 {
        match SecretGenerator::generate(range) {
            1 => saw_low = true,
            2 => saw_high = true,
            other => panic!("draw {} outside the range", other),
        }
        if saw_low && saw_high {
            break;
        }
    }
    assert!(saw_low && saw_high);
}
