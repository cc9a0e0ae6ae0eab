use schotter::random_field::RandomField;
use schotter::random_field::JITTER_HALF;
use schotter::random_field::ROT_HALF;

#[test]
fn stream_is_reproducible() {
    let mut a = RandomField::new(77);
    let mut b = RandomField::new(77);
    for _ in 0..100 {
        assert_eq!(a.next_raw(), b.next_raw());
    }
    let mut c = RandomField::new(77);
    let mut d = RandomField::new(78);
    let mut all_equal = true;
    for _ in 0..100 {
        if c.next_raw() != d.next_raw() {
            all_equal = false;
        }
    }
    assert!(!all_equal);
}

#[test]
fn draws_stay_in_their_ranges() {
    let mut r = RandomField::new(123456);
    for _ in 0..1000 {
        let j = r.next_jitter();
        assert!(-JITTER_HALF <= j && j < JITTER_HALF);
        let a = r.next_rot();
        assert!(-ROT_HALF <= a && a < ROT_HALF);
    }
}

#[test]
fn reseeding_replays_the_same_draws() {
    let mut first = RandomField::new(42);
    let mut log: Vec<i64> = Vec::new();
    for _ in 0..30 {
        log.push(first.next_jitter());
        log.push(first.next_rot());
    }
    let mut replay = RandomField::new(42);
    for k in 0..30 {
        assert_eq!(replay.next_jitter(), log[2 * k]);
        assert_eq!(replay.next_rot(), log[2 * k + 1]);
    }
}
