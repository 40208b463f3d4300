use console_core::randy::{Randy, BUF_SIZE, STARVED_SAMPLE};

fn feed(rng: &mut Randy, bits: &[usize]) {
    for &bit in bits {
        rng.add_bit(bit);
    }
}

#[test]
fn new_extractor_is_empty() {
    let rng = Randy::new();
    assert_eq!(rng.nums_available(), 0);
    assert_eq!(rng.capacity(), 18);
    assert_eq!(BUF_SIZE, 18);
}

#[test]
fn three_set_bits_are_rejected() {
    let mut rng = Randy::new();
    feed(&mut rng, &[1, 1, 1]);
    assert_eq!(rng.nums_available(), 0);
}

#[test]
fn one_one_zero_is_accepted_as_six() {
    let mut rng = Randy::new();
    feed(&mut rng, &[1, 1, 0]);
    assert_eq!(rng.nums_available(), 1);
    assert_eq!(rng.next(), 6);
    assert_eq!(rng.nums_available(), 0);
}

#[test]
fn rejection_leaves_waiting_samples_alone() {
    let mut rng = Randy::new();
    feed(&mut rng, &[0, 1, 0]);
    feed(&mut rng, &[1, 1, 1]);
    assert_eq!(rng.nums_available(), 1);
    feed(&mut rng, &[1, 0, 1]);
    assert_eq!(rng.nums_available(), 2);
    assert_eq!(rng.next(), 2);
    assert_eq!(rng.next(), 5);
}

#[test]
fn fewer_than_three_bits_make_no_sample() {
    let mut rng = Randy::new();
    feed(&mut rng, &[0]);
    assert_eq!(rng.nums_available(), 0);
    feed(&mut rng, &[0]);
    assert_eq!(rng.nums_available(), 0);
    feed(&mut rng, &[1]);
    assert_eq!(rng.nums_available(), 1);
    assert_eq!(rng.next(), 1);
}

#[test]
fn every_pattern_but_all_ones_gives_its_value() {
    for a in 0..2usize {
        for b in 0..2usize {
            for c in 0..2usize {
                let mut rng = Randy::new();
                feed(&mut rng, &[a, b, c]);
                let value = 4 * a + 2 * b + c;
                if value == 7 {
                    assert_eq!(rng.nums_available(), 0);
                } else {
                    assert_eq!(rng.nums_available(), 1);
                    assert_eq!(rng.next(), value);
                }
            }
        }
    }
}

#[test]
fn samples_come_out_in_order_of_acceptance() {
    let mut rng = Randy::new();
    feed(&mut rng, &[0, 0, 0, 0, 0, 1, 1, 1, 1, 0, 1, 0, 1, 0, 0, 1, 1, 0]);
    assert_eq!(rng.nums_available(), 5);
    let mut got = Vec::new();
    for _ in 0..5 {
        got.push(rng.next());
    }
    assert_eq!(got, vec![0, 1, 2, 4, 6]);
}

#[test]
fn starved_extractor_answers_with_the_fallback() {
    let mut rng = Randy::new();
    assert_eq!(rng.next(), 3);
    assert_eq!(STARVED_SAMPLE, 3);
    assert_eq!(rng.nums_available(), 0);
    feed(&mut rng, &[1, 0, 0]);
    assert_eq!(rng.next(), 4);
    assert_eq!(rng.next(), 3);
    assert_eq!(rng.nums_available(), 0);
}

#[test]
fn available_never_exceeds_capacity() {
    let mut rng = Randy::new();
    for round in 0..40usize {
        feed(&mut rng, &[0, 1, 1]);
        assert!(rng.nums_available() <= rng.capacity());
        assert_eq!(rng.nums_available(), if round < 18 { round + 1 } else { 18 });
    }
}

#[test]
fn full_ring_ignores_bits() {
    let mut rng = Randy::new();
    for _ in 0..18 {
        feed(&mut rng, &[0, 0, 1]);
    }
    assert_eq!(rng.nums_available(), 18);
    // two bits that would start the candidate 110 if they were kept
    feed(&mut rng, &[1, 1]);
    assert_eq!(rng.nums_available(), 18);
    assert_eq!(rng.next(), 1);
    // the ring has room again and no bit is pending: 0,1,0 spells 2
    feed(&mut rng, &[0, 1, 0]);
    assert_eq!(rng.nums_available(), 18);
    for _ in 0..17 {
        assert_eq!(rng.next(), 1);
    }
    assert_eq!(rng.next(), 2);
    assert_eq!(rng.nums_available(), 0);
}

#[test]
fn ring_wraps_around() {
    let mut rng = Randy::new();
    let mut expected = std::collections::VecDeque::new();
    let mut value = 0usize;
    for round in 0..100usize {
        let bits = [(value >> 2) & 1, (value >> 1) & 1, value & 1];
        feed(&mut rng, &bits);
        expected.push_back(value);
        value = (value + 1) % 7;
        if round % 3 != 0 {
            assert_eq!(rng.next(), expected.pop_front().unwrap());
        }
        assert_eq!(rng.nums_available(), expected.len());
        if expected.len() == 18 {
            break;
        }
    }
    while let Some(front) = expected.pop_front() {
        assert_eq!(rng.next(), front);
    }
    assert_eq!(rng.nums_available(), 0);
}

#[test]
fn next_is_always_a_piece_index() {
    let mut rng = Randy::new();
    let mut seed = 0x2545_F491u32;
    for _ in 0..2000 {
        seed ^= seed << 13;
        seed ^= seed >> 17;
        seed ^= seed << 5;
        rng.add_bit((seed & 1) as usize);
        if seed & 6 == 0 {
            assert!(rng.next() <= 6);
        }
        assert!(rng.nums_available() <= 18);
    }
}
