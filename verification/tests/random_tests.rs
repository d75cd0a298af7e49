use flappy_bevy::random::RandomStream;
use rand::{Rng, SeedableRng};
use rand_chacha::ChaCha8Rng;

#[test]
fn seeded_stream_starts_at_zero() {
    assert_eq!(RandomStream::seeded(42), RandomStream { seed: 42, position: 0 });
}

#[test]
fn equal_streams_draw_equal_numbers() {
    let mut first = RandomStream::seeded(42);
    let mut second = RandomStream::seeded(42);
    for _ in 0..200 {
        assert_eq!(first.draw(-1000, 1000), second.draw(-1000, 1000));
        assert_eq!(first, second);
    }
}

#[test]
fn draws_stay_in_range() {
    let mut stream = RandomStream::seeded(7);
    for round in 0..500i64 {
        let low = -round * 3;
        let high = round * 5;
        let value = stream.draw(low, high);
        assert!(low <= value && value <= high);
    }
    assert_eq!(stream.draw(17, 17), 17);
    let _ = stream.draw(i64::MIN, i64::MAX);
}

#[test]
fn draws_move_the_stream_and_vary() {
    let mut stream = RandomStream::seeded(42);
    let mut seen_other_than_low = false;
    let mut seen_two_values = false;
    let first = stream.draw(0, 1_000_000);
    assert_ne!(stream.position, 0);
    assert_eq!(stream.seed, 42);
    let mut last_position = stream.position;
    for _ in 0..100 {
        let value = stream.draw(0, 1_000_000);
        assert!(stream.position > last_position);
        last_position = stream.position;
        seen_other_than_low = seen_other_than_low || value != 0;
        seen_two_values = seen_two_values || value != first;
    }
    assert!(seen_other_than_low);
    assert!(seen_two_values);
}

#[test]
fn different_seeds_draw_different_numbers() {
    let mut first = RandomStream::seeded(42);
    let mut second = RandomStream::seeded(43);
    let mut differ = false;
    for _ in 0..20 {
        differ = differ || first.draw(0, i64::MAX) != second.draw(0, i64::MAX);
    }
    assert!(differ);
}

#[test]
fn stream_draws_what_one_generator_draws_in_a_row() {
    let mut stream = RandomStream::seeded(42);
    let mut generator = ChaCha8Rng::seed_from_u64(42);
    for round in 0..300i64 {
        let low = -(round % 17) * 1000;
        let high = (round % 23) * 1000 + round;
        let expected: i64 = generator.gen_range(low..=high);
        assert_eq!(stream.draw(low, high), expected);
        assert_eq!(stream.position, generator.get_word_pos());
    }
}

#[test]
fn stream_resumes_from_its_position() {
    let mut stream = RandomStream::seeded(9);
    for _ in 0..10 {
        stream.draw(0, 99);
    }
    let mut copy = RandomStream { seed: stream.seed, position: stream.position };
    for _ in 0..10 {
        assert_eq!(stream.draw(0, 99), copy.draw(0, 99));
    }
}
