use std::sync::Arc;

use sequential_gen::counter::{advance, SequenceGenerator};
use sequential_gen::generator::{add_wide_offset, add_word_offset};
use sequential_gen::{EpochBasedGenerator, Error, Generator, SimpleGenerator, UuidGenerator};

#[test]
fn generator_test_simple_generator() -> Result<(), Error> {
    let generator = SimpleGenerator::new(1);
    assert_eq!(generator.generate()?, 1);
    assert_eq!(generator.generate()?, 2);
    Ok(())
}

#[test]
fn simple_test_simple_generator() {
    let generator = SimpleGenerator::new(1);
    assert_eq!(generator.generate().unwrap(), 1);
    assert_eq!(generator.generate().unwrap(), 2);
}

#[test]
fn test_uuid_generator() {
    let generator = UuidGenerator;
    let value = generator.generate();
    let value_2 = generator.generate();
    assert_ne!(value, value_2);
}

#[test]
fn test_uuid_generator_with_offset() {
    let generator = UuidGenerator;
    let value = generator.with_offset(10);
    let value_2 = generator.with_offset(10);
    assert_ne!(value, value_2);
}

#[test]
fn step_five_progression() {
    let generator = SimpleGenerator::new(5);
    assert_eq!(generator.generate().unwrap(), 5);
    assert_eq!(generator.generate().unwrap(), 10);
    assert_eq!(generator.generate().unwrap(), 15);
    assert_eq!(generator.generate().unwrap(), 20);
}

#[test]
fn step_three_advances_by_three() {
    let generator = SimpleGenerator::new(3);
    let mut last = generator.generate().unwrap();
    assert_eq!(last, 3);
    for _ in 0..50 {
        let next = generator.generate().unwrap();
        assert_eq!(next, last + 3);
        last = next;
    }
}

#[test]
fn shared_store_interleaves_steps() {
    let store = Arc::new(SequenceGenerator::new());
    let one = SimpleGenerator::with_store(1, store.clone());
    let five = SimpleGenerator::with_store(5, store.clone());
    assert_eq!(one.generate().unwrap(), 1);
    assert_eq!(five.generate().unwrap(), 6);
    assert_eq!(one.generate().unwrap(), 7);
    assert_eq!(five.generate().unwrap(), 12);
}

#[test]
fn separate_stores_are_independent() {
    let a = SimpleGenerator::new(1);
    let b = SimpleGenerator::new(1);
    assert_eq!(a.generate().unwrap(), 1);
    assert_eq!(b.generate().unwrap(), 1);
    assert_eq!(a.generate().unwrap(), 2);
}

#[test]
fn unit_steps_cover_range_without_gaps() {
    let store = Arc::new(SequenceGenerator::new());
    let generators: Vec<SimpleGenerator> =
        (0..4).map(|_| SimpleGenerator::with_store(1, store.clone())).collect();
    let mut seen = Vec::new();
    for _ in 0..25 {
        for g in &generators {
            seen.push(g.generate().unwrap());
        }
    }
    seen.sort();
    let expected: Vec<usize> = (1..=100).collect();
    assert_eq!(seen, expected);
}

#[test]
fn building_generators_leaves_store_alone() {
    let store = Arc::new(SequenceGenerator::new());
    for step in 0..1000 {
        let g = SimpleGenerator::with_store(step, store.clone());
        drop(g);
    }
    let g = SimpleGenerator::with_store(7, store.clone());
    assert_eq!(g.generate().unwrap(), 7);
}

#[test]
fn store_fetch_add_returns_new_total() {
    let store = SequenceGenerator::new();
    assert_eq!(store.fetch_add(4), 4);
    assert_eq!(store.fetch_add(0), 4);
    assert_eq!(store.fetch_add(2), 6);
}

#[test]
fn store_wraps_at_word_size() {
    let store = SequenceGenerator::new();
    assert_eq!(store.fetch_add(usize::MAX), usize::MAX);
    assert_eq!(store.fetch_add(1), 0);
    assert_eq!(store.fetch_add(3), 3);
}

#[test]
fn zero_step_repeats_total() {
    let generator = SimpleGenerator::new(0);
    assert_eq!(generator.generate().unwrap(), 0);
    assert_eq!(generator.generate().unwrap(), 0);
}

#[test]
fn advance_adds_and_wraps() {
    assert_eq!(advance(10, 5), 15);
    assert_eq!(advance(usize::MAX, 2), 1);
}

#[test]
fn simple_offset_matches_plain_call_plus_offset() {
    let store = Arc::new(SequenceGenerator::new());
    let g = SimpleGenerator::with_store(2, store.clone());
    assert_eq!(g.with_offset(100).unwrap(), 102);
    assert_eq!(g.generate().unwrap(), 4);
    assert_eq!(g.with_offset(10).unwrap(), 16);
}

#[test]
fn pinned_source_offset_law() {
    let g = SimpleGenerator::new(3);
    assert_eq!(g.step(), 3);
    assert_eq!(g.value_after(7), 10);
    assert_eq!(g.offset_value_after(7, 5), 15);
    assert_eq!(g.offset_value_after(usize::MAX, 5), 7);
    assert_eq!(g.offset_value_after(7, 5), g.value_after(7) + 5);
}

#[test]
fn offsets_wrap() {
    assert_eq!(add_word_offset(5, 6), 11);
    assert_eq!(add_word_offset(usize::MAX, 1), 0);
    assert_eq!(add_wide_offset(40, 2), 42);
    assert_eq!(add_wide_offset(u128::MAX, 3), 2);
}

#[test]
fn uuid_sample_is_unique() {
    let generator = UuidGenerator;
    let mut values: Vec<u128> = (0..1000).map(|_| generator.generate().unwrap()).collect();
    values.sort();
    values.dedup();
    assert_eq!(values.len(), 1000);
}

#[test]
fn uuid_values_carry_version_seven() {
    let generator = UuidGenerator;
    for _ in 0..20 {
        let value = generator.generate().unwrap();
        assert_eq!((value >> 76) & 0xf, 7);
        assert_eq!((value >> 62) & 3, 2);
    }
}

#[test]
fn epoch_value_from_reading() {
    assert_eq!(EpochBasedGenerator::value_from(Some(5)), Ok(5));
    assert_eq!(EpochBasedGenerator::value_from(None), Err(Error::ClockBeforeEpoch));
}

#[test]
fn epoch_generator_reads_clock() {
    let generator = EpochBasedGenerator;
    let first = generator.generate().unwrap();
    assert!(first > 0);
    let second = generator.generate().unwrap();
    assert!(second >= first);
    let shifted = generator.with_offset(1_000_000_000).unwrap();
    assert!(shifted > second);
}

#[test]
fn uuid_generate_gives_version_seven() {
    let generator = UuidGenerator;
    let value = generator.generate().unwrap();
    assert_eq!((value >> 76) & 0xf, 7);
    assert_eq!((value >> 62) & 3, 2);
    assert_ne!(value, generator.generate().unwrap());
}

#[test]
fn uuid_value_from_source() {
    assert_eq!(UuidGenerator::value_from(Some(42)), Ok(42));
    assert_eq!(UuidGenerator::value_from(None), Err(Error::ClockBeforeEpoch));
}

#[test]
fn uuid_with_offset_shifts_a_v7_value() {
    let generator = UuidGenerator;
    let shifted = generator.with_offset(10).unwrap();
    let value = shifted.wrapping_sub(10);
    assert_eq!((value >> 76) & 0xf, 7);
    assert_eq!((value >> 62) & 3, 2);
}

#[test]
fn unit_steps_from_nonzero_store_cover_range() {
    let store = Arc::new(SequenceGenerator::new());
    let warm = SimpleGenerator::with_store(40, store.clone());
    assert_eq!(warm.generate().unwrap(), 40);
    let generators: Vec<SimpleGenerator> =
        (0..3).map(|_| SimpleGenerator::with_store(1, store.clone())).collect();
    let mut seen = Vec::new();
    for _ in 0..10 {
        for g in &generators {
            seen.push(g.generate().unwrap());
        }
    }
    seen.sort();
    let expected: Vec<usize> = (41..=70).collect();
    assert_eq!(seen, expected);
}

