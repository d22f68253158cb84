use termcanvas::rand::{needs_draw, rand, range, shuffle, vec_range, RangeError, Unsigned};

#[test]
fn rand_decodes_least_significant_byte_first() {
    assert_eq!(rand::<u8>(&[7]), 7u8);
    assert_eq!(rand::<u16>(&[0x34, 0x12]), 0x1234u16);
    assert_eq!(rand::<u32>(&[1, 2, 3, 4]), 0x0403_0201u32);
    assert_eq!(rand::<u64>(&[1, 2, 3, 4, 5, 6, 7, 8]), 0x0807_0605_0403_0201u64);
    assert_eq!(rand::<u64>(&[0xff; 8]), u64::MAX);
}

#[test]
fn rand_decodes_usize_at_its_width() {
    let width = <usize as Unsigned>::width();
    assert_eq!(width, std::mem::size_of::<usize>());
    let mut bytes = vec![0u8; width];
    bytes[0] = 0x2a;
    bytes[1] = 0x01;
    assert_eq!(rand::<usize>(&bytes), 0x012a);
}

#[test]
fn widths_of_the_integer_types() {
    assert_eq!(<u8 as Unsigned>::width(), 1);
    assert_eq!(<u16 as Unsigned>::width(), 2);
    assert_eq!(<u32 as Unsigned>::width(), 4);
    assert_eq!(<u64 as Unsigned>::width(), 8);
}

#[test]
fn widen_and_narrow_round_trip() {
    assert_eq!(200u8.widen(), 200u64);
    assert_eq!(<u16 as Unsigned>::narrow(65535), 65535u16);
    assert_eq!(<u32 as Unsigned>::narrow(7), 7u32);
    assert_eq!(u64::MAX.widen(), u64::MAX);
}

#[test]
fn vec_decodes_every_full_run() {
    assert_eq!(termcanvas::rand::vec::<u16>(&[1, 0, 2, 0, 0, 1]), vec![1u16, 2, 256]);
    assert_eq!(termcanvas::rand::vec::<u8>(&[9, 8, 7]), vec![9u8, 8, 7]);
    assert_eq!(termcanvas::rand::vec::<u32>(&[1, 0, 0, 0, 0, 0, 0, 1]), vec![1u32, 0x0100_0000]);
}

#[test]
fn vec_leaves_out_bytes_that_fill_no_value() {
    assert_eq!(termcanvas::rand::vec::<u16>(&[1, 0, 2, 0, 3]), vec![1u16, 2]);
    assert_eq!(termcanvas::rand::vec::<u32>(&[1, 2, 3]), Vec::<u32>::new());
    assert_eq!(termcanvas::rand::vec::<u64>(&[]), Vec::<u64>::new());
}

#[test]
fn range_folds_the_draw() {
    assert_eq!(range(3u8, 9u8, 200u8), Ok(5));
    assert_eq!(range(0u8, 5u8, 4u8), Ok(4));
    assert_eq!(range(0u8, 5u8, 5u8), Ok(0));
    assert_eq!(range(40u8, 100u8, 255u8), Ok(55));
    assert_eq!(range(0u64, 10u64, u64::MAX), Ok(5));
    assert_eq!(range(10usize, 20usize, 1234usize), Ok(14));
    assert_eq!(range(0u16, u16::MAX, u16::MAX), Ok(0));
    assert_eq!(range(0u32, 1u32, 77u32), Ok(0));
}

#[test]
fn range_of_one_value_ignores_the_draw() {
    for draw in 0..=255u8 {
        assert_eq!(range(5u8, 5u8, draw), Ok(5));
    }
    assert_eq!(range(0usize, 0usize, 99usize), Ok(0));
    assert_eq!(range(u64::MAX, u64::MAX, 1u64), Ok(u64::MAX));
}

#[test]
fn range_rejects_min_above_max() {
    assert_eq!(range(9u8, 3u8, 200u8), Err(RangeError::InvalidRange));
    assert_eq!(range(1usize, 0usize, 0usize), Err(RangeError::InvalidRange));
    assert_eq!(
        RangeError::InvalidRange.message(),
        "min must be less than or equal to max"
    );
}

#[test]
fn range_stays_within_bounds_for_every_draw() {
    for (min, max) in [(0u8, 1u8), (3, 9), (40, 100), (0, 255), (254, 255), (17, 200)] {
        for draw in 0..=255u8 {
            let value = range(min, max, draw).unwrap();
            assert!(min <= value && value < max);
            assert_eq!(value, min + draw % (max - min));
        }
    }
}

#[test]
fn needs_draw_only_for_more_than_one_value() {
    assert!(needs_draw(0u8, 1u8));
    assert!(needs_draw(3usize, 900usize));
    assert!(!needs_draw(5u8, 5u8));
    assert!(!needs_draw(9u32, 3u32));
}

#[test]
fn vec_range_folds_each_draw() {
    assert_eq!(vec_range(40u8, 100u8, 3, &[0, 59, 60]), Ok(vec![40, 99, 40]));
    assert_eq!(vec_range(0usize, 4usize, 5, &[0, 1, 4, 7, 10]), Ok(vec![0, 1, 0, 3, 2]));
    assert_eq!(vec_range(1u16, 2u16, 0, &[]), Ok(vec![]));
}

#[test]
fn vec_range_of_one_value_repeats_it() {
    assert_eq!(vec_range(7u8, 7u8, 4, &[]), Ok(vec![7, 7, 7, 7]));
    assert_eq!(vec_range(7u8, 7u8, 2, &[1, 2, 3]), Ok(vec![7, 7]));
    assert_eq!(vec_range(0u64, 0u64, 0, &[]), Ok(vec![]));
}

#[test]
fn vec_range_rejects_min_above_max() {
    assert_eq!(vec_range(9u8, 3u8, 2, &[1, 2]), Err(RangeError::InvalidRange));
}

#[test]
fn shuffle_exchanges_each_position_with_its_draw() {
    let mut items = vec![10u8, 20, 30];
    shuffle(&mut items, &[2, 2, 4]);
    assert_eq!(items, vec![30, 20, 10]);

    let mut items = vec!['a', 'b', 'c', 'd'];
    shuffle(&mut items, &[0, 1, 2, 3]);
    assert_eq!(items, vec!['a', 'b', 'c', 'd']);

    let mut items = vec![1u32, 2, 3, 4];
    shuffle(&mut items, &[3, 3, 3, 3]);
    assert_eq!(items, vec![4, 1, 2, 3]);
}

#[test]
fn shuffle_can_reach_the_last_position() {
    let mut items = vec![1u8, 2];
    shuffle(&mut items, &[1, 1]);
    assert_eq!(items, vec![2, 1]);
}

#[test]
fn shuffle_of_short_vectors() {
    let mut none: Vec<u8> = Vec::new();
    shuffle(&mut none, &[]);
    assert!(none.is_empty());

    let mut one = vec![42u64];
    shuffle(&mut one, &[usize::MAX]);
    assert_eq!(one, vec![42]);
}

#[test]
fn shuffle_keeps_what_the_vector_holds() {
    let start: Vec<u16> = vec![5, 1, 5, 9, 0, 3, 3, 3, 8];
    let mut seed: usize = 12345;
    for _ in 0..50 {
        let mut draws = Vec::new();
        for _ in 0..start.len() {
            seed = seed.wrapping_mul(6364136223846793005).wrapping_add(1442695040888963407);
            draws.push(seed >> 7);
        }
        let mut items = start.clone();
        shuffle(&mut items, &draws);
        let mut sorted = items.clone();
        sorted.sort();
        let mut expected = start.clone();
        expected.sort();
        assert_eq!(sorted, expected);
    }
}
