use term_timer::timer::binary_conversion;

#[test]
fn binary_digits_highest_first() {
    assert_eq!(binary_conversion(0), [0, 0, 0, 0, 0, 0, 0, 0, 0, 0]);
    assert_eq!(binary_conversion(1), [0, 0, 0, 0, 0, 0, 0, 0, 0, 1]);
    assert_eq!(binary_conversion(5), [0, 0, 0, 0, 0, 0, 0, 1, 0, 1]);
    assert_eq!(binary_conversion(512), [1, 0, 0, 0, 0, 0, 0, 0, 0, 0]);
    assert_eq!(binary_conversion(682), [1, 0, 1, 0, 1, 0, 1, 0, 1, 0]);
    assert_eq!(binary_conversion(999), [1, 1, 1, 1, 1, 0, 0, 1, 1, 1]);
    assert_eq!(binary_conversion(1023), [1, 1, 1, 1, 1, 1, 1, 1, 1, 1]);
}

#[test]
fn binary_digits_agree_with_shifts() {
    for value in 0..1024usize {
        let bits = binary_conversion(value);
        for index in 0..10 {
            assert_eq!(bits[index] as usize, (value >> (9 - index)) & 1);
        }
    }
}

#[test]
fn binary_digits_above_ten_places_gather_in_front() {
    assert_eq!(binary_conversion(1024), [2, 0, 0, 0, 0, 0, 0, 0, 0, 0]);
    assert_eq!(binary_conversion(1025), [2, 0, 0, 0, 0, 0, 0, 0, 0, 1]);
    assert_eq!(binary_conversion(512 * 255 + 3), [255, 0, 0, 0, 0, 0, 0, 0, 1, 1]);
    assert_eq!(binary_conversion(512 * 256 + 3), [0, 0, 0, 0, 0, 0, 0, 0, 1, 1]);
    assert_eq!(binary_conversion(512 * 300), [44, 0, 0, 0, 0, 0, 0, 0, 0, 0]);
}
