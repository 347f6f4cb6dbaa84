use seckey::TempKey;
use std::cmp::Ordering;

#[test]
fn order_against_raw_value() {
    let mut storage = [1u8, 2, 3];
    let (key, _lock) = TempKey::new(&mut storage);
    assert_eq!(key.partial_cmp(&[1u8, 2, 3]), Some(Ordering::Equal));
    assert_eq!(key.partial_cmp(&[1u8, 2, 4]), Some(Ordering::Less));
    assert_eq!(key.partial_cmp(&[1u8, 2, 2]), Some(Ordering::Greater));
}

#[test]
fn first_difference_decides() {
    let mut storage = [1u8, 255, 255];
    let (key, _lock) = TempKey::new(&mut storage);
    assert_eq!(key.partial_cmp(&[2u8, 0, 0]), Some(Ordering::Less));
    let mut storage = [2u8, 0, 0];
    let (key, _lock) = TempKey::new(&mut storage);
    assert_eq!(key.partial_cmp(&[1u8, 255, 255]), Some(Ordering::Greater));
}

#[test]
fn bytes_order_as_unsigned() {
    let mut storage = [0x80u8];
    let (key, _lock) = TempKey::new(&mut storage);
    assert_eq!(key.partial_cmp(&[0x7Fu8]), Some(Ordering::Greater));
    assert_eq!(key.partial_cmp(&[0xFFu8]), Some(Ordering::Less));
    assert_eq!(key.partial_cmp(&[0x00u8]), Some(Ordering::Greater));
}

#[test]
fn multi_byte_numbers_order_by_their_bytes() {
    let mut small = 256u32.to_le_bytes();
    let big = 255u32.to_le_bytes();
    let (key, _lock) = TempKey::new(&mut small);
    assert_eq!(key.partial_cmp(&big), Some(Ordering::Less));
}

#[test]
fn order_between_holders() {
    let mut low = [0u8, 9, 9, 9];
    let mut high = [1u8, 0, 0, 0];
    let mut same = [0u8, 9, 9, 9];
    let (low, _a) = TempKey::new(&mut low);
    let (high, _b) = TempKey::new(&mut high);
    let (same, _c) = TempKey::new(&mut same);
    assert_eq!(low.partial_cmp(&high), Some(Ordering::Less));
    assert_eq!(high.partial_cmp(&low), Some(Ordering::Greater));
    assert_eq!(low.partial_cmp(&same), Some(Ordering::Equal));
    assert_eq!(low.cmp(&high), Ordering::Less);
    assert_eq!(high.cmp(&low), Ordering::Greater);
    assert_eq!(low.cmp(&same), Ordering::Equal);
    assert_eq!(low.cmp(&low), Ordering::Equal);
}

#[test]
fn comparison_operators() {
    let mut storage = [5u8, 5];
    let (key, _lock) = TempKey::new(&mut storage);
    assert!(key < [5u8, 6]);
    assert!(key <= [5u8, 6]);
    assert!(key <= [5u8, 5]);
    assert!(key >= [5u8, 5]);
    assert!(key > [5u8, 4]);
    assert!(key >= [4u8, 255]);
    assert!(!(key < [5u8, 5]));
    assert!(!(key > [5u8, 5]));
    let mut other = [5u8, 6];
    let (other, _other_lock) = TempKey::new(&mut other);
    assert!(key < other);
    assert!(other > key);
}

#[test]
fn order_is_equal_exactly_when_equal() {
    let values: [[u8; 2]; 7] = [
        [0, 0],
        [0, 1],
        [1, 0],
        [1, 1],
        [0x7F, 0xFF],
        [0x80, 0x00],
        [0xFF, 0xFF],
    ];
    for left in values {
        for right in values {
            let mut storage = left;
            let (key, _lock) = TempKey::new(&mut storage);
            let ordered_equal = key.partial_cmp(&right) == Some(Ordering::Equal);
            assert_eq!(ordered_equal, key == right);
            let mut right_storage = right;
            let (right_key, _right_lock) = TempKey::new(&mut right_storage);
            assert_eq!(key.cmp(&right_key) == Ordering::Equal, key == right_key);
            assert_eq!(key.cmp(&right_key), left.cmp(&right));
        }
    }
}

#[test]
fn swapping_operands_reverses_the_order() {
    let values: [[u8; 3]; 5] = [[0, 0, 0], [0, 0, 1], [0, 1, 0], [1, 0, 0], [255, 255, 255]];
    for left in values {
        for right in values {
            let mut left_storage = left;
            let mut right_storage = right;
            let (left_key, _l) = TempKey::new(&mut left_storage);
            let (right_key, _r) = TempKey::new(&mut right_storage);
            assert_eq!(left_key.cmp(&right_key), right_key.cmp(&left_key).reverse());
        }
    }
}

#[test]
fn order_is_transitive_on_a_chain() {
    let mut a = [0u8, 0, 9];
    let mut b = [0u8, 1, 0];
    let mut c = [2u8, 0, 0];
    let (a, _a) = TempKey::new(&mut a);
    let (b, _b) = TempKey::new(&mut b);
    let (c, _c) = TempKey::new(&mut c);
    assert_eq!(a.cmp(&b), Ordering::Less);
    assert_eq!(b.cmp(&c), Ordering::Less);
    assert_eq!(a.cmp(&c), Ordering::Less);
}

#[test]
fn empty_regions_order_as_equal() {
    let mut storage: [u8; 0] = [];
    let (key, _lock) = TempKey::new(&mut storage);
    let empty: [u8; 0] = [];
    assert_eq!(key.partial_cmp(&empty), Some(Ordering::Equal));
}

#[test]
fn order_follows_mutation() {
    let mut storage = [4u8, 4];
    let (mut key, _lock) = TempKey::new(&mut storage);
    assert_eq!(key.partial_cmp(&[4u8, 5]), Some(Ordering::Less));
    key[1] = 6;
    assert_eq!(key.partial_cmp(&[4u8, 5]), Some(Ordering::Greater));
}
