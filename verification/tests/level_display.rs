use the_hat_chooses_the_wizard::level_display::{
    new_map_store, num_digits_iter, write_level, BLANK, HYPHEN, LEVEL_START, NUMBERS_START,
};

#[test]
fn digits_come_least_significant_first() {
    assert_eq!(num_digits_iter(0), vec![0]);
    assert_eq!(num_digits_iter(7), vec![7]);
    assert_eq!(num_digits_iter(10), vec![0, 1]);
    assert_eq!(num_digits_iter(1234), vec![4, 3, 2, 1]);
    assert_eq!(num_digits_iter(u32::MAX), vec![5, 9, 2, 7, 6, 9, 4, 9, 2, 4]);
}

#[test]
fn map_store_is_blank() {
    let store = new_map_store();
    assert_eq!(store.len(), 20);
    assert!(store.iter().all(|&tile| tile == BLANK));
    assert_eq!(BLANK, 308);
}

#[test]
fn write_level_fills_the_banner() {
    let mut store = new_map_store();
    let position = write_level(&mut store, 1, 3);
    assert_eq!(store[0], LEVEL_START);
    assert_eq!(store[1], LEVEL_START + 1);
    assert_eq!(store[2], LEVEL_START + 2);
    assert_eq!(store[3], BLANK);
    assert_eq!(store[4], NUMBERS_START);
    assert_eq!(store[5], HYPHEN);
    assert_eq!(store[6], NUMBERS_START + 2);
    for i in 7..20 {
        assert_eq!(store[i], BLANK);
    }
    assert_eq!(position, (-92, -76));
}

#[test]
fn write_level_keeps_what_it_does_not_write() {
    let mut store = [5u16; 20];
    write_level(&mut store, 9, 8);
    assert_eq!(store[3], 5);
    assert_eq!(store[4], 347);
    assert_eq!(store[6], 346);
    assert_eq!(store[7], 5);
    assert_eq!(store[19], 5);
}
