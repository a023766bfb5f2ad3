use beacn_utility::paging::{get_page_channels, page_count, DeviceOrder};

fn order(pinned: &[u128], default: &[u128]) -> DeviceOrder {
    DeviceOrder { pinned: pinned.to_vec(), default: default.to_vec() }
}

#[test]
fn five_default_channels_make_two_pages() {
    let order = order(&[], &[0, 1, 2, 3, 4]);
    assert_eq!(page_count(&order), 2);
    assert_eq!(get_page_channels(&order, 0), vec![0, 1, 2, 3]);
    assert_eq!(get_page_channels(&order, 1), vec![1, 2, 3, 4]);
}

#[test]
fn no_channels_give_an_empty_display_and_one_page() {
    let order = order(&[], &[]);
    assert_eq!(page_count(&order), 1);
    assert_eq!(get_page_channels(&order, 0), Vec::<u128>::new());
    assert_eq!(get_page_channels(&order, 7), Vec::<u128>::new());
}

#[test]
fn four_pinned_channels_fill_every_page() {
    let order = order(&[10, 11, 12, 13], &[20, 21, 22]);
    assert_eq!(page_count(&order), 1);
    assert_eq!(get_page_channels(&order, 0), vec![10, 11, 12, 13]);
    assert_eq!(get_page_channels(&order, 3), vec![10, 11, 12, 13]);
}

#[test]
fn more_than_four_pinned_channels_show_the_first_four() {
    let order = order(&[10, 11, 12, 13, 14, 15], &[20]);
    assert_eq!(page_count(&order), 1);
    assert_eq!(get_page_channels(&order, 0), vec![10, 11, 12, 13]);
}

#[test]
fn pinned_channels_stand_before_each_window() {
    let order = order(&[1, 2], &[10, 11, 12, 13, 14]);
    assert_eq!(page_count(&order), 3);
    assert_eq!(get_page_channels(&order, 0), vec![1, 2, 10, 11]);
    assert_eq!(get_page_channels(&order, 1), vec![1, 2, 12, 13]);
    assert_eq!(get_page_channels(&order, 2), vec![1, 2, 13, 14]);
}

#[test]
fn a_default_group_that_fits_is_shown_whole_on_every_page() {
    let order = order(&[1], &[10, 11, 12]);
    assert_eq!(page_count(&order), 1);
    assert_eq!(get_page_channels(&order, 0), vec![1, 10, 11, 12]);
    assert_eq!(get_page_channels(&order, 9), vec![1, 10, 11, 12]);
    let short = self::order(&[1], &[10]);
    assert_eq!(get_page_channels(&short, 0), vec![1, 10]);
}

#[test]
fn a_page_past_the_end_shows_the_last_window() {
    let order = order(&[], &[0, 1, 2, 3, 4, 5, 6, 7, 8]);
    assert_eq!(page_count(&order), 3);
    assert_eq!(get_page_channels(&order, 2), vec![5, 6, 7, 8]);
    assert_eq!(get_page_channels(&order, 200), vec![5, 6, 7, 8]);
    assert_eq!(get_page_channels(&order, 255), vec![5, 6, 7, 8]);
}

#[test]
fn every_page_is_full_without_duplicates_and_pinned_first() {
    let pinned: Vec<u128> = vec![100, 101, 102];
    let default: Vec<u128> = (0..7).collect();
    let order = DeviceOrder { pinned: pinned.clone(), default: default.clone() };
    let count = page_count(&order);
    assert_eq!(count, 7);
    for page in 0..count {
        let shown = get_page_channels(&order, page as u8);
        assert!(!shown.is_empty());
        assert!(shown.len() <= 4);
        for (i, a) in shown.iter().enumerate() {
            for b in shown.iter().skip(i + 1) {
                assert_ne!(a, b);
            }
        }
        assert_eq!(&shown[..3], &pinned[..]);
        assert!(default.contains(&shown[3]));
    }
}

#[test]
fn every_default_channel_is_on_some_page() {
    let order = order(&[1], &[10, 11, 12, 13, 14, 15, 16]);
    let count = page_count(&order);
    assert_eq!(count, 3);
    for id in 10u128..17 {
        let mut seen = false;
        for page in 0..count {
            if get_page_channels(&order, page as u8).contains(&id) {
                seen = true;
            }
        }
        assert!(seen);
    }
}

#[test]
fn page_count_rounds_up() {
    assert_eq!(page_count(&order(&[], &[1, 2, 3, 4])), 1);
    assert_eq!(page_count(&order(&[], &[1, 2, 3, 4, 5, 6, 7, 8])), 2);
    assert_eq!(page_count(&order(&[9], &[1, 2, 3, 4])), 2);
    assert_eq!(page_count(&order(&[7, 8, 9], &[1, 2, 3, 4])), 4);
    assert_eq!(page_count(&order(&[7, 8, 9], &[])), 1);
}
