use beacn_utility::channel::Mix;
use beacn_utility::dial_cache::{CacheError, DialHandler, DialImageCache};

fn warm_cache() -> DialImageCache {
    let mut cache = DialImageCache::new();
    for percent in 0..=100u8 {
        cache.insert(Mix::A, percent, vec![percent, 0xAA]);
        cache.insert(Mix::B, percent, vec![percent; percent as usize]);
    }
    cache
}

#[test]
fn a_record_is_mix_percent_length_and_image() {
    let mut cache = DialImageCache::new();
    cache.insert(Mix::B, 7, vec![9, 8, 7]);
    cache.insert(Mix::A, 100, vec![]);
    cache.insert(Mix::A, 3, vec![1; 258]);
    let file = DialHandler::save_cache(&cache).unwrap();
    let mut expected = vec![0, 3, 2, 1, 0, 0];
    expected.extend(vec![1; 258]);
    expected.extend(vec![0, 100, 0, 0, 0, 0]);
    expected.extend(vec![1, 7, 3, 0, 0, 0, 9, 8, 7]);
    assert_eq!(file, expected);
}

#[test]
fn a_saved_cache_loads_byte_for_byte() {
    let cache = warm_cache();
    let file = DialHandler::save_cache(&cache).unwrap();
    let loaded = DialHandler::load_cache(&file).unwrap();
    assert!(loaded.is_warm());
    for percent in 0..=255u8 {
        assert_eq!(loaded.get(Mix::A, percent), cache.get(Mix::A, percent));
        assert_eq!(loaded.get(Mix::B, percent), cache.get(Mix::B, percent));
    }
    assert_eq!(loaded.get(Mix::B, 100), Some(&vec![100u8; 100]));
    assert_eq!(loaded.get(Mix::A, 101), None);
    assert_eq!(DialHandler::save_cache(&loaded).unwrap(), file);
}

#[test]
fn an_empty_file_is_an_empty_cache() {
    let loaded = DialHandler::load_cache(&vec![]).unwrap();
    assert!(!loaded.is_warm());
    assert_eq!(loaded.get(Mix::A, 0), None);
    assert_eq!(DialHandler::save_cache(&loaded).unwrap(), Vec::<u8>::new());
}

#[test]
fn a_later_record_replaces_an_earlier_one() {
    let file = vec![1, 5, 1, 0, 0, 0, 11, 1, 5, 2, 0, 0, 0, 22, 33];
    let loaded = DialHandler::load_cache(&file).unwrap();
    assert_eq!(loaded.get(Mix::B, 5), Some(&vec![22, 33]));
}

#[test]
fn a_file_that_ends_in_a_header_is_no_cache() {
    let file = vec![0, 5, 1, 0, 0, 0, 11, 0, 6, 1];
    assert_eq!(DialHandler::load_cache(&file).err(), Some(CacheError::Truncated));
    assert_eq!(DialHandler::load_cache(&vec![0]).err(), Some(CacheError::Truncated));
}

#[test]
fn a_file_that_ends_in_an_image_is_no_cache() {
    let file = vec![0, 5, 3, 0, 0, 0, 11, 12];
    assert_eq!(DialHandler::load_cache(&file).err(), Some(CacheError::Truncated));
    let huge = vec![0, 5, 255, 255, 255, 255, 1];
    assert_eq!(DialHandler::load_cache(&huge).err(), Some(CacheError::Truncated));
}

#[test]
fn an_unknown_mix_is_no_cache() {
    let file = vec![0, 5, 1, 0, 0, 0, 11, 2, 5, 0, 0, 0, 0];
    assert_eq!(DialHandler::load_cache(&file).err(), Some(CacheError::UnknownMix(2)));
    // the mix is looked at before the image is read
    let short = vec![9, 5, 200, 0, 0, 0];
    assert_eq!(DialHandler::load_cache(&short).err(), Some(CacheError::UnknownMix(9)));
}

#[test]
fn only_a_complete_stored_cache_is_used() {
    let warm = DialHandler::save_cache(&warm_cache()).unwrap();
    let used = DialHandler::composite_dials(Some(&warm)).unwrap();
    assert_eq!(used.get(Mix::A, 42), Some(&vec![42, 0xAA]));
    assert!(DialHandler::composite_dials(None).is_none());

    let mut partial = warm_cache();
    partial.insert(Mix::A, 200, vec![1]);
    let mut cold = DialImageCache::new();
    for percent in 0..=99u8 {
        cold.insert(Mix::A, percent, vec![1]);
        cold.insert(Mix::B, percent, vec![1]);
    }
    let cold_file = DialHandler::save_cache(&cold).unwrap();
    assert!(DialHandler::composite_dials(Some(&cold_file)).is_none());
    // a file that holds more than the dials is not used either
    assert!(partial.is_warm() && !partial.holds_only_dials());
    assert!(DialHandler::composite_dials(Some(&DialHandler::save_cache(&partial).unwrap())).is_none());

    let mut broken = warm.clone();
    broken.pop();
    assert!(DialHandler::composite_dials(Some(&broken)).is_none());
    assert!(DialHandler::composite_dials(Some(&vec![])).is_none());
}

#[test]
fn a_cache_is_warm_with_all_dials_of_both_mixes() {
    let mut cache = DialImageCache::new();
    assert!(!cache.is_warm());
    for percent in 0..=100u8 {
        cache.insert(Mix::A, percent, vec![]);
    }
    assert!(!cache.is_warm());
    for percent in 0..=99u8 {
        cache.insert(Mix::B, percent, vec![]);
    }
    assert!(!cache.is_warm());
    cache.insert(Mix::B, 100, vec![]);
    assert!(cache.is_warm());
}

#[test]
fn a_cache_holds_only_dials_up_to_a_hundred_percent() {
    let mut cache = DialImageCache::new();
    assert!(cache.holds_only_dials());
    cache.insert(Mix::A, 100, vec![1]);
    cache.insert(Mix::B, 0, vec![2]);
    assert!(cache.holds_only_dials());
    cache.insert(Mix::B, 101, vec![3]);
    assert!(!cache.holds_only_dials());
    let mut other = DialImageCache::new();
    other.insert(Mix::A, 255, vec![]);
    assert!(!other.holds_only_dials());
}

#[test]
fn a_stored_cache_that_is_used_holds_exactly_the_dials() {
    let file = DialHandler::save_cache(&warm_cache()).unwrap();
    let used = DialHandler::composite_dials(Some(&file)).unwrap();
    for percent in 0..=255u8 {
        assert_eq!(used.get(Mix::A, percent).is_some(), percent <= 100);
        assert_eq!(used.get(Mix::B, percent).is_some(), percent <= 100);
    }
}
