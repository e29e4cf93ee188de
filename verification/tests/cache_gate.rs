use stream_fetch::cache::{cache_hit, StagedFile};

#[test]
fn staged_file_of_expected_size_is_reused() {
    assert!(cache_hit(100, StagedFile::Present { size: 100 }));
}

#[test]
fn staged_file_one_byte_short_is_not_reused() {
    assert!(!cache_hit(100, StagedFile::Present { size: 99 }));
}

#[test]
fn staged_file_one_byte_long_is_not_reused() {
    assert!(!cache_hit(100, StagedFile::Present { size: 101 }));
}

#[test]
fn absent_file_is_a_miss() {
    assert!(!cache_hit(100, StagedFile::Absent));
    assert!(!cache_hit(0, StagedFile::Absent));
}

#[test]
fn unreadable_metadata_is_a_miss() {
    assert!(!cache_hit(100, StagedFile::Unreadable));
    assert!(!cache_hit(0, StagedFile::Unreadable));
}

#[test]
fn empty_staged_file_matches_empty_payload() {
    assert!(cache_hit(0, StagedFile::Present { size: 0 }));
    assert!(!cache_hit(1, StagedFile::Present { size: 0 }));
}

#[test]
fn sizes_beyond_four_gibibytes_are_compared_in_full() {
    let low: u64 = 5;
    let high: u64 = (1u64 << 32) + 5;
    assert!(cache_hit(high, StagedFile::Present { size: high }));
    assert!(!cache_hit(high, StagedFile::Present { size: low }));
    assert!(!cache_hit(low, StagedFile::Present { size: high }));
    assert!(cache_hit(u64::MAX, StagedFile::Present { size: u64::MAX }));
}

#[test]
fn hit_holds_for_every_size_only_on_equality() {
    let sizes: [u64; 6] = [0, 1, 99, 100, 101, 10_000_000];
    for expected in sizes {
        for size in sizes {
            assert_eq!(cache_hit(expected, StagedFile::Present { size }), expected == size);
        }
    }
}
