use stars_forks::accumulator::{GithubRecord, StarsForks};

#[test]
fn test_updated_and_generate_emoji_string() {
    let mut accum = StarsForks::default();
    accum.set_both(GithubRecord {
        stars: 1723,
        forks: 134,
    });

    // first record sets-up accumulator - no changes
    let mut record = GithubRecord {
        stars: 1723,
        forks: 134,
    };
    assert!(accum.update_and_generate_moji_string(&record).is_none());

    // same values - no changes
    record = GithubRecord {
        stars: 1723,
        forks: 134,
    };
    assert!(accum.update_and_generate_moji_string(&record).is_none());

    // forks changed
    record = GithubRecord {
        stars: 1723,
        forks: 135,
    };
    assert_eq!(
        accum
            .update_and_generate_moji_string(&record)
            .unwrap()
            .result,
        format!(":flags: 135")
    );

    // stars changed
    record = GithubRecord {
        stars: 1724,
        forks: 135,
    };
    assert_eq!(
        accum
            .update_and_generate_moji_string(&record)
            .unwrap()
            .result,
        format!(":star2: 1724")
    );

    // both changed
    record = GithubRecord {
        stars: 1723,
        forks: 134,
    };
    assert_eq!(
        accum
            .update_and_generate_moji_string(&record)
            .unwrap()
            .result,
        format!(":flags: 134 \n:star2: 1723")
    );

    // same values - no changes
    record = GithubRecord {
        stars: 1723,
        forks: 134,
    };
    assert!(accum.update_and_generate_moji_string(&record).is_none());
}

#[test]
fn zeroed_posture_notifies_on_first_nonzero_snapshot() {
    let mut accum = StarsForks::new();
    assert_eq!(accum.get_stars(), 0);
    assert_eq!(accum.get_forks(), 0);

    let record = GithubRecord { stars: 3, forks: 0 };
    assert_eq!(
        accum.update_and_generate_moji_string(&record).unwrap().result,
        ":star2: 3"
    );
    assert_eq!(accum.get_stars(), 3);
    assert_eq!(accum.get_forks(), 0);
}

#[test]
fn cold_start_suppresses_first_notification() {
    let mut accum = StarsForks::new_cold();

    // the very first snapshot is adopted silently, whatever its values
    let first = GithubRecord {
        stars: 500,
        forks: 42,
    };
    assert!(accum.update_and_generate_moji_string(&first).is_none());
    assert_eq!(accum.get_stars(), 500);
    assert_eq!(accum.get_forks(), 42);

    // after the baseline is observed, changes are reported again
    let second = GithubRecord {
        stars: 500,
        forks: 43,
    };
    assert_eq!(
        accum.update_and_generate_moji_string(&second).unwrap().result,
        ":flags: 43"
    );
}

#[test]
fn cold_start_adopts_all_zero_snapshot() {
    let mut accum = StarsForks::new_cold();
    let zero = GithubRecord { stars: 0, forks: 0 };
    assert!(accum.update_and_generate_moji_string(&zero).is_none());
    // the adopted all-zero baseline is legitimate: repeating it stays silent
    assert!(accum.update_and_generate_moji_string(&zero).is_none());
}

#[test]
fn update_is_idempotent() {
    let mut accum = StarsForks::new();
    let record = GithubRecord {
        stars: 11,
        forks: 22,
    };
    assert!(accum.update_and_generate_moji_string(&record).is_some());
    assert!(accum.update_and_generate_moji_string(&record).is_none());
    assert_eq!(accum.get_stars(), 11);
    assert_eq!(accum.get_forks(), 22);
}

#[test]
fn fork_only_change_leaves_stars_untouched() {
    let mut accum = StarsForks::new();
    accum.set_both(GithubRecord {
        stars: 77,
        forks: 8,
    });
    let record = GithubRecord { stars: 77, forks: 9 };
    let note = accum.update_and_generate_moji_string(&record).unwrap();
    assert_eq!(note.result, ":flags: 9");
    assert!(!note.result.contains(":star2:"));
    assert_eq!(accum.get_stars(), 77);
    assert_eq!(accum.get_forks(), 9);
}

#[test]
fn both_change_lists_forks_before_stars() {
    let mut accum = StarsForks::new();
    accum.set_both(GithubRecord { stars: 1, forks: 2 });
    let record = GithubRecord { stars: 3, forks: 4 };
    let note = accum.update_and_generate_moji_string(&record).unwrap();
    assert_eq!(note.result, ":flags: 4 \n:star2: 3");
    let forks_at = note.result.find(":flags:").unwrap();
    let stars_at = note.result.find(":star2:").unwrap();
    assert!(forks_at < stars_at);
}

#[test]
fn setters_and_getters_store_each_counter() {
    let mut accum = StarsForks::new();
    accum.set_stars(1000);
    assert_eq!(accum.get_stars(), 1000);
    assert_eq!(accum.get_forks(), 0);
    accum.set_forks(77);
    assert_eq!(accum.get_forks(), 77);
    assert_eq!(accum.get_stars(), 1000);
}
