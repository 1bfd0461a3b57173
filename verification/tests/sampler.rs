use preview_playlist::sampler::{max_start_seconds, sample};

#[test]
fn max_start_is_the_saturating_difference() {
    assert_eq!(max_start_seconds(40, 10), 30);
    assert_eq!(max_start_seconds(10, 10), 0);
    assert_eq!(max_start_seconds(15, 20), 0);
    assert_eq!(max_start_seconds(0, 10), 0);
    assert_eq!(max_start_seconds(u64::MAX, 1), u64::MAX - 1);
    assert_eq!(max_start_seconds(0, u64::MAX), 0);
}

#[test]
fn sampled_start_is_in_bounds() {
    let mut rng = rand::thread_rng();
    for duration in [0u64, 1, 9, 10, 11, 40, 3600, u64::MAX] {
        for clip_length in [1u64, 10, 20, 3600, u64::MAX] {
            for _ in 0..50 {
                let start = sample(duration, clip_length, &mut rng);
                assert!(start <= duration.saturating_sub(clip_length));
            }
        }
    }
}

#[test]
fn short_video_starts_at_zero() {
    let mut rng = rand::thread_rng();
    for _ in 0..100 {
        assert_eq!(sample(15, 20, &mut rng), 0);
        assert_eq!(sample(20, 20, &mut rng), 0);
        assert_eq!(sample(0, 1, &mut rng), 0);
    }
}

#[test]
fn clip_ends_inside_the_video() {
    let mut rng = rand::thread_rng();
    for _ in 0..200 {
        let start = sample(40, 10, &mut rng);
        assert!(start + 10 <= 40);
    }
}

#[test]
fn sampled_starts_vary() {
    let mut rng = rand::thread_rng();
    let first = sample(1_000_000_000, 1, &mut rng);
    let mut differs = false;
    let mut inside = false;
    for _ in 0..200 {
        let start = sample(1_000_000_000, 1, &mut rng);
        differs = differs || start != first;
        inside = inside || (start != 0 && start != 999_999_999);
    }
    assert!(differs);
    assert!(inside);
}
