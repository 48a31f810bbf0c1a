use fmp_polling::utils::{
    cache_step, collect_results, date_of, linear_retry, plan_batches, retry_step, CacheStep,
    RetryConfig, RetryStep,
};

#[test]
fn exponential_backoff_doubles_up_to_cap() {
    let cfg = RetryConfig { max_attempts: 5, base_delay_ms: 100, max_delay_ms: 350 };
    assert_eq!(retry_step(&cfg, 1, false), RetryStep::Wait(100));
    assert_eq!(retry_step(&cfg, 2, false), RetryStep::Wait(200));
    assert_eq!(retry_step(&cfg, 3, false), RetryStep::Wait(350));
    assert_eq!(retry_step(&cfg, 4, false), RetryStep::Wait(350));
    assert_eq!(retry_step(&cfg, 5, false), RetryStep::GiveUp);
    assert_eq!(retry_step(&cfg, 2, true), RetryStep::Done);
}

#[test]
fn retry_runs_once_without_attempts() {
    let cfg = RetryConfig { max_attempts: 0, base_delay_ms: 1, max_delay_ms: 1 };
    assert_eq!(retry_step(&cfg, 1, false), RetryStep::GiveUp);
    let one = RetryConfig { max_attempts: 1, base_delay_ms: 1, max_delay_ms: 1 };
    assert_eq!(retry_step(&one, 1, false), RetryStep::GiveUp);
}

#[test]
fn retry_waits_never_shrink() {
    let cfg = RetryConfig { max_attempts: 40, base_delay_ms: 3, max_delay_ms: 1_000_000 };
    let mut last = 0;
    for a in 1..40 {
        match retry_step(&cfg, a, false) {
            RetryStep::Wait(d) => {
                assert!(d >= last);
                assert!(d <= cfg.max_delay_ms);
                last = d;
            },
            other => panic!("{:?}", other),
        }
    }
}

#[test]
fn linear_backoff_grows_per_failure() {
    assert_eq!(linear_retry(3, 100, 1), Some(100));
    assert_eq!(linear_retry(3, 100, 2), Some(200));
    assert_eq!(linear_retry(3, 100, 3), None);
}

#[test]
fn batches_cover_items_in_order() {
    let items: Vec<String> = ["a", "b", "c", "d", "e"].iter().map(|s| s.to_string()).collect();
    let b = plan_batches(&items, 2);
    assert_eq!(b, vec![vec!["a", "b"], vec!["c", "d"], vec!["e"]]);
    let expected: Vec<Vec<String>> = items.chunks(2).map(|c| c.to_vec()).collect();
    assert_eq!(b, expected);
    assert!(plan_batches(&vec![], 3).is_empty());
    assert_eq!(plan_batches(&items, 5), vec![items.clone()]);
}

#[test]
fn validated_tickers_make_a_single_batch() {
    let items: Vec<String> = ["x", "y", "z"].iter().map(|s| s.to_string()).collect();
    let ok = fmp_polling::stock::validate_tickers(items.clone(), 3).unwrap();
    assert_eq!(plan_batches(&ok, 3).len(), 1);
}

#[test]
fn results_stop_at_first_error() {
    let r: Result<Vec<u8>, &str> = collect_results(vec![Ok(1), Err("first"), Ok(3), Err("second")]);
    assert_eq!(r, Err("first"));
    let r: Result<Vec<u8>, &str> = collect_results(vec![Ok(1), Ok(2)]);
    assert_eq!(r, Ok(vec![1, 2]));
    let r: Result<Vec<u8>, &str> = collect_results(vec![]);
    assert_eq!(r, Ok(vec![]));
}

#[test]
fn cache_decisions() {
    assert_eq!(cache_step(true, true), CacheStep::UseCached);
    assert_eq!(cache_step(true, false), CacheStep::EvictThenFetch);
    assert_eq!(cache_step(false, true), CacheStep::Fetch);
    assert_eq!(cache_step(false, false), CacheStep::Fetch);
}

#[test]
fn date_part_of_timestamp() {
    assert_eq!(date_of("2024-05-06 07:08:09"), "2024-05-06");
    assert_eq!(date_of("2024-05-06"), "2024-05-06");
    assert_eq!(date_of(""), "");
}
