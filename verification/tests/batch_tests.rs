use rimmich::batch::{
    run_batch, validate_concurrency, worker_request, BatchFile, BatchJob, BatchResult, BatchStatus,
    ConfigError,
};
use rimmich::limiter::PermitPool;
use rimmich::upload::{UploadOutcome, WireResult};

fn job(names: &[&str], bound: u8) -> BatchJob {
    BatchJob {
        files: names
            .iter()
            .map(|n| BatchFile {
                path: format!("/photos/{}", n),
                display_name: n.to_string(),
            })
            .collect(),
        concurrency: bound,
        server_url: "http://localhost:2283".to_string(),
        api_key: "test-api-key".to_string(),
    }
}

fn ok() -> WireResult {
    WireResult::Http {
        status: 200,
        body: String::new(),
    }
}

#[test]
fn empty_batch_all_succeeded_zero() {
    let j = job(&[], 4);
    let run = run_batch(&j, &Vec::new()).unwrap();
    assert_eq!(run.status, BatchStatus::AllSucceeded { total: 0 });
    assert_eq!(run.outcomes.len(), 0);
    assert_eq!(run.spawned, 0);
    assert_eq!(run.max_in_flight, 0);
}

#[test]
fn five_files_bound_two_all_succeed() {
    let j = job(&["a", "b", "c", "d", "e"], 2);
    let wire = vec![ok(), ok(), ok(), ok(), ok()];
    let run = run_batch(&j, &wire).unwrap();
    assert_eq!(run.status, BatchStatus::AllSucceeded { total: 5 });
    assert_eq!(run.outcomes.len(), 5);
    for (i, name) in ["a", "b", "c", "d", "e"].iter().enumerate() {
        assert_eq!(
            run.outcomes[i],
            UploadOutcome::Success {
                display_name: name.to_string()
            }
        );
    }
    assert_eq!(run.spawned, 5);
    assert_eq!(run.max_in_flight, 2);
}

#[test]
fn second_file_fails_with_401_under_bound_one() {
    let j = job(&["one", "two", "three"], 1);
    let wire = vec![
        ok(),
        WireResult::Http {
            status: 401,
            body: "Unauthorized".to_string(),
        },
        ok(),
    ];
    let run = run_batch(&j, &wire).unwrap();
    assert_eq!(run.outcomes.len(), 2);
    assert_eq!(
        run.outcomes[0],
        UploadOutcome::Success {
            display_name: "one".to_string()
        }
    );
    match &run.outcomes[1] {
        UploadOutcome::Failure {
            display_name,
            error_detail,
        } => {
            assert_eq!(display_name, "two");
            assert!(error_detail.contains("401"));
        }
        other => panic!("expected a failure outcome, got {:?}", other),
    }
    // The third file never begins its transfer.
    assert_eq!(run.spawned, 2);
    match run.status {
        BatchStatus::AbortedOnFailure {
            completed_before_failure,
            total,
            failing_file,
            error_detail,
        } => {
            assert_eq!(completed_before_failure, 1);
            assert_eq!(total, 3);
            assert_eq!(failing_file, "two");
            assert_eq!(error_detail, "Upload failed with status 401: Unauthorized");
        }
        other => panic!("expected an aborted batch, got {:?}", other),
    }
}

#[test]
fn failure_at_k_counts_prior_successes_only() {
    // Six files under bound 2; the fourth (k = 4, 1-indexed) fails.
    let j = job(&["a", "b", "c", "d", "e", "f"], 2);
    let mut wire = vec![ok(), ok(), ok(), ok(), ok(), ok()];
    wire[3] = WireResult::Transport {
        detail: "connection reset".to_string(),
    };
    let run = run_batch(&j, &wire).unwrap();
    match run.status {
        BatchStatus::AbortedOnFailure {
            completed_before_failure,
            total,
            failing_file,
            error_detail,
        } => {
            assert_eq!(completed_before_failure, 3);
            assert_eq!(total, 6);
            assert_eq!(failing_file, "d");
            assert_eq!(error_detail, "connection reset");
        }
        other => panic!("expected an aborted batch, got {:?}", other),
    }
    assert_eq!(run.outcomes.len(), 4);
    // No file submitted after the abort begins its transfer.
    assert_eq!(run.spawned, 5);
}

#[test]
fn first_file_fails_nothing_completed_before() {
    let j = job(&["a", "b"], 2);
    let wire = vec![
        WireResult::Http {
            status: 500,
            body: "boom".to_string(),
        },
        ok(),
    ];
    let run = run_batch(&j, &wire).unwrap();
    match run.status {
        BatchStatus::AbortedOnFailure {
            completed_before_failure,
            total,
            failing_file,
            ..
        } => {
            assert_eq!(completed_before_failure, 0);
            assert_eq!(total, 2);
            assert_eq!(failing_file, "a");
        }
        other => panic!("expected an aborted batch, got {:?}", other),
    }
    assert_eq!(run.outcomes.len(), 1);
}

#[test]
fn bound_larger_than_batch_spawns_every_file() {
    let j = job(&["a", "b"], 16);
    let wire = vec![
        ok(),
        WireResult::Http {
            status: 503,
            body: "unavailable".to_string(),
        },
    ];
    let run = run_batch(&j, &wire).unwrap();
    // Both files fit under the bound, so both began their transfer
    // before the failure was detected.
    assert_eq!(run.spawned, 2);
    assert_eq!(run.max_in_flight, 2);
    match run.status {
        BatchStatus::AbortedOnFailure {
            completed_before_failure,
            total,
            ..
        } => {
            assert_eq!(completed_before_failure, 1);
            assert_eq!(total, 2);
        }
        other => panic!("expected an aborted batch, got {:?}", other),
    }
}

#[test]
fn permits_held_never_exceed_bound() {
    for bound in [1u8, 4, 16] {
        let names: Vec<String> = (0..20).map(|i| format!("f{}", i)).collect();
        let refs: Vec<&str> = names.iter().map(|s| s.as_str()).collect();
        let j = job(&refs, bound);
        let wire: Vec<WireResult> = (0..20).map(|_| ok()).collect();
        let run = run_batch(&j, &wire).unwrap();
        assert!(run.max_in_flight <= bound);
        assert_eq!(run.max_in_flight, bound.min(20));
        assert_eq!(run.status, BatchStatus::AllSucceeded { total: 20 });
    }
}

#[test]
fn bound_zero_and_seventeen_rejected_before_any_work() {
    for bad in [0u8, 17] {
        assert_eq!(
            validate_concurrency(bad),
            Err(ConfigError::InvalidConcurrency { bound: bad })
        );
        let j = job(&["a"], bad);
        let wire = vec![ok()];
        match run_batch(&j, &wire) {
            Err(ConfigError::InvalidConcurrency { bound }) => assert_eq!(bound, bad),
            Ok(_) => panic!("a bound of {} must be rejected", bad),
        }
    }
    for good in [1u8, 5, 16] {
        assert!(validate_concurrency(good).is_ok());
    }
}

#[test]
fn permit_pool_caps_at_capacity() {
    let mut pool = PermitPool::new(3);
    assert!(pool.try_acquire());
    assert!(pool.try_acquire());
    assert!(pool.try_acquire());
    assert!(!pool.try_acquire());
    assert_eq!(pool.held, 3);
    pool.release();
    assert_eq!(pool.held, 2);
    assert!(pool.try_acquire());
    assert!(!pool.try_acquire());
}

#[test]
fn aggregate_counts_and_freezes_on_failure() {
    let mut agg = BatchResult::new(3);
    agg.record_success();
    assert_eq!(agg.completed, 1);
    assert!(!agg.cancelled);
    agg.record_failure("b".to_string(), "boom".to_string());
    assert_eq!(agg.completed, 1);
    assert!(agg.cancelled);
    let st = agg.status();
    assert_eq!(
        st,
        BatchStatus::AbortedOnFailure {
            completed_before_failure: 1,
            total: 3,
            failing_file: "b".to_string(),
            error_detail: "boom".to_string(),
        }
    );
}

#[test]
fn worker_request_carries_job_credentials() {
    let j = job(&["pic"], 2);
    let req = worker_request(&j, 0);
    assert_eq!(req.server_url, "http://localhost:2283");
    assert_eq!(req.api_key, "test-api-key");
    assert_eq!(req.file_path, "/photos/pic");
}
