use key_grinder::{address_matches, find_vanity_key, Candidate, SearchOutcome, SearchSession, WorkerPool};

#[test]
fn trivial_target_is_found_at_the_first_attempt() {
    // The empty prefix matches every address, so the very first draw wins.
    match find_vanity_key(Vec::new(), 3, 10) {
        SearchOutcome::Found(m) => {
            assert_eq!(m.attempt, 1);
            assert_eq!(m.candidate.key_bytes.len(), 64);
            assert!(address_matches(&m.candidate.address, b""));
        }
        SearchOutcome::Exhausted(_) => panic!("empty prefix must match at once"),
    }
}

#[test]
fn single_letter_target_is_found_and_matches() {
    // One case-insensitive base58 letter: each draw matches with probability
    // about 2 in 58, so a budget of 20000 fails with negligible probability.
    match find_vanity_key(b"a".to_vec(), 4, 20000) {
        SearchOutcome::Found(m) => {
            assert!(m.attempt >= 1);
            assert!(m.attempt <= 20000);
            let first = m.candidate.address[0];
            assert!(first == b'a' || first == b'A');
            assert!(address_matches(&m.candidate.address, b"a"));
        }
        SearchOutcome::Exhausted(_) => panic!("a one-letter target should be found in 20000 draws"),
    }
}

#[test]
fn impossible_target_spends_the_whole_budget() {
    // '!' is not a base58 character, so no address ever matches.
    match find_vanity_key(b"!".to_vec(), 4, 50) {
        SearchOutcome::Found(_) => panic!("no address holds a '!'"),
        SearchOutcome::Exhausted(n) => assert_eq!(n, 50),
    }
}

#[test]
fn attempts_equal_the_sum_of_per_worker_counts() {
    let mut pool = WorkerPool::new(b"!".to_vec(), 4);
    for i in 0..20usize {
        let done = pool.step(i % 4);
        assert!(!done);
    }
    assert_eq!(pool.attempts_so_far(), 20);
    let counts = pool.worker_attempts().clone();
    assert_eq!(counts.len(), 4);
    assert_eq!(counts.iter().sum::<u64>(), 20);
    for c in counts {
        assert_eq!(c, 5);
    }
    assert!(!pool.finished());
    assert!(pool.into_result().is_none());
}

#[test]
fn only_the_first_match_is_recorded() {
    let mut session = SearchSession::new(Vec::new());
    let n1 = session.next_attempt();
    assert_eq!(n1, 1);
    let c1 = Candidate::generate();
    let first_address = c1.address.clone();
    assert!(session.try_record(c1, n1), "the first offer must win");

    let n2 = session.next_attempt();
    let c2 = Candidate::generate();
    assert!(!session.try_record(c2, n2), "a later offer must lose");

    let m = session.into_result().expect("a result was recorded");
    assert_eq!(m.attempt, 1);
    assert_eq!(m.candidate.address, first_address);
}

#[test]
fn workers_stop_once_the_flag_is_up() {
    let mut pool = WorkerPool::new(Vec::new(), 2);
    assert!(pool.step(0), "the empty prefix matches at once");
    assert!(pool.finished());

    // A worker that observes the flag books no further attempt.
    assert!(pool.step(1));
    assert_eq!(pool.attempts_so_far(), 1);
    assert_eq!(pool.worker_attempts()[1], 0);

    let m = pool.into_result().expect("a result was recorded");
    assert_eq!(m.attempt, 1);
}

#[test]
fn two_runs_do_not_reproduce_the_same_key() {
    let first = match find_vanity_key(Vec::new(), 1, 10) {
        SearchOutcome::Found(m) => m,
        SearchOutcome::Exhausted(_) => panic!("empty prefix must match at once"),
    };
    let second = match find_vanity_key(Vec::new(), 1, 10) {
        SearchOutcome::Found(m) => m,
        SearchOutcome::Exhausted(_) => panic!("empty prefix must match at once"),
    };
    assert_ne!(first.candidate.key_bytes, second.candidate.key_bytes);
    assert_ne!(first.candidate.address, second.candidate.address);
}
