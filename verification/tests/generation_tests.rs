use llama_engine::generation::{GenAction, GenSession};

/// Drives a session to completion, answering every sample request from a
/// scripted list, and returns the fed (token, position) pairs.
fn drive(mut s: GenSession, script: &[u32]) -> (Vec<(u32, usize)>, Vec<u32>) {
    let mut fed: Vec<(u32, usize)> = Vec::new();
    let mut next_sample: usize = 0;
    loop {
        match s.next_action() {
            GenAction::Feed(tok, pos) => {
                if !s.expects_feed() {
                    panic!("feed action without pending feed");
                }
                fed.push((tok, pos));
                s.note_fed();
            }
            GenAction::Sample => {
                if !s.expects_sample() {
                    panic!("sample action out of turn");
                }
                let tok = script[next_sample];
                next_sample += 1;
                s.note_sampled(tok);
            }
            GenAction::Stop => {
                assert!(s.is_done());
                return (fed, s.output().clone());
            }
        }
    }
}

#[test]
fn zero_budget_returns_empty() {
    let s = GenSession::generate(vec![5, 6, 7], 0, 99);
    let (fed, out) = drive(s, &[]);
    assert!(out.is_empty());
    // the whole prompt was still prefilled, at positions from zero
    assert_eq!(fed, vec![(5, 0), (6, 1), (7, 2)]);
}

#[test]
fn no_eos_emits_exactly_budget() {
    let s = GenSession::generate(vec![5, 6], 3, 99);
    let (fed, out) = drive(s, &[10, 11, 12]);
    assert_eq!(out, vec![10, 11, 12]);
    // prompt at 0..2, then each emitted token except the last is fed back
    assert_eq!(fed, vec![(5, 0), (6, 1), (10, 2), (11, 3)]);
}

#[test]
fn eos_stops_decoding() {
    let s = GenSession::generate(vec![5], 10, 99);
    let (fed, out) = drive(s, &[20, 99]);
    assert_eq!(out, vec![20, 99]);
    assert_eq!(fed, vec![(5, 0), (20, 1)]);
}

#[test]
fn empty_prompt_stops_immediately() {
    let s = GenSession::generate(vec![], 4, 99);
    let (fed, out) = drive(s, &[]);
    assert!(fed.is_empty());
    assert!(out.is_empty());
}

#[test]
fn chat_continues_at_cache_cursor() {
    // first turn from a fresh cache
    let s1 = GenSession::chat_generate(vec![5, 6], 2, 99, 0);
    let (fed1, out1) = drive(s1, &[10, 11]);
    assert_eq!(out1, vec![10, 11]);
    assert_eq!(fed1, vec![(5, 0), (6, 1), (10, 2)]);
    // the cache now holds the fed positions; the second turn starts there
    let cursor_after_first = fed1.len();
    let s2 = GenSession::chat_generate(vec![7], 2, 99, cursor_after_first);
    let (fed2, out2) = drive(s2, &[12, 13]);
    assert_eq!(out2, vec![12, 13]);
    // every position of the second call lies strictly beyond the first
    assert_eq!(fed2, vec![(7, 3), (12, 4)]);
    for (_, pos) in &fed2 {
        assert!(*pos >= cursor_after_first);
    }
}

#[test]
fn budget_of_one_never_feeds_back() {
    let s = GenSession::generate(vec![5], 1, 99);
    let (fed, out) = drive(s, &[10]);
    assert_eq!(out, vec![10]);
    // the single sampled token fills the budget, so it is never fed back
    assert_eq!(fed, vec![(5, 0)]);
}
