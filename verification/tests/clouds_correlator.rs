//! Sign-bit correlation search.

use eurorack::clouds::correlator::Correlator;

#[test]
fn search_finds_the_aligned_lag() {
    let mut c = Correlator::new();
    {
        let s = c.source_mut();
        s[0] = 0xffff_ffff;
        s[1] = 0xffff_ffff;
    }
    {
        let d = c.destination_mut();
        for w in 2..8 {
            d[w] = 0xffff_ffff;
        }
    }
    c.start_search(64, 0, 4096 * 16);
    assert!(!c.done());
    c.evaluate_some_candidates();
    assert!(!c.done(), "64 candidates take two budgets of 32");
    c.evaluate_some_candidates();
    assert!(c.done());
    assert_eq!(c.best_match(), 32);
}

#[test]
fn ties_keep_the_earliest_lag() {
    // All-zero windows agree everywhere: every lag scores the maximum, and
    // the first one is kept.
    let mut c = Correlator::new();
    c.start_search(64, 100, 4096 * 16);
    while !c.done() {
        c.evaluate_some_candidates();
    }
    assert_eq!(c.best_match(), 100);
}

#[test]
fn offset_and_increment_scale_the_result() {
    let mut c = Correlator::new();
    {
        let s = c.source_mut();
        s[0] = 0xffff_ffff;
        s[1] = 0xffff_ffff;
    }
    {
        let d = c.destination_mut();
        for w in 2..8 {
            d[w] = 0xffff_ffff;
        }
    }
    // increment >> 4 = 8192: lag 32 maps to 32 * 8192 >> 12 = 64.
    c.start_search(64, 7, 8192 * 16);
    for _ in 0..64 {
        c.evaluate_next_candidate();
    }
    assert!(c.done());
    assert_eq!(c.best_match(), 7 + 64);
    c.init();
    assert!(c.done());
    assert_eq!(c.best_match(), 0);
}
