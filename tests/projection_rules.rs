use sharpe_portfolio::projection::{
    check_projection, is_degenerate, role_of, CapGuard, ProjectionDefect, Role, Standing,
    MAX_CAP_PASSES, MIN_POSITIVE_ENTRIES,
};

fn candidate(positive: usize, zero: usize) -> Vec<Standing> {
    let mut v = Vec::new();
    for _ in 0..positive {
        v.push(Standing::Positive);
    }
    for _ in 0..zero {
        v.push(Standing::Zero);
    }
    v
}

#[test]
fn all_zero_candidate_falls_back() {
    assert!(is_degenerate(&candidate(0, 4)));
    assert!(is_degenerate(&candidate(0, 206)));
}

#[test]
fn empty_candidate_falls_back() {
    assert!(is_degenerate(&Vec::new()));
}

#[test]
fn not_a_number_falls_back() {
    let mut v = candidate(30, 2);
    v.insert(7, Standing::NotANumber);
    assert!(is_degenerate(&v));
}

#[test]
fn ten_positive_entries_fall_back() {
    assert!(is_degenerate(&candidate(10, 5)));
}

#[test]
fn eleven_positive_entries_are_projected() {
    assert_eq!(MIN_POSITIVE_ENTRIES, 11);
    assert!(!is_degenerate(&candidate(11, 0)));
    assert!(!is_degenerate(&candidate(11, 195)));
}

#[test]
fn zeros_spread_among_positive_entries_do_not_count() {
    let mut v = candidate(0, 0);
    for i in 0..40 {
        v.push(if i % 4 == 0 { Standing::Positive } else { Standing::Zero });
    }
    assert!(is_degenerate(&v));
    v.push(Standing::Positive);
    assert!(!is_degenerate(&v));
}

#[test]
fn uniform_candidate_of_full_universe_is_projected() {
    assert!(!is_degenerate(&candidate(206, 0)));
}

#[test]
fn roles_in_a_redistribution_pass() {
    assert_eq!(role_of(true, false), Role::Pinned);
    assert_eq!(role_of(false, true), Role::Untouched);
    assert_eq!(role_of(false, false), Role::Flexible);
}

#[test]
fn guard_allows_the_pass_limit_and_refuses_the_next() {
    let mut g = CapGuard::new();
    assert_eq!(g.passes(), 0);
    for _ in 0..MAX_CAP_PASSES {
        assert_eq!(g.record_pass(), Ok(()));
    }
    assert_eq!(g.passes(), 2000);
    assert_eq!(g.record_pass(), Err(ProjectionDefect::NonConvergence));
    assert_eq!(g.passes(), 2001);
    assert_eq!(g.record_pass(), Err(ProjectionDefect::NonConvergence));
    assert_eq!(g.passes(), 2001);
}

#[test]
fn projection_accepted_only_when_all_checks_pass() {
    assert_eq!(check_projection(true, true, true), Ok(()));
    assert_eq!(check_projection(false, true, true), Err(ProjectionDefect::SumMismatch));
    assert_eq!(check_projection(true, false, true), Err(ProjectionDefect::CapExceeded));
    assert_eq!(check_projection(true, true, false), Err(ProjectionDefect::FloorBreached));
    assert_eq!(check_projection(false, false, false), Err(ProjectionDefect::SumMismatch));
    assert_eq!(check_projection(true, false, false), Err(ProjectionDefect::CapExceeded));
}
