use yaffe::windowing::{ContextCurrency, ContextStep, ContextTracker};

fn two_windows() -> ContextTracker {
    let mut t = ContextTracker::new();
    assert_eq!(t.insert(ContextCurrency::PossiblyCurrent), (0, None));
    assert_eq!(t.insert(ContextCurrency::PossiblyCurrent), (1, Some(0)));
    t
}

#[test]
fn new_context_takes_the_place_of_the_current_one() {
    let t = two_windows();
    assert_eq!(t.current, Some(1));
    assert_eq!(t.next_id, 2);
    assert_eq!(
        t.others,
        vec![(0, ContextCurrency::NotCurrent), (1, ContextCurrency::PossiblyCurrent)]
    );
}

#[test]
fn context_not_current_keeps_the_current_one() {
    let mut t = two_windows();
    assert_eq!(t.insert(ContextCurrency::NotCurrent), (2, None));
    assert_eq!(t.current, Some(1));
    assert_eq!(t.others[2], (2, ContextCurrency::NotCurrent));
}

#[test]
fn current_context_is_ready() {
    let t = two_windows();
    assert_eq!(t.get_current(1), ContextStep::Ready);
    assert_eq!(t.get_current(0), ContextStep::MakeCurrent { previous: Some(1) });
}

#[test]
fn switch_that_worked_moves_the_current_context() {
    let mut t = two_windows();
    assert_eq!(t.finish_switch(0, true), Some(1));
    assert_eq!(t.current, Some(0));
    assert_eq!(
        t.others,
        vec![(0, ContextCurrency::PossiblyCurrent), (1, ContextCurrency::NotCurrent)]
    );
    assert_eq!(t.get_current(0), ContextStep::Ready);
}

#[test]
fn switch_that_failed_leaves_no_context_current() {
    let mut t = two_windows();
    assert_eq!(t.finish_switch(0, false), Some(1));
    assert_eq!(t.current, None);
    assert_eq!(
        t.others,
        vec![(0, ContextCurrency::NotCurrent), (1, ContextCurrency::NotCurrent)]
    );
    assert_eq!(t.get_current(1), ContextStep::MakeCurrent { previous: None });
}

#[test]
fn position_finds_contexts_by_id() {
    let mut t = two_windows();
    t.insert(ContextCurrency::NotCurrent);
    t.insert(ContextCurrency::NotCurrent);
    assert_eq!(t.position(0), Some(0));
    assert_eq!(t.position(3), Some(3));
    assert_eq!(t.position(2), Some(2));
    assert_eq!(t.position(4), None);
    assert_eq!(ContextTracker::default().position(0), None);
}

#[test]
fn at_most_one_context_is_current() {
    let mut t = two_windows();
    t.insert(ContextCurrency::NotCurrent);
    t.finish_switch(2, true);
    let current = t.others.iter().filter(|e| e.1 == ContextCurrency::PossiblyCurrent).count();
    assert_eq!(current, 1);
    assert_eq!(t.current, Some(2));
}
