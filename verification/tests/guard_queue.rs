use amqp_rs::bridge::ContextToken;
use amqp_rs::guard::ContextGuard;

#[test]
fn entry_is_serialized_and_fifo() {
    let mut g = ContextGuard::new(ContextToken { id: 1 });
    assert!(g.enter_next().is_none());

    // Many dispatches may queue for entry while the context is busy.
    g.post(10);
    g.post(11);
    g.post(12);

    assert_eq!(g.enter_next(), Some(10));
    // The context is single-threaded: nothing else enters until 10 leaves.
    assert!(g.enter_next().is_none());
    g.post(13);

    g.exit_context(10);
    assert_eq!(g.enter_next(), Some(11));
    g.exit_context(11);
    assert_eq!(g.enter_next(), Some(12));
    g.exit_context(12);
    assert_eq!(g.enter_next(), Some(13));
    g.exit_context(13);
    assert!(g.enter_next().is_none());
}

#[test]
fn posting_does_not_disturb_the_active_dispatch() {
    let mut g = ContextGuard::new(ContextToken { id: 2 });
    g.post(1);
    assert_eq!(g.enter_next(), Some(1));
    g.post(2);
    assert_eq!(g.active, Some(1));
    assert_eq!(g.queue, vec![2]);
}
