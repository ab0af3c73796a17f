use gobbler::shutdown::ShutdownCoordinator;

#[test]
fn fresh_latch_is_untriggered() {
    let coordinator = ShutdownCoordinator::new();
    let latch = coordinator.subscribe();
    assert!(!latch.is_shutdown());
}

#[test]
fn trigger_reaches_a_prior_subscriber() {
    let mut coordinator = ShutdownCoordinator::new();
    let mut latch = coordinator.subscribe();
    coordinator.trigger();
    coordinator.deliver(&mut latch);
    assert!(latch.is_shutdown());
}

#[test]
fn trigger_reaches_a_late_subscriber() {
    let mut coordinator = ShutdownCoordinator::new();
    coordinator.trigger();
    let mut latch = coordinator.subscribe();
    assert!(!latch.is_shutdown());
    coordinator.deliver(&mut latch);
    assert!(latch.is_shutdown());
}

#[test]
fn trigger_is_idempotent() {
    let mut coordinator = ShutdownCoordinator::new();
    let mut first = coordinator.subscribe();
    coordinator.trigger();
    coordinator.deliver(&mut first);
    coordinator.trigger();
    let mut second = coordinator.subscribe();
    coordinator.deliver(&mut second);
    assert!(first.is_shutdown());
    assert!(second.is_shutdown());
}

#[test]
fn observation_never_resets() {
    let mut coordinator = ShutdownCoordinator::new();
    let mut latch = coordinator.subscribe();
    coordinator.trigger();
    coordinator.deliver(&mut latch);
    let unfired = ShutdownCoordinator::new();
    unfired.deliver(&mut latch);
    assert!(latch.is_shutdown());
}
