use pleme_service_foundation::GracefulShutdown;

#[test]
fn test_shutdown_signal() {
    let shutdown = GracefulShutdown::new();
    let mut rx = shutdown.subscribe();

    shutdown.shutdown();

    let runtime = tokio::runtime::Builder::new_current_thread().build().unwrap();
    let result = runtime.block_on(rx.recv());
    assert!(result.is_ok());
}

#[test]
fn shutdown_without_receivers_does_nothing() {
    let shutdown = GracefulShutdown::default();
    shutdown.shutdown();
    let mut rx = shutdown.subscribe();
    assert!(rx.try_recv().is_err());
}

#[test]
fn clones_share_the_channel() {
    let shutdown = GracefulShutdown::new();
    let other = shutdown.clone();
    let mut first = shutdown.subscribe();
    let mut second = other.subscribe();
    other.shutdown();
    assert!(first.try_recv().is_ok());
    assert!(second.try_recv().is_ok());
}

#[test]
fn receivers_subscribed_later_miss_earlier_signals() {
    let shutdown = GracefulShutdown::new();
    let mut early = shutdown.subscribe();
    shutdown.shutdown();
    let mut late = shutdown.subscribe();
    assert!(early.try_recv().is_ok());
    assert!(late.try_recv().is_err());
}
