use spider::control::{pause, reset, resume, shutdown, ControlBus, Handler};

#[test]
fn bus_starts_with_the_start_signal() {
    let bus = ControlBus::new();
    assert_eq!(bus.target(), "handles");
    assert_eq!(bus.signal(), Handler::Start);
}

#[test]
fn pause_then_resume_keeps_only_the_latest() {
    let mut bus = ControlBus::new();
    pause(&mut bus, "siteA");
    assert_eq!(bus.latest(), ("siteA".to_string(), Handler::Pause));
    resume(&mut bus, "siteB");
    assert_eq!(bus.latest(), ("siteB".to_string(), Handler::Resume));
    assert_ne!(bus.target(), "siteA");
    assert_ne!(bus.signal(), Handler::Pause);
}

#[test]
fn shutdown_and_reset_publish_their_signal() {
    let mut bus = ControlBus::new();
    shutdown(&mut bus, "crawl-1https://a.test");
    assert_eq!(bus.latest(), ("crawl-1https://a.test".to_string(), Handler::Shutdown));
    reset(&mut bus, "crawl-1https://a.test");
    assert_eq!(bus.latest(), ("crawl-1https://a.test".to_string(), Handler::Start));
}

#[test]
fn any_signal_may_follow_any_other() {
    let mut bus = ControlBus::new();
    resume(&mut bus, "x");
    resume(&mut bus, "x");
    assert_eq!(bus.signal(), Handler::Resume);
    shutdown(&mut bus, "x");
    pause(&mut bus, "y");
    assert_eq!(bus.latest(), ("y".to_string(), Handler::Pause));
    bus.send("z", Handler::Shutdown);
    assert_eq!(bus.latest(), ("z".to_string(), Handler::Shutdown));
}
