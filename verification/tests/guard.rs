use tracing_axiom::{Guard, Release};

/// Stands in for the exporter pipeline and counts how often it is shut down.
struct Pipeline {
    shutdowns: u32,
}

impl Pipeline {
    fn handle(&mut self, action: Release) {
        match action {
            Release::Shutdown => self.shutdowns += 1,
            Release::Nothing => {}
        }
    }
}

#[test]
fn new_guard_is_live() {
    let guard = Guard::new();
    assert!(guard.live());
}

#[test]
fn first_release_shuts_down() {
    let mut guard = Guard::new();
    assert_eq!(guard.release(), Release::Shutdown);
    assert!(!guard.live());
}

#[test]
fn release_is_idempotent() {
    let mut pipeline = Pipeline { shutdowns: 0 };
    let mut guard = Guard::new();
    pipeline.handle(guard.release());
    assert_eq!(pipeline.shutdowns, 1);
    pipeline.handle(guard.release());
    assert_eq!(pipeline.shutdowns, 1);
    assert!(!guard.live());
}

#[test]
fn many_releases_shut_down_once() {
    let mut pipeline = Pipeline { shutdowns: 0 };
    let mut guard = Guard::new();
    for _ in 0..100 {
        pipeline.handle(guard.release());
    }
    assert_eq!(pipeline.shutdowns, 1);
    assert_eq!(guard.release(), Release::Nothing);
}

#[test]
fn guards_are_independent() {
    let mut first = Guard::new();
    let mut second = Guard::new();
    assert_eq!(first.release(), Release::Shutdown);
    assert!(second.live());
    assert_eq!(second.release(), Release::Shutdown);
    assert_eq!(first.release(), Release::Nothing);
    assert_eq!(second.release(), Release::Nothing);
}
