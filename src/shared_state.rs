use vstd::prelude::*;

verus! {

/// State that every stage of the pipeline shares: the shutdown flag, zero
/// while the stages run and non-zero once they are to finish.
#[derive(Debug)]
pub struct SharedState {
    pub shut_down: std::sync::atomic::AtomicUsize,
}

impl SharedState {
    /// A state in which the stages run.
    pub fn new() -> (r: Self) {
        SharedState { shut_down: std::sync::atomic::AtomicUsize::new(0) }
    }

    /// Whether a stage was asked to finish. A stale answer only delays the
    /// shutdown by one iteration, so the read is relaxed.
    pub fn is_shut_down(&self) -> bool {
        self.shut_down.load(std::sync::atomic::Ordering::Relaxed) != 0
    }

    /// Asks every stage to finish, visible to all of them at once.
    pub fn request_shut_down(&self) {
        self.shut_down.store(1, std::sync::atomic::Ordering::SeqCst);
    }
}

} // verus!
