use std::future::Future;
use vstd::prelude::*;

verus! {

/// The executor adapter: it hands units of asynchronous work to async-std's
/// scheduler.
#[derive(Clone, Debug)]
pub struct HyperExecutor;

impl HyperExecutor {
    /// Schedules `fut` for independent execution and returns at once, without
    /// waiting for it.
    ///
    /// The body is one call of `async_std::task::spawn`, whose join handle is
    /// dropped, which detaches the task. Nothing is claimed of the call: that
    /// the task makes progress, that it completes, and that a task which fails
    /// takes no other task down with it, is the scheduler's doing and is not
    /// proved here.
    #[verifier::external_body]
    pub fn execute<F>(&self, fut: F) where F: Future + Send + 'static, F::Output: Send + 'static {
        async_std::task::spawn(fut);
    }
}

} // verus!
