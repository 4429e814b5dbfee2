//! The current ui state of the application, shared between the render and
//! input tasks.

use std::sync::Arc;

use vstd::prelude::*;

verus! {

/// Contains the current ui state of the application.
///
/// To create a shareable reference to an instance of this struct, use
/// `new_shared()`, which will create an arcmutex around a new struct
/// instance.
pub struct UIState {
    pub current_tab: usize,
    pub cpu_scroll: u16,
}

#[verifier::external_type_specification]
#[verifier::external_body]
#[verifier::reject_recursive_types(T)]
pub struct ExMutex<T: ?Sized>(std::sync::Mutex<T>);

/// Relies on std::sync::Mutex::new: a mutex owning the given state.
#[verifier::external_body]
fn mutex_new(s: UIState) -> std::sync::Mutex<UIState> {
    std::sync::Mutex::new(s)
}

impl UIState {
    /// Instantiate a new instance of this struct with default values.
    pub fn new() -> (r: Self)
        ensures
            r.current_tab == 0,
            r.cpu_scroll == 0,
    {
        UIState { current_tab: 0, cpu_scroll: 0 }
    }

    /// Instantiate a new instance of this struct, and wrap it in an
    /// arcmutex.
    pub fn new_shared() -> Arc<std::sync::Mutex<UIState>> {
        Arc::new(mutex_new(Self::new()))
    }
}

} // verus!
