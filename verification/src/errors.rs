//! The library's error type.

use vstd::prelude::*;

verus! {

/// An error raised by this library, carrying a human-readable message.
#[derive(Debug, Clone)]
pub struct MFError(pub String);

impl MFError {
    /// The message carried by this error.
    pub fn message(&self) -> (r: &str)
        ensures
            r@ == self.0@,
    {
        self.0.as_str()
    }
}

} // verus!
