//! The capability that every platform adapter offers.

use vstd::prelude::*;
use crate::Result;

verus! {

/// A clipboard context: constructed once, then read and written as text.
///
/// Reading and writing take `&mut self` although no adapter of this crate
/// changes its own state: an implementation may cache or renew its hold on
/// the native service.
pub trait ClipboardProvider: Sized {
    /// Acquires whatever the platform needs to reach its clipboard.
    fn new() -> Result<Self>;

    /// The text that the clipboard holds now.
    fn get_contents(&mut self) -> Result<String>;

    /// Replaces what the clipboard holds by `data`.
    fn set_contents(&mut self, data: String) -> Result<()>;
}

} // verus!
