//! A uniform interface to the system clipboard.
//!
//! Every platform adapter offers the same three operations: construct a
//! context, read the current text, replace the current text. The adapters in
//! this crate hold the decisions of each platform: what to ask of the native
//! service and what every answer of the service means for the caller. The
//! native calls themselves are made by the program that links this crate.

use vstd::prelude::*;

pub mod common;
pub mod nop_clipboard;
pub mod osx_clipboard;
pub mod windows_clipboard;
pub mod x11_clipboard;

pub use common::ClipboardProvider;

verus! {

/// The failure of a clipboard operation, by the platform adapter that met it.
#[derive(Debug)]
pub enum ProviderError {
    /// The windowing-selection adapter.
    X11Error(crate::x11_clipboard::X11Error),
    /// The desktop-pasteboard adapter.
    OSXError(osx_clipboard::OSXError),
    /// The native-interface adapter.
    WindowsError(windows_clipboard::WindowsError),
    /// The fallback adapter: there is no clipboard on this platform.
    NopError(nop_clipboard::NopError),
}

impl ProviderError {
    /// Whether `text` is a message of this error: that of the adapter's
    /// error. The pasteboard adapter and the fallback adapter word their
    /// messages themselves; the other two pass on errors that word their own.
    pub open spec fn shows(self, text: String) -> bool {
        match self {
            ProviderError::X11Error(e) => e.shows(text),
            ProviderError::OSXError(e) => text@ == e.message(),
            ProviderError::WindowsError(e) => e.shows(text),
            ProviderError::NopError(e) => text@ == e.message(),
        }
    }

    /// The message shown to a user: that of the adapter's error.
    pub fn to_string(&self) -> (text: String)
        ensures
            self.shows(text),
    {
        match self {
            ProviderError::X11Error(e) => e.to_string(),
            ProviderError::OSXError(e) => e.to_string(),
            ProviderError::WindowsError(e) => e.to_string(),
            ProviderError::NopError(e) => e.to_string(),
        }
    }
}

/// The outcome of every clipboard operation.
pub type Result<T> = core::result::Result<T, ProviderError>;

} // verus!
