//! The adapter for the native clipboard interface that reads and writes a
//! string in one call each, and needs no handle in between.
//!
//! The two calls are made by the caller. This module says what each answer
//! means.

use vstd::prelude::*;
use crate::{ProviderError, Result};

verus! {

/// The error of the native calls, `std::io::Error`. Nothing is known of what
/// a value of it holds.
#[verifier::external_type_specification]
#[verifier::external_body]
pub struct ExIoError(std::io::Error);

/// A context that holds nothing: every call opens the clipboard anew.
pub struct WindowsClipboardContext;

/// The failure of the native-interface adapter.
#[derive(Debug)]
pub enum WindowsError {
    /// The native call failed, with the code and message inside.
    IoError(std::io::Error),
}

impl WindowsError {
    /// The message shown to a user: the one that the error inside writes of
    /// itself.
    pub fn to_string(&self) -> (text: String)
        ensures
            self.shows(text),
    {
        match self {
            WindowsError::IoError(e) => e.to_string(),
        }
    }

    /// Whether `text` is a message of this error: one that the I/O error
    /// inside writes of itself when it is displayed. The wording is the
    /// system's, and may differ from one machine to the next.
    pub open spec fn shows(self, text: String) -> bool {
        match self {
            WindowsError::IoError(e) => vstd::string::to_string_from_display_ensures::<
                std::io::Error,
            >(&e, text),
        }
    }
}

impl WindowsClipboardContext {
    /// Always succeeds: there is nothing to acquire.
    pub fn new() -> (made: Result<WindowsClipboardContext>)
        ensures
            made is Ok,
    {
        Ok(WindowsClipboardContext)
    }

    /// The text that the native read gave; its failure is passed on as it is.
    pub fn get_contents(&mut self, read: core::result::Result<String, std::io::Error>) -> (contents:
        Result<String>)
        ensures
            match read {
                Ok(text) => contents matches Ok(s) && s == text,
                Err(e) => contents matches Err(ProviderError::WindowsError(WindowsError::IoError(inner)))
                    && inner == e,
            },
    {
        match read {
            Ok(text) => Ok(text),
            Err(e) => Err(ProviderError::WindowsError(WindowsError::IoError(e))),
        }
    }

    /// What the native write means to the caller; its failure is passed on as
    /// it is.
    pub fn set_contents(&mut self, written: core::result::Result<(), std::io::Error>) -> (done:
        Result<()>)
        ensures
            match written {
                Ok(_) => done is Ok,
                Err(e) => done matches Err(ProviderError::WindowsError(WindowsError::IoError(inner)))
                    && inner == e,
            },
    {
        match written {
            Ok(_) => Ok(()),
            Err(e) => Err(ProviderError::WindowsError(WindowsError::IoError(e))),
        }
    }
}

/// An I/O error as the error of the native-interface adapter.
impl From<std::io::Error> for WindowsError {
    fn from(e: std::io::Error) -> (wrapped: WindowsError) {
        WindowsError::IoError(e)
    }
}

impl vstd::std_specs::convert::FromSpecImpl<std::io::Error> for WindowsError {
    open spec fn obeys_from_spec() -> bool {
        true
    }

    open spec fn from_spec(e: std::io::Error) -> WindowsError {
        WindowsError::IoError(e)
    }
}

/// The native-interface adapter's error as the error of every adapter.
impl From<WindowsError> for ProviderError {
    fn from(e: WindowsError) -> (wrapped: ProviderError) {
        ProviderError::WindowsError(e)
    }
}

impl vstd::std_specs::convert::FromSpecImpl<WindowsError> for ProviderError {
    open spec fn obeys_from_spec() -> bool {
        true
    }

    open spec fn from_spec(e: WindowsError) -> ProviderError {
        ProviderError::WindowsError(e)
    }
}

} // verus!
