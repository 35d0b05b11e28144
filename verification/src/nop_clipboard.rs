//! The adapter for platforms without a clipboard: it constructs, and then
//! refuses every read and every write.

use vstd::prelude::*;
use vstd::string::*;
use crate::common::ClipboardProvider;
use crate::{ProviderError, Result};

verus! {

/// A context that reaches no clipboard at all.
pub struct NopClipboardContext;

/// The one failure of the fallback adapter.
#[derive(Debug)]
pub enum NopError {
    NopError,
}

impl NopError {
    /// The text of the message, as a sequence of characters.
    pub open spec fn message(self) -> Seq<char> {
        "This platform is not supported"@
    }

    /// The message shown to a user.
    pub fn to_string(&self) -> (text: String)
        ensures
            text@ == self.message(),
    {
        "This platform is not supported".to_owned()
    }
}

impl ClipboardProvider for NopClipboardContext {
    /// Always succeeds: there is nothing to acquire.
    fn new() -> (made: Result<NopClipboardContext>)
        ensures
            made is Ok,
    {
        Ok(NopClipboardContext)
    }

    /// Always fails with the unsupported-platform error.
    fn get_contents(&mut self) -> (contents: Result<String>)
        ensures
            contents == Err::<String, ProviderError>(ProviderError::NopError(NopError::NopError)),
            *final(self) == *old(self),
    {
        Err(ProviderError::NopError(NopError::NopError))
    }

    /// Always fails with the unsupported-platform error, whatever `data` holds.
    fn set_contents(&mut self, data: String) -> (done: Result<()>)
        ensures
            done == Err::<(), ProviderError>(ProviderError::NopError(NopError::NopError)),
            *final(self) == *old(self),
    {
        Err(ProviderError::NopError(NopError::NopError))
    }
}

/// The fallback adapter's error as the error of every adapter.
impl From<NopError> for ProviderError {
    fn from(e: NopError) -> (wrapped: ProviderError) {
        ProviderError::NopError(e)
    }
}

impl vstd::std_specs::convert::FromSpecImpl<NopError> for ProviderError {
    open spec fn obeys_from_spec() -> bool {
        true
    }

    open spec fn from_spec(e: NopError) -> ProviderError {
        ProviderError::NopError(e)
    }
}

} // verus!
