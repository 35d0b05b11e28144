//! The adapter for the desktop pasteboard that is reached by sending messages
//! to native objects.
//!
//! The messages are sent by the caller. This module says which messages to
//! send and what each answer means.

use vstd::prelude::*;
use vstd::string::*;
use crate::{ProviderError, Result};

verus! {

/// The failures of the pasteboard adapter.
#[derive(Debug)]
pub enum OSXError {
    /// The pasteboard refused the objects written to it.
    PasteWriteObjectsError,
    /// The pasteboard answered the read with an array that holds nothing.
    ReadObjectsForClassesEmpty,
    /// The pasteboard answered the read with no array at all.
    ReadObjectsForClassesNull,
    /// The pasteboard class is not known to the object runtime.
    PasteboardNotFound,
    /// The pasteboard class gave no general pasteboard.
    NullPasteboard,
}

impl OSXError {
    /// The text of the message, as a sequence of characters.
    pub open spec fn message(self) -> Seq<char> {
        match self {
            OSXError::PasteWriteObjectsError => "Could not paste objects to clipboard"@,
            OSXError::ReadObjectsForClassesEmpty => "Clipboard is empty"@,
            OSXError::ReadObjectsForClassesNull => "No objects to read"@,
            OSXError::PasteboardNotFound => "Pasteboard not found"@,
            OSXError::NullPasteboard => "General pasteboard not found"@,
        }
    }

    /// The message shown to a user.
    pub fn to_string(&self) -> (text: String)
        ensures
            text@ == self.message(),
    {
        let msg = match self {
            OSXError::PasteWriteObjectsError => "Could not paste objects to clipboard",
            OSXError::ReadObjectsForClassesEmpty => "Clipboard is empty",
            OSXError::ReadObjectsForClassesNull => "No objects to read",
            OSXError::PasteboardNotFound => "Pasteboard not found",
            OSXError::NullPasteboard => "General pasteboard not found",
        };
        msg.to_owned()
    }
}

/// How the search for the general pasteboard ended.
pub enum PasteboardLookup<P> {
    /// The runtime knows no class of the name asked for.
    ClassMissing,
    /// The class is there, and handed out a null reference.
    NullPasteboard,
    /// The general pasteboard.
    Found(P),
}

/// The read to perform: objects of the listed classes, under the listed options.
pub struct ReadRequest {
    /// The names of the classes that are accepted.
    pub classes: Vec<String>,
    /// The reading options, as pairs of key and value.
    pub options: Vec<(String, String)>,
}

/// The write to perform.
pub struct WriteRequest {
    /// Whether the pasteboard is cleared before the objects are written.
    pub clear_first: bool,
    /// The strings to write, in order.
    pub objects: Vec<String>,
}

/// A context that holds the general pasteboard, a handle of type `P`.
///
/// A context exists only where the handle was obtained: there is no context
/// around a null reference.
pub struct OSXClipboardContext<P> {
    pasteboard: P,
}

/// What a read means to the caller: `objects` is `None` where the pasteboard
/// gave a null reference, and else the strings of the array it gave.
pub open spec fn read_outcome(objects: Option<Seq<Seq<char>>>) -> core::result::Result<
    Seq<char>,
    OSXError,
> {
    match objects {
        None => Err(OSXError::ReadObjectsForClassesNull),
        Some(strings) => if strings.len() == 0 {
            Err(OSXError::ReadObjectsForClassesEmpty)
        } else {
            Ok(strings[0])
        },
    }
}

/// The strings of `objects`, each as a sequence of characters.
pub open spec fn texts(objects: Option<Vec<String>>) -> Option<Seq<Seq<char>>> {
    match objects {
        None => None,
        Some(strings) => Some(Seq::new(strings@.len(), |i: int| strings@[i]@)),
    }
}

impl<P> OSXClipboardContext<P> {
    /// The handle that this context holds.
    pub closed spec fn handle(self) -> P {
        self.pasteboard
    }

    /// The name of the class that hands out the general pasteboard.
    pub fn pasteboard_class() -> (name: &'static str)
        ensures
            name@ == "NSPasteboard"@,
    {
        "NSPasteboard"
    }

    /// Makes a context from the outcome of the search for the general
    /// pasteboard. A missing class and a null pasteboard are told apart.
    pub fn new(lookup: PasteboardLookup<P>) -> (made: Result<OSXClipboardContext<P>>)
        ensures
            match lookup {
                PasteboardLookup::ClassMissing => made matches Err(
                    ProviderError::OSXError(OSXError::PasteboardNotFound),
                ),
                PasteboardLookup::NullPasteboard => made matches Err(
                    ProviderError::OSXError(OSXError::NullPasteboard),
                ),
                PasteboardLookup::Found(p) => made matches Ok(ctx) && ctx.handle() == p,
            },
    {
        match lookup {
            PasteboardLookup::ClassMissing => Err(ProviderError::OSXError(OSXError::PasteboardNotFound)),
            PasteboardLookup::NullPasteboard => Err(ProviderError::OSXError(OSXError::NullPasteboard)),
            PasteboardLookup::Found(p) => Ok(OSXClipboardContext { pasteboard: p }),
        }
    }

    /// The pasteboard to send the messages to.
    pub fn pasteboard(&self) -> (p: &P)
        ensures
            *p == self.handle(),
    {
        &self.pasteboard
    }

    /// The read that `get_contents` is about: strings only, no options.
    pub fn read_request(&self) -> (request: ReadRequest)
        ensures
            request.classes@.len() == 1,
            request.classes@[0]@ == "NSString"@,
            request.options@.len() == 0,
    {
        let mut classes: Vec<String> = Vec::new();
        classes.push("NSString".to_owned());
        ReadRequest { classes, options: Vec::new() }
    }

    /// The text that a read gave. `objects` is `None` where the pasteboard
    /// answered with a null reference, and else holds the strings of the
    /// array it answered with. The first string is the text; an array
    /// without strings is an empty clipboard.
    pub fn get_contents(&mut self, objects: Option<Vec<String>>) -> (contents: Result<String>)
        ensures
            final(self).handle() == old(self).handle(),
            match read_outcome(texts(objects)) {
                Ok(text) => contents matches Ok(s) && s@ == text,
                Err(e) => contents matches Err(ProviderError::OSXError(found)) && found == e,
            },
    {
        match objects {
            None => Err(ProviderError::OSXError(OSXError::ReadObjectsForClassesNull)),
            Some(strings) => {
                if strings.len() == 0 {
                    Err(ProviderError::OSXError(OSXError::ReadObjectsForClassesEmpty))
                } else {
                    Ok(strings[0].clone())
                }
            },
        }
    }

    /// The write that `set_contents` is about: clear the pasteboard, then
    /// write `data` as the one string of an array.
    pub fn write_request(&self, data: String) -> (request: WriteRequest)
        ensures
            request.clear_first,
            request.objects@.len() == 1,
            request.objects@[0] == data,
    {
        let mut objects: Vec<String> = Vec::new();
        objects.push(data);
        WriteRequest { clear_first: true, objects }
    }

    /// What the write means to the caller: `written` is what the pasteboard
    /// reported of it.
    pub fn set_contents(&mut self, written: bool) -> (done: Result<()>)
        ensures
            final(self).handle() == old(self).handle(),
            written ==> done is Ok,
            !written ==> done matches Err(ProviderError::OSXError(OSXError::PasteWriteObjectsError)),
    {
        if written {
            Ok(())
        } else {
            Err(ProviderError::OSXError(OSXError::PasteWriteObjectsError))
        }
    }
}

/// The pasteboard adapter's error as the error of every adapter.
impl From<OSXError> for ProviderError {
    fn from(e: OSXError) -> (wrapped: ProviderError) {
        ProviderError::OSXError(e)
    }
}

impl vstd::std_specs::convert::FromSpecImpl<OSXError> for ProviderError {
    open spec fn obeys_from_spec() -> bool {
        true
    }

    open spec fn from_spec(e: OSXError) -> ProviderError {
        ProviderError::OSXError(e)
    }
}

/// The three answers to a read are told apart: no array at all, an array
/// that holds nothing (the pasteboard was cleared and nothing written since),
/// and an array with at least one string, whose first string is the text.
pub proof fn lemma_read_outcomes_apart(strings: Seq<Seq<char>>)
    ensures
        read_outcome(None) == Err::<Seq<char>, OSXError>(OSXError::ReadObjectsForClassesNull),
        read_outcome(Some(Seq::empty())) == Err::<Seq<char>, OSXError>(
            OSXError::ReadObjectsForClassesEmpty,
        ),
        read_outcome(Some(Seq::empty())) != read_outcome(None),
        strings.len() > 0 ==> read_outcome(Some(strings)) == Ok::<Seq<char>, OSXError>(strings[0]),
{
}

/// The array that a write request holds for a text, handed back by a read,
/// gives that text.
pub proof fn lemma_written_text_reads_back(objects: Vec<String>)
    requires
        objects@.len() == 1,
    ensures
        read_outcome(texts(Some(objects))) == Ok::<Seq<char>, OSXError>(objects@[0]@),
{
}

} // verus!
