//! The adapter for the windowing system's selections.
//!
//! A selection is a named buffer of the display server. This adapter reads
//! and writes one of two of them as UTF-8 text: the clipboard selection, or
//! the primary selection. Which one is fixed by the type of the context.
//!
//! The requests are carried to the server by the caller. This module says
//! what to request and what each answer means.

use core::marker::PhantomData;
use std::string::FromUtf8Error;
use vstd::prelude::*;
use vstd::slice::*;
use vstd::string::*;
use vstd::utf8::*;
use crate::{ProviderError, Result};

verus! {

/// The error of the selection client, `x11_clipboard::error::Error`. Nothing
/// is known of what a value of it holds.
#[verifier::external_type_specification]
#[verifier::external_body]
pub struct ExProtocolError(::x11_clipboard::error::Error);

/// The error of `String::from_utf8`. Nothing is known of what a value of it
/// holds.
#[verifier::external_type_specification]
#[verifier::external_body]
pub struct ExFromUtf8Error(std::string::FromUtf8Error);

/// `String::from_utf8` accepts exactly the byte vectors that are valid
/// UTF-8, and gives the string that those bytes encode.
pub assume_specification[ String::from_utf8 ](vec: Vec<u8>) -> (decoded: core::result::Result<
    String,
    FromUtf8Error,
>)
    ensures
        decoded is Ok <==> valid_utf8(vec@),
        decoded matches Ok(s) ==> s@ == decode_utf8(vec@),
;

/// The name of a selection, a target or a property, as the server numbers it.
pub type Atom = u32;

/// The atoms that a connection has looked up.
#[derive(Clone, Copy, Debug, PartialEq, Eq, Structural)]
pub struct Atoms {
    pub primary: Atom,
    pub clipboard: Atom,
    pub property: Atom,
    pub targets: Atom,
    pub string: Atom,
    pub utf8_string: Atom,
    pub incr: Atom,
}

impl Atoms {
    /// The two selections have two names. A server never gives one atom to
    /// two names, so this holds of every table that was looked up.
    pub open spec fn separate(self) -> bool {
        self.primary != self.clipboard
    }
}

/// A marker for one of the selections: it picks the selection's atom out of
/// the table.
pub trait Selection {
    /// The atom that this marker picks.
    spec fn selected(atoms: Atoms) -> Atom;

    fn atom(atoms: &Atoms) -> (atom: Atom)
        ensures
            atom == Self::selected(*atoms),
    ;
}

/// The primary selection: what was selected last.
pub struct Primary;

impl Selection for Primary {
    open spec fn selected(atoms: Atoms) -> Atom {
        atoms.primary
    }

    fn atom(atoms: &Atoms) -> (atom: Atom) {
        atoms.primary
    }
}

/// The clipboard selection: what was copied last.
pub struct Clipboard;

impl Selection for Clipboard {
    open spec fn selected(atoms: Atoms) -> Atom {
        atoms.clipboard
    }

    fn atom(atoms: &Atoms) -> (atom: Atom) {
        atoms.clipboard
    }
}

/// The failures of the selection adapter.
#[derive(Debug)]
pub enum X11Error {
    /// The selection was loaded, and its bytes are no UTF-8 text.
    FromUtf8Error(FromUtf8Error),
    /// The selection client failed: no connection, no answer in time, or an
    /// answer that the protocol does not allow.
    ClipboardError(::x11_clipboard::error::Error),
}

impl X11Error {
    /// The message shown to a user: the one that the error inside writes of
    /// itself.
    pub fn to_string(&self) -> (text: String)
        ensures
            self.shows(text),
    {
        match self {
            X11Error::FromUtf8Error(e) => e.to_string(),
            X11Error::ClipboardError(e) => e.to_string(),
        }
    }

    /// Whether `text` is a message of this error: one that the error inside
    /// writes of itself when it is displayed. The selection client's errors
    /// may quote the system's wording, which may differ from one machine to
    /// the next.
    pub open spec fn shows(self, text: String) -> bool {
        match self {
            X11Error::FromUtf8Error(e) => vstd::string::to_string_from_display_ensures::<
                FromUtf8Error,
            >(&e, text),
            X11Error::ClipboardError(e) => vstd::string::to_string_from_display_ensures::<
                ::x11_clipboard::error::Error,
            >(&e, text),
        }
    }
}

/// The load to perform: convert `selection` to `target`, have the answer
/// delivered in `property`, and give up after `timeout_secs` seconds.
pub struct LoadRequest {
    pub selection: Atom,
    pub target: Atom,
    pub property: Atom,
    pub timeout_secs: u64,
}

/// The store to perform: own `selection`, and answer requests for `target`
/// with `value`.
pub struct StoreRequest {
    pub selection: Atom,
    pub target: Atom,
    pub value: Vec<u8>,
}

/// The seconds after which a load is given up.
pub const LOAD_TIMEOUT_SECS: u64 = 3;

/// What the bytes of a loaded selection mean: the text they encode, or
/// `None` where they are no UTF-8.
pub open spec fn decoded(bytes: Seq<u8>) -> Option<Seq<char>> {
    if valid_utf8(bytes) {
        Some(decode_utf8(bytes))
    } else {
        None
    }
}

/// A context that holds the connection to the server, a handle of type `C`,
/// and works on the selection that `S` marks.
///
/// A context exists only where the connection was opened.
pub struct X11ClipboardContext<C, S: Selection = Clipboard> {
    connection: C,
    marker: PhantomData<S>,
}

impl<C, S: Selection> X11ClipboardContext<C, S> {
    /// The connection that this context holds.
    pub closed spec fn handle(self) -> C {
        self.connection
    }

    /// Makes a context from the outcome of opening the connection.
    pub fn new(opened: core::result::Result<C, ::x11_clipboard::error::Error>) -> (made: Result<
        X11ClipboardContext<C, S>,
    >)
        ensures
            match opened {
                Ok(c) => made matches Ok(ctx) && ctx.handle() == c,
                Err(e) => made matches Err(ProviderError::X11Error(X11Error::ClipboardError(inner)))
                    && inner == e,
            },
    {
        match opened {
            Ok(c) => Ok(X11ClipboardContext { connection: c, marker: PhantomData }),
            Err(e) => Err(ProviderError::X11Error(X11Error::ClipboardError(e))),
        }
    }

    /// The connection to carry the requests over.
    pub fn connection(&self) -> (c: &C)
        ensures
            *c == self.handle(),
    {
        &self.connection
    }

    /// The load that `get_contents` is about: this context's selection as
    /// UTF-8 text, with the fixed timeout. `atoms` is the table of the
    /// connection that will carry the load.
    pub fn load_request(&self, atoms: &Atoms) -> (request: LoadRequest)
        ensures
            request.selection == S::selected(*atoms),
            request.target == atoms.utf8_string,
            request.property == atoms.property,
            request.timeout_secs == LOAD_TIMEOUT_SECS,
    {
        LoadRequest {
            selection: S::atom(atoms),
            target: atoms.utf8_string,
            property: atoms.property,
            timeout_secs: LOAD_TIMEOUT_SECS,
        }
    }

    /// The text that a load gave. A failure of the selection client stays
    /// what it is. Bytes that are no UTF-8 are a failure of their own kind,
    /// so that a caller can tell a protocol that failed from a selection that
    /// holds no text.
    pub fn get_contents(
        &mut self,
        loaded: core::result::Result<Vec<u8>, ::x11_clipboard::error::Error>,
    ) -> (contents: Result<String>)
        ensures
            final(self).handle() == old(self).handle(),
            match loaded {
                Ok(bytes) => match decoded(bytes@) {
                    Some(text) => contents matches Ok(s) && s@ == text,
                    None => contents matches Err(ProviderError::X11Error(X11Error::FromUtf8Error(_))),
                },
                Err(e) => contents matches Err(ProviderError::X11Error(X11Error::ClipboardError(inner)))
                    && inner == e,
            },
    {
        match loaded {
            Ok(bytes) => match String::from_utf8(bytes) {
                Ok(s) => Ok(s),
                Err(e) => Err(ProviderError::X11Error(X11Error::FromUtf8Error(e))),
            },
            Err(e) => Err(ProviderError::X11Error(X11Error::ClipboardError(e))),
        }
    }

    /// The store that `set_contents` is about: this context's selection,
    /// offered as UTF-8 text, with the bytes that encode `data`. `atoms` is
    /// the table of the connection that will carry the store.
    pub fn store_request(&self, atoms: &Atoms, data: String) -> (request: StoreRequest)
        ensures
            request.selection == S::selected(*atoms),
            request.target == atoms.utf8_string,
            request.value@ == encode_utf8(data@),
    {
        StoreRequest {
            selection: S::atom(atoms),
            target: atoms.utf8_string,
            value: slice_to_vec(data.as_str().as_bytes()),
        }
    }

    /// What the store means to the caller: a failure of the selection client
    /// stays what it is.
    pub fn set_contents(
        &mut self,
        stored: core::result::Result<(), ::x11_clipboard::error::Error>,
    ) -> (done: Result<()>)
        ensures
            final(self).handle() == old(self).handle(),
            match stored {
                Ok(_) => done is Ok,
                Err(e) => done matches Err(ProviderError::X11Error(X11Error::ClipboardError(inner)))
                    && inner == e,
            },
    {
        match stored {
            Ok(_) => Ok(()),
            Err(e) => Err(ProviderError::X11Error(X11Error::ClipboardError(e))),
        }
    }
}

/// A decoding error as the error of the selection adapter.
impl From<FromUtf8Error> for X11Error {
    fn from(e: FromUtf8Error) -> (wrapped: X11Error) {
        X11Error::FromUtf8Error(e)
    }
}

impl vstd::std_specs::convert::FromSpecImpl<FromUtf8Error> for X11Error {
    open spec fn obeys_from_spec() -> bool {
        true
    }

    open spec fn from_spec(e: FromUtf8Error) -> X11Error {
        X11Error::FromUtf8Error(e)
    }
}

/// The selection client's error as the error of the selection adapter.
impl From<::x11_clipboard::error::Error> for X11Error {
    fn from(e: ::x11_clipboard::error::Error) -> (wrapped: X11Error) {
        X11Error::ClipboardError(e)
    }
}

impl vstd::std_specs::convert::FromSpecImpl<::x11_clipboard::error::Error> for X11Error {
    open spec fn obeys_from_spec() -> bool {
        true
    }

    open spec fn from_spec(e: ::x11_clipboard::error::Error) -> X11Error {
        X11Error::ClipboardError(e)
    }
}

/// The selection adapter's error as the error of every adapter.
impl From<X11Error> for ProviderError {
    fn from(e: X11Error) -> (wrapped: ProviderError) {
        ProviderError::X11Error(e)
    }
}

impl vstd::std_specs::convert::FromSpecImpl<X11Error> for ProviderError {
    open spec fn obeys_from_spec() -> bool {
        true
    }

    open spec fn from_spec(e: X11Error) -> ProviderError {
        ProviderError::X11Error(e)
    }
}

/// A decoding error as the error of every adapter: it is the selection adapter's.
impl From<FromUtf8Error> for ProviderError {
    fn from(e: FromUtf8Error) -> (wrapped: ProviderError) {
        ProviderError::X11Error(X11Error::FromUtf8Error(e))
    }
}

impl vstd::std_specs::convert::FromSpecImpl<FromUtf8Error> for ProviderError {
    open spec fn obeys_from_spec() -> bool {
        true
    }

    open spec fn from_spec(e: FromUtf8Error) -> ProviderError {
        ProviderError::X11Error(X11Error::FromUtf8Error(e))
    }
}

/// The selection client's error as the error of every adapter: it is the selection adapter's.
impl From<::x11_clipboard::error::Error> for ProviderError {
    fn from(e: ::x11_clipboard::error::Error) -> (wrapped: ProviderError) {
        ProviderError::X11Error(X11Error::ClipboardError(e))
    }
}

impl vstd::std_specs::convert::FromSpecImpl<::x11_clipboard::error::Error> for ProviderError {
    open spec fn obeys_from_spec() -> bool {
        true
    }

    open spec fn from_spec(e: ::x11_clipboard::error::Error) -> ProviderError {
        ProviderError::X11Error(X11Error::ClipboardError(e))
    }
}

/// The bytes that a store request holds for a text decode to that text: what
/// `set_contents` hands to the server, `get_contents` reads back unchanged
/// once the server returns it.
pub proof fn lemma_stored_text_loads_back(text: Seq<char>)
    ensures
        decoded(encode_utf8(text)) == Some(text),
{
    encode_utf8_valid_utf8(text);
    encode_utf8_decode_utf8(text);
}

/// On a server that keeps one buffer for each selection, a text stored
/// through a context is the text loaded through a context of the same
/// marker. `buffers` is what the server holds before the store.
pub proof fn lemma_round_trip<S: Selection>(
    atoms: Atoms,
    buffers: Map<Atom, Seq<u8>>,
    text: Seq<char>,
)
    ensures
        decoded(buffers.insert(S::selected(atoms), encode_utf8(text))[S::selected(atoms)])
            == Some(text),
{
    lemma_stored_text_loads_back(text);
}

/// The two markers never name one selection, so on a server that keeps one
/// buffer for each selection a store through a context of one marker leaves
/// what a context of the other marker loads as it was. `buffers` is what the
/// server holds before the store, `value` what is stored.
pub proof fn lemma_selections_independent(
    atoms: Atoms,
    buffers: Map<Atom, Seq<u8>>,
    value: Seq<u8>,
)
    requires
        atoms.separate(),
    ensures
        Primary::selected(atoms) != Clipboard::selected(atoms),
        buffers.insert(Primary::selected(atoms), value)[Clipboard::selected(atoms)]
            == buffers[Clipboard::selected(atoms)],
        buffers.insert(Clipboard::selected(atoms), value)[Primary::selected(atoms)]
            == buffers[Primary::selected(atoms)],
{
}

} // verus!
