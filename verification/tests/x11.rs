use clipboard::x11_clipboard::{
    Atoms, Clipboard, Primary, Selection, X11ClipboardContext, X11Error, LOAD_TIMEOUT_SECS,
};
use clipboard::ProviderError;
use x11_clipboard::error::Error as ProtocolError;

fn atoms() -> Atoms {
    Atoms {
        primary: 1,
        clipboard: 69,
        property: 70,
        targets: 71,
        string: 31,
        utf8_string: 72,
        incr: 73,
    }
}

fn context<S: Selection>() -> X11ClipboardContext<u32, S> {
    X11ClipboardContext::new(Ok(5)).unwrap()
}

#[test]
fn markers_pick_their_atoms() {
    assert_eq!(Primary::atom(&atoms()), 1);
    assert_eq!(Clipboard::atom(&atoms()), 69);
}

#[test]
fn context_holds_the_connection_that_was_opened() {
    let ctx: X11ClipboardContext<u32> = X11ClipboardContext::new(Ok(5)).unwrap();
    assert_eq!(*ctx.connection(), 5);
}

#[test]
fn failed_connection_makes_no_context() {
    let made: clipboard::Result<X11ClipboardContext<u32>> =
        X11ClipboardContext::new(Err(ProtocolError::Lock));
    assert!(matches!(
        made,
        Err(ProviderError::X11Error(X11Error::ClipboardError(ProtocolError::Lock)))
    ));
}

#[test]
fn load_asks_for_utf8_text_of_the_marked_selection() {
    let request = context::<Clipboard>().load_request(&atoms());
    assert_eq!(request.selection, 69);
    assert_eq!(request.target, 72);
    assert_eq!(request.property, 70);
    assert_eq!(request.timeout_secs, 3);
    assert_eq!(LOAD_TIMEOUT_SECS, 3);

    let request = context::<Primary>().load_request(&atoms());
    assert_eq!(request.selection, 1);
    assert_eq!(request.target, 72);
    assert_eq!(request.property, 70);
    assert_eq!(request.timeout_secs, 3);
}

#[test]
fn store_offers_the_bytes_of_the_text() {
    let request = context::<Clipboard>().store_request(&atoms(), "h\u{e9}llo".to_owned());
    assert_eq!(request.selection, 69);
    assert_eq!(request.target, 72);
    assert_eq!(request.value, vec![0x68, 0xc3, 0xa9, 0x6c, 0x6c, 0x6f]);

    let request = context::<Primary>().store_request(&atoms(), String::new());
    assert_eq!(request.selection, 1);
    assert_eq!(request.target, 72);
    assert!(request.value.is_empty());
}

#[test]
fn loaded_bytes_are_decoded() {
    let mut ctx = context::<Clipboard>();
    let loaded = vec![0x68, 0xc3, 0xa9, 0x6c, 0x6c, 0x6f];
    assert_eq!(ctx.get_contents(Ok(loaded)).unwrap(), "h\u{e9}llo");
    assert_eq!(ctx.get_contents(Ok(Vec::new())).unwrap(), "");
    assert_eq!(*ctx.connection(), 5);
}

#[test]
fn bytes_that_are_no_utf8_fail_as_a_decoding_error() {
    let mut ctx = context::<Clipboard>();
    for loaded in [vec![0xff], vec![0x68, 0xc3], vec![0xed, 0xa0, 0x80], vec![0xc0, 0x80]] {
        match ctx.get_contents(Ok(loaded.clone())) {
            Err(ProviderError::X11Error(X11Error::FromUtf8Error(e))) => {
                assert_eq!(e.into_bytes(), loaded);
            }
            other => panic!("unexpected outcome: {:?}", other),
        }
    }
}

#[test]
fn failed_load_stays_a_protocol_error() {
    let mut ctx = context::<Clipboard>();
    assert!(matches!(
        ctx.get_contents(Err(ProtocolError::Timeout)),
        Err(ProviderError::X11Error(X11Error::ClipboardError(ProtocolError::Timeout)))
    ));
    assert!(matches!(
        ctx.get_contents(Err(ProtocolError::UnexpectedType(31))),
        Err(ProviderError::X11Error(X11Error::ClipboardError(
            ProtocolError::UnexpectedType(31)
        )))
    ));
}

#[test]
fn store_outcome_is_passed_on() {
    let mut ctx = context::<Primary>();
    assert!(ctx.set_contents(Ok(())).is_ok());
    assert!(matches!(
        ctx.set_contents(Err(ProtocolError::Owner)),
        Err(ProviderError::X11Error(X11Error::ClipboardError(ProtocolError::Owner)))
    ));
}

#[test]
fn x11_errors_show_the_message_inside() {
    let e = X11Error::ClipboardError(ProtocolError::Timeout);
    assert_eq!(e.to_string(), "Selection timed out");
    let e = ProviderError::X11Error(X11Error::ClipboardError(ProtocolError::Owner));
    assert_eq!(e.to_string(), "Failed to set new owner of XCB selection");

    let undecoded = String::from_utf8(vec![0x68, 0xff]).unwrap_err();
    let expected = format!("{}", undecoded);
    assert_eq!(expected, "invalid utf-8 sequence of 1 bytes from index 1");
    assert_eq!(X11Error::FromUtf8Error(undecoded.clone()).to_string(), expected);
    assert_eq!(
        ProviderError::X11Error(X11Error::FromUtf8Error(undecoded)).to_string(),
        expected
    );
}

#[test]
fn x11_errors_convert() {
    let undecoded = String::from_utf8(vec![0xff]).unwrap_err();
    let e: X11Error = undecoded.clone().into();
    assert!(matches!(e, X11Error::FromUtf8Error(_)));
    let e: ProviderError = e.into();
    assert!(matches!(e, ProviderError::X11Error(X11Error::FromUtf8Error(_))));
    let e: ProviderError = undecoded.into();
    assert!(matches!(e, ProviderError::X11Error(X11Error::FromUtf8Error(_))));

    let e: X11Error = ProtocolError::Timeout.into();
    assert!(matches!(e, X11Error::ClipboardError(ProtocolError::Timeout)));
    let e: ProviderError = ProtocolError::Timeout.into();
    assert!(matches!(
        e,
        ProviderError::X11Error(X11Error::ClipboardError(ProtocolError::Timeout))
    ));
}
