use bevy_cs_managed::error::Error;
use bevy_cs_managed::handle::{decoded, payload_from, Wrapper};
use bevy_cs_managed::hostfxr::to_char_t;
use bevy_cs_managed::marshal::{nul_terminated, HostCall, HostReply};

#[test]
fn a_terminator_is_appended_where_it_is_missing() {
    assert_eq!(nul_terminated("Player"), "Player\0");
    assert_eq!(nul_terminated("Host, Runtime"), "Host, Runtime\0");
}

#[test]
fn a_terminated_text_stays_as_it_is() {
    assert_eq!(nul_terminated("Player\0"), "Player\0");
    assert_eq!(nul_terminated("\0"), "\0");
}

#[test]
fn the_empty_text_becomes_a_lone_terminator() {
    assert_eq!(nul_terminated(""), "\0");
}

#[test]
fn only_the_end_of_a_text_counts() {
    assert_eq!(nul_terminated("\0Player"), "\0Player\0");
    assert_eq!(nul_terminated("Pla\0yer"), "Pla\0yer\0");
    assert_eq!(nul_terminated("Größe"), "Größe\0");
}

#[test]
fn terminating_twice_changes_nothing() {
    for text in ["", "a", "a\0", "\0\0", "Update"] {
        let once = nul_terminated(text);
        assert_eq!(nul_terminated(&once), once);
        assert!(once.ends_with('\0'));
        assert!(once.starts_with(text));
    }
}

#[test]
fn texts_for_the_shim_are_terminated_too() {
    assert_eq!(to_char_t("Runtime.dll"), "Runtime.dll\0");
    assert_eq!(to_char_t("Runtime.dll\0"), "Runtime.dll\0");
}

#[test]
fn a_fresh_reply_reads_as_nothing() {
    let reply = HostReply::new();
    assert_eq!(reply.status, 0);
    assert_eq!(reply.out, 0);
    assert!(reply.unit().is_ok());
    assert!(reply.unloaded().is_ok());
    assert!(matches!(reply.handle(), Ok(None)));
}

#[test]
fn every_unload_status_but_zero_is_an_error() {
    assert!(HostReply { status: 0, out: 0 }.unloaded().is_ok());
    assert!(HostReply { status: 0, out: 9 }.unloaded().is_ok());
    assert!(matches!(HostReply { status: 9, out: 0 }.unloaded(), Err(Error::PathNotFound)));
    assert!(matches!(HostReply { status: 12, out: 0 }.unloaded(), Err(Error::UnknownManaged)));
    assert!(matches!(HostReply { status: -1, out: 0 }.unloaded(), Err(Error::UnknownManaged)));
    assert!(matches!(
        HostReply { status: i32::MIN, out: 0 }.unloaded(),
        Err(Error::UnknownManaged)
    ));
    assert!(HostReply { status: -1, out: 0 }.unit().is_ok());
}

#[test]
fn a_method_that_is_not_found_is_an_error_of_the_call() {
    assert!(matches!(HostReply { status: 2, out: 0 }.handle(), Err(Error::MethodNotFound)));
    assert!(matches!(HostReply { status: 2, out: 77 }.handle(), Err(Error::MethodNotFound)));
}

#[test]
fn a_reply_is_read_status_first() {
    let failed = HostReply { status: 3, out: 77 };
    assert!(matches!(failed.unit(), Err(Error::FieldNotFound)));
    assert!(matches!(failed.handle(), Err(Error::FieldNotFound)));
    assert!(matches!(failed.flag(), Err(Error::FieldNotFound)));

    let absent = HostReply { status: 0, out: 0 };
    assert!(matches!(absent.handle(), Ok(None)));
    assert!(matches!(absent.flag(), Ok(false)));

    let present = HostReply { status: 0, out: 77 };
    assert!(matches!(present.handle(), Ok(Some(77))));
    assert!(matches!(present.flag(), Ok(false)));

    let yes = HostReply { status: -1, out: 1 };
    assert!(matches!(yes.flag(), Ok(true)));
    assert!(matches!(yes.handle(), Ok(Some(1))));
}

#[test]
fn a_payload_is_bound_with_the_function_that_frees_it() {
    assert!(matches!(payload_from(HostReply { status: 6, out: 500 }, 103), Err(Error::MissingGetter)));
    assert!(matches!(payload_from(HostReply { status: 0, out: 0 }, 103), Ok(None)));
    let payload = payload_from(HostReply { status: 0, out: 500 }, 103).unwrap().unwrap();
    assert_eq!(payload.as_ptr(), 500);
    assert_eq!(payload.release(), HostCall::Free { function: 103, buffer: 500 });
}

#[test]
fn a_decoded_value_is_handed_on_and_a_complaint_becomes_an_error() {
    assert!(matches!(decoded::<u32>(Ok(5)), Ok(Some(5))));
    match decoded::<u32>(Err("expected value".to_string())) {
        Err(Error::Json(text)) => assert_eq!(text, "expected value"),
        other => panic!("unexpected outcome: {:?}", other),
    }
}
