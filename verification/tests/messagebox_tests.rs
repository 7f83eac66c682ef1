use messagebox::{
    decode_message_box_result, decode_simple_message_box_result, encode_buttons, encode_text,
    find_button, prepare_message_box, prepare_simple_message_box, ButtonData, ClickedButton,
    MessageBoxButtonFlag, MessageBoxColor, MessageBoxColorScheme, MessageBoxFlag, NulError,
    ShowMessageError, MESSAGEBOX_BUTTON_ESCAPEKEY_DEFAULT, MESSAGEBOX_BUTTON_NOTHING,
    MESSAGEBOX_BUTTON_RETURNKEY_DEFAULT, MESSAGEBOX_ERROR, MESSAGEBOX_INFORMATION,
    MESSAGEBOX_WARNING,
};

fn button(id: i32, text: &str) -> ButtonData<'_> {
    ButtonData {
        flags: MessageBoxButtonFlag {
            bits: MESSAGEBOX_BUTTON_NOTHING,
        },
        button_id: id,
        text,
    }
}

#[test]
fn encode_text_round_trips_plain_text() {
    let buf = encode_text("Hello").unwrap();
    assert_eq!(buf, vec![b'H', b'e', b'l', b'l', b'o', 0]);
    assert_eq!(&buf[..buf.len() - 1], "Hello".as_bytes());
}

#[test]
fn encode_text_empty_text_is_just_the_terminator() {
    let buf = encode_text("").unwrap();
    assert_eq!(buf, vec![0u8]);
}

#[test]
fn encode_text_rejects_embedded_nul() {
    let err = encode_text("a\0b").unwrap_err();
    assert_eq!(err, NulError { position: 1 });
    assert_eq!(err.nul_position(), 1);
}

#[test]
fn encode_text_reports_first_of_several_nuls() {
    let err = encode_text("ab\0c\0").unwrap_err();
    assert_eq!(err.nul_position(), 2);
}

#[test]
fn color_scheme_converts_in_fixed_slot_order() {
    let scheme = MessageBoxColorScheme {
        background: (1, 2, 3),
        text: (4, 5, 6),
        button_border: (7, 8, 9),
        button_background: (10, 11, 12),
        button_selected: (13, 14, 15),
    };
    let arr = scheme.to_color_array();
    let expected = [
        MessageBoxColor { r: 1, g: 2, b: 3 },
        MessageBoxColor { r: 4, g: 5, b: 6 },
        MessageBoxColor { r: 7, g: 8, b: 9 },
        MessageBoxColor { r: 10, g: 11, b: 12 },
        MessageBoxColor { r: 13, g: 14, b: 15 },
    ];
    assert_eq!(arr, expected);
}

#[test]
fn prepare_simple_encodes_title_and_message() {
    let flags = MessageBoxFlag {
        bits: MESSAGEBOX_INFORMATION,
    };
    let data = prepare_simple_message_box(flags, "Title", "Body").unwrap();
    assert_eq!(data.flags, MESSAGEBOX_INFORMATION);
    assert_eq!(data.title, b"Title\0".to_vec());
    assert_eq!(data.message, b"Body\0".to_vec());
}

#[test]
fn prepare_simple_rejects_nul_in_title() {
    let flags = MessageBoxFlag {
        bits: MESSAGEBOX_ERROR,
    };
    let err = prepare_simple_message_box(flags, "Ti\0tle", "Body").unwrap_err();
    match err {
        ShowMessageError::InvalidTitle(nul) => assert_eq!(nul.nul_position(), 2),
        other => panic!("expected InvalidTitle, got {:?}", other),
    }
}

#[test]
fn prepare_simple_rejects_nul_in_message_after_valid_title() {
    let flags = MessageBoxFlag {
        bits: MESSAGEBOX_WARNING,
    };
    let err = prepare_simple_message_box(flags, "Title", "\0Body").unwrap_err();
    match err {
        ShowMessageError::InvalidMessage(nul) => assert_eq!(nul.nul_position(), 0),
        other => panic!("expected InvalidMessage, got {:?}", other),
    }
}

#[test]
fn encode_buttons_keeps_order_flags_and_ids() {
    let buttons = [
        ButtonData {
            flags: MessageBoxButtonFlag {
                bits: MESSAGEBOX_BUTTON_RETURNKEY_DEFAULT,
            },
            button_id: 1,
            text: "Yes",
        },
        ButtonData {
            flags: MessageBoxButtonFlag {
                bits: MESSAGEBOX_BUTTON_ESCAPEKEY_DEFAULT,
            },
            button_id: 2,
            text: "No",
        },
    ];
    let enc = encode_buttons(&buttons).unwrap();
    assert_eq!(enc.len(), 2);
    assert_eq!(enc[0].flags, MESSAGEBOX_BUTTON_RETURNKEY_DEFAULT);
    assert_eq!(enc[0].button_id, 1);
    assert_eq!(enc[0].text, b"Yes\0".to_vec());
    assert_eq!(enc[1].flags, MESSAGEBOX_BUTTON_ESCAPEKEY_DEFAULT);
    assert_eq!(enc[1].button_id, 2);
    assert_eq!(enc[1].text, b"No\0".to_vec());
}

#[test]
fn encode_buttons_stops_at_first_invalid_button() {
    let buttons = [button(5, "Ok"), button(7, "Bad\0Text")];
    let err = encode_buttons(&buttons).unwrap_err();
    match err {
        ShowMessageError::InvalidButton(nul, id) => {
            assert_eq!(id, 7);
            assert_eq!(nul.nul_position(), 3);
        }
        other => panic!("expected InvalidButton, got {:?}", other),
    }
}

#[test]
fn prepare_message_box_fails_on_second_button_without_side_effects() {
    let flags = MessageBoxFlag {
        bits: MESSAGEBOX_ERROR,
    };
    let buttons = [button(5, "Ok"), button(7, "Bad\0Text")];
    let err = prepare_message_box(flags, &buttons, "Title", "Body", None).unwrap_err();
    match err {
        ShowMessageError::InvalidButton(nul, id) => {
            assert_eq!(id, 7);
            assert_eq!(nul.nul_position(), 3);
        }
        other => panic!("expected InvalidButton, got {:?}", other),
    }
}

#[test]
fn prepare_message_box_with_empty_buttons_succeeds() {
    let flags = MessageBoxFlag {
        bits: MESSAGEBOX_INFORMATION,
    };
    let buttons: [ButtonData; 0] = [];
    let data = prepare_message_box(flags, &buttons, "Title", "Body", None).unwrap();
    assert_eq!(data.flags, MESSAGEBOX_INFORMATION);
    assert_eq!(data.title, b"Title\0".to_vec());
    assert_eq!(data.message, b"Body\0".to_vec());
    assert!(data.buttons.is_empty());
    assert!(data.color_scheme.is_none());
}

#[test]
fn prepare_message_box_converts_supplied_scheme() {
    let flags = MessageBoxFlag {
        bits: MESSAGEBOX_WARNING,
    };
    let scheme = MessageBoxColorScheme {
        background: (1, 2, 3),
        text: (4, 5, 6),
        button_border: (7, 8, 9),
        button_background: (10, 11, 12),
        button_selected: (13, 14, 15),
    };
    let buttons = [button(1, "Ok")];
    let data = prepare_message_box(flags, &buttons, "T", "M", Some(scheme)).unwrap();
    let arr = data.color_scheme.unwrap();
    assert_eq!(arr[0], MessageBoxColor { r: 1, g: 2, b: 3 });
    assert_eq!(arr[4], MessageBoxColor { r: 13, g: 14, b: 15 });
}

#[test]
fn empty_buttons_decode_only_to_close() {
    let buttons: [ButtonData; 0] = [];
    let clicked = decode_message_box_result(&buttons, 0, -1, String::new()).unwrap();
    assert!(matches!(clicked, ClickedButton::CloseButton));
    assert!(find_button(&buttons, 0).is_none());
}

#[test]
fn reported_id_decodes_to_matching_button() {
    let buttons = [button(10, "First"), button(20, "Second")];

    let clicked = decode_message_box_result(&buttons, 0, 20, String::new()).unwrap();
    match clicked {
        ClickedButton::CustomButton(b) => {
            assert_eq!(b.button_id, 20);
            assert_eq!(b.text, "Second");
        }
        other => panic!("expected CustomButton, got {:?}", other),
    }

    let clicked = decode_message_box_result(&buttons, 0, 10, String::new()).unwrap();
    match clicked {
        ClickedButton::CustomButton(b) => {
            assert_eq!(b.button_id, 10);
            assert_eq!(b.text, "First");
        }
        other => panic!("expected CustomButton, got {:?}", other),
    }

    let clicked = decode_message_box_result(&buttons, 0, -1, String::new()).unwrap();
    assert!(matches!(clicked, ClickedButton::CloseButton));
}

#[test]
fn find_button_returns_first_of_duplicate_ids() {
    let buttons = [button(3, "first"), button(3, "second")];
    let found = find_button(&buttons, 3).unwrap();
    assert_eq!(found.text, "first");
}

#[test]
fn find_button_misses_absent_id() {
    let buttons = [button(1, "Ok"), button(2, "Cancel")];
    assert!(find_button(&buttons, 9).is_none());
}

#[test]
fn nonzero_status_yields_native_failure_with_message() {
    let buttons = [button(1, "Ok")];
    let err =
        decode_message_box_result(&buttons, 1, 0, String::from("native failure")).unwrap_err();
    match err {
        ShowMessageError::SdlError(msg) => {
            assert!(!msg.is_empty());
            assert_eq!(msg, "native failure");
        }
        other => panic!("expected SdlError, got {:?}", other),
    }
}

#[test]
fn simple_decode_maps_status_codes() {
    assert!(decode_simple_message_box_result(0, String::from("ignored")).is_ok());
    let err = decode_simple_message_box_result(-1, String::from("boom")).unwrap_err();
    match err {
        ShowMessageError::SdlError(msg) => assert_eq!(msg, "boom"),
        other => panic!("expected SdlError, got {:?}", other),
    }
}
