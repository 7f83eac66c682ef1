//! A safe interface over a native windowing library's message-box subsystem.
//!
//! The native layer speaks in flat, pointer-based records: zero-terminated
//! byte buffers for text, a descriptor per custom button, and a fixed
//! five-slot color array. Everything this crate can decide locally is done
//! here and verified: encoding text into zero-terminated buffers (rejecting
//! embedded zero bytes), assembling the per-button descriptors, converting a
//! color scheme into the foreign slot order, and decoding the status code and
//! reported button id that come back. The single blocking foreign invocation
//! itself, which these values are marshaled for, lives outside this crate.

use vstd::prelude::*;
use vstd::slice::{slice_index_get, slice_to_vec};
use vstd::string::StringSliceAdditionalSpecFns;

verus! {

/// True when the byte sequence holds a zero byte somewhere.
pub open spec fn has_nul_byte(bytes: Seq<u8>) -> bool {
    exists|i: int| 0 <= i < bytes.len() && bytes[i] == 0
}

/// True when `pos` is the position of the first zero byte in `bytes`.
pub open spec fn first_nul_at(bytes: Seq<u8>, pos: int) -> bool {
    &&& 0 <= pos < bytes.len()
    &&& bytes[pos] == 0
    &&& forall|j: int| 0 <= j < pos ==> bytes[j] != 0
}

/// The error returned when text handed to [`encode_text`] holds an embedded
/// zero byte and so cannot be represented as a zero-terminated buffer.
#[derive(Clone, Copy, Debug, PartialEq, Eq, Structural)]
pub struct NulError {
    /// Byte offset of the first embedded zero byte in the rejected text.
    pub position: usize,
}

impl NulError {
    /// Byte offset of the first embedded zero byte in the rejected text.
    pub fn nul_position(&self) -> (r: usize)
        ensures
            r == self.position,
    {
        self.position
    }
}

/// Encode text as a zero-terminated byte buffer: the text's bytes unchanged,
/// with a single zero byte appended. Fails, reporting the offset of the first
/// offender, exactly when the text already holds a zero byte.
pub fn encode_text(text: &str) -> (r: Result<Vec<u8>, NulError>)
    ensures
        r is Ok <==> !has_nul_byte(text.spec_bytes()),
        match r {
            Ok(buf) => buf@ == text.spec_bytes().push(0u8),
            Err(e) => first_nul_at(text.spec_bytes(), e.position as int),
        },
{
    let bytes: &[u8] = text.as_bytes();
    let n: usize = bytes.len();
    let mut i: usize = 0;
    while i < n
        invariant
            n == bytes@.len(),
            i <= n,
            bytes@ == text.spec_bytes(),
            forall|j: int| 0 <= j < i ==> bytes@[j] != 0,
        decreases n - i,
    {
        if *slice_index_get(bytes, i) == 0 {
            return Err(NulError { position: i });
        }
        i = i + 1;
    }
    let mut buf = slice_to_vec(bytes);
    buf.push(0u8);
    Ok(buf)
}

/// Severity bits for a message box; see the `MESSAGEBOX_*` constants. The
/// set is passed through unchanged to the native layer.
#[derive(Clone, Copy, Debug, PartialEq, Eq, Structural)]
pub struct MessageBoxFlag {
    pub bits: u32,
}

/// Severity bit: error box.
pub const MESSAGEBOX_ERROR: u32 = 0x10;

/// Severity bit: warning box.
pub const MESSAGEBOX_WARNING: u32 = 0x20;

/// Severity bit: informational box.
pub const MESSAGEBOX_INFORMATION: u32 = 0x40;

/// Behaviour bits for one custom button; see the `MESSAGEBOX_BUTTON_*`
/// constants. The set is passed through unchanged to the native layer.
#[derive(Clone, Copy, Debug, PartialEq, Eq, Structural)]
pub struct MessageBoxButtonFlag {
    pub bits: u32,
}

/// Button bit: the button is triggered when the return key is pressed.
pub const MESSAGEBOX_BUTTON_RETURNKEY_DEFAULT: u32 = 0x1;

/// Button bit: the button is triggered when the escape key is pressed.
pub const MESSAGEBOX_BUTTON_ESCAPEKEY_DEFAULT: u32 = 0x2;

/// Button bits: no special behaviour.
pub const MESSAGEBOX_BUTTON_NOTHING: u32 = 0x0;

/// One RGB entry of the five-slot foreign color array.
#[derive(Clone, Copy, Debug, PartialEq, Eq, Structural)]
pub struct MessageBoxColor {
    pub r: u8,
    pub g: u8,
    pub b: u8,
}

/// The color entry for an `(r, g, b)` triple.
pub open spec fn color_of(t: (u8, u8, u8)) -> MessageBoxColor {
    MessageBoxColor { r: t.0, g: t.1, b: t.2 }
}

/// An optional color scheme for a customizable message box: five RGB
/// triples, one per themed element.
#[derive(Clone, Copy, Debug)]
pub struct MessageBoxColorScheme {
    pub background: (u8, u8, u8),
    pub text: (u8, u8, u8),
    pub button_border: (u8, u8, u8),
    pub button_background: (u8, u8, u8),
    pub button_selected: (u8, u8, u8),
}

/// The five-slot foreign color array a scheme converts to, in the fixed
/// order the native layer expects: background, text, button border, button
/// background, button selected-background.
pub open spec fn scheme_colors(s: MessageBoxColorScheme) -> Seq<MessageBoxColor> {
    seq![
        color_of(s.background),
        color_of(s.text),
        color_of(s.button_border),
        color_of(s.button_background),
        color_of(s.button_selected),
    ]
}

impl MessageBoxColorScheme {
    /// Convert the scheme into the five-slot foreign color array. Total and
    /// order-preserving: slot by slot, exactly [`scheme_colors`].
    pub fn to_color_array(&self) -> (r: [MessageBoxColor; 5])
        ensures
            r@ == scheme_colors(*self),
    {
        let arr: [MessageBoxColor; 5] = [
            MessageBoxColor { r: self.background.0, g: self.background.1, b: self.background.2 },
            MessageBoxColor { r: self.text.0, g: self.text.1, b: self.text.2 },
            MessageBoxColor {
                r: self.button_border.0,
                g: self.button_border.1,
                b: self.button_border.2,
            },
            MessageBoxColor {
                r: self.button_background.0,
                g: self.button_background.1,
                b: self.button_background.2,
            },
            MessageBoxColor {
                r: self.button_selected.0,
                g: self.button_selected.1,
                b: self.button_selected.2,
            },
        ];
        proof {
            assert(arr@ =~= scheme_colors(*self));
        }
        arr
    }
}

/// One custom button. `button_id` is the integer the native layer reports
/// back when the button is clicked; it is opaque to this crate and should be
/// unique among the caller's own buttons. The id `-1` is reserved by the
/// native layer to mean the close button and should not be assigned here.
#[derive(Clone, Copy, Debug)]
pub struct ButtonData<'a> {
    pub flags: MessageBoxButtonFlag,
    pub button_id: i32,
    pub text: &'a str,
}

/// The outcome of a successful customizable message-box call: either the
/// box was dismissed, or one of the caller's own buttons was clicked.
#[derive(Clone, Copy, Debug)]
pub enum ClickedButton<'a> {
    CloseButton,
    CustomButton(&'a ButtonData<'a>),
}

/// Why a message-box call failed: an embedded zero byte in the title, the
/// message, or a button's text (each detected locally, before any foreign
/// call), or a nonzero status from the native layer, carrying the windowing
/// library's current error string.
#[derive(Debug)]
pub enum ShowMessageError {
    InvalidTitle(NulError),
    InvalidMessage(NulError),
    /// The second field is the `button_id` of the first button whose text
    /// could not be encoded.
    InvalidButton(NulError, i32),
    SdlError(String),
}

/// One assembled foreign-compatible button descriptor: the button's flag
/// bits, its caller-chosen id, and the owned zero-terminated text buffer the
/// native record will point into. The buffer must stay alive until the
/// foreign call returns.
#[derive(Debug)]
pub struct EncodedButton {
    pub flags: u32,
    pub button_id: i32,
    pub text: Vec<u8>,
}

/// True when `k` is the index of the first button whose text cannot be
/// encoded as a zero-terminated buffer.
pub open spec fn first_invalid_button(buttons: Seq<ButtonData>, k: int) -> bool {
    &&& 0 <= k < buttons.len()
    &&& has_nul_byte(buttons[k].text.spec_bytes())
    &&& forall|j: int| 0 <= j < k ==> !has_nul_byte(#[trigger] buttons[j].text.spec_bytes())
}

/// True when `enc` is exactly the encoded form of `buttons`: one descriptor
/// per button, in order, carrying the same flag bits and id and the button's
/// text as a zero-terminated buffer.
pub open spec fn buttons_encoded(buttons: Seq<ButtonData>, enc: Seq<EncodedButton>) -> bool {
    &&& enc.len() == buttons.len()
    &&& forall|j: int| 0 <= j < buttons.len() ==> {
        &&& !has_nul_byte(#[trigger] buttons[j].text.spec_bytes())
        &&& enc[j].flags == buttons[j].flags.bits
        &&& enc[j].button_id == buttons[j].button_id
        &&& enc[j].text@ == buttons[j].text.spec_bytes().push(0u8)
    }
}

/// Encode every button's text as a zero-terminated buffer, pairing it with
/// the button's flag bits and id. Stops at the first button whose text holds
/// an embedded zero byte and reports that button's id; later buttons are not
/// examined.
pub fn encode_buttons(buttons: &[ButtonData]) -> (r: Result<Vec<EncodedButton>, ShowMessageError>)
    ensures
        r is Ok <==> !exists|k: int| #[trigger] first_invalid_button(buttons@, k),
        match r {
            Ok(enc) => buttons_encoded(buttons@, enc@),
            Err(e) => match e {
                ShowMessageError::InvalidButton(nul, id) => exists|k: int|
                    {
                        &&& #[trigger] first_invalid_button(buttons@, k)
                        &&& first_nul_at(buttons@[k].text.spec_bytes(), nul.position as int)
                        &&& id == buttons@[k].button_id
                    },
                _ => false,
            },
        },
{
    let n: usize = buttons.len();
    let mut enc: Vec<EncodedButton> = Vec::new();
    let mut i: usize = 0;
    while i < n
        invariant
            n == buttons@.len(),
            i <= n,
            enc@.len() == i,
            forall|j: int| 0 <= j < i ==> {
                &&& !has_nul_byte(#[trigger] buttons@[j].text.spec_bytes())
                &&& enc@[j].flags == buttons@[j].flags.bits
                &&& enc@[j].button_id == buttons@[j].button_id
                &&& enc@[j].text@ == buttons@[j].text.spec_bytes().push(0u8)
            },
        decreases n - i,
    {
        let b = slice_index_get(buttons, i);
        match encode_text(b.text) {
            Ok(buf) => {
                enc.push(EncodedButton { flags: b.flags.bits, button_id: b.button_id, text: buf });
            },
            Err(e) => {
                proof {
                    assert(first_invalid_button(buttons@, i as int));
                }
                return Err(ShowMessageError::InvalidButton(e, b.button_id));
            },
        }
        i = i + 1;
    }
    proof {
        assert(forall|k: int| !first_invalid_button(buttons@, k)) by {
            assert forall|k: int| !first_invalid_button(buttons@, k) by {
                if 0 <= k < buttons@.len() {
                    assert(!has_nul_byte(buttons@[k].text.spec_bytes()));
                }
            }
        }
    }
    Ok(enc)
}

/// Everything the native simple-message-box call needs, with the title and
/// message already encoded as zero-terminated buffers. The buffers must stay
/// alive until the foreign call returns.
#[derive(Debug)]
pub struct SimpleMessageBoxData {
    pub flags: u32,
    pub title: Vec<u8>,
    pub message: Vec<u8>,
}

/// Everything the native customizable message-box call needs: flag bits,
/// encoded title and message, one descriptor per button, and the converted
/// color scheme if one was supplied. All owned buffers must stay alive until
/// the foreign call returns.
#[derive(Debug)]
pub struct MessageBoxData {
    pub flags: u32,
    pub title: Vec<u8>,
    pub message: Vec<u8>,
    pub buttons: Vec<EncodedButton>,
    pub color_scheme: Option<[MessageBoxColor; 5]>,
}

/// Build the payload of a simple message-box call: encode the title and the
/// message as zero-terminated buffers, failing with `InvalidTitle` or
/// `InvalidMessage` (in that order of checking) on an embedded zero byte.
/// No foreign work happens here; on failure nothing is handed on.
pub fn prepare_simple_message_box(flags: MessageBoxFlag, title: &str, message: &str) -> (r: Result<
    SimpleMessageBoxData,
    ShowMessageError,
>)
    ensures
        r is Ok <==> !has_nul_byte(title.spec_bytes()) && !has_nul_byte(message.spec_bytes()),
        match r {
            Ok(d) => {
                &&& d.flags == flags.bits
                &&& d.title@ == title.spec_bytes().push(0u8)
                &&& d.message@ == message.spec_bytes().push(0u8)
            },
            Err(e) => match e {
                ShowMessageError::InvalidTitle(nul) => first_nul_at(
                    title.spec_bytes(),
                    nul.position as int,
                ),
                ShowMessageError::InvalidMessage(nul) => {
                    &&& !has_nul_byte(title.spec_bytes())
                    &&& first_nul_at(message.spec_bytes(), nul.position as int)
                },
                _ => false,
            },
        },
{
    let title_buf = match encode_text(title) {
        Ok(buf) => buf,
        Err(e) => {
            return Err(ShowMessageError::InvalidTitle(e));
        },
    };
    let message_buf = match encode_text(message) {
        Ok(buf) => buf,
        Err(e) => {
            return Err(ShowMessageError::InvalidMessage(e));
        },
    };
    Ok(SimpleMessageBoxData { flags: flags.bits, title: title_buf, message: message_buf })
}

/// Build the payload of a customizable message-box call: encode the title,
/// then the message, then every button's text (stopping at the first button
/// that fails), and convert the color scheme if one was supplied. No foreign
/// work happens here; on failure nothing is handed on.
pub fn prepare_message_box(
    flags: MessageBoxFlag,
    buttons: &[ButtonData],
    title: &str,
    message: &str,
    scheme: Option<MessageBoxColorScheme>,
) -> (r: Result<MessageBoxData, ShowMessageError>)
    ensures
        r is Ok <==> {
            &&& !has_nul_byte(title.spec_bytes())
            &&& !has_nul_byte(message.spec_bytes())
            &&& !exists|k: int| #[trigger] first_invalid_button(buttons@, k)
        },
        match r {
            Ok(d) => {
                &&& d.flags == flags.bits
                &&& d.title@ == title.spec_bytes().push(0u8)
                &&& d.message@ == message.spec_bytes().push(0u8)
                &&& buttons_encoded(buttons@, d.buttons@)
                &&& match scheme {
                    Some(s) => match d.color_scheme {
                        Some(arr) => arr@ == scheme_colors(s),
                        None => false,
                    },
                    None => d.color_scheme is None,
                }
            },
            Err(e) => match e {
                ShowMessageError::InvalidTitle(nul) => first_nul_at(
                    title.spec_bytes(),
                    nul.position as int,
                ),
                ShowMessageError::InvalidMessage(nul) => {
                    &&& !has_nul_byte(title.spec_bytes())
                    &&& first_nul_at(message.spec_bytes(), nul.position as int)
                },
                ShowMessageError::InvalidButton(nul, id) => {
                    &&& !has_nul_byte(title.spec_bytes())
                    &&& !has_nul_byte(message.spec_bytes())
                    &&& exists|k: int|
                        {
                            &&& #[trigger] first_invalid_button(buttons@, k)
                            &&& first_nul_at(buttons@[k].text.spec_bytes(), nul.position as int)
                            &&& id == buttons@[k].button_id
                        }
                },
                _ => false,
            },
        },
{
    let title_buf = match encode_text(title) {
        Ok(buf) => buf,
        Err(e) => {
            return Err(ShowMessageError::InvalidTitle(e));
        },
    };
    let message_buf = match encode_text(message) {
        Ok(buf) => buf,
        Err(e) => {
            return Err(ShowMessageError::InvalidMessage(e));
        },
    };
    let encoded_buttons = match encode_buttons(buttons) {
        Ok(enc) => enc,
        Err(e) => {
            return Err(e);
        },
    };
    let color_scheme = match scheme {
        Some(s) => Some(s.to_color_array()),
        None => None,
    };
    Ok(
        MessageBoxData {
            flags: flags.bits,
            title: title_buf,
            message: message_buf,
            buttons: encoded_buttons,
            color_scheme,
        },
    )
}

/// True when some button in the sequence carries the id.
pub open spec fn has_button(buttons: Seq<ButtonData>, id: i32) -> bool {
    exists|k: int| 0 <= k < buttons.len() && (#[trigger] buttons[k].button_id) == id
}

/// True when `k` is the index of the first button carrying the id — the one
/// a linear scan finds.
pub open spec fn button_match_at(buttons: Seq<ButtonData>, id: i32, k: int) -> bool {
    &&& 0 <= k < buttons.len()
    &&& buttons[k].button_id == id
    &&& forall|j: int| 0 <= j < k ==> (#[trigger] buttons[j].button_id) != id
}

/// Linear scan for the first button carrying the given id.
pub fn find_button<'a>(buttons: &'a [ButtonData<'a>], id: i32) -> (r: Option<&'a ButtonData<'a>>)
    ensures
        match r {
            Some(b) => exists|k: int| #[trigger] button_match_at(buttons@, id, k) && *b == buttons@[k],
            None => !has_button(buttons@, id),
        },
{
    let n: usize = buttons.len();
    let mut i: usize = 0;
    while i < n
        invariant
            n == buttons@.len(),
            i <= n,
            forall|j: int| 0 <= j < i ==> (#[trigger] buttons@[j].button_id) != id,
        decreases n - i,
    {
        let b = slice_index_get(buttons, i);
        if b.button_id == id {
            proof {
                assert(button_match_at(buttons@, id, i as int));
            }
            return Some(b);
        }
        i = i + 1;
    }
    None
}

/// Decode the outcome of the native simple-message-box call: a zero status
/// is success, and any other status is a native-layer failure carrying the
/// windowing library's current error string.
pub fn decode_simple_message_box_result(status: i32, error_message: String) -> (r: Result<
    (),
    ShowMessageError,
>)
    ensures
        status == 0 ==> r == Result::<(), ShowMessageError>::Ok(()),
        status != 0 ==> r == Result::<(), ShowMessageError>::Err(
            ShowMessageError::SdlError(error_message),
        ),
{
    if status == 0 {
        Ok(())
    } else {
        Err(ShowMessageError::SdlError(error_message))
    }
}

/// Decode the outcome of the native customizable message-box call. A nonzero
/// status is a native-layer failure carrying the windowing library's current
/// error string. On a zero status, a reported id of `-1` means the close
/// button; any other id is looked up by linear scan over the input buttons
/// and must belong to one of them — the native layer reporting an unknown id
/// would break its contract, so that case is excluded here and callers must
/// check for it first (with [`find_button`]).
pub fn decode_message_box_result<'a>(
    buttons: &'a [ButtonData<'a>],
    status: i32,
    clicked_id: i32,
    error_message: String,
) -> (r: Result<ClickedButton<'a>, ShowMessageError>)
    requires
        status == 0 && clicked_id != -1 ==> has_button(buttons@, clicked_id),
    ensures
        status != 0 ==> r == Result::<ClickedButton<'a>, ShowMessageError>::Err(
            ShowMessageError::SdlError(error_message),
        ),
        status == 0 && clicked_id == -1 ==> r == Result::<ClickedButton<'a>, ShowMessageError>::Ok(
            ClickedButton::CloseButton,
        ),
        status == 0 && clicked_id != -1 ==> match r {
            Ok(c) => match c {
                ClickedButton::CustomButton(b) => exists|k: int|
                    #[trigger] button_match_at(buttons@, clicked_id, k) && *b == buttons@[k],
                _ => false,
            },
            _ => false,
        },
{
    if status != 0 {
        return Err(ShowMessageError::SdlError(error_message));
    }
    if clicked_id == -1 {
        return Ok(ClickedButton::CloseButton);
    }
    match find_button(buttons, clicked_id) {
        Some(b) => Ok(ClickedButton::CustomButton(b)),
        None => {
            proof {
                assert(false);
            }
            vstd::pervasive::unreached()
        },
    }
}

/// An empty button sequence always encodes — no button can fail — and
/// carries no id, so a successful native status can only ever decode to the
/// close button: only the reported id `-1` satisfies the decoder's
/// precondition, and that id decodes to [`ClickedButton::CloseButton`].
pub proof fn lemma_empty_buttons_close_only(buttons: Seq<ButtonData>, id: i32)
    requires
        buttons.len() == 0,
    ensures
        !exists|k: int| #[trigger] first_invalid_button(buttons, k),
        !has_button(buttons, id),
{
}

/// A text without an embedded zero byte encodes, and the encoding round-trips
/// the exact bytes: dropping the appended terminator gives the text's bytes
/// back unchanged.
pub proof fn lemma_encoding_round_trip(bytes: Seq<u8>, buf: Seq<u8>)
    requires
        !has_nul_byte(bytes),
        buf == bytes.push(0u8),
    ensures
        buf.len() == bytes.len() + 1,
        buf.subrange(0, buf.len() - 1) == bytes,
        buf[buf.len() - 1] == 0u8,
{
    assert(buf.subrange(0, buf.len() - 1) =~= bytes);
}

} // verus!
