//! Types exchanged with the native shell, and the text handed to its callbacks.
use vstd::prelude::*;
use crate::text::{chars_of, owned};

verus! {

/// Session mode: Hold (long press) or Toggle (tap).
#[derive(Clone, Copy, PartialEq, Eq, Structural, Debug)]
pub enum SPSessionMode {
    Hold,
    Toggle,
}

/// Feedback configuration exposed to the native layer.
#[derive(Clone, Copy, Debug)]
pub struct SPFeedbackConfig {
    pub start_sound: bool,
    pub stop_sound: bool,
    pub error_sound: bool,
}

/// Hotkey configuration exposed to the native layer.
#[derive(Clone, Copy, Debug)]
pub struct SPHotkeyConfig {
    /// Primary key code (e.g. 63 for Fn, 58 for Left Option)
    pub key_code: u16,
    /// Alternative key code (e.g. 179 for the Globe key), 0 if none
    pub alt_key_code: u16,
    /// Modifier flag to check (e.g. 0x800000 for Fn)
    pub modifier_flag: u64,
}

/// The text a callback receives for a message: the message itself, or empty text when
/// it holds a NUL character and so cannot be a C string.
pub open spec fn callback_text(message: Seq<char>) -> Seq<char> {
    if message.contains('\0') {
        Seq::empty()
    } else {
        message
    }
}

/// The text handed to a callback (what `CString::new(..).unwrap_or_default()` keeps).
pub fn c_message(message: &str) -> (r: String)
    ensures
        r@ == callback_text(message@),
{
    let cs = chars_of(message);
    let mut i: usize = 0;
    while i < cs.len()
        invariant
            cs@ == message@,
            i <= cs@.len(),
            forall|k: int| 0 <= k < i ==> cs@[k] != '\0',
        decreases cs@.len() - i,
    {
        if cs[i] == '\0' {
            assert(message@.contains('\0'));
            return String::new();
        }
        i = i + 1;
    }
    owned(message)
}

} // verus!
