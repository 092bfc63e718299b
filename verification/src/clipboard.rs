//! The text a widget pastes: what the clipboard read gives the interface.
use vstd::prelude::*;

verus! {

/// What reading the clipboard as text gave.
#[derive(Debug)]
pub enum ClipboardRead {
    /// The clipboard held this text.
    Text(String),
    /// There is no seat to read the clipboard of.
    NoSeats,
    /// The clipboard is empty.
    ClipboardEmpty,
    /// The clipboard holds nothing that reads as text.
    NoMimeType,
    /// Reading the clipboard failed otherwise.
    Failed,
}

/// The text pasted into a widget: the clipboard's text; an empty text when
/// there is no seat, nothing in the clipboard or nothing that reads as
/// text; nothing when reading failed otherwise.
pub fn pasted_text(read: ClipboardRead) -> (r: Option<String>)
    ensures
        match read {
            ClipboardRead::Text(t) => r matches Some(s) && s@ == t@,
            ClipboardRead::Failed => r is None,
            _ => r matches Some(s) && s@ == Seq::<char>::empty(),
        },
{
    match read {
        ClipboardRead::Text(t) => Some(t),
        ClipboardRead::NoSeats | ClipboardRead::ClipboardEmpty | ClipboardRead::NoMimeType => {
            Some(String::new())
        },
        ClipboardRead::Failed => None,
    }
}

} // verus!
