//! The borrowed copy: the selection is taken by synthesising Ctrl+C into
//! a cleared clipboard and polling until the source app commits it. An
//! empty result is a signal (nothing selected: the press means stop), not
//! an error.

use vstd::prelude::*;

verus! {

/// How long to wait for the source app to commit the copy.
pub const GRAB_PATIENCE_MS: u64 = 400;

/// Pause between clipboard reads while waiting.
pub const GRAB_POLL_MS: u64 = 20;

/// Grace before the user's clipboard is restored.
pub const RESTORE_DELAY_MS: u64 = 150;

/// The grabbed selection and what each step cost, in milliseconds.
#[derive(Clone, Debug, PartialEq, Eq)]
pub struct Grab {
    /// The selection, or empty if nothing was selected.
    pub text: String,
    /// Opening the clipboard and saving the user's old contents.
    pub clipboard_save_ms: u64,
    /// Synthesising Ctrl+C.
    pub copy_ms: u64,
    /// Polling until the source app committed the copy (or gave nothing).
    pub wait_ms: u64,
    pub total_ms: u64,
}

/// Whether to read the clipboard again, `elapsed_ms` into the wait.
pub fn keep_polling(elapsed_ms: u128) -> (again: bool)
    ensures
        again == (elapsed_ms < GRAB_PATIENCE_MS),
{
    elapsed_ms < GRAB_PATIENCE_MS as u128
}

/// A clipboard read counts as the copy only when it holds text; an
/// unreadable or empty clipboard means the copy has not landed yet.
pub fn accept_copy(read: Option<String>) -> (copy: Option<String>)
    ensures
        copy == (match read {
            Some(t) => if t@.len() > 0 { Some(t) } else { None },
            None => None::<String>,
        }),
{
    match read {
        Some(t) => {
            if t.as_str().unicode_len() > 0 {
                Some(t)
            } else {
                None
            }
        },
        None => None,
    }
}

} // verus!
