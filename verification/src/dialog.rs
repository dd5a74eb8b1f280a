//! Message boxes.

use vstd::prelude::*;
use vstd::std_specs::convert::FromSpecImpl;

verus! {

/// A message for the user: its text, and whether it is still to be shown.
/// The flag is cleared when the user dismisses the message.
#[derive(Clone, Debug)]
pub struct Dialog(pub String, pub bool);

impl From<String> for Dialog {
    /// A message that is still to be shown.
    fn from(value: String) -> (dialog: Dialog) {
        Dialog(value, true)
    }
}

impl FromSpecImpl<String> for Dialog {
    open spec fn obeys_from_spec() -> bool {
        true
    }

    open spec fn from_spec(value: String) -> Dialog {
        Dialog(value, true)
    }
}

impl<'a> From<&'a str> for Dialog {
    /// A message that is still to be shown.
    fn from(value: &'a str) -> (dialog: Dialog)
        ensures
            dialog.0@ == value@,
            dialog.1,
    {
        Dialog(value.to_owned(), true)
    }
}

/// No spec function can build a `String`, so this states nothing: what
/// `from` returns is stated on `from` itself.
impl<'a> FromSpecImpl<&'a str> for Dialog {
    open spec fn obeys_from_spec() -> bool {
        false
    }

    open spec fn from_spec(value: &'a str) -> Dialog {
        arbitrary()
    }
}

} // verus!
