use vstd::prelude::*;

verus! {

/// Marks a text entry that takes the focus once its window is connected.
#[derive(Debug, Clone, Copy, PartialEq, Eq)]
pub struct FocusOnLaunchCtrl;

impl FocusOnLaunchCtrl {
    pub fn new() -> (r: Self)
        ensures
            r == FocusOnLaunchCtrl,
    {
        FocusOnLaunchCtrl
    }
}

/// A character that may stand in a repository identifier typed by hand:
/// an ASCII digit or letter, `/` or `-`.
pub open spec fn is_id_char_spec(c: char) -> bool {
    ('0' <= c <= '9') || ('a' <= c <= 'z') || ('A' <= c <= 'Z') || c == '/' || c == '-'
}

/// Whether the entry accepts `c` as typed text.
pub fn is_id_char(c: char) -> (r: bool)
    ensures
        r == is_id_char_spec(c),
{
    ('0' <= c && c <= '9') || ('a' <= c && c <= 'z') || ('A' <= c && c <= 'Z') || c == '/'
        || c == '-'
}

} // verus!
