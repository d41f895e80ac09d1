//! Text that is handed to the component.

use vstd::prelude::*;

verus! {

/// Whether `text` can cross the boundary as a null-terminated string, which
/// is the case if it holds no null character itself.
pub open spec fn is_c_string(text: Seq<char>) -> bool {
    forall|i: int| 0 <= i < text.len() ==> text[i] != '\0'
}

/// Text that can cross the boundary as a null-terminated string.
#[derive(Debug, Clone, Copy)]
pub struct CText<'a> {
    text: &'a str,
}

impl<'a> View for CText<'a> {
    type V = Seq<char>;

    closed spec fn view(&self) -> Seq<char> {
        self.text@
    }
}

impl<'a> CText<'a> {
    #[verifier::type_invariant]
    spec fn holds_no_null(self) -> bool {
        is_c_string(self.text@)
    }

    /// Accepts `text` unless it holds a null character.
    pub fn new(text: &'a str) -> (checked: Option<CText<'a>>)
        ensures
            checked is Some <==> is_c_string(text@),
            checked matches Some(c) ==> c@ == text@,
    {
        for c in chars: text.chars()
            invariant
                chars.seq() == text@,
                forall|i: int| 0 <= i < chars.index() ==> text@[i] != '\0',
        {
            if c == '\0' {
                return None;
            }
        }
        Some(CText { text })
    }

    /// The text, which holds no null character.
    pub fn as_str(&self) -> (text: &'a str)
        ensures
            text@ == self@,
            is_c_string(text@),
    {
        proof {
            use_type_invariant(&*self);
        }
        self.text
    }
}

} // verus!
