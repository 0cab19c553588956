//! Strings that are owned or borrowed.

use vstd::prelude::*;

verus! {

/// A string that is either owned or borrowed.
pub enum OOR<'a> {
    /// A string of its own.
    Owned(String),
    /// A string of somebody else.
    Borrowed(&'a str),
}

impl<'a> View for OOR<'a> {
    type V = Seq<char>;

    open spec fn view(&self) -> Seq<char> {
        match self {
            OOR::Owned(s) => s@,
            OOR::Borrowed(s) => s@,
        }
    }
}

impl<'a> OOR<'a> {
    /// The text, whoever owns it.
    pub fn deref(&self) -> (s: &str)
        ensures
            s@ == self@,
    {
        match self {
            OOR::Owned(s) => s.as_str(),
            OOR::Borrowed(s) => s,
        }
    }

    /// Makes the string its own, by copying it if it was borrowed: what a
    /// string has to be before it is changed.
    pub fn make_owned(&mut self)
        ensures
            *final(self) is Owned,
            final(self)@ == old(self)@,
            *old(self) is Owned ==> *final(self) == *old(self),
    {
        let owned = match self {
            OOR::Owned(_) => None,
            OOR::Borrowed(s) => Some(s.to_owned()),
        };
        match owned {
            Some(s) => {
                *self = OOR::Owned(s);
            },
            None => {},
        }
    }
}

/// A string with blanks around its text.
pub fn ret_string() -> (s: String)
    ensures
        s@ == "  A String object  "@,
{
    "  A String object  ".to_owned()
}

/// One of two strings: the first if `select_s1`, else the second.
pub fn choose_str<'a>(s1: &'a str, s2: &'a str, select_s1: bool) -> (s: &'a str)
    ensures
        s@ == if select_s1 {
            s1@
        } else {
            s2@
        },
{
    if select_s1 {
        s1
    } else {
        s2
    }
}

} // verus!
