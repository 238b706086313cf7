//! Account addresses.

use vstd::prelude::*;

verus! {

/// The textual address of an account.
///
/// The store makes no assumption about the text: any string names an account,
/// and two addresses name the same account exactly when their texts agree.
#[derive(Debug, PartialEq, Eq)]
pub struct Addr {
    text: String,
}

impl View for Addr {
    type V = Seq<char>;

    closed spec fn view(&self) -> Seq<char> {
        self.text@
    }
}

impl Addr {
    /// Makes an address from its text, which is taken as it is.
    pub fn unchecked(input: &str) -> (address: Addr)
        ensures
            address@ == input@,
    {
        Addr { text: input.to_owned() }
    }

    /// The text of the address.
    pub fn as_str(&self) -> (text: &str)
        ensures
            text@ == self@,
    {
        self.text.as_str()
    }

    /// The text of the address in UTF-8.
    pub fn as_bytes(&self) -> (bytes: &[u8])
        ensures
            bytes@ == vstd::utf8::encode_utf8(self@),
    {
        self.text.as_str().as_bytes()
    }

    /// Gives up the address for its text.
    pub fn into_string(self) -> (text: String)
        ensures
            text@ == self@,
    {
        self.text
    }
}

impl Clone for Addr {
    fn clone(&self) -> (copy: Addr)
        ensures
            copy@ == self@,
    {
        Addr { text: self.text.clone() }
    }
}

} // verus!
