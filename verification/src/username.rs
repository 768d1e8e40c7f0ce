//! Validated user-facing names.
//!
//! A username is between 1 and 30 characters, each an ASCII letter, digit,
//! underscore or hyphen. The owned form and the borrowed form share one
//! validity predicate; building either fails with `Error::InvalidUsername`
//! exactly on the strings the predicate rejects.

use vstd::prelude::*;
use vstd::string::StringSliceAdditionalSpecFns;

use crate::error::Error;

verus! {

/// A character allowed in a username: an ASCII letter, digit, '_' or '-'.
pub open spec fn valid_username_char(c: char) -> bool {
    ||| '0' <= c && c <= '9'
    ||| 'A' <= c && c <= 'Z'
    ||| 'a' <= c && c <= 'z'
    ||| c == '_'
    ||| c == '-'
}

/// The username rules: 1 to 30 characters, all from the allowed set.
pub open spec fn spec_valid_username(s: Seq<char>) -> bool {
    &&& 1 <= s.len() <= 30
    &&& forall|i: int| 0 <= i < s.len() ==> valid_username_char(#[trigger] s[i])
}

/// An owned, validated username.
#[derive(Debug)]
pub struct Username {
    name: String,
}

/// A borrowed, validated username.
#[derive(Debug)]
pub struct UsernameRef<'a> {
    name: &'a str,
}

impl View for Username {
    type V = Seq<char>;

    closed spec fn view(&self) -> Seq<char> {
        self.name@
    }
}

impl<'a> View for UsernameRef<'a> {
    type V = Seq<char>;

    closed spec fn view(&self) -> Seq<char> {
        self.name@
    }
}

/// Decides the username rules for an arbitrary string.
fn is_valid(value: &str) -> (b: bool)
    ensures
        b == spec_valid_username(value@),
{
    broadcast use vstd::string::group_string_axioms;

    if !value.is_ascii() {
        assert(!spec_valid_username(value@)) by {
            if spec_valid_username(value@) {
                let i = choose|i: int|
                    0 <= i < value@.len() && !('\0' <= #[trigger] value@[i] <= '\u{7f}');
                assert(valid_username_char(value@[i]));
            }
        }
        return false;
    }
    let n = value.as_bytes().len();
    assert(value.spec_bytes().len() == value@.len());
    if n < 1 || n > 30 {
        return false;
    }
    let mut i: usize = 0;
    while i < n
        invariant
            value.is_ascii(),
            n == value@.len(),
            i <= n,
            forall|j: int| 0 <= j < i ==> valid_username_char(#[trigger] value@[j]),
        decreases n - i,
    {
        let b = value.get_ascii(i);
        assert(value@[i as int] as int == b as int);
        let ok = (48 <= b && b <= 57) || (65 <= b && b <= 90) || (97 <= b && b <= 122) || b == 95
            || b == 45;
        if !ok {
            assert(!valid_username_char(value@[i as int]));
            return false;
        }
        assert(valid_username_char(value@[i as int]));
        i += 1;
    }
    true
}

impl Username {
    /// Validates `value` and wraps it; rejected strings come back inside the error.
    pub fn build(value: String) -> (r: Result<Username, Error>)
        ensures
            r is Ok <==> spec_valid_username(value@),
            r matches Ok(u) ==> u@ == value@,
            r matches Err(e) ==> e matches Error::InvalidUsername(v) && v@ == value@,
    {
        if !is_valid(value.as_str()) {
            return Err(Error::InvalidUsername(value));
        }
        Ok(Username { name: value })
    }

    /// The text of the username.
    pub fn as_str(&self) -> (r: &str)
        ensures
            r@ == self@,
    {
        self.name.as_str()
    }

    /// A borrowed view of the same username.
    pub fn as_ref(&self) -> (r: UsernameRef<'_>)
        ensures
            r@ == self@,
    {
        UsernameRef { name: self.name.as_str() }
    }
}

impl<'a> UsernameRef<'a> {
    /// Validates `value` and borrows it; rejected strings come back (copied) inside the error.
    pub fn build(value: &'a str) -> (r: Result<UsernameRef<'a>, Error>)
        ensures
            r is Ok <==> spec_valid_username(value@),
            r matches Ok(u) ==> u@ == value@,
            r matches Err(e) ==> e matches Error::InvalidUsername(v) && v@ == value@,
    {
        if !is_valid(value) {
            return Err(Error::InvalidUsername(value.to_owned()));
        }
        Ok(UsernameRef { name: value })
    }

    /// The text of the username.
    pub fn as_str(&self) -> (r: &str)
        ensures
            r@ == self@,
    {
        self.name
    }

    /// An owned copy of the same username.
    pub fn to_owned(&self) -> (r: Username)
        ensures
            r@ == self@,
    {
        Username { name: self.name.to_owned() }
    }
}

} // verus!
