//! Validated value objects for the subscription form: display name and email
//! address.
use crate::text::{char_is_ws, is_ws_char, str_to_chars};
use vstd::prelude::*;
use vstd::string::StringExecFns;

verus! {

/// Characters never accepted in a display name: control of markup or paths.
pub open spec fn is_forbidden_name_char(c: char) -> bool {
    c == '/' || c == '(' || c == ')' || c == '"' || c == '<' || c == '>' || c == '\\' || c == '{'
        || c == '}'
}

/// A display name is accepted when it is at most 256 characters, holds at
/// least one non-blank character, and holds no forbidden character.
pub open spec fn name_valid(s: Seq<char>) -> bool {
    &&& s.len() <= 256
    &&& exists|k: int| 0 <= k < s.len() && !is_ws_char(s[k])
    &&& forall|k: int| 0 <= k < s.len() ==> !is_forbidden_name_char(s[k])
}

/// Position `i` is the single `@` of a well-formed address: non-empty local
/// part before it, and a domain after it that holds a dot strictly inside.
pub open spec fn email_shape_at(s: Seq<char>, i: int) -> bool {
    &&& 0 < i < s.len() - 1
    &&& s[i] == '@'
    &&& forall|k: int| 0 <= k < s.len() && k != i ==> s[k] != '@'
    &&& exists|j: int| i + 1 < j < s.len() - 1 && s[j] == '.'
}

/// An address is accepted when it is non-empty, free of whitespace, and of
/// the shape `local@domain` with a dot strictly inside the domain.
pub open spec fn email_valid(s: Seq<char>) -> bool {
    &&& s.len() > 0
    &&& forall|k: int| 0 <= k < s.len() ==> !is_ws_char(s[k])
    &&& exists|i: int| email_shape_at(s, i)
}

/// A display name that passed validation.
pub struct SubscriberName(String);

/// An email address that passed validation.
pub struct SubscriberEmail(String);

/// A fully validated submission, ready to be recorded.
pub struct NewSubscriber {
    pub name: SubscriberName,
    pub email: SubscriberEmail,
}

impl View for SubscriberName {
    type V = Seq<char>;

    closed spec fn view(&self) -> Seq<char> {
        self.0@
    }
}

impl View for SubscriberEmail {
    type V = Seq<char>;

    closed spec fn view(&self) -> Seq<char> {
        self.0@
    }
}

impl SubscriberName {
    /// Accepts exactly the names that `name_valid` admits.
    pub fn parse(s: String) -> (r: Result<SubscriberName, String>)
        ensures
            match r {
                Ok(n) => name_valid(s@) && n@ == s@,
                Err(_) => !name_valid(s@),
            },
    {
        let chars = str_to_chars(s.as_str());
        if chars.len() > 256 {
            return Err(String::from_str("the subscriber name is longer than 256 characters"));
        }
        let mut has_content = false;
        let mut i: usize = 0;
        while i < chars.len()
            invariant
                i <= chars@.len(),
                chars@ == s@,
                has_content == exists|k: int| 0 <= k < i && !is_ws_char(s@[k]),
                forall|k: int| 0 <= k < i ==> !is_forbidden_name_char(s@[k]),
            decreases chars@.len() - i,
        {
            let c = chars[i];
            if c == '/' || c == '(' || c == ')' || c == '"' || c == '<' || c == '>' || c == '\\'
                || c == '{' || c == '}' {
                return Err(String::from_str("the subscriber name holds a forbidden character"));
            }
            if !char_is_ws(c) {
                has_content = true;
            }
            i = i + 1;
        }
        if !has_content {
            return Err(String::from_str("the subscriber name is empty or blank"));
        }
        Ok(SubscriberName(s))
    }

    /// The validated name.
    pub fn as_str(&self) -> (r: &str)
        ensures
            r@ == self@,
    {
        self.0.as_str()
    }
}

impl SubscriberEmail {
    /// Accepts exactly the addresses that `email_valid` admits.
    pub fn parse(s: String) -> (r: Result<SubscriberEmail, String>)
        ensures
            match r {
                Ok(e) => email_valid(s@) && e@ == s@,
                Err(_) => !email_valid(s@),
            },
    {
        let chars = str_to_chars(s.as_str());
        if chars.len() == 0 {
            return Err(String::from_str("the email address is empty"));
        }
        let mut at: usize = 0;
        let mut seen_at = false;
        let mut i: usize = 0;
        while i < chars.len()
            invariant
                i <= chars@.len(),
                chars@ == s@,
                forall|k: int| 0 <= k < i ==> !is_ws_char(s@[k]),
                seen_at ==> 0 <= at < i && s@[at as int] == '@',
                seen_at ==> forall|k: int| 0 <= k < i && k != at ==> s@[k] != '@',
                !seen_at ==> forall|k: int| 0 <= k < i ==> s@[k] != '@',
            decreases chars@.len() - i,
        {
            let c = chars[i];
            if char_is_ws(c) {
                return Err(String::from_str("the email address holds whitespace"));
            }
            if c == '@' {
                if seen_at {
                    return Err(String::from_str("the email address holds more than one @"));
                }
                at = i;
                seen_at = true;
            }
            i = i + 1;
        }
        if !seen_at {
            return Err(String::from_str("the email address holds no @"));
        }
        if at == 0 {
            return Err(String::from_str("the email address has an empty local part"));
        }
        if chars.len() - at <= 2 {
            return Err(String::from_str("the email address has no usable domain"));
        }
        // Look for a dot strictly inside the domain.
        let mut j: usize = at + 2;
        while j < chars.len() - 1
            invariant
                at + 2 <= j <= chars@.len() - 1,
                chars@ == s@,
                1 <= at,
                at + 3 <= chars@.len(),
                forall|k: int| 0 <= k < s@.len() ==> !is_ws_char(s@[k]),
                s@[at as int] == '@',
                forall|k: int| 0 <= k < s@.len() && k != at ==> s@[k] != '@',
                forall|k: int| at + 1 < k < j ==> s@[k] != '.',
            decreases chars@.len() - j,
        {
            if chars[j] == '.' {
                proof {
                    assert(s@[j as int] == '.');
                    assert(email_shape_at(s@, at as int));
                }
                return Ok(SubscriberEmail(s));
            }
            j = j + 1;
        }
        proof {
            assert forall|i2: int| !email_shape_at(s@, i2) by {
                if email_shape_at(s@, i2) {
                    assert(s@[i2] == '@');
                    assert(i2 == at as int);
                }
            }
        }
        Err(String::from_str("the email domain holds no dot"))
    }

    /// The validated address.
    pub fn as_str(&self) -> (r: &str)
        ensures
            r@ == self@,
    {
        self.0.as_str()
    }

    /// The validated address as an owned-string reference.
    pub fn as_string(&self) -> (r: &String)
        ensures
            r@ == self@,
    {
        &self.0
    }
}

} // verus!
