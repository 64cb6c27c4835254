//! The closed vocabulary of status codes carried inside responses.

use vstd::prelude::*;
use vstd::string::*;
use crate::text::same_text;

verus! {

/// Status of a request, as reported to the peer.
#[derive(Clone, Copy, Debug, PartialEq, Eq, Structural)]
pub enum HttpCodes {
    Okay,
    Unauthorized,
    Forbidden,
    NotFound,
    Conflict,
    ImNotATeapot,
}

impl HttpCodes {
    /// The number that stands for this status.
    pub open spec fn number(self) -> int {
        match self {
            HttpCodes::Okay => 200,
            HttpCodes::Unauthorized => 401,
            HttpCodes::Forbidden => 403,
            HttpCodes::NotFound => 404,
            HttpCodes::Conflict => 409,
            HttpCodes::ImNotATeapot => 418,
        }
    }

    /// The status that `n` stands for, if any.
    pub open spec fn of_number(n: int) -> Option<HttpCodes> {
        if n == 200 {
            Some(HttpCodes::Okay)
        } else if n == 401 {
            Some(HttpCodes::Unauthorized)
        } else if n == 403 {
            Some(HttpCodes::Forbidden)
        } else if n == 404 {
            Some(HttpCodes::NotFound)
        } else if n == 409 {
            Some(HttpCodes::Conflict)
        } else if n == 418 {
            Some(HttpCodes::ImNotATeapot)
        } else {
            None
        }
    }

    /// The word that stands for this status on the wire: its own name.
    pub open spec fn name(self) -> Seq<char> {
        match self {
            HttpCodes::Okay => "Ok"@,
            HttpCodes::Unauthorized => "Unauthorized"@,
            HttpCodes::Forbidden => "Forbidden"@,
            HttpCodes::NotFound => "NotFound"@,
            HttpCodes::Conflict => "Conflict"@,
            HttpCodes::ImNotATeapot => "ImNotATeapot"@,
        }
    }

    /// The status that the word `s` stands for, if any.
    pub open spec fn of_name(s: Seq<char>) -> Option<HttpCodes> {
        if s == "Ok"@ {
            Some(HttpCodes::Okay)
        } else if s == "Unauthorized"@ {
            Some(HttpCodes::Unauthorized)
        } else if s == "Forbidden"@ {
            Some(HttpCodes::Forbidden)
        } else if s == "NotFound"@ {
            Some(HttpCodes::NotFound)
        } else if s == "Conflict"@ {
            Some(HttpCodes::Conflict)
        } else if s == "ImNotATeapot"@ {
            Some(HttpCodes::ImNotATeapot)
        } else {
            None
        }
    }

    /// The human-readable phrase of this status.
    pub open spec fn phrase(self) -> Seq<char> {
        match self {
            HttpCodes::Okay => "OK"@,
            HttpCodes::Unauthorized => "Unauthorized"@,
            HttpCodes::Forbidden => "Forbidden"@,
            HttpCodes::NotFound => "Not Found"@,
            HttpCodes::Conflict => "Conflict"@,
            HttpCodes::ImNotATeapot => "I'm not a Teapot"@,
        }
    }

    /// The number of this status.
    pub fn code(&self) -> (n: u32)
        ensures
            n == self.number(),
    {
        match self {
            HttpCodes::Okay => 200,
            HttpCodes::Unauthorized => 401,
            HttpCodes::Forbidden => 403,
            HttpCodes::NotFound => 404,
            HttpCodes::Conflict => 409,
            HttpCodes::ImNotATeapot => 418,
        }
    }

    /// The status with number `n`; `None` for a number outside the vocabulary.
    pub fn from_code(n: u32) -> (r: Option<HttpCodes>)
        ensures
            r == HttpCodes::of_number(n as int),
    {
        if n == 200 {
            Some(HttpCodes::Okay)
        } else if n == 401 {
            Some(HttpCodes::Unauthorized)
        } else if n == 403 {
            Some(HttpCodes::Forbidden)
        } else if n == 404 {
            Some(HttpCodes::NotFound)
        } else if n == 409 {
            Some(HttpCodes::Conflict)
        } else if n == 418 {
            Some(HttpCodes::ImNotATeapot)
        } else {
            None
        }
    }

    /// The word of this status on the wire.
    pub fn wire_name(&self) -> (s: String)
        ensures
            s@ == self.name(),
    {
        match self {
            HttpCodes::Okay => String::from_str("Ok"),
            HttpCodes::Unauthorized => String::from_str("Unauthorized"),
            HttpCodes::Forbidden => String::from_str("Forbidden"),
            HttpCodes::NotFound => String::from_str("NotFound"),
            HttpCodes::Conflict => String::from_str("Conflict"),
            HttpCodes::ImNotATeapot => String::from_str("ImNotATeapot"),
        }
    }

    /// The status that the word `s` stands for; `None` for any other word.
    pub fn from_wire_name(s: &str) -> (r: Option<HttpCodes>)
        ensures
            r == HttpCodes::of_name(s@),
    {
        if same_text(s, "Ok") {
            Some(HttpCodes::Okay)
        } else if same_text(s, "Unauthorized") {
            Some(HttpCodes::Unauthorized)
        } else if same_text(s, "Forbidden") {
            Some(HttpCodes::Forbidden)
        } else if same_text(s, "NotFound") {
            Some(HttpCodes::NotFound)
        } else if same_text(s, "Conflict") {
            Some(HttpCodes::Conflict)
        } else if same_text(s, "ImNotATeapot") {
            Some(HttpCodes::ImNotATeapot)
        } else {
            None
        }
    }

    /// The phrase of this status, as shown to people.
    pub fn to_string(&self) -> (s: String)
        ensures
            s@ == self.phrase(),
    {
        match self {
            HttpCodes::Okay => String::from_str("OK"),
            HttpCodes::Unauthorized => String::from_str("Unauthorized"),
            HttpCodes::Forbidden => String::from_str("Forbidden"),
            HttpCodes::NotFound => String::from_str("Not Found"),
            HttpCodes::Conflict => String::from_str("Conflict"),
            HttpCodes::ImNotATeapot => String::from_str("I'm not a Teapot"),
        }
    }
}

/// Every status is found again from its number, and a number that names a
/// status is the number of that status.
pub proof fn lemma_code_round_trip(c: HttpCodes, n: int)
    ensures
        HttpCodes::of_number(c.number()) == Some(c),
        HttpCodes::of_number(n) matches Some(d) ==> d.number() == n,
{
}

/// Every status is found again from its word.
pub proof fn lemma_code_name_round_trip(c: HttpCodes)
    ensures
        HttpCodes::of_name(c.name()) == Some(c),
{
    reveal_strlit("Ok");
    reveal_strlit("Unauthorized");
    reveal_strlit("Forbidden");
    reveal_strlit("NotFound");
    reveal_strlit("Conflict");
    reveal_strlit("ImNotATeapot");
    assert("Ok"@.len() == 2);
    assert("Unauthorized"@.len() == 12 && "Unauthorized"@[0] == 'U');
    assert("Forbidden"@.len() == 9);
    assert("NotFound"@.len() == 8 && "NotFound"@[0] == 'N');
    assert("Conflict"@.len() == 8 && "Conflict"@[0] == 'C');
    assert("ImNotATeapot"@.len() == 12 && "ImNotATeapot"@[0] == 'I');
}

} // verus!
