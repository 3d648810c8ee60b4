//! The status of an HTTP response, as far as the chat exchange reads it.

use vstd::prelude::*;

verus! {

/// The character that writes the decimal digit `digit`.
pub open spec fn decimal_digit(digit: int) -> char {
    if digit == 0 {
        '0'
    } else if digit == 1 {
        '1'
    } else if digit == 2 {
        '2'
    } else if digit == 3 {
        '3'
    } else if digit == 4 {
        '4'
    } else if digit == 5 {
        '5'
    } else if digit == 6 {
        '6'
    } else if digit == 7 {
        '7'
    } else if digit == 8 {
        '8'
    } else {
        '9'
    }
}

/// The three digits of a status code and the space that follows them in
/// its printed form.
pub open spec fn status_prefix(code: u16) -> Seq<char> {
    seq![
        decimal_digit(code as int / 100),
        decimal_digit((code as int / 10) % 10),
        decimal_digit(code as int % 10),
        ' ',
    ]
}

/// The printed form of the status with number `code`: what
/// `reqwest::StatusCode` writes through `Display`, the number and then the
/// reason phrase that the `http` crate keeps for it.
pub uninterp spec fn status_text(code: u16) -> Seq<char>;

/// Asks `reqwest::StatusCode::is_success` about the status with number
/// `code`. The claim: it answers yes exactly for the numbers from 200 to 299.
#[verifier::external_body]
fn status_is_success(code: u16) -> (success: bool)
    requires
        100 <= code <= 999,
    ensures
        success == (200 <= code < 300),
{
    match reqwest::StatusCode::from_u16(code) {
        Ok(status) => status.is_success(),
        Err(_) => false,
    }
}

/// Prints the status with number `code` as `reqwest::StatusCode` does
/// through `Display`. The claim: the text is a function of the number
/// alone, and it opens with the number's three digits and a space, after
/// which at least one more character stands.
#[verifier::external_body]
fn status_display(code: u16) -> (text: String)
    requires
        100 <= code <= 999,
    ensures
        text@ == status_text(code),
        text@.len() > 4,
        text@.subrange(0, 4) == status_prefix(code),
{
    match reqwest::StatusCode::from_u16(code) {
        Ok(status) => status.to_string(),
        Err(_) => String::new(),
    }
}

/// A status that an HTTP response can carry: a number from 100 to 999.
/// Every value of the type holds such a number.
#[derive(Debug, Clone, Copy)]
pub struct HttpStatus {
    code: u16,
}

impl View for HttpStatus {
    type V = u16;

    closed spec fn view(&self) -> u16 {
        self.code
    }
}

impl HttpStatus {
    #[verifier::type_invariant]
    closed spec fn in_range(&self) -> bool {
        100 <= self.code <= 999
    }

    /// Whether the status reports success.
    pub open spec fn succeeded(&self) -> bool {
        200 <= self@ < 300
    }

    /// The status with number `code`, where there is one.
    pub fn new(code: u16) -> (status: Option<HttpStatus>)
        ensures
            status.is_some() == (100 <= code <= 999),
            status matches Some(made) ==> made@ == code,
    {
        if 100 <= code && code <= 999 {
            Some(HttpStatus { code })
        } else {
            None
        }
    }

    /// The number of the status.
    pub fn code(&self) -> (code: u16)
        ensures
            code == self@,
            100 <= code <= 999,
    {
        proof {
            use_type_invariant(self);
        }
        self.code
    }

    /// Whether the status reports success: a number from 200 to 299.
    pub fn is_success(&self) -> (success: bool)
        ensures
            success == self.succeeded(),
    {
        proof {
            use_type_invariant(self);
        }
        status_is_success(self.code)
    }

    /// The printed form of the status: its number, a space and its reason
    /// phrase.
    pub fn to_text(&self) -> (text: String)
        ensures
            text@ == status_text(self@),
            text@.len() > 4,
            text@.subrange(0, 4) == status_prefix(self@),
    {
        proof {
            use_type_invariant(self);
        }
        status_display(self.code)
    }
}

} // verus!
