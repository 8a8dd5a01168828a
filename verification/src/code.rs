//! The status codes carried in response envelopes.
use vstd::prelude::*;
use vstd::string::*;

verus! {

/// A status code.
#[derive(Copy, Clone, Debug, PartialEq, Eq, Structural)]
pub enum Code {
    /// The request was received and handled.
    Success,
    /// The request could not be understood.
    BadRequest,
    /// The client has not authenticated.
    Unauthorized,
    /// The client may not access the content.
    Forbidden,
    /// The resource was not found.
    NotFound,
    /// The method is not allowed.
    MethodNotAllowed,
    /// Too many requests: the flow is limited.
    TooManyRequests,
    /// The token or application key is wrong.
    IdentifyError,
    /// The authentication has expired.
    IdentifyExpired,
    /// The signature of the request did not verify.
    SignError,
    /// The server met an error.
    InternalServerError,
    /// The uploaded file is larger than allowed.
    FileTooLarge,
    /// A required header is missing.
    MissingHeader,
    /// A required parameter is missing.
    MissingParam,
    /// A parameter is not legal.
    IllegalParam,
}

impl Code {
    /// The number of the code.
    pub open spec fn value(self) -> i32 {
        match self {
            Code::Success => 200,
            Code::BadRequest => 400,
            Code::Unauthorized => 401,
            Code::Forbidden => 403,
            Code::NotFound => 404,
            Code::MethodNotAllowed => 405,
            Code::TooManyRequests => 429,
            Code::IdentifyError => 430,
            Code::IdentifyExpired => 431,
            Code::SignError => 432,
            Code::InternalServerError => 500,
            Code::FileTooLarge => 800,
            Code::MissingHeader => 900,
            Code::MissingParam => 901,
            Code::IllegalParam => 902,
        }
    }

    /// The number of the code.
    pub fn as_i32(&self) -> (n: i32)
        ensures
            n == self.value(),
            100 <= n <= 999,
    {
        match self {
            Code::Success => 200,
            Code::BadRequest => 400,
            Code::Unauthorized => 401,
            Code::Forbidden => 403,
            Code::NotFound => 404,
            Code::MethodNotAllowed => 405,
            Code::TooManyRequests => 429,
            Code::IdentifyError => 430,
            Code::IdentifyExpired => 431,
            Code::SignError => 432,
            Code::InternalServerError => 500,
            Code::FileTooLarge => 800,
            Code::MissingHeader => 900,
            Code::MissingParam => 901,
            Code::IllegalParam => 902,
        }
    }

    /// The three decimal digits of the code's number.
    pub open spec fn text(self) -> Seq<char> {
        let n = self.value() as int;
        seq![decimal_digit(n / 100), decimal_digit((n / 10) % 10), decimal_digit(n % 10)]
    }

    /// The number of the code in decimal.
    pub fn to_string(&self) -> (s: String)
        ensures
            s@ == self.text(),
    {
        let n = self.as_i32();
        let mut s = String::new();
        s.push(digit_char((n / 100) as u8));
        s.push(digit_char(((n / 10) % 10) as u8));
        s.push(digit_char((n % 10) as u8));
        proof {
            assert(s@ =~= self.text());
        }
        s
    }
}

/// The character of a decimal digit.
pub open spec fn decimal_digit(d: int) -> char
    recommends
        0 <= d <= 9,
{
    ((d + 48) as u8) as char
}

fn digit_char(d: u8) -> (c: char)
    requires
        d <= 9,
    ensures
        c == decimal_digit(d as int),
{
    (d + 48) as char
}

} // verus!
