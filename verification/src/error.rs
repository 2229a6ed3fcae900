//! The ways linking one image can fail, and the text each failure carries.

use vstd::prelude::*;
use vstd::string::*;

verus! {

/// Why no link could be made for a file.  Every variant keeps the path of
/// the file it is about; the text of the underlying failure is carried as
/// plain text.
#[derive(Debug)]
pub enum Error {
    /// The file could not be opened.
    Open { path: String, message: String },
    /// The metadata block of the file could not be decoded.
    Parse { path: String, message: String },
    /// The metadata holds none of the date fields looked for.
    MissingField { path: String, field: String },
    /// The file is too small to be a full image.
    TooSmall { path: String, len: u64 },
}

/// The decimal digit character for `d`.
pub open spec fn digit_char(d: nat) -> char {
    if d == 0 {
        '0'
    } else if d == 1 {
        '1'
    } else if d == 2 {
        '2'
    } else if d == 3 {
        '3'
    } else if d == 4 {
        '4'
    } else if d == 5 {
        '5'
    } else if d == 6 {
        '6'
    } else if d == 7 {
        '7'
    } else if d == 8 {
        '8'
    } else {
        '9'
    }
}

/// The decimal digits of `n`, most significant first, with no sign and no
/// leading zero except for `n == 0` itself.
pub open spec fn decimal(n: nat) -> Seq<char>
    decreases n,
{
    if n < 10 {
        seq![digit_char(n)]
    } else {
        decimal(n / 10) + seq![digit_char(n % 10)]
    }
}

/// One decimal digit as text.
fn digit_str(d: u64) -> (r: &'static str)
    requires
        d < 10,
    ensures
        r@ == seq![digit_char(d as nat)],
{
    if d == 0 {
        proof {
            reveal_strlit("0");
            assert("0"@ =~= seq!['0']);
        }
        "0"
    } else if d == 1 {
        proof {
            reveal_strlit("1");
            assert("1"@ =~= seq!['1']);
        }
        "1"
    } else if d == 2 {
        proof {
            reveal_strlit("2");
            assert("2"@ =~= seq!['2']);
        }
        "2"
    } else if d == 3 {
        proof {
            reveal_strlit("3");
            assert("3"@ =~= seq!['3']);
        }
        "3"
    } else if d == 4 {
        proof {
            reveal_strlit("4");
            assert("4"@ =~= seq!['4']);
        }
        "4"
    } else if d == 5 {
        proof {
            reveal_strlit("5");
            assert("5"@ =~= seq!['5']);
        }
        "5"
    } else if d == 6 {
        proof {
            reveal_strlit("6");
            assert("6"@ =~= seq!['6']);
        }
        "6"
    } else if d == 7 {
        proof {
            reveal_strlit("7");
            assert("7"@ =~= seq!['7']);
        }
        "7"
    } else if d == 8 {
        proof {
            reveal_strlit("8");
            assert("8"@ =~= seq!['8']);
        }
        "8"
    } else {
        proof {
            reveal_strlit("9");
            assert("9"@ =~= seq!['9']);
        }
        "9"
    }
}

/// Writes `n` in decimal.
pub fn decimal_string(n: u64) -> (r: String)
    ensures
        r@ == decimal(n as nat),
    decreases n,
{
    if n < 10 {
        String::from_str(digit_str(n))
    } else {
        let mut r = decimal_string(n / 10);
        r.append(digit_str(n % 10));
        r
    }
}

/// The text of an error, as it is reported to the user.
pub open spec fn error_text(e: Error) -> Seq<char> {
    match e {
        Error::Open { path, message } => "Could not open input file '"@ + path@ + "': "@
            + message@,
        Error::Parse { path, message } => "Could not parse input file '"@ + path@ + "': "@
            + message@,
        Error::MissingField { path, field } => "missing field in input file '"@ + path@ + "': "@
            + field@,
        Error::TooSmall { path, len } => "file size ("@ + decimal(len as nat)
            + ") is too small (thumbnail?): '"@ + path@ + seq!['\''],
    }
}

impl Error {
    /// Renders the error as one line of text.
    pub fn message(&self) -> (r: String)
        ensures
            r@ == error_text(*self),
    {
        match self {
            Error::Open { path, message } => {
                let mut r = String::from_str("Could not open input file '");
                r.append(path.as_str());
                r.append("': ");
                r.append(message.as_str());
                r
            },
            Error::Parse { path, message } => {
                let mut r = String::from_str("Could not parse input file '");
                r.append(path.as_str());
                r.append("': ");
                r.append(message.as_str());
                r
            },
            Error::MissingField { path, field } => {
                let mut r = String::from_str("missing field in input file '");
                r.append(path.as_str());
                r.append("': ");
                r.append(field.as_str());
                r
            },
            Error::TooSmall { path, len } => {
                let mut r = String::from_str("file size (");
                let d = decimal_string(*len);
                r.append(d.as_str());
                r.append(") is too small (thumbnail?): '");
                r.append(path.as_str());
                r.append("'");
                proof {
                    reveal_strlit("'");
                    assert("'"@ =~= seq!['\'']);
                }
                r
            },
        }
    }
}

} // verus!
