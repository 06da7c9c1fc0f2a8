use vstd::prelude::*;
use vstd::string::*;

verus! {

/// The one way a name can be refused: it does not fit the name field.
#[derive(Debug, Clone, Copy, PartialEq, Eq, Structural)]
pub enum SchedExtOpsError {
    /// The name has more payload bytes than the field can hold; carries the
    /// rejected length.
    NameTooLong(usize),
}

/// The decimal digit for `d < 10`.
pub open spec fn digit_char(d: nat) -> char {
    if d == 0 { '0' } else if d == 1 { '1' } else if d == 2 { '2' } else if d == 3 { '3' }
    else if d == 4 { '4' } else if d == 5 { '5' } else if d == 6 { '6' } else if d == 7 { '7' }
    else if d == 8 { '8' } else { '9' }
}

/// The decimal notation of `n`, without leading zeros.
pub open spec fn decimal(n: nat) -> Seq<char>
    decreases n,
{
    if n < 10 {
        seq![digit_char(n)]
    } else {
        decimal(n / 10).push(digit_char(n % 10))
    }
}

/// The one-character string of the decimal digit `d`.
fn digit_str(d: usize) -> (r: &'static str)
    requires
        d < 10,
    ensures
        r@ == seq![digit_char(d as nat)],
{
    if d == 0 {
        proof {
            reveal_strlit("0");
        }
        "0"
    } else if d == 1 {
        proof {
            reveal_strlit("1");
        }
        "1"
    } else if d == 2 {
        proof {
            reveal_strlit("2");
        }
        "2"
    } else if d == 3 {
        proof {
            reveal_strlit("3");
        }
        "3"
    } else if d == 4 {
        proof {
            reveal_strlit("4");
        }
        "4"
    } else if d == 5 {
        proof {
            reveal_strlit("5");
        }
        "5"
    } else if d == 6 {
        proof {
            reveal_strlit("6");
        }
        "6"
    } else if d == 7 {
        proof {
            reveal_strlit("7");
        }
        "7"
    } else if d == 8 {
        proof {
            reveal_strlit("8");
        }
        "8"
    } else {
        proof {
            reveal_strlit("9");
        }
        "9"
    }
}

/// The decimal notation of `n`.
fn decimal_text(n: usize) -> (r: String)
    ensures
        r@ == decimal(n as nat),
    decreases n,
{
    if n < 10 {
        String::from_str(digit_str(n))
    } else {
        let mut text = decimal_text(n / 10);
        text.append(digit_str(n % 10));
        text
    }
}

/// Start of the message of `NameTooLong`; the rejected length follows.
pub const TOO_LONG_MESSAGE: &'static str = "name can have at most 127 characters, got ";

impl SchedExtOpsError {
    /// The human-readable message of the error.
    pub fn message(&self) -> (r: String)
        ensures
            match *self {
                SchedExtOpsError::NameTooLong(len) => r@ == TOO_LONG_MESSAGE@ + decimal(len as nat),
            },
    {
        match *self {
            SchedExtOpsError::NameTooLong(len) => {
                let mut text = String::from_str(TOO_LONG_MESSAGE);
                let digits = decimal_text(len);
                text.append(digits.as_str());
                text
            },
        }
    }
}

} // verus!
