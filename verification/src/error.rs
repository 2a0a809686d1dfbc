//! Why a risk normalisation gives no result, and the text that reports it.
use vstd::prelude::*;
use vstd::string::StringExecFns;

verus! {

/// Why a risk normalisation gives no result.
#[derive(Clone, Copy, Debug, PartialEq, Eq, Structural)]
pub enum RiskNormalizationError {
    /// The repetition with this index (counted from zero) simulated no equity
    /// path, so it has no return to take the CAR25 from.
    Car25Unavailable { repetition: usize },
}

/// The character of a decimal digit.
pub open spec fn digit_char(d: nat) -> char {
    if d == 0 {
        '0'
    } else if d == 1 {
        '1'
    } else if d == 2 {
        '2'
    } else if d == 3 {
        '3'
    } else if d == 4 {
        '4'
    } else if d == 5 {
        '5'
    } else if d == 6 {
        '6'
    } else if d == 7 {
        '7'
    } else if d == 8 {
        '8'
    } else {
        '9'
    }
}

/// The decimal digits of `n`, most significant first, without leading zeros.
pub open spec fn decimal(n: nat) -> Seq<char>
    decreases n,
{
    if n < 10 {
        seq![digit_char(n)]
    } else {
        decimal(n / 10).push(digit_char(n % 10))
    }
}

/// The text of a digit below ten.
fn digit_str(d: u128) -> (s: &'static str)
    requires
        d < 10,
    ensures
        s@ == seq![digit_char(d as nat)],
{
    proof {
        reveal_strlit("0");
        reveal_strlit("1");
        reveal_strlit("2");
        reveal_strlit("3");
        reveal_strlit("4");
        reveal_strlit("5");
        reveal_strlit("6");
        reveal_strlit("7");
        reveal_strlit("8");
        reveal_strlit("9");
    }
    if d == 0 {
        "0"
    } else if d == 1 {
        "1"
    } else if d == 2 {
        "2"
    } else if d == 3 {
        "3"
    } else if d == 4 {
        "4"
    } else if d == 5 {
        "5"
    } else if d == 6 {
        "6"
    } else if d == 7 {
        "7"
    } else if d == 8 {
        "8"
    } else {
        "9"
    }
}

/// Appends the decimal digits of `n` to `text`.
fn push_decimal(text: &mut String, n: u128)
    ensures
        final(text)@ == old(text)@ + decimal(n as nat),
    decreases n,
{
    if n >= 10 {
        push_decimal(text, n / 10);
    }
    text.append(digit_str(n % 10));
    proof {
        if n >= 10 {
            assert(decimal(n as nat) == decimal((n / 10) as nat).push(digit_char((n % 10) as nat)));
        }
    }
}

impl RiskNormalizationError {
    /// What went wrong, counting repetitions from one.
    pub fn message(&self) -> (m: String)
        ensures
            m@ == (match *self {
                RiskNormalizationError::Car25Unavailable { repetition } =>
                    "Failed to compute CAR25 for repetition "@ + decimal((repetition + 1) as nat),
            }),
    {
        match self {
            RiskNormalizationError::Car25Unavailable { repetition } => {
                let mut text = String::from_str("Failed to compute CAR25 for repetition ");
                push_decimal(&mut text, *repetition as u128 + 1);
                text
            },
        }
    }

    /// The error as it is displayed: its kind, then its message.
    pub fn to_display_string(&self) -> (m: String)
        ensures
            m@ == (match *self {
                RiskNormalizationError::Car25Unavailable { repetition } =>
                    "RiskNormalizationError: "@ + "Failed to compute CAR25 for repetition "@
                        + decimal((repetition + 1) as nat),
            }),
    {
        let mut text = String::from_str("RiskNormalizationError: ");
        let m = self.message();
        text.append(m.as_str());
        text
    }
}

} // verus!
