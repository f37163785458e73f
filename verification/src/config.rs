//! The settings of a run and the checks that its arguments must pass.

use crate::text::chars_of;
use vstd::prelude::*;
use vstd::string::*;

verus! {

/// The settings of a run.
#[derive(Debug, PartialEq, Eq)]
pub struct Config {
    /// The identifier of the allow-list to keep in step.
    pub prefix_list_id: String,
    /// The description that marks the entries that this tool manages.
    pub description: String,
    /// Whether to log at debug level.
    pub verbose: bool,
    /// Whether to remove the owned entries and leave.
    pub cleanup: bool,
    /// The seconds between two checks of the public address.
    pub interval: u64,
}

/// Why an argument was rejected.
#[derive(Debug, PartialEq, Eq)]
pub enum ConfigError {
    MalformedSG,
    MalformedInstance,
    MalformedProtocol,
    MalformedIP(String),
    MalformedPort(String),
    IncorrectPortRange(String),
}

/// The mathematical value of a [`ConfigError`].
pub enum ConfigErrorView {
    MalformedSG,
    MalformedInstance,
    MalformedProtocol,
    MalformedIP(Seq<char>),
    MalformedPort(Seq<char>),
    IncorrectPortRange(Seq<char>),
}

impl View for ConfigError {
    type V = ConfigErrorView;

    open spec fn view(&self) -> ConfigErrorView {
        match *self {
            ConfigError::MalformedSG => ConfigErrorView::MalformedSG,
            ConfigError::MalformedInstance => ConfigErrorView::MalformedInstance,
            ConfigError::MalformedProtocol => ConfigErrorView::MalformedProtocol,
            ConfigError::MalformedIP(cause) => ConfigErrorView::MalformedIP(cause@),
            ConfigError::MalformedPort(cause) => ConfigErrorView::MalformedPort(cause@),
            ConfigError::IncorrectPortRange(cause) => ConfigErrorView::IncorrectPortRange(cause@),
        }
    }
}

/// The text shown for each error.
pub open spec fn config_message(e: ConfigErrorView) -> Seq<char> {
    match e {
        ConfigErrorView::MalformedInstance => "Wrong instance id format"@,
        ConfigErrorView::MalformedSG => "Wrong security group id format"@,
        ConfigErrorView::MalformedProtocol => "Wrong protocol"@,
        ConfigErrorView::MalformedIP(cause) => "Failed to parse IP address: "@ + cause,
        ConfigErrorView::MalformedPort(cause) => "Failed to parse port number: "@ + cause,
        ConfigErrorView::IncorrectPortRange(cause) => "Incorrect port range: "@ + cause,
    }
}

impl ConfigError {
    /// The text shown for the error.
    pub fn message(&self) -> (text: String)
        ensures
            text@ == config_message(self@),
    {
        match self {
            ConfigError::MalformedInstance => "Wrong instance id format".to_owned(),
            ConfigError::MalformedSG => "Wrong security group id format".to_owned(),
            ConfigError::MalformedProtocol => "Wrong protocol".to_owned(),
            ConfigError::MalformedIP(cause) => {
                let mut text = "Failed to parse IP address: ".to_owned();
                text.append(cause.as_str());
                text
            },
            ConfigError::MalformedPort(cause) => {
                let mut text = "Failed to parse port number: ".to_owned();
                text.append(cause.as_str());
                text
            },
            ConfigError::IncorrectPortRange(cause) => {
                let mut text = "Incorrect port range: ".to_owned();
                text.append(cause.as_str());
                text
            },
        }
    }
}

/// The pattern of an allow-list identifier: `pl-` and 8 or 17 letters or digits.
pub const PREFIX_LIST_PATTERN: &'static str = "\\A(?i:pl-([[:alnum:]]{8}|[[:alnum:]]{17}))\\z";

/// The pattern of a description: up to 255 characters that are letters, digits, or
/// between the space and the underscore.
pub const DESCRIPTION_PATTERN: &'static str = "\\A(?i:([[:alnum:]]|[ -_]){0, 255})\\z";

/// Whether the `regex` crate finds a match of `pattern` in `text`; `None` where it
/// rejects the pattern.
pub uninterp spec fn regex_is_match(pattern: Seq<char>, text: Seq<char>) -> Option<bool>;

/// `regex::Regex::new` and `Regex::is_match`: whether the compiled pattern matches
/// anywhere in the text, `None` where the pattern does not compile.
#[verifier::external_body]
fn regex_match(pattern: &str, text: &str) -> (r: Option<bool>)
    ensures
        r == regex_is_match(pattern@, text@),
{
    regex::Regex::new(pattern).ok().map(|re| re.is_match(text))
}

/// The verdict on an argument, given whether its pattern matched.
pub open spec fn verdict_of_match(matched: Option<bool>, complaint: Seq<char>) -> Result<
    (),
    Seq<char>,
> {
    if matched == Some(true) {
        Ok(())
    } else {
        Err(complaint)
    }
}

/// The view of a verdict.
pub open spec fn verdict_view(r: Result<(), String>) -> Result<(), Seq<char>> {
    match r {
        Ok(()) => Ok(()),
        Err(complaint) => Err(complaint@),
    }
}

/// Accepts an argument whose pattern matched and rejects any other with `complaint`.
pub fn verdict_on_match(matched: Option<bool>, complaint: &str) -> (r: Result<(), String>)
    ensures
        verdict_view(r) == verdict_of_match(matched, complaint@),
{
    match matched {
        Some(true) => Ok(()),
        _ => Err(complaint.to_owned()),
    }
}

/// Checks the identifier of an allow-list.
pub fn check_prefix_list_format(pl: &str) -> (r: Result<(), String>)
    ensures
        verdict_view(r) == verdict_of_match(
            regex_is_match(PREFIX_LIST_PATTERN@, pl@),
            "the expected format is 'pl-1234567890abcdef0'"@,
        ),
{
    verdict_on_match(
        regex_match(PREFIX_LIST_PATTERN, pl),
        "the expected format is 'pl-1234567890abcdef0'",
    )
}

/// Checks the description that marks owned entries.
pub fn check_description(desc: &str) -> (r: Result<(), String>)
    ensures
        verdict_view(r) == verdict_of_match(
            regex_is_match(DESCRIPTION_PATTERN@, desc@),
            "must contain up to 255 alphanumeric characters"@,
        ),
{
    verdict_on_match(
        regex_match(DESCRIPTION_PATTERN, desc),
        "must contain up to 255 alphanumeric characters",
    )
}

/// Why a text is not a number of seconds.
#[derive(Clone, Copy, Debug, PartialEq, Eq, Structural)]
pub enum IntervalError {
    /// The text is empty.
    Empty,
    /// The text holds something that is no decimal digit.
    InvalidDigit,
    /// The number does not fit 64 bits.
    TooLarge,
    /// The number is zero.
    TooSmall,
}

/// Whether a character is a decimal digit.
pub open spec fn is_digit(c: char) -> bool {
    '0' <= c && c <= '9'
}

/// The value of a decimal digit.
pub open spec fn digit_value(c: char) -> nat {
    (c as u8 - 48) as nat
}

/// The number that a run of digits writes, read from the left. Reading stops at the
/// first character that is no digit, and at the first digit with which the number no
/// longer fits 64 bits.
pub open spec fn read_digits(digits: Seq<char>) -> Result<nat, IntervalError>
    decreases digits.len(),
{
    if digits.len() == 0 {
        Ok(0)
    } else {
        match read_digits(digits.drop_last()) {
            Err(e) => Err(e),
            Ok(value) => if !is_digit(digits.last()) {
                Err(IntervalError::InvalidDigit)
            } else if value * 10 + digit_value(digits.last()) > u64::MAX {
                Err(IntervalError::TooLarge)
            } else {
                Ok(value * 10 + digit_value(digits.last()))
            },
        }
    }
}

/// The digits of a number's text: the text without a leading plus sign.
pub open spec fn unsigned_part(text: Seq<char>) -> Seq<char> {
    if text.len() > 0 && text[0] == '+' {
        text.skip(1)
    } else {
        text
    }
}

/// The number that a text writes: an optional plus sign, then decimal digits only.
pub open spec fn number_of(text: Seq<char>) -> Result<nat, IntervalError> {
    if text.len() == 0 {
        Err(IntervalError::Empty)
    } else if unsigned_part(text).len() == 0 {
        Err(IntervalError::InvalidDigit)
    } else {
        read_digits(unsigned_part(text))
    }
}

/// The interval that a text names: a number of at least one.
pub open spec fn interval_of(text: Seq<char>) -> Result<nat, IntervalError> {
    match number_of(text) {
        Ok(value) => if value < 1 {
            Err(IntervalError::TooSmall)
        } else {
            Ok(value)
        },
        Err(e) => Err(e),
    }
}

/// The text shown for each error.
pub open spec fn interval_message(e: IntervalError) -> Seq<char> {
    match e {
        IntervalError::Empty => "cannot parse integer from empty string"@,
        IntervalError::InvalidDigit => "invalid digit found in string"@,
        IntervalError::TooLarge => "number too large to fit in target type"@,
        IntervalError::TooSmall => "Interval should be at least one second"@,
    }
}

/// A failure on a digit stays a failure however many characters follow.
pub proof fn lemma_read_digits_err(digits: Seq<char>, n: int)
    requires
        0 <= n <= digits.len(),
        read_digits(digits.take(n)) is Err,
    ensures
        read_digits(digits) == read_digits(digits.take(n)),
    decreases digits.len() - n,
{
    if n < digits.len() {
        assert(digits.take(n + 1).drop_last() =~= digits.take(n));
        lemma_read_digits_err(digits, n + 1);
    } else {
        assert(digits.take(n) =~= digits);
    }
}

impl IntervalError {
    /// The text shown for the error.
    pub fn message(&self) -> (text: String)
        ensures
            text@ == interval_message(*self),
    {
        match self {
            IntervalError::Empty => "cannot parse integer from empty string".to_owned(),
            IntervalError::InvalidDigit => "invalid digit found in string".to_owned(),
            IntervalError::TooLarge => "number too large to fit in target type".to_owned(),
            IntervalError::TooSmall => "Interval should be at least one second".to_owned(),
        }
    }
}

/// The views of a parsed number.
pub open spec fn number_view(r: Result<u64, IntervalError>) -> Result<nat, IntervalError> {
    match r {
        Ok(value) => Ok(value as nat),
        Err(e) => Err(e),
    }
}

/// Reads a number of seconds: an optional plus sign and decimal digits.
pub fn parse_number(value: &str) -> (r: Result<u64, IntervalError>)
    ensures
        number_view(r) == number_of(value@),
{
    let chars = chars_of(value);
    if chars.len() == 0 {
        return Err(IntervalError::Empty);
    }
    let start: usize = if chars[0] == '+' {
        1
    } else {
        0
    };
    let ghost digits = unsigned_part(value@);
    assert(digits =~= chars@.skip(start as int));
    if start == chars.len() {
        return Err(IntervalError::InvalidDigit);
    }
    let mut total: u64 = 0;
    let mut i: usize = start;
    assert(digits.take(0) =~= Seq::<char>::empty());
    while i < chars.len()
        invariant
            start <= i <= chars.len(),
            start < chars.len(),
            chars@ == value@,
            digits == unsigned_part(value@),
            digits == chars@.skip(start as int),
            read_digits(digits.take(i - start)) == Ok::<nat, IntervalError>(total as nat),
        decreases chars.len() - i,
    {
        let c = chars[i];
        proof {
            assert(digits.take(i - start + 1).drop_last() =~= digits.take(i - start));
            assert(digits.take(i - start + 1).last() == c);
        }
        if !(c >= '0' && c <= '9') {
            proof {
                lemma_read_digits_err(digits, i - start + 1);
            }
            return Err(IntervalError::InvalidDigit);
        }
        let d: u64 = (c as u8 - 48) as u64;
        let next = match total.checked_mul(10) {
            Some(tens) => tens.checked_add(d),
            None => None,
        };
        match next {
            Some(n) => {
                total = n;
            },
            None => {
                proof {
                    lemma_read_digits_err(digits, i - start + 1);
                }
                return Err(IntervalError::TooLarge);
            },
        }
        i += 1;
    }
    assert(digits.take(i - start) =~= digits);
    Ok(total)
}

/// Reads the interval between two checks: a number of seconds, at least one.
pub fn parse_interval(value: &str) -> (r: Result<u64, IntervalError>)
    ensures
        number_view(r) == interval_of(value@),
{
    match parse_number(value) {
        Ok(seconds) => if seconds < 1 {
            Err(IntervalError::TooSmall)
        } else {
            Ok(seconds)
        },
        Err(e) => Err(e),
    }
}

/// Checks the interval between two checks of the public address: it must be a number of
/// seconds, at least one. The complaint says what is wrong.
pub fn check_interval(value: &str) -> (r: Result<(), String>)
    ensures
        match interval_of(value@) {
            Ok(_) => r is Ok,
            Err(e) => r matches Err(complaint) && complaint@ == interval_message(e),
        },
{
    match parse_interval(value) {
        Ok(_) => Ok(()),
        Err(e) => Err(e.message()),
    }
}

} // verus!
