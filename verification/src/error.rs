use vstd::prelude::*;
use vstd::string::StringExecFns;

verus! {

/// Every failure the bridge can report, kept typed until the outermost
/// boundary turns it into text.
#[derive(Debug)]
pub enum BridgeError {
    /// The guarded accessor was used while the connection slot was empty.
    NotConnected,
    /// A network-level failure (name lookup, connect, timeout expiry).
    Transport(String),
    /// The catalog answered with a status outside 200..=299.
    HttpStatus(u16),
    /// The bytes were not a supported image.
    DecodeError(String),
    /// Reading or writing a payload failed.
    IoError(String),
    /// The backend answered with something unexpected.
    ProtocolError(String),
    /// A catalog identifier was empty or held a character that could change
    /// the address of the request.
    InvalidIdentifier,
}

/// The character of one decimal digit.
pub open spec fn digit_char(digit: nat) -> char {
    if digit == 0 {
        '0'
    } else if digit == 1 {
        '1'
    } else if digit == 2 {
        '2'
    } else if digit == 3 {
        '3'
    } else if digit == 4 {
        '4'
    } else if digit == 5 {
        '5'
    } else if digit == 6 {
        '6'
    } else if digit == 7 {
        '7'
    } else if digit == 8 {
        '8'
    } else {
        '9'
    }
}

/// A number written in decimal, without leading zeros.
pub open spec fn decimal_text(number: nat) -> Seq<char>
    decreases number,
{
    if number < 10 {
        seq![digit_char(number)]
    } else {
        decimal_text(number / 10).push(digit_char(number % 10))
    }
}

/// The text a caller is shown for an error.
pub open spec fn message_text(error: BridgeError) -> Seq<char> {
    match error {
        BridgeError::NotConnected => "Not connected to the backend service"@,
        BridgeError::Transport(message) => message@,
        BridgeError::HttpStatus(status) => "HTTP error! status: "@ + decimal_text(status as nat),
        BridgeError::DecodeError(message) => message@,
        BridgeError::IoError(message) => message@,
        BridgeError::ProtocolError(message) => message@,
        BridgeError::InvalidIdentifier => "Invalid server identifier"@,
    }
}

fn digit_text(digit: u16) -> (text: &'static str)
    requires
        digit < 10,
    ensures
        text@ == seq![digit_char(digit as nat)],
{
    proof {
        reveal_strlit("0");
        reveal_strlit("1");
        reveal_strlit("2");
        reveal_strlit("3");
        reveal_strlit("4");
        reveal_strlit("5");
        reveal_strlit("6");
        reveal_strlit("7");
        reveal_strlit("8");
        reveal_strlit("9");
    }
    let text = if digit == 0 {
        "0"
    } else if digit == 1 {
        "1"
    } else if digit == 2 {
        "2"
    } else if digit == 3 {
        "3"
    } else if digit == 4 {
        "4"
    } else if digit == 5 {
        "5"
    } else if digit == 6 {
        "6"
    } else if digit == 7 {
        "7"
    } else if digit == 8 {
        "8"
    } else {
        "9"
    };
    assert(text@ =~= seq![digit_char(digit as nat)]);
    text
}

/// Writes a status code in decimal.
pub fn status_text(status: u16) -> (text: String)
    ensures
        text@ == decimal_text(status as nat),
    decreases status,
{
    if status < 10 {
        String::from_str(digit_text(status))
    } else {
        let text = status_text(status / 10).concat(digit_text(status % 10));
        assert(text@ =~= decimal_text(status as nat / 10).push(digit_char(status as nat % 10)));
        text
    }
}

impl BridgeError {
    /// Flattens the error into the one text that crosses the outermost
    /// boundary.
    pub fn message(&self) -> (text: String)
        ensures
            text@ == message_text(*self),
    {
        match self {
            BridgeError::NotConnected => String::from_str("Not connected to the backend service"),
            BridgeError::Transport(message) => message.clone(),
            BridgeError::HttpStatus(status) => String::from_str("HTTP error! status: ").concat(
                status_text(*status).as_str(),
            ),
            BridgeError::DecodeError(message) => message.clone(),
            BridgeError::IoError(message) => message.clone(),
            BridgeError::ProtocolError(message) => message.clone(),
            BridgeError::InvalidIdentifier => String::from_str("Invalid server identifier"),
        }
    }
}

} // verus!
