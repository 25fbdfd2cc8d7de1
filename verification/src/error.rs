//! What can go wrong when a packet is parsed.

use core::convert::Infallible;
use vstd::prelude::*;
use vstd::string::StringExecFns;

verus! {

/// Why a packet could not be parsed. `T` is what is left of a packet whose extension
/// fields could not be decrypted.
#[derive(Debug)]
pub enum ParsingError<T> {
    InvalidVersion(u8),
    IncorrectLength,
    MalformedNtsExtensionFields,
    MalformedNonce,
    MalformedCookiePlaceholder,
    DecryptError(T),
}

/// A parsing error together with the protocol version of the packet, where that was read
/// before the error came up.
#[derive(Debug)]
pub struct VersionedParsingError<T> {
    pub error: ParsingError<T>,
    pub version: Option<u8>,
}

/// The character that stands for a number below ten.
pub open spec fn digit_text(d: int) -> Seq<char> {
    if d == 0 {
        seq!['0']
    } else if d == 1 {
        seq!['1']
    } else if d == 2 {
        seq!['2']
    } else if d == 3 {
        seq!['3']
    } else if d == 4 {
        seq!['4']
    } else if d == 5 {
        seq!['5']
    } else if d == 6 {
        seq!['6']
    } else if d == 7 {
        seq!['7']
    } else if d == 8 {
        seq!['8']
    } else {
        seq!['9']
    }
}

/// A byte in decimal, without leading zeros.
pub open spec fn decimal_text(v: u8) -> Seq<char> {
    let hundreds = if v >= 100 {
        digit_text(v as int / 100)
    } else {
        Seq::<char>::empty()
    };
    let tens = if v >= 10 {
        digit_text((v as int / 10) % 10)
    } else {
        Seq::<char>::empty()
    };
    hundreds + tens + digit_text(v as int % 10)
}

fn digit(d: u8) -> (r: &'static str)
    requires
        d < 10,
    ensures
        r@ == digit_text(d as int),
{
    proof {
        reveal_strlit("0");
        reveal_strlit("1");
        reveal_strlit("2");
        reveal_strlit("3");
        reveal_strlit("4");
        reveal_strlit("5");
        reveal_strlit("6");
        reveal_strlit("7");
        reveal_strlit("8");
        reveal_strlit("9");
    }
    let r = if d == 0 {
        "0"
    } else if d == 1 {
        "1"
    } else if d == 2 {
        "2"
    } else if d == 3 {
        "3"
    } else if d == 4 {
        "4"
    } else if d == 5 {
        "5"
    } else if d == 6 {
        "6"
    } else if d == 7 {
        "7"
    } else if d == 8 {
        "8"
    } else {
        "9"
    };
    r
}

impl<T> ParsingError<T> {
    /// The same error for packets of another kind; `None` for a decryption error, which
    /// holds a packet.
    pub open spec fn retyped<U>(self) -> Option<ParsingError<U>> {
        match self {
            ParsingError::InvalidVersion(v) => Some(ParsingError::InvalidVersion(v)),
            ParsingError::IncorrectLength => Some(ParsingError::IncorrectLength),
            ParsingError::MalformedNtsExtensionFields => Some(
                ParsingError::MalformedNtsExtensionFields,
            ),
            ParsingError::MalformedNonce => Some(ParsingError::MalformedNonce),
            ParsingError::MalformedCookiePlaceholder => Some(
                ParsingError::MalformedCookiePlaceholder,
            ),
            ParsingError::DecryptError(_) => None,
        }
    }

    /// What the error says to a reader.
    pub open spec fn message_text(self) -> Seq<char> {
        match self {
            ParsingError::InvalidVersion(v) => "Invalid version "@ + decimal_text(v),
            ParsingError::IncorrectLength => "Incorrect packet length"@,
            ParsingError::MalformedNtsExtensionFields => "Malformed nts extension fields"@,
            ParsingError::MalformedNonce => "Malformed nonce (likely invalid length)"@,
            ParsingError::MalformedCookiePlaceholder => "Malformed cookie placeholder"@,
            ParsingError::DecryptError(_) => "Failed to decrypt NTS extension fields"@,
        }
    }

    /// Takes the packet out of a decryption error; any other error comes back as it is.
    pub fn get_decrypt_error<U>(self) -> (r: Result<T, ParsingError<U>>)
        ensures
            match self {
                ParsingError::DecryptError(packet) => r == Ok::<T, ParsingError<U>>(packet),
                _ => r matches Err(e) && Some(e) == self.retyped::<U>(),
            },
    {
        match self {
            ParsingError::InvalidVersion(v) => Err(ParsingError::InvalidVersion(v)),
            ParsingError::IncorrectLength => Err(ParsingError::IncorrectLength),
            ParsingError::MalformedNtsExtensionFields => Err(
                ParsingError::MalformedNtsExtensionFields,
            ),
            ParsingError::MalformedNonce => Err(ParsingError::MalformedNonce),
            ParsingError::MalformedCookiePlaceholder => Err(
                ParsingError::MalformedCookiePlaceholder,
            ),
            ParsingError::DecryptError(decrypt_error) => Ok(decrypt_error),
        }
    }

    pub fn with_version(self, version: u8) -> (r: VersionedParsingError<T>)
        ensures
            r.error == self,
            r.version == Some(version),
    {
        VersionedParsingError { error: self, version: Some(version) }
    }

    pub fn without_version(self) -> (r: VersionedParsingError<T>)
        ensures
            r.error == self,
            r.version is None,
    {
        VersionedParsingError { error: self, version: None }
    }

    /// What the error says to a reader.
    pub fn message(&self) -> (r: String)
        ensures
            r@ == self.message_text(),
    {
        match self {
            ParsingError::InvalidVersion(version) => {
                let v: u8 = *version;
                let mut text = String::from_str("Invalid version ");
                if v >= 100 {
                    text.append(digit(v / 100));
                }
                if v >= 10 {
                    text.append(digit((v / 10) % 10));
                }
                text.append(digit(v % 10));
                text
            },
            ParsingError::IncorrectLength => String::from_str("Incorrect packet length"),
            ParsingError::MalformedNtsExtensionFields => String::from_str(
                "Malformed nts extension fields",
            ),
            ParsingError::MalformedNonce => String::from_str(
                "Malformed nonce (likely invalid length)",
            ),
            ParsingError::MalformedCookiePlaceholder => String::from_str(
                "Malformed cookie placeholder",
            ),
            ParsingError::DecryptError(_) => String::from_str(
                "Failed to decrypt NTS extension fields",
            ),
        }
    }
}

impl ParsingError<Infallible> {
    /// An error of a parser that decrypts nothing, as an error of one that does. Such a
    /// parser has no decryption errors: the packet in one would be a value of a type that
    /// has none.
    pub fn generalize<U>(self) -> (r: ParsingError<U>)
        requires
            !(self is DecryptError),
        ensures
            Some(r) == self.retyped::<U>(),
    {
        match self {
            ParsingError::InvalidVersion(v) => ParsingError::InvalidVersion(v),
            ParsingError::IncorrectLength => ParsingError::IncorrectLength,
            ParsingError::MalformedNtsExtensionFields => ParsingError::MalformedNtsExtensionFields,
            ParsingError::MalformedNonce => ParsingError::MalformedNonce,
            ParsingError::MalformedCookiePlaceholder => ParsingError::MalformedCookiePlaceholder,
            ParsingError::DecryptError(_) => vstd::pervasive::unreached(),
        }
    }

    pub fn generalize_versioned<U>(self, version: u8) -> (r: VersionedParsingError<U>)
        requires
            !(self is DecryptError),
        ensures
            Some(r.error) == self.retyped::<U>(),
            r.version == Some(version),
    {
        self.generalize().with_version(version)
    }
}

impl<T> VersionedParsingError<T> {
    /// What the error says to a reader; the version is not part of it.
    pub fn message(&self) -> (r: String)
        ensures
            r@ == self.error.message_text(),
    {
        self.error.message()
    }
}

impl<T> From<ParsingError<T>> for VersionedParsingError<T> {
    fn from(value: ParsingError<T>) -> (r: Self) {
        value.without_version()
    }
}

impl<T> vstd::std_specs::convert::FromSpecImpl<ParsingError<T>> for VersionedParsingError<T> {
    open spec fn obeys_from_spec() -> bool {
        true
    }

    open spec fn from_spec(value: ParsingError<T>) -> Self {
        VersionedParsingError { error: value, version: None }
    }
}

/// Puts the protocol version to the error of a parsing result.
pub trait ParsingResultExt<T, E> {
    fn with_version(self, version: u8) -> Result<T, VersionedParsingError<E>>;

    fn without_version(self) -> Result<T, VersionedParsingError<E>>;
}

impl<T, E> ParsingResultExt<T, E> for Result<T, ParsingError<E>> {
    fn with_version(self, version: u8) -> (r: Result<T, VersionedParsingError<E>>)
        ensures
            match self {
                Ok(value) => r == Ok::<T, VersionedParsingError<E>>(value),
                Err(e) => r == Err::<T, VersionedParsingError<E>>(
                    VersionedParsingError { error: e, version: Some(version) },
                ),
            },
    {
        match self {
            Ok(res) => Ok(res),
            Err(e) => Err(e.with_version(version)),
        }
    }

    fn without_version(self) -> (r: Result<T, VersionedParsingError<E>>)
        ensures
            match self {
                Ok(value) => r == Ok::<T, VersionedParsingError<E>>(value),
                Err(e) => r == Err::<T, VersionedParsingError<E>>(
                    VersionedParsingError { error: e, version: None },
                ),
            },
    {
        match self {
            Ok(res) => Ok(res),
            Err(e) => Err(e.without_version()),
        }
    }
}

} // verus!
