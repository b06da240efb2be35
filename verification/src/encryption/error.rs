use vstd::prelude::*;
use vstd::string::StringExecFns;

verus! {

/// Errors of the cryptographic operations.
#[derive(Debug, PartialEq, Eq, Structural)]
pub enum CryptoError {
    /// Decrypted bytes are not valid UTF-8 text.
    InvalidUtf8,
    /// Authentication or decryption failed: wrong key, wrong password, or
    /// tampered ciphertext, which are deliberately not told apart.
    AesDecryptionFailed,
    /// The bytes are too few to hold a nonce and an authentication tag.
    InvalidAesBytesTooShort { expected_at_least: usize, found: usize },
}

/// The result of a cryptographic operation.
pub type CryptoResult<T, E = CryptoError> = core::result::Result<T, E>;

/// The character that stands for the decimal digit `d`.
pub open spec fn digit_char(d: nat) -> char {
    if d == 0 {
        '0'
    } else if d == 1 {
        '1'
    } else if d == 2 {
        '2'
    } else if d == 3 {
        '3'
    } else if d == 4 {
        '4'
    } else if d == 5 {
        '5'
    } else if d == 6 {
        '6'
    } else if d == 7 {
        '7'
    } else if d == 8 {
        '8'
    } else {
        '9'
    }
}

/// The decimal numeral of `n`, without leading zeros.
pub open spec fn decimal(n: nat) -> Seq<char>
    decreases n,
{
    if n < 10 {
        seq![digit_char(n)]
    } else {
        decimal(n / 10).push(digit_char(n % 10))
    }
}

fn digit_str(d: usize) -> (r: &'static str)
    requires
        d < 10,
    ensures
        r@ == seq![digit_char(d as nat)],
{
    proof {
        reveal_strlit("0");
        reveal_strlit("1");
        reveal_strlit("2");
        reveal_strlit("3");
        reveal_strlit("4");
        reveal_strlit("5");
        reveal_strlit("6");
        reveal_strlit("7");
        reveal_strlit("8");
        reveal_strlit("9");
    }
    let r = if d == 0 {
        "0"
    } else if d == 1 {
        "1"
    } else if d == 2 {
        "2"
    } else if d == 3 {
        "3"
    } else if d == 4 {
        "4"
    } else if d == 5 {
        "5"
    } else if d == 6 {
        "6"
    } else if d == 7 {
        "7"
    } else if d == 8 {
        "8"
    } else {
        "9"
    };
    assert(r@ =~= seq![digit_char(d as nat)]);
    r
}

/// Writes `n` as a decimal numeral.
pub fn decimal_string(n: usize) -> (s: String)
    ensures
        s@ == decimal(n as nat),
    decreases n,
{
    if n < 10 {
        String::from_str(digit_str(n))
    } else {
        let mut s = decimal_string(n / 10);
        s.append(digit_str(n % 10));
        assert(s@ =~= decimal(n as nat));
        s
    }
}

impl Clone for CryptoError {
    fn clone(&self) -> (copy: Self)
        ensures
            copy == *self,
    {
        match self {
            CryptoError::InvalidUtf8 => CryptoError::InvalidUtf8,
            CryptoError::AesDecryptionFailed => CryptoError::AesDecryptionFailed,
            CryptoError::InvalidAesBytesTooShort { expected_at_least, found } => {
                CryptoError::InvalidAesBytesTooShort {
                    expected_at_least: *expected_at_least,
                    found: *found,
                }
            },
        }
    }
}

impl CryptoError {
    /// The error for a failed decryption, whatever the underlying cause was.
    pub fn aes_decryption_failed<D: core::fmt::Debug>(_error: D) -> (e: Self)
        ensures
            e == CryptoError::AesDecryptionFailed,
    {
        CryptoError::AesDecryptionFailed
    }

    /// The text of the message that describes this error.
    pub open spec fn message(&self) -> Seq<char> {
        match *self {
            CryptoError::InvalidUtf8 => "Failed to parse string into a valid UTF-8 string"@,
            CryptoError::AesDecryptionFailed => "Failed to decrypt data with AES"@,
            CryptoError::InvalidAesBytesTooShort { expected_at_least, found } => {
                "Invalid AES bytes, expected at least "@ + decimal(expected_at_least as nat)
                    + " bytes, but found "@ + decimal(found as nat) + " bytes"@
            },
        }
    }

    /// Renders the message of this error.
    pub fn to_string(&self) -> (s: String)
        ensures
            s@ == self.message(),
    {
        match self {
            CryptoError::InvalidUtf8 => String::from_str(
                "Failed to parse string into a valid UTF-8 string",
            ),
            CryptoError::AesDecryptionFailed => String::from_str("Failed to decrypt data with AES"),
            CryptoError::InvalidAesBytesTooShort { expected_at_least, found } => {
                let mut s = String::from_str("Invalid AES bytes, expected at least ");
                let expected = decimal_string(*expected_at_least);
                s.append(expected.as_str());
                s.append(" bytes, but found ");
                let actual = decimal_string(*found);
                s.append(actual.as_str());
                s.append(" bytes");
                s
            },
        }
    }
}

} // verus!
