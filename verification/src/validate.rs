//! The checks that a command's arguments pass before anything else is done.

use vstd::prelude::*;
use crate::hex::{hex_to_rgb, parse_hex, HexError};
use crate::swatch::COLOR_ROLE_NAME_MAX_WIDTH;

verus! {

/// Why a command's arguments were turned down.
#[derive(Clone, Copy, Debug, PartialEq, Eq, Structural)]
pub enum ValidationError {
    /// An argument is missing, or the label is empty.
    UsageError,
    /// The label has more characters than the swatch has room for.
    LabelTooLong,
    /// The hex code was turned down.
    Hex(HexError),
}

/// A colour that passed the checks of `color add`.
#[derive(Clone, Debug, PartialEq, Eq)]
pub struct NewColor {
    pub label: String,
    pub hexcode: String,
    /// The value of `hexcode`.
    pub rgb: u64,
}

/// The characters of an argument that may be missing.
pub open spec fn text_of(arg: Option<&str>) -> Option<Seq<char>> {
    match arg {
        Some(s) => Some(s@),
        None => None,
    }
}

/// The check on a label: it is there, it is not empty, and it has at most
/// twenty characters.
pub open spec fn check_label(label: Option<Seq<char>>) -> Result<Seq<char>, ValidationError> {
    match label {
        None => Err(ValidationError::UsageError),
        Some(l) => if l.len() == 0 {
            Err(ValidationError::UsageError)
        } else if l.len() > COLOR_ROLE_NAME_MAX_WIDTH {
            Err(ValidationError::LabelTooLong)
        } else {
            Ok(l)
        },
    }
}

/// The checks of `color add`, in their order: the label, then that the hex
/// code is there, then the hex code itself. The result is the code's value.
pub open spec fn check_add(label: Option<Seq<char>>, hexcode: Option<Seq<char>>) -> Result<
    u64,
    ValidationError,
> {
    match check_label(label) {
        Err(e) => Err(e),
        Ok(_) => match hexcode {
            None => Err(ValidationError::UsageError),
            Some(h) => match parse_hex(h) {
                Ok(rgb) => Ok(rgb),
                Err(e) => Err(ValidationError::Hex(e)),
            },
        },
    }
}

/// Checks a label and hands it back.
pub fn validate_label<'a>(label: Option<&'a str>) -> (result: Result<&'a str, ValidationError>)
    ensures
        match check_label(text_of(label)) {
            Ok(l) => result is Ok && label == Some(result->Ok_0),
            Err(e) => result == Err::<&str, ValidationError>(e),
        },
{
    match label {
        None => Err(ValidationError::UsageError),
        Some(l) => {
            let n = l.unicode_len();
            if n == 0 {
                Err(ValidationError::UsageError)
            } else if n > 20 {
                Err(ValidationError::LabelTooLong)
            } else {
                Ok(l)
            }
        },
    }
}

/// Checks the arguments of `color add`.
pub fn validate_add(label: Option<&str>, hexcode: Option<&str>) -> (result: Result<
    NewColor,
    ValidationError,
>)
    ensures
        match check_add(text_of(label), text_of(hexcode)) {
            Ok(rgb) => result is Ok && result->Ok_0.label@ == label->0@ && result->Ok_0.hexcode@
                == hexcode->0@ && result->Ok_0.rgb == rgb,
            Err(e) => result == Err::<NewColor, ValidationError>(e),
        },
{
    let label = match validate_label(label) {
        Ok(l) => l,
        Err(e) => {
            return Err(e);
        },
    };
    let hexcode = match hexcode {
        Some(h) => h,
        None => {
            return Err(ValidationError::UsageError);
        },
    };
    match hex_to_rgb(hexcode) {
        Ok(rgb) => Ok(
            NewColor { label: String::from_str(label), hexcode: String::from_str(hexcode), rgb },
        ),
        Err(e) => Err(ValidationError::Hex(e)),
    }
}

} // verus!
