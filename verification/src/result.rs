//! Kernel error codes and their encodings.
//!
//! The kernel reports failure as a small negative integer; drivers that
//! deliver an error through a callback argument smuggle the same negative
//! value through a `usize` word.  Both encodings are decoded here.

use vstd::prelude::*;

verus! {

/// A kernel-reported error, one variant per negative result code.
#[allow(non_camel_case_types)]
#[derive(Clone, Copy, PartialEq, Eq, Structural, Debug)]
pub enum Error {
    FAIL,
    EBUSY,
    EALREADY,
    EOFF,
    ERESERVE,
    EINVAL,
    ESIZE,
    ECANCEL,
    ENOMEM,
    ENOSUPPORT,
    ENODEVICE,
    EUNINSTALLED,
    ENOACK,
}

/// The negative code the kernel uses for each error.
pub open spec fn error_code(e: Error) -> int {
    match e {
        Error::FAIL => -1,
        Error::EBUSY => -2,
        Error::EALREADY => -3,
        Error::EOFF => -4,
        Error::ERESERVE => -5,
        Error::EINVAL => -6,
        Error::ESIZE => -7,
        Error::ECANCEL => -8,
        Error::ENOMEM => -9,
        Error::ENOSUPPORT => -10,
        Error::ENODEVICE => -11,
        Error::EUNINSTALLED => -12,
        Error::ENOACK => -13,
    }
}

impl Error {
    /// Decodes a kernel result code; `None` for anything outside the fixed
    /// enumeration (a non-negative result, or a protocol violation).
    pub fn from_code(code: isize) -> (r: Option<Error>)
        ensures
            r matches Some(e) ==> error_code(e) == code as int,
            -13 <= code as int <= -1 ==> r is Some,
            !(-13 <= code as int <= -1) ==> r is None,
    {
        match code {
            -1 => Some(Error::FAIL),
            -2 => Some(Error::EBUSY),
            -3 => Some(Error::EALREADY),
            -4 => Some(Error::EOFF),
            -5 => Some(Error::ERESERVE),
            -6 => Some(Error::EINVAL),
            -7 => Some(Error::ESIZE),
            -8 => Some(Error::ECANCEL),
            -9 => Some(Error::ENOMEM),
            -10 => Some(Error::ENOSUPPORT),
            -11 => Some(Error::ENODEVICE),
            -12 => Some(Error::EUNINSTALLED),
            -13 => Some(Error::ENOACK),
            _ => None,
        }
    }

    /// The negative code for this error, as the kernel would report it.
    pub fn as_code(&self) -> (r: isize)
        ensures
            r as int == error_code(*self),
    {
        match *self {
            Error::FAIL => -1,
            Error::EBUSY => -2,
            Error::EALREADY => -3,
            Error::EOFF => -4,
            Error::ERESERVE => -5,
            Error::EINVAL => -6,
            Error::ESIZE => -7,
            Error::ECANCEL => -8,
            Error::ENOMEM => -9,
            Error::ENOSUPPORT => -10,
            Error::ENODEVICE => -11,
            Error::EUNINSTALLED => -12,
            Error::ENOACK => -13,
        }
    }
}

/// The error, if any, carried by a `usize` callback argument: the word holds
/// the two's-complement image of one of the negative codes, that is a value
/// within 12 of `usize::MAX`.
pub open spec fn word_error(word: usize) -> Option<Error> {
    if word as int == usize::MAX - 0 {
        Some(Error::FAIL)
    } else if word as int == usize::MAX - 1 {
        Some(Error::EBUSY)
    } else if word as int == usize::MAX - 2 {
        Some(Error::EALREADY)
    } else if word as int == usize::MAX - 3 {
        Some(Error::EOFF)
    } else if word as int == usize::MAX - 4 {
        Some(Error::ERESERVE)
    } else if word as int == usize::MAX - 5 {
        Some(Error::EINVAL)
    } else if word as int == usize::MAX - 6 {
        Some(Error::ESIZE)
    } else if word as int == usize::MAX - 7 {
        Some(Error::ECANCEL)
    } else if word as int == usize::MAX - 8 {
        Some(Error::ENOMEM)
    } else if word as int == usize::MAX - 9 {
        Some(Error::ENOSUPPORT)
    } else if word as int == usize::MAX - 10 {
        Some(Error::ENODEVICE)
    } else if word as int == usize::MAX - 11 {
        Some(Error::EUNINSTALLED)
    } else if word as int == usize::MAX - 12 {
        Some(Error::ENOACK)
    } else {
        None
    }
}

/// A `usize` callback argument read as a possible error: some drivers pass a
/// negative code through an argument word that is non-negative at the type
/// level.
pub struct UsizeError(pub Option<Error>);

impl UsizeError {
    /// Decodes an argument word, recognizing the two's-complement image of
    /// each negative error code.
    pub fn from_word(word: usize) -> (r: UsizeError)
        ensures
            r.0 == word_error(word),
    {
        if word >= usize::MAX - 12 {
            let distance: usize = usize::MAX - word;
            match distance {
                0 => UsizeError(Some(Error::FAIL)),
                1 => UsizeError(Some(Error::EBUSY)),
                2 => UsizeError(Some(Error::EALREADY)),
                3 => UsizeError(Some(Error::EOFF)),
                4 => UsizeError(Some(Error::ERESERVE)),
                5 => UsizeError(Some(Error::EINVAL)),
                6 => UsizeError(Some(Error::ESIZE)),
                7 => UsizeError(Some(Error::ECANCEL)),
                8 => UsizeError(Some(Error::ENOMEM)),
                9 => UsizeError(Some(Error::ENOSUPPORT)),
                10 => UsizeError(Some(Error::ENODEVICE)),
                11 => UsizeError(Some(Error::EUNINSTALLED)),
                _ => UsizeError(Some(Error::ENOACK)),
            }
        } else {
            UsizeError(None)
        }
    }
}

} // verus!
