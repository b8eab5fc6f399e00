//! Checked integer conversions for image dimensions, and helpers that attach
//! a decoder-error context to fallible results.

use vstd::prelude::*;

use crate::error::ConversionTooLargerError;
use crate::error::DecoderError;

verus! {

/// Conversion of a dimension into the machine integer types a decoder needs,
/// failing with [`ConversionTooLargerError`] whenever the value does not fit.
pub trait SafeConversion: Sized + Copy {
    /// The mathematical value being converted.
    spec fn as_int(self) -> int;

    fn try_usize(self) -> (r: Result<usize, ConversionTooLargerError>)
        ensures
            r is Ok <==> 0 <= self.as_int() <= usize::MAX,
            r is Ok ==> r->Ok_0 == self.as_int(),
    ;

    fn try_i32(self) -> (r: Result<i32, ConversionTooLargerError>)
        ensures
            r is Ok <==> i32::MIN <= self.as_int() <= i32::MAX,
            r is Ok ==> r->Ok_0 == self.as_int(),
    ;

    fn try_u32(self) -> (r: Result<u32, ConversionTooLargerError>)
        ensures
            r is Ok <==> 0 <= self.as_int() <= u32::MAX,
            r is Ok ==> r->Ok_0 == self.as_int(),
    ;

    fn try_i64(self) -> (r: Result<i64, ConversionTooLargerError>)
        ensures
            r is Ok <==> i64::MIN <= self.as_int() <= i64::MAX,
            r is Ok ==> r->Ok_0 == self.as_int(),
    ;

    fn try_u64(self) -> (r: Result<u64, ConversionTooLargerError>)
        ensures
            r is Ok <==> 0 <= self.as_int() <= u64::MAX,
            r is Ok ==> r->Ok_0 == self.as_int(),
    ;
}

impl SafeConversion for usize {
    open spec fn as_int(self) -> int {
        self as int
    }

    fn try_usize(self) -> (r: Result<usize, ConversionTooLargerError>) {
        Ok(self)
    }

    fn try_i32(self) -> (r: Result<i32, ConversionTooLargerError>) {
        if self <= i32::MAX as usize {
            Ok(self as i32)
        } else {
            Err(ConversionTooLargerError)
        }
    }

    fn try_u32(self) -> (r: Result<u32, ConversionTooLargerError>) {
        if self <= u32::MAX as usize {
            Ok(self as u32)
        } else {
            Err(ConversionTooLargerError)
        }
    }

    fn try_i64(self) -> (r: Result<i64, ConversionTooLargerError>) {
        if self as u64 <= i64::MAX as u64 {
            Ok(self as i64)
        } else {
            Err(ConversionTooLargerError)
        }
    }

    fn try_u64(self) -> (r: Result<u64, ConversionTooLargerError>) {
        Ok(self as u64)
    }
}

impl SafeConversion for u32 {
    open spec fn as_int(self) -> int {
        self as int
    }

    fn try_usize(self) -> (r: Result<usize, ConversionTooLargerError>) {
        Ok(self as usize)
    }

    fn try_i32(self) -> (r: Result<i32, ConversionTooLargerError>) {
        if self <= i32::MAX as u32 {
            Ok(self as i32)
        } else {
            Err(ConversionTooLargerError)
        }
    }

    fn try_u32(self) -> (r: Result<u32, ConversionTooLargerError>) {
        Ok(self)
    }

    fn try_i64(self) -> (r: Result<i64, ConversionTooLargerError>) {
        Ok(self as i64)
    }

    fn try_u64(self) -> (r: Result<u64, ConversionTooLargerError>) {
        Ok(self as u64)
    }
}

impl SafeConversion for i32 {
    open spec fn as_int(self) -> int {
        self as int
    }

    fn try_usize(self) -> (r: Result<usize, ConversionTooLargerError>) {
        if self >= 0 {
            Ok(self as usize)
        } else {
            Err(ConversionTooLargerError)
        }
    }

    fn try_i32(self) -> (r: Result<i32, ConversionTooLargerError>) {
        Ok(self)
    }

    fn try_u32(self) -> (r: Result<u32, ConversionTooLargerError>) {
        if self >= 0 {
            Ok(self as u32)
        } else {
            Err(ConversionTooLargerError)
        }
    }

    fn try_i64(self) -> (r: Result<i64, ConversionTooLargerError>) {
        Ok(self as i64)
    }

    fn try_u64(self) -> (r: Result<u64, ConversionTooLargerError>) {
        if self >= 0 {
            Ok(self as u64)
        } else {
            Err(ConversionTooLargerError)
        }
    }
}

/// Attaches a decoder-error context to a fallible value: the success case is
/// kept as it is, the failure case is replaced by the named decoder error.
pub trait GenericContexts<T>: Sized {
    /// The successful value, if there is one.
    spec fn success(self) -> Option<T>;

    fn context_failed(self) -> (r: Result<T, DecoderError>)
        ensures
            r is Ok <==> self.success() is Some,
            r is Ok ==> r->Ok_0 == self.success()->0,
            r is Err ==> r->Err_0 is DecodingError
                && r->Err_0->DecodingError_0@ == "Failed to decode image"@,
    ;

    fn context_internal(self) -> (r: Result<T, DecoderError>)
        ensures
            r is Ok <==> self.success() is Some,
            r is Ok ==> r->Ok_0 == self.success()->0,
            r is Err ==> r->Err_0 is InternalDecoderError,
    ;

    fn context_unsupported(self, msg: String) -> (r: Result<T, DecoderError>)
        ensures
            r is Ok <==> self.success() is Some,
            r is Ok ==> r->Ok_0 == self.success()->0,
            r is Err ==> r->Err_0 is UnsupportedImageFormat
                && r->Err_0->UnsupportedImageFormat_0 == msg,
    ;
}

impl<T, E> GenericContexts<T> for Result<T, E> {
    open spec fn success(self) -> Option<T> {
        match self {
            Ok(t) => Some(t),
            Err(_) => None,
        }
    }

    fn context_failed(self) -> (r: Result<T, DecoderError>) {
        match self {
            Ok(t) => Ok(t),
            Err(_) => Err(DecoderError::DecodingError("Failed to decode image".to_owned())),
        }
    }

    fn context_internal(self) -> (r: Result<T, DecoderError>) {
        match self {
            Ok(t) => Ok(t),
            Err(_) => Err(DecoderError::InternalDecoderError),
        }
    }

    fn context_unsupported(self, msg: String) -> (r: Result<T, DecoderError>) {
        match self {
            Ok(t) => Ok(t),
            Err(_) => Err(DecoderError::UnsupportedImageFormat(msg)),
        }
    }
}

impl<T> GenericContexts<T> for Option<T> {
    open spec fn success(self) -> Option<T> {
        self
    }

    fn context_failed(self) -> (r: Result<T, DecoderError>) {
        match self {
            Some(t) => Ok(t),
            None => Err(DecoderError::DecodingError("Failed to decode image".to_owned())),
        }
    }

    fn context_internal(self) -> (r: Result<T, DecoderError>) {
        match self {
            Some(t) => Ok(t),
            None => Err(DecoderError::InternalDecoderError),
        }
    }

    fn context_unsupported(self, msg: String) -> (r: Result<T, DecoderError>) {
        match self {
            Some(t) => Ok(t),
            None => Err(DecoderError::UnsupportedImageFormat(msg)),
        }
    }
}

} // verus!
