//! The closed set of codes that every boundary operation answers with.
use vstd::prelude::*;

verus! {

/// Outcome of a boundary operation. `NoError` is the only success value.
#[derive(Debug, Clone, Copy, PartialEq, Eq, Structural)]
pub enum Error {
    NoError,
    /// The buffer to write into is too small.
    SpanTooSmallError,
    /// The bytecode does not pass basic validation.
    ValidationError,
    /// The bytecode cannot be read as a module.
    DeserializationError,
    /// The module cannot be written back to bytes.
    SerializationError,
    /// The module imports unknown symbols.
    InvalidImportsError,
    /// The module lacks a required export.
    InvalidExportsError,
    /// The module's memory section is not acceptable.
    BadMemorySectionError,
    /// Gas metering could not be injected.
    GasCounterInjectionError,
    /// The stack height limit could not be injected.
    StackHeightInjectionError,
    /// The module could not be instantiated.
    InstantiationError,
    /// The script trapped while running.
    RuntimeError,
    /// The script ran out of gas.
    OutOfGasError,
    /// The entry point has the wrong signature.
    BadEntrySignatureError,
    /// The script reached outside its memory.
    MemoryOutOfBoundError,
    /// Context data was read before it was set.
    UninitializedContextData,
    /// A checksum has the wrong length.
    ChecksumLengthNotMatch,
    /// A data length is out of bounds.
    DataLengthOutOfBound,
    /// A value does not fit the type it is converted to.
    ConvertTypeOutOfBound,
    /// The host action is not available in this period.
    WrongPeriodActionError,
    /// Too many external data requests.
    TooManyExternalDataError,
    /// An external id was asked for twice.
    DuplicateExternalIDError,
    /// Bad validator index.
    BadValidatorIndexError,
    /// Bad external id.
    BadExternalIDError,
    /// The external data is not available.
    UnavailableExternalDataError,
    /// Return data was set more than once.
    RepeatSetReturnDataError,
    /// Anything that has no code of its own.
    UnknownError,
}

impl Error {
    /// The number that stands for this code on the wire.
    pub open spec fn code_spec(self) -> i32 {
        match self {
            Error::NoError => 0i32,
            Error::SpanTooSmallError => 1i32,
            Error::ValidationError => 2i32,
            Error::DeserializationError => 3i32,
            Error::SerializationError => 4i32,
            Error::InvalidImportsError => 5i32,
            Error::InvalidExportsError => 6i32,
            Error::BadMemorySectionError => 7i32,
            Error::GasCounterInjectionError => 8i32,
            Error::StackHeightInjectionError => 9i32,
            Error::InstantiationError => 10i32,
            Error::RuntimeError => 11i32,
            Error::OutOfGasError => 12i32,
            Error::BadEntrySignatureError => 13i32,
            Error::MemoryOutOfBoundError => 14i32,
            Error::UninitializedContextData => 15i32,
            Error::ChecksumLengthNotMatch => 16i32,
            Error::DataLengthOutOfBound => 17i32,
            Error::ConvertTypeOutOfBound => 18i32,
            Error::WrongPeriodActionError => 128i32,
            Error::TooManyExternalDataError => 129i32,
            Error::DuplicateExternalIDError => 130i32,
            Error::BadValidatorIndexError => 131i32,
            Error::BadExternalIDError => 132i32,
            Error::UnavailableExternalDataError => 133i32,
            Error::RepeatSetReturnDataError => 134i32,
            Error::UnknownError => 255i32,
        }
    }

    /// Whether `c` is the number of some code.
    pub open spec fn is_code(c: i32) -> bool {
        0 <= c <= 18 || 128 <= c <= 134 || c == 255
    }

    /// The code that `c` stands for; a number that stands for none is
    /// `UnknownError`.
    pub open spec fn of_code(c: i32) -> Error {
        if c == 0 {
            Error::NoError
        } else if c == 1 {
            Error::SpanTooSmallError
        } else if c == 2 {
            Error::ValidationError
        } else if c == 3 {
            Error::DeserializationError
        } else if c == 4 {
            Error::SerializationError
        } else if c == 5 {
            Error::InvalidImportsError
        } else if c == 6 {
            Error::InvalidExportsError
        } else if c == 7 {
            Error::BadMemorySectionError
        } else if c == 8 {
            Error::GasCounterInjectionError
        } else if c == 9 {
            Error::StackHeightInjectionError
        } else if c == 10 {
            Error::InstantiationError
        } else if c == 11 {
            Error::RuntimeError
        } else if c == 12 {
            Error::OutOfGasError
        } else if c == 13 {
            Error::BadEntrySignatureError
        } else if c == 14 {
            Error::MemoryOutOfBoundError
        } else if c == 15 {
            Error::UninitializedContextData
        } else if c == 16 {
            Error::ChecksumLengthNotMatch
        } else if c == 17 {
            Error::DataLengthOutOfBound
        } else if c == 18 {
            Error::ConvertTypeOutOfBound
        } else if c == 128 {
            Error::WrongPeriodActionError
        } else if c == 129 {
            Error::TooManyExternalDataError
        } else if c == 130 {
            Error::DuplicateExternalIDError
        } else if c == 131 {
            Error::BadValidatorIndexError
        } else if c == 132 {
            Error::BadExternalIDError
        } else if c == 133 {
            Error::UnavailableExternalDataError
        } else if c == 134 {
            Error::RepeatSetReturnDataError
        } else {
            Error::UnknownError
        }
    }

    /// Whether this is the success value.
    pub open spec fn is_ok_spec(self) -> bool {
        self == Error::NoError
    }

    /// The number that stands for this code on the wire.
    pub fn code(self) -> (c: i32)
        ensures
            c == self.code_spec(),
            Error::is_code(c),
            Error::of_code(c) == self,
    {
        match self {
            Error::NoError => 0,
            Error::SpanTooSmallError => 1,
            Error::ValidationError => 2,
            Error::DeserializationError => 3,
            Error::SerializationError => 4,
            Error::InvalidImportsError => 5,
            Error::InvalidExportsError => 6,
            Error::BadMemorySectionError => 7,
            Error::GasCounterInjectionError => 8,
            Error::StackHeightInjectionError => 9,
            Error::InstantiationError => 10,
            Error::RuntimeError => 11,
            Error::OutOfGasError => 12,
            Error::BadEntrySignatureError => 13,
            Error::MemoryOutOfBoundError => 14,
            Error::UninitializedContextData => 15,
            Error::ChecksumLengthNotMatch => 16,
            Error::DataLengthOutOfBound => 17,
            Error::ConvertTypeOutOfBound => 18,
            Error::WrongPeriodActionError => 128,
            Error::TooManyExternalDataError => 129,
            Error::DuplicateExternalIDError => 130,
            Error::BadValidatorIndexError => 131,
            Error::BadExternalIDError => 132,
            Error::UnavailableExternalDataError => 133,
            Error::RepeatSetReturnDataError => 134,
            Error::UnknownError => 255,
        }
    }

    /// The code that `c` stands for; a number that stands for none is
    /// `UnknownError`.
    pub fn from_code(c: i32) -> (e: Error)
        ensures
            e == Error::of_code(c),
            Error::is_code(c) ==> e.code_spec() == c,
            !Error::is_code(c) ==> e == Error::UnknownError,
    {
        match c {
            0 => Error::NoError,
            1 => Error::SpanTooSmallError,
            2 => Error::ValidationError,
            3 => Error::DeserializationError,
            4 => Error::SerializationError,
            5 => Error::InvalidImportsError,
            6 => Error::InvalidExportsError,
            7 => Error::BadMemorySectionError,
            8 => Error::GasCounterInjectionError,
            9 => Error::StackHeightInjectionError,
            10 => Error::InstantiationError,
            11 => Error::RuntimeError,
            12 => Error::OutOfGasError,
            13 => Error::BadEntrySignatureError,
            14 => Error::MemoryOutOfBoundError,
            15 => Error::UninitializedContextData,
            16 => Error::ChecksumLengthNotMatch,
            17 => Error::DataLengthOutOfBound,
            18 => Error::ConvertTypeOutOfBound,
            128 => Error::WrongPeriodActionError,
            129 => Error::TooManyExternalDataError,
            130 => Error::DuplicateExternalIDError,
            131 => Error::BadValidatorIndexError,
            132 => Error::BadExternalIDError,
            133 => Error::UnavailableExternalDataError,
            134 => Error::RepeatSetReturnDataError,
            _ => Error::UnknownError,
        }
    }

    /// Whether this is the success value.
    pub fn is_ok(self) -> (b: bool)
        ensures
            b == self.is_ok_spec(),
            b == (self.code_spec() == 0),
    {
        matches!(self, Error::NoError)
    }
}

/// A code and its number determine each other: turning a code into its
/// number and back gives the code again, and distinct codes have distinct
/// numbers.
pub proof fn lemma_code_round_trip(a: Error, b: Error)
    ensures
        Error::is_code(a.code_spec()),
        Error::of_code(a.code_spec()) == a,
        a.code_spec() == b.code_spec() ==> a == b,
        (a.code_spec() == 0) == (a == Error::NoError),
{
}

/// Every number that stands for a code comes back from the code it gives.
pub proof fn lemma_number_round_trip(c: i32)
    requires
        Error::is_code(c),
    ensures
        Error::of_code(c).code_spec() == c,
{
}

} // verus!
