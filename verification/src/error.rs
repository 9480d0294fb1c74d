use vstd::prelude::*;

verus! {

/// Why an untyped value was not accepted.
#[derive(Clone, Copy, Debug, PartialEq, Eq, Structural)]
pub enum Error {
    /// A number was submitted to a boolean characteristic, and it is neither
    /// 0 nor 1.
    InvalidValue,
    /// The untyped value does not have the shape of the characteristic's
    /// value kind, or does not fit it.
    Deserialization,
}

impl Error {
    /// The text of the error.
    pub open spec fn message_spec(self) -> Seq<char> {
        match self {
            Error::InvalidValue => "invalid value"@,
            Error::Deserialization => "value does not match the characteristic's type"@,
        }
    }

    /// The text of the error.
    pub fn message(&self) -> (s: &'static str)
        ensures
            s@ == self.message_spec(),
    {
        match self {
            Error::InvalidValue => "invalid value",
            Error::Deserialization => "value does not match the characteristic's type",
        }
    }
}

} // verus!
