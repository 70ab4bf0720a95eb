use vstd::prelude::*;

verus! {

/// The two ways a request can be refused.
#[derive(Clone, Copy, Debug, PartialEq, Eq, Structural)]
pub enum ErrorKind {
    /// An argument names no known particle, geometry or date.
    InvalidArgument,
    /// The zenith angles do not pair with the energies.
    TypeMismatch,
}

/// A refused request, holding the offending value.
#[derive(Clone, Debug, PartialEq, Eq)]
pub enum Error {
    /// A particle symbol outside the catalogue.
    BadParticle(String),
    /// A particle code outside the catalogue.
    BadParticleId(i32),
    /// A geometry name that is not one of the named geometries.
    BadGeometry(String),
    /// A date that could not be read, with the reason given by the parser.
    BadDate(String),
    /// Zenith angles whose size does not match the energies' size.
    BadTheta { expected: usize, found: usize },
}

impl Error {
    pub open spec fn kind_spec(&self) -> ErrorKind {
        match self {
            Error::BadTheta { .. } => ErrorKind::TypeMismatch,
            _ => ErrorKind::InvalidArgument,
        }
    }

    /// The kind of refusal.
    pub fn kind(&self) -> (r: ErrorKind)
        ensures
            r == self.kind_spec(),
    {
        match self {
            Error::BadTheta { .. } => ErrorKind::TypeMismatch,
            _ => ErrorKind::InvalidArgument,
        }
    }
}

} // verus!
