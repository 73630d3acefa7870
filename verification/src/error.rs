//! The error taxonomy of the core.
//!
//! Validation failures, unavailability, serialization mismatches and
//! configuration problems are distinct conditions and are never conflated:
//! each carries its own variant and, where useful, a human-readable reason.

use vstd::prelude::*;

verus! {

/// The general error type surfaced by the core's public operations.
#[derive(Debug, PartialEq)]
pub enum HolochainError {
    /// A failure with no more precise classification; carries a reason.
    ErrorGeneric(String),
    /// Data could not be turned into or out of its serialized form.
    SerializationError(String),
    /// An entry was judged invalid; carries the validator's reason.
    ValidationFailed(String),
    /// A configuration value could not be used; carries a reason.
    ConfigError(String),
}

impl HolochainError {
    /// A generic error holding the given reason.
    pub fn new(msg: &str) -> (r: HolochainError)
        ensures
            r matches HolochainError::ErrorGeneric(m) && m@ == msg@,
    {
        HolochainError::ErrorGeneric(msg.to_owned())
    }
}

/// The human-readable reason an error carries.
pub open spec fn error_text(e: HolochainError) -> Seq<char> {
    match e {
        HolochainError::ErrorGeneric(m) => m@,
        HolochainError::SerializationError(m) => m@,
        HolochainError::ValidationFailed(m) => m@,
        HolochainError::ConfigError(m) => m@,
    }
}

impl HolochainError {
    /// The human-readable reason this error carries.
    pub fn describe(&self) -> (r: String)
        ensures
            r@ == error_text(*self),
    {
        match self {
            HolochainError::ErrorGeneric(m) => m.clone(),
            HolochainError::SerializationError(m) => m.clone(),
            HolochainError::ValidationFailed(m) => m.clone(),
            HolochainError::ConfigError(m) => m.clone(),
        }
    }
}

/// Errors raised while looking items up inside an application manifest.
#[derive(Debug, PartialEq)]
pub enum DnaError {
    ZomeNotFound(String),
    TraitNotFound(String),
    ZomeFunctionNotFound(String),
}

/// Errors raised by the cryptographic-binding layer.
#[derive(Debug, PartialEq)]
pub enum SodiumError {
    Generic(String),
    OutputLength(String),
    OutOfMemory,
}

impl SodiumError {
    /// A generic error holding the given reason.
    pub fn new(msg: &str) -> (r: SodiumError)
        ensures
            r matches SodiumError::Generic(m) && m@ == msg@,
    {
        SodiumError::Generic(msg.to_owned())
    }
}

impl HolochainError {
    /// Lift an error of the cryptographic-binding layer into the general
    /// error type, keeping its reason.
    pub fn from(error: SodiumError) -> (r: HolochainError)
        ensures
            match error {
                SodiumError::Generic(s) => r == HolochainError::ErrorGeneric(s),
                SodiumError::OutputLength(s) => r == HolochainError::ErrorGeneric(s),
                SodiumError::OutOfMemory => r matches HolochainError::ErrorGeneric(m)
                    && m@ == "libSodium went out of memory"@,
            },
    {
        match error {
            SodiumError::Generic(s) => HolochainError::ErrorGeneric(s),
            SodiumError::OutputLength(s) => HolochainError::ErrorGeneric(s),
            SodiumError::OutOfMemory => {
                HolochainError::ErrorGeneric("libSodium went out of memory".to_owned())
            },
        }
    }
}

} // verus!
