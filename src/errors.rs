use vstd::prelude::*;

use crate::text::{contains_text, occurs_in};

verus! {

/// The canonical failure kinds of the user service.
#[derive(Debug, Clone, Copy, PartialEq, Eq, Structural)]
pub enum TypeErrorKinsper {
    InternalServer,
    InvalidUri,
    ConnectionError,
    StoreError,
    UpdateSchemeError,
    InvalidEmail,
    InvalidId,
    InternalValidationError,
    NotFound,
    AlreadyExists,
    Unknown,
}

/// The protocol status classes that failures are reported under.
#[derive(Debug, Clone, Copy, PartialEq, Eq, Structural)]
pub enum StatusClass {
    InvalidArgument,
    NotFound,
    AlreadyExists,
    Internal,
}

/// Which status class each failure kind is reported under.
pub open spec fn status_class_of(kind: TypeErrorKinsper) -> StatusClass {
    match kind {
        TypeErrorKinsper::InvalidEmail | TypeErrorKinsper::InvalidId => StatusClass::InvalidArgument,
        TypeErrorKinsper::NotFound => StatusClass::NotFound,
        TypeErrorKinsper::AlreadyExists => StatusClass::AlreadyExists,
        _ => StatusClass::Internal,
    }
}

/// The numeric status code of each class on the wire.
pub open spec fn status_code_of(class: StatusClass) -> u32 {
    match class {
        StatusClass::InvalidArgument => 3,
        StatusClass::NotFound => 5,
        StatusClass::AlreadyExists => 6,
        StatusClass::Internal => 13,
    }
}

/// The short label that a failure kind is shown with.
pub open spec fn kind_label(kind: TypeErrorKinsper) -> Seq<char> {
    match kind {
        TypeErrorKinsper::InternalServer => "Error internal server"@,
        TypeErrorKinsper::InvalidUri => "Error invalid uri"@,
        TypeErrorKinsper::ConnectionError => "Error connection error"@,
        TypeErrorKinsper::StoreError => "Error store"@,
        TypeErrorKinsper::UpdateSchemeError => "Error update scheme"@,
        TypeErrorKinsper::InvalidEmail => "Error invalid email"@,
        TypeErrorKinsper::InvalidId => "Error invalid id"@,
        TypeErrorKinsper::InternalValidationError => "Error internal validation"@,
        TypeErrorKinsper::NotFound => "Error not found"@,
        TypeErrorKinsper::AlreadyExists => "Error already exists"@,
        TypeErrorKinsper::Unknown => "Error unknown"@,
    }
}

impl TypeErrorKinsper {
    /// The status class this kind is reported under; total over all kinds.
    pub fn status_class(&self) -> (r: StatusClass)
        ensures
            r == status_class_of(*self),
    {
        match self {
            TypeErrorKinsper::InvalidEmail => StatusClass::InvalidArgument,
            TypeErrorKinsper::InvalidId => StatusClass::InvalidArgument,
            TypeErrorKinsper::NotFound => StatusClass::NotFound,
            TypeErrorKinsper::AlreadyExists => StatusClass::AlreadyExists,
            TypeErrorKinsper::InternalServer => StatusClass::Internal,
            TypeErrorKinsper::InvalidUri => StatusClass::Internal,
            TypeErrorKinsper::ConnectionError => StatusClass::Internal,
            TypeErrorKinsper::StoreError => StatusClass::Internal,
            TypeErrorKinsper::UpdateSchemeError => StatusClass::Internal,
            TypeErrorKinsper::InternalValidationError => StatusClass::Internal,
            TypeErrorKinsper::Unknown => StatusClass::Internal,
        }
    }

    pub fn label(&self) -> (r: &'static str)
        ensures
            r@ == kind_label(*self),
    {
        match self {
            TypeErrorKinsper::InternalServer => "Error internal server",
            TypeErrorKinsper::InvalidUri => "Error invalid uri",
            TypeErrorKinsper::ConnectionError => "Error connection error",
            TypeErrorKinsper::StoreError => "Error store",
            TypeErrorKinsper::UpdateSchemeError => "Error update scheme",
            TypeErrorKinsper::InvalidEmail => "Error invalid email",
            TypeErrorKinsper::InvalidId => "Error invalid id",
            TypeErrorKinsper::InternalValidationError => "Error internal validation",
            TypeErrorKinsper::NotFound => "Error not found",
            TypeErrorKinsper::AlreadyExists => "Error already exists",
            TypeErrorKinsper::Unknown => "Error unknown",
        }
    }
}

impl StatusClass {
    /// The numeric code of this class in the RPC protocol.
    pub fn code(&self) -> (r: u32)
        ensures
            r == status_code_of(*self),
    {
        match self {
            StatusClass::InvalidArgument => 3,
            StatusClass::NotFound => 5,
            StatusClass::AlreadyExists => 6,
            StatusClass::Internal => 13,
        }
    }
}

/// A failure: its kind and a message for the caller.
#[derive(Debug)]
pub struct ErrorKinsper {
    pub type_error: TypeErrorKinsper,
    pub message: String,
}

impl ErrorKinsper {
    pub fn new(type_error: TypeErrorKinsper, message: String) -> (r: Self)
        ensures
            r.type_error == type_error,
            r.message@ == message@,
    {
        ErrorKinsper { type_error, message }
    }

    /// Turns a store failure into a failure of the service: a duplicate key
    /// is `AlreadyExists`, a missing row `NotFound`, anything else `StoreError`.
    pub fn from_store(f: StoreFailure) -> (r: Self)
        ensures
            r.type_error == store_failure_kind(f),
            r.message@ == store_failure_message(f),
    {
        match f {
            StoreFailure::Database { message } => {
                if contains_text(message.as_str(), DUPLICATE_ENTRY) {
                    ErrorKinsper::new(
                        TypeErrorKinsper::AlreadyExists,
                        String::from_str("Error duplicate entry"),
                    )
                } else {
                    let mut m = String::from_str("Error from store: ");
                    m.append(message.as_str());
                    ErrorKinsper::new(TypeErrorKinsper::StoreError, m)
                }
            },
            StoreFailure::RowNotFound => ErrorKinsper::new(
                TypeErrorKinsper::NotFound,
                String::from_str("Error user not found"),
            ),
            StoreFailure::Other { message } => {
                let mut m = String::from_str("Error from store: ");
                m.append(message.as_str());
                ErrorKinsper::new(TypeErrorKinsper::StoreError, m)
            },
        }
    }

    /// The status class this failure is reported under.
    pub fn status_class(&self) -> (r: StatusClass)
        ensures
            r == status_class_of(self.type_error),
    {
        self.type_error.status_class()
    }

    /// The failure as one line of text: `[label] message`.
    pub fn describe(&self) -> (r: String)
        ensures
            r@ == "["@ + kind_label(self.type_error) + "] "@ + self.message@,
    {
        let mut r = String::from_str("[");
        r.append(self.type_error.label());
        r.append("] ");
        r.append(self.message.as_str());
        r
    }
}

/// What the store reported when a statement failed.
#[derive(Debug)]
pub enum StoreFailure {
    /// The database rejected the statement; `message` is its own text.
    Database { message: String },
    /// A single-row fetch found no row.
    RowNotFound,
    /// Any other failure on the way to or from the store.
    Other { message: String },
}

/// The store's words for a duplicate-key violation.
pub const DUPLICATE_ENTRY: &'static str = "Duplicate entry";

/// Classification of a store failure into a failure kind.
pub open spec fn store_failure_kind(f: StoreFailure) -> TypeErrorKinsper {
    match f {
        StoreFailure::Database { message } => if occurs_in(DUPLICATE_ENTRY@, message@) {
            TypeErrorKinsper::AlreadyExists
        } else {
            TypeErrorKinsper::StoreError
        },
        StoreFailure::RowNotFound => TypeErrorKinsper::NotFound,
        StoreFailure::Other { .. } => TypeErrorKinsper::StoreError,
    }
}

/// The message that goes with the classification of a store failure.
pub open spec fn store_failure_message(f: StoreFailure) -> Seq<char> {
    match store_failure_kind(f) {
        TypeErrorKinsper::AlreadyExists => "Error duplicate entry"@,
        TypeErrorKinsper::NotFound => "Error user not found"@,
        _ => match f {
            StoreFailure::Database { message } => "Error from store: "@ + message@,
            StoreFailure::Other { message } => "Error from store: "@ + message@,
            StoreFailure::RowNotFound => "Error from store: "@,
        },
    }
}

} // verus!
