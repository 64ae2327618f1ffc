//! The ways in which generation fails.

use vstd::prelude::*;
use vstd::string::*;

verus! {

/// The annotation that names the handler interface.
pub const TARGET_INTERFACE: &'static str = "forward_to_trait";

/// The annotation that names the type of the value that the routine returns.
pub const RETURN_TYPE: &'static str = "trait_returned_type";

/// The annotation that names the type of the failure that the routine
/// bridges.
pub const ERROR_TYPE: &'static str = "trait_error_type";

/// A failure of generation. Each is final: no routine is produced.
#[derive(Debug, Clone, PartialEq, Eq)]
pub enum GenerationError {
    /// The declaration is not a tagged union; `name` is the declaration's.
    NotATaggedUnion { name: String },
    /// No annotation names the handler interface.
    MissingTargetInterface,
    /// No annotation names the failure type, where one is required.
    MissingErrorType,
    /// An annotation was found, but its arguments cannot be read; `detail`
    /// says why.
    MalformedAnnotation { annotation: String, detail: String },
    /// The handler interface is given by `path`, which is more than one
    /// identifier.
    InterfaceNotIdentifier { path: String },
    /// The return type is given by `path`, which is more than one identifier.
    ReturnTypeNotIdentifier { path: String },
    /// The failure type is given by `path`, which is more than one
    /// identifier.
    ErrorTypeNotIdentifier { path: String },
}

pub enum GenerationErrorView {
    NotATaggedUnion { name: Seq<char> },
    MissingTargetInterface,
    MissingErrorType,
    MalformedAnnotation { annotation: Seq<char>, detail: Seq<char> },
    InterfaceNotIdentifier { path: Seq<char> },
    ReturnTypeNotIdentifier { path: Seq<char> },
    ErrorTypeNotIdentifier { path: Seq<char> },
}

impl View for GenerationError {
    type V = GenerationErrorView;

    open spec fn view(&self) -> GenerationErrorView {
        match self {
            GenerationError::NotATaggedUnion { name } => GenerationErrorView::NotATaggedUnion {
                name: name@,
            },
            GenerationError::MissingTargetInterface => GenerationErrorView::MissingTargetInterface,
            GenerationError::MissingErrorType => GenerationErrorView::MissingErrorType,
            GenerationError::MalformedAnnotation { annotation, detail } => {
                GenerationErrorView::MalformedAnnotation { annotation: annotation@, detail: detail@ }
            },
            GenerationError::InterfaceNotIdentifier { path } => {
                GenerationErrorView::InterfaceNotIdentifier { path: path@ }
            },
            GenerationError::ReturnTypeNotIdentifier { path } => {
                GenerationErrorView::ReturnTypeNotIdentifier { path: path@ }
            },
            GenerationError::ErrorTypeNotIdentifier { path } => {
                GenerationErrorView::ErrorTypeNotIdentifier { path: path@ }
            },
        }
    }
}

impl GenerationErrorView {
    /// The diagnostic that the host's compilation fails with.
    pub open spec fn message(self) -> Seq<char> {
        match self {
            GenerationErrorView::NotATaggedUnion { .. } => "EventBridge can only be used on enums"@,
            GenerationErrorView::MissingTargetInterface => {
                "Missing #[forward_to_trait(TraitName)] attribute"@
            },
            GenerationErrorView::MissingErrorType => {
                "Missing #[trait_error_type(ErrorType)] attribute"@
            },
            GenerationErrorView::MalformedAnnotation { detail, .. } => detail,
            GenerationErrorView::InterfaceNotIdentifier { .. } => {
                "Trait path must be a single identifier"@
            },
            GenerationErrorView::ReturnTypeNotIdentifier { .. } => {
                "Return type must be a single identifier"@
            },
            GenerationErrorView::ErrorTypeNotIdentifier { .. } => {
                "Error type must be a single identifier"@
            },
        }
    }
}

impl GenerationError {
    /// The diagnostic that the host's compilation fails with.
    pub fn message(&self) -> (text: String)
        ensures
            text@ == self@.message(),
    {
        match self {
            GenerationError::NotATaggedUnion { .. } => String::from_str(
                "EventBridge can only be used on enums",
            ),
            GenerationError::MissingTargetInterface => String::from_str(
                "Missing #[forward_to_trait(TraitName)] attribute",
            ),
            GenerationError::MissingErrorType => String::from_str(
                "Missing #[trait_error_type(ErrorType)] attribute",
            ),
            GenerationError::MalformedAnnotation { detail, .. } => detail.clone(),
            GenerationError::InterfaceNotIdentifier { .. } => String::from_str(
                "Trait path must be a single identifier",
            ),
            GenerationError::ReturnTypeNotIdentifier { .. } => String::from_str(
                "Return type must be a single identifier",
            ),
            GenerationError::ErrorTypeNotIdentifier { .. } => String::from_str(
                "Error type must be a single identifier",
            ),
        }
    }
}

} // verus!
