//! What can go wrong while turning a call record into a call description.
use vstd::prelude::*;
use crate::text::{join_commas, views};

verus! {

#[derive(Debug, Clone, PartialEq)]
pub enum CallError {
    /// The schema has no operation of this name.
    UnknownOperation(String),
    /// The argument is no parameter, no body, no `ignore`, and no path
    /// parameter of any template.
    UnresolvedArgument(String),
    /// No single template has exactly these path parameters.
    AmbiguousOrMissingTemplate { operation: String, parts: Vec<String> },
    /// The value of this argument cannot take its declared type.
    TypeCoercionFailure(String),
    /// The value is not among the enumeration's options.
    EnumValidationFailure { options: Vec<String>, value: String },
    /// A mapping or a nested value stands where only scalars and sequences
    /// of strings are accepted.
    UnsupportedValueShape(String),
    /// The action names no operation to call.
    MissingCall,
}

pub enum ErrorView {
    UnknownOperation(Seq<char>),
    UnresolvedArgument(Seq<char>),
    AmbiguousOrMissingTemplate { operation: Seq<char>, parts: Seq<Seq<char>> },
    TypeCoercionFailure(Seq<char>),
    EnumValidationFailure { options: Seq<Seq<char>>, value: Seq<char> },
    UnsupportedValueShape(Seq<char>),
    MissingCall,
}

impl View for CallError {
    type V = ErrorView;

    open spec fn view(&self) -> ErrorView {
        match self {
            CallError::UnknownOperation(s) => ErrorView::UnknownOperation(s@),
            CallError::UnresolvedArgument(s) => ErrorView::UnresolvedArgument(s@),
            CallError::AmbiguousOrMissingTemplate { operation, parts } =>
                ErrorView::AmbiguousOrMissingTemplate { operation: operation@, parts: views(parts@) },
            CallError::TypeCoercionFailure(s) => ErrorView::TypeCoercionFailure(s@),
            CallError::EnumValidationFailure { options, value } =>
                ErrorView::EnumValidationFailure { options: views(options@), value: value@ },
            CallError::UnsupportedValueShape(s) => ErrorView::UnsupportedValueShape(s@),
            CallError::MissingCall => ErrorView::MissingCall,
        }
    }
}

/// The views of a list of errors.
pub open spec fn error_views(v: Seq<CallError>) -> Seq<ErrorView> {
    v.map_values(|e: CallError| e@)
}

/// The one-line description of an error.
pub open spec fn message_spec(e: ErrorView) -> Seq<char> {
    match e {
        ErrorView::UnknownOperation(s) => "no API found for "@ + s,
        ErrorView::UnresolvedArgument(s) => "no URL part found for "@ + s,
        ErrorView::AmbiguousOrMissingTemplate { operation, parts } => if parts.len() == 0 {
            "no path for "@ + operation + " with no URL parts"@
        } else {
            "no path for "@ + operation + " with URL parts "@ + join_commas(parts)
        },
        ErrorView::TypeCoercionFailure(s) => "cannot convert the value of "@ + s
            + " to its declared type"@,
        ErrorView::EnumValidationFailure { options, value } => "options "@ + join_commas(options)
            + " does not contain value "@ + value,
        ErrorView::UnsupportedValueShape(s) => "unsupported value for "@ + s,
        ErrorView::MissingCall => "no API call in the action"@,
    }
}

impl CallError {
    /// A one-line description of the error.
    pub fn message(&self) -> (r: String)
        ensures
            r@ == message_spec(self@),
    {
        let mut out = String::new();
        match self {
            CallError::UnknownOperation(s) => {
                out.append("no API found for ");
                out.append(s.as_str());
            },
            CallError::UnresolvedArgument(s) => {
                out.append("no URL part found for ");
                out.append(s.as_str());
            },
            CallError::AmbiguousOrMissingTemplate { operation, parts } => {
                out.append("no path for ");
                out.append(operation.as_str());
                if parts.len() == 0 {
                    out.append(" with no URL parts");
                } else {
                    out.append(" with URL parts ");
                    out.append(crate::text::join_with_commas(parts).as_str());
                }
            },
            CallError::TypeCoercionFailure(s) => {
                out.append("cannot convert the value of ");
                out.append(s.as_str());
                out.append(" to its declared type");
            },
            CallError::EnumValidationFailure { options, value } => {
                out.append("options ");
                out.append(crate::text::join_with_commas(options).as_str());
                out.append(" does not contain value ");
                out.append(value.as_str());
            },
            CallError::UnsupportedValueShape(s) => {
                out.append("unsupported value for ");
                out.append(s.as_str());
            },
            CallError::MissingCall => {
                out.append("no API call in the action");
            },
        }
        out
    }
}

} // verus!
