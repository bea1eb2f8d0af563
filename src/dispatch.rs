use vstd::prelude::*;

use crate::diagnostics::{
    severity_name, Diagnostic, ShaderErrorList, ShaderErrorSeverity, ValidationModel,
};
use crate::language::{language_of, ShadingLanguage};
use crate::location::lemma_line_start_bound;
use crate::protocol::{response_of, span_resolvable, wire_of, ValidateFileResponse, WireMessage};

verus! {

/// A request that was answered without a verdict on the shader.
#[derive(Debug)]
pub enum RequestError {
    /// The request named no supported shading language; no validator was built.
    InvalidParams(String),
    /// The validator for the language could not be built.
    Internal(String),
}

/// The text of the error for an unsupported shading language.
pub open spec fn invalid_language_text(id: Seq<char>) -> Seq<char> {
    seq![
        'I', 'n', 'v', 'a', 'l', 'i', 'd', ' ', 's', 'h', 'a', 'd', 'i', 'n', 'g', ' ',
        'l', 'a', 'n', 'g', 'u', 'a', 'g', 'e', ':', ' '
    ] + id
}

/// Resolves the language of a request: the first step of every request,
/// taken before any validator exists.
pub fn resolve_language(id: &str) -> (r: Result<ShadingLanguage, RequestError>)
    ensures
        language_of(id@) matches Some(l) ==> (r matches Ok(k) && k == l),
        language_of(id@) is None ==> (r matches Err(RequestError::InvalidParams(m))
            && m@ == invalid_language_text(id@)),
{
    match ShadingLanguage::parse(id) {
        Ok(l) => Ok(l),
        Err(()) => {
            proof { reveal_strlit("Invalid shading language: "); }
            let mut m = String::from_str("Invalid shading language: ");
            m.append(id);
            assert(m@ =~= invalid_language_text(id@));
            Err(RequestError::InvalidParams(m))
        },
    }
}

/// The reply to `validate_file`, from what building the validator (`Err` with
/// the reason) and then running it gave.
pub fn validate_file_reply(outcome: Result<Result<(), ShaderErrorList>, String>) -> (r: Result<
    ValidateFileResponse,
    RequestError,
>)
    ensures
        outcome matches Err(m) ==> (r matches Err(RequestError::Internal(x)) && x@ == m@),
        outcome matches Ok(Ok(_)) ==> (r matches Ok(resp) && resp@ == response_of(Seq::empty())),
        outcome matches Ok(Err(list)) ==> (r matches Ok(resp) && resp@ == response_of(list@)),
{
    match outcome {
        Err(m) => Err(RequestError::Internal(m)),
        Ok(Ok(())) => Ok(ValidateFileResponse::ok()),
        Ok(Err(list)) => Ok(ValidateFileResponse::error(&list)),
    }
}

/// The reply to `get_file_tree`: the tree, or nothing when the backend failed.
pub fn file_tree_reply<T>(outcome: Result<Result<T, ShaderErrorList>, String>) -> (r: Result<
    Option<T>,
    RequestError,
>)
    ensures
        outcome matches Err(m) ==> (r matches Err(RequestError::Internal(x)) && x@ == m@),
        outcome matches Ok(Ok(t)) ==> (r matches Ok(Some(u)) && u == t),
        outcome matches Ok(Err(_)) ==> r matches Ok(None),
{
    match outcome {
        Err(m) => Err(RequestError::Internal(m)),
        Ok(Ok(t)) => Ok(Some(t)),
        Ok(Err(_)) => Ok(None),
    }
}

/// A validation is reported as successful exactly when it produced no
/// diagnostic, and each diagnostic gives one message.
pub proof fn lemma_ok_iff_no_diagnostics(errors: Seq<Diagnostic>)
    ensures
        response_of(errors).is_ok <==> errors.len() == 0,
        response_of(errors).messages.len() == errors.len(),
{
}

/// A semantic failure whose first span resolves is sent as a positioned error
/// of severity `Error` with 1-based line and column; one whose span does not
/// resolve is sent as a validation error.
pub proof fn lemma_semantic_failure_on_the_wire(v: ValidationModel)
    ensures
        span_resolvable(v) ==> (wire_of(Diagnostic::Validation(v)) matches WireMessage::Parser {
            severity,
            line,
            pos,
            ..
        } && severity == severity_name(ShaderErrorSeverity::Error) && line >= 1 && pos >= 1),
        !span_resolvable(v) ==> wire_of(Diagnostic::Validation(v)) is Validation,
{
    if span_resolvable(v) {
        lemma_line_start_bound(v.source.subrange(0, v.spans[0] as int));
    }
}

/// An empty identifier names no language, so a request carrying it is refused
/// as invalid parameters.
pub proof fn lemma_empty_language_refused()
    ensures
        language_of(Seq::<char>::empty()) is None,
{
    crate::language::lemma_empty_identifier_rejected();
}

} // verus!
