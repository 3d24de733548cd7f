//! The signature of a function declaration that may be an event callback.
use vstd::prelude::*;
use crate::items::function_or_method_content::{error_if, lemma_concat_contains, lemma_error_if_contains, push_error_if, signature_errors, spec_signature_errors,
    SignatureError};

verus! {

/// The errors that only a declaration that may be an event callback has: an
/// event callback (declared with `@` or `$`) stands in a type, has no
/// signature, is not static, has no parameters and names an existing event
/// type; a declaration that is not an event callback needs a signature.
pub open spec fn spec_callback_errors(
    is_method: bool,
    is_static: bool,
    has_parameters: bool,
    has_event_qualifier: bool,
    has_signature: bool,
    event_type_found: bool,
) -> Seq<SignatureError> {
    if has_event_qualifier {
        if is_method {
            error_if(has_signature, SignatureError::UnexpectedSignature)
                + error_if(is_static, SignatureError::EventCallbackStatic)
                + error_if(has_parameters, SignatureError::EventCallbackParameters)
                + error_if(!event_type_found, SignatureError::UndefinedEventType)
        } else {
            seq![SignatureError::RegularEventCallback]
        }
    } else {
        error_if(!has_signature, SignatureError::MissingSignature)
    }
}

/// The errors of a declaration's qualifiers, in the order in which they are
/// reported: those of any function, then those of event callbacks.
pub open spec fn spec_content_signature_errors(
    is_method: bool,
    is_static: bool,
    is_dynamic: bool,
    is_autogen: bool,
    has_parameters: bool,
    is_raw_wasm: bool,
    has_event_qualifier: bool,
    has_signature: bool,
    event_type_found: bool,
) -> Seq<SignatureError> {
    spec_signature_errors(is_method, is_static, is_dynamic, is_autogen, has_parameters, is_raw_wasm)
        + spec_callback_errors(is_method, is_static, has_parameters, has_event_qualifier, has_signature, event_type_found)
}

/// The errors that only a declaration that may be an event callback has (see
/// `spec_callback_errors`).
pub fn callback_errors(
    is_method: bool,
    is_static: bool,
    has_parameters: bool,
    has_event_qualifier: bool,
    has_signature: bool,
    event_type_found: bool,
) -> (result: Vec<SignatureError>)
    ensures
        result@ == spec_callback_errors(is_method, is_static, has_parameters, has_event_qualifier, has_signature,
            event_type_found),
{
    let mut errors: Vec<SignatureError> = Vec::new();
    if has_event_qualifier {
        if is_method {
            push_error_if(&mut errors, has_signature, SignatureError::UnexpectedSignature);
            let ghost a = errors@;
            push_error_if(&mut errors, is_static, SignatureError::EventCallbackStatic);
            push_error_if(&mut errors, has_parameters, SignatureError::EventCallbackParameters);
            push_error_if(&mut errors, !event_type_found, SignatureError::UndefinedEventType);
            proof {
                assert(a =~= error_if(has_signature, SignatureError::UnexpectedSignature));
                assert(errors@ =~= spec_callback_errors(is_method, is_static, has_parameters, has_event_qualifier,
                    has_signature, event_type_found));
            }
        } else {
            errors.push(SignatureError::RegularEventCallback);
            proof {
                assert(errors@ =~= seq![SignatureError::RegularEventCallback]);
            }
        }
    } else {
        push_error_if(&mut errors, !has_signature, SignatureError::MissingSignature);
        proof {
            assert(errors@ =~= error_if(!has_signature, SignatureError::MissingSignature));
        }
    }
    errors
}

/// The errors of a declaration's qualifiers (see `spec_content_signature_errors`).
pub fn signature_errors_with_callbacks(
    is_method: bool,
    is_static: bool,
    is_dynamic: bool,
    is_autogen: bool,
    has_parameters: bool,
    is_raw_wasm: bool,
    has_event_qualifier: bool,
    has_signature: bool,
    event_type_found: bool,
) -> (result: Vec<SignatureError>)
    ensures
        result@ == spec_content_signature_errors(is_method, is_static, is_dynamic, is_autogen, has_parameters,
            is_raw_wasm, has_event_qualifier, has_signature, event_type_found),
{
    let mut errors = signature_errors(is_method, is_static, is_dynamic, is_autogen, has_parameters, is_raw_wasm);
    let mut tail = callback_errors(is_method, is_static, has_parameters, has_event_qualifier, has_signature,
        event_type_found);
    errors.append(&mut tail);
    errors
}

/// Each error of an event callback is reported exactly when the declaration
/// has what it names, and at most once: an event callback outside a type is
/// reported for that alone; inside one, for a signature, for being static, for
/// parameters and for an event type that does not exist; a declaration that is
/// not an event callback only for a missing signature.
pub proof fn law_callback_error_conditions(
    is_method: bool,
    is_static: bool,
    has_parameters: bool,
    has_event_qualifier: bool,
    has_signature: bool,
    event_type_found: bool,
)
    ensures
        ({
            let errors = spec_callback_errors(is_method, is_static, has_parameters, has_event_qualifier, has_signature,
                event_type_found);
            &&& errors.contains(SignatureError::RegularEventCallback) <==> has_event_qualifier && !is_method
            &&& errors.contains(SignatureError::UnexpectedSignature) <==> has_event_qualifier && is_method && has_signature
            &&& errors.contains(SignatureError::EventCallbackStatic) <==> has_event_qualifier && is_method && is_static
            &&& errors.contains(SignatureError::EventCallbackParameters)
                <==> has_event_qualifier && is_method && has_parameters
            &&& errors.contains(SignatureError::UndefinedEventType)
                <==> has_event_qualifier && is_method && !event_type_found
            &&& errors.contains(SignatureError::MissingSignature) <==> !has_event_qualifier && !has_signature
            &&& errors.no_duplicates()
            &&& has_event_qualifier && !is_method ==> errors.len() == 1
        }),
{
    let errors = spec_callback_errors(is_method, is_static, has_parameters, has_event_qualifier, has_signature,
        event_type_found);
    let a = error_if(has_signature, SignatureError::UnexpectedSignature);
    let b = error_if(is_static, SignatureError::EventCallbackStatic);
    let c = error_if(has_parameters, SignatureError::EventCallbackParameters);
    let d = error_if(!event_type_found, SignatureError::UndefinedEventType);
    let m = error_if(!has_signature, SignatureError::MissingSignature);
    assert forall|x: SignatureError| #[trigger] errors.contains(x) <==> (if has_event_qualifier {
        if is_method {
            (has_signature && x == SignatureError::UnexpectedSignature)
                || (is_static && x == SignatureError::EventCallbackStatic)
                || (has_parameters && x == SignatureError::EventCallbackParameters)
                || (!event_type_found && x == SignatureError::UndefinedEventType)
        } else {
            x == SignatureError::RegularEventCallback
        }
    } else {
        !has_signature && x == SignatureError::MissingSignature
    }) by {
        lemma_error_if_contains(has_signature, SignatureError::UnexpectedSignature, x);
        lemma_error_if_contains(is_static, SignatureError::EventCallbackStatic, x);
        lemma_error_if_contains(has_parameters, SignatureError::EventCallbackParameters, x);
        lemma_error_if_contains(!event_type_found, SignatureError::UndefinedEventType, x);
        lemma_error_if_contains(!has_signature, SignatureError::MissingSignature, x);
        lemma_concat_contains(a, b, x);
        lemma_concat_contains(a + b, c, x);
        lemma_concat_contains(a + b + c, d, x);
        if has_event_qualifier && !is_method {
            assert(errors[0] == SignatureError::RegularEventCallback);
        }
    }
    assert forall|i: int, j: int| 0 <= i < errors.len() && 0 <= j < errors.len() && i != j
        implies errors[i] != errors[j] by {
        if has_event_qualifier && is_method {
            assert(errors =~= a + b + c + d);
        } else if !has_event_qualifier {
            assert(errors =~= m);
        }
    }
}

} // verus!
