//! The signature of a function or method: which qualifiers go with which.
use vstd::prelude::*;

verus! {

/// A qualifier that a function's declaration cannot have.
#[derive(Clone, Copy, Debug, PartialEq, Eq, Structural)]
pub enum SignatureError {
    /// "dynamic methods cannot have parameters"
    DynamicWithParameters,
    /// "dynamic methods cannot be raw wasm"
    DynamicRawWasm,
    /// "regular functions cannot be static"
    RegularStatic,
    /// "regular functions cannot be dynamic"
    RegularDynamic,
    /// "regular functions cannot be autogen"
    RegularAutogen,
    /// "unexpected function signature" (on an event callback)
    UnexpectedSignature,
    /// "event callbacks cannot be static"
    EventCallbackStatic,
    /// "event callbacks cannot have parameters"
    EventCallbackParameters,
    /// "undefined type" (the event that a callback names)
    UndefinedEventType,
    /// "regular functions cannot be event callbacks"
    RegularEventCallback,
    /// "missing function signature"
    MissingSignature,
}

/// `error` when `condition` holds, else nothing.
pub open spec fn error_if(condition: bool, error: SignatureError) -> Seq<SignatureError> {
    if condition {
        seq![error]
    } else {
        Seq::empty()
    }
}

/// The errors of a function's qualifiers, in the order in which they are
/// reported: a method (declared inside a type) that is dynamic takes no type
/// parameters and is not raw wasm; a function outside a type is neither
/// static, dynamic nor autogen.
pub open spec fn spec_signature_errors(
    is_method: bool,
    is_static: bool,
    is_dynamic: bool,
    is_autogen: bool,
    has_parameters: bool,
    is_raw_wasm: bool,
) -> Seq<SignatureError> {
    if is_method {
        error_if(is_dynamic && has_parameters, SignatureError::DynamicWithParameters)
            + error_if(is_dynamic && is_raw_wasm, SignatureError::DynamicRawWasm)
    } else {
        error_if(is_static, SignatureError::RegularStatic)
            + error_if(is_dynamic, SignatureError::RegularDynamic)
            + error_if(is_autogen, SignatureError::RegularAutogen)
    }
}

/// Appends `error` to `errors` when `condition` holds.
pub fn push_error_if(errors: &mut Vec<SignatureError>, condition: bool, error: SignatureError)
    ensures
        final(errors)@ == old(errors)@ + error_if(condition, error),
{
    if condition {
        errors.push(error);
    }
    proof {
        assert(final(errors)@ =~= old(errors)@ + error_if(condition, error));
    }
}

/// The errors of a function's qualifiers (see `spec_signature_errors`).
pub fn signature_errors(
    is_method: bool,
    is_static: bool,
    is_dynamic: bool,
    is_autogen: bool,
    has_parameters: bool,
    is_raw_wasm: bool,
) -> (result: Vec<SignatureError>)
    ensures
        result@ == spec_signature_errors(is_method, is_static, is_dynamic, is_autogen, has_parameters, is_raw_wasm),
{
    let mut errors: Vec<SignatureError> = Vec::new();
    if is_method {
        push_error_if(&mut errors, is_dynamic && has_parameters, SignatureError::DynamicWithParameters);
        push_error_if(&mut errors, is_dynamic && is_raw_wasm, SignatureError::DynamicRawWasm);
    } else {
        push_error_if(&mut errors, is_static, SignatureError::RegularStatic);
        push_error_if(&mut errors, is_dynamic, SignatureError::RegularDynamic);
        push_error_if(&mut errors, is_autogen, SignatureError::RegularAutogen);
    }
    proof {
        assert(errors@ =~= spec_signature_errors(is_method, is_static, is_dynamic, is_autogen, has_parameters, is_raw_wasm));
    }
    errors
}

/// Where a function's declaration puts it.
#[derive(Clone, Copy, Debug, PartialEq, Eq, Structural)]
pub struct MethodShape {
    /// A dynamic method gets a slot in its type's table of dynamic methods.
    pub has_dynamic_index: bool,
    /// A method that is not static takes the object as `self`.
    pub takes_self: bool,
}

/// Where a function's declaration puts it: only methods are dynamic or take `self`.
pub fn method_shape(is_method: bool, is_static: bool, is_dynamic: bool) -> (result: MethodShape)
    ensures
        result.has_dynamic_index == (is_method && is_dynamic),
        result.takes_self == (is_method && !is_static),
{
    MethodShape { has_dynamic_index: is_method && is_dynamic, takes_self: is_method && !is_static }
}

/// A function outside a type is never reported for being dynamic with
/// parameters or raw wasm, and a method never for its qualifiers alone.
pub proof fn law_errors_follow_the_owner(
    is_method: bool,
    is_static: bool,
    is_dynamic: bool,
    is_autogen: bool,
    has_parameters: bool,
    is_raw_wasm: bool,
)
    ensures
        ({
            let errors = spec_signature_errors(is_method, is_static, is_dynamic, is_autogen, has_parameters, is_raw_wasm);
            &&& is_method ==> !errors.contains(SignatureError::RegularStatic) && !errors.contains(SignatureError::RegularDynamic)
                && !errors.contains(SignatureError::RegularAutogen)
            &&& !is_method ==> !errors.contains(SignatureError::DynamicWithParameters)
                && !errors.contains(SignatureError::DynamicRawWasm)
            &&& !is_dynamic && !is_static && !is_autogen ==> errors.len() == 0
        }),
{
    let errors = spec_signature_errors(is_method, is_static, is_dynamic, is_autogen, has_parameters, is_raw_wasm);
    if is_method {
        assert(!errors.contains(SignatureError::RegularStatic));
        assert(!errors.contains(SignatureError::RegularDynamic));
        assert(!errors.contains(SignatureError::RegularAutogen));
    } else {
        assert(!errors.contains(SignatureError::DynamicWithParameters));
        assert(!errors.contains(SignatureError::DynamicRawWasm));
    }
}

pub(crate) proof fn lemma_concat_contains(a: Seq<SignatureError>, b: Seq<SignatureError>, x: SignatureError)
    ensures
        (a + b).contains(x) <==> a.contains(x) || b.contains(x),
{
    if a.contains(x) {
        let i = choose|i: int| 0 <= i < a.len() && a[i] == x;
        assert((a + b)[i] == x);
    }
    if b.contains(x) {
        let i = choose|i: int| 0 <= i < b.len() && b[i] == x;
        assert((a + b)[a.len() + i] == x);
    }
    if (a + b).contains(x) {
        let i = choose|i: int| 0 <= i < (a + b).len() && (a + b)[i] == x;
        if i < a.len() {
            assert(a[i] == x);
        } else {
            assert(b[i - a.len()] == x);
        }
    }
}

pub(crate) proof fn lemma_error_if_contains(condition: bool, error: SignatureError, x: SignatureError)
    ensures
        error_if(condition, error).contains(x) <==> condition && x == error,
        error_if(condition, error).len() <= 1,
{
    if condition {
        assert(error_if(condition, error)[0] == error);
    }
}

/// Each error is reported exactly when the declaration has what it names, and
/// at most once: a function outside a type when it is static, dynamic or
/// autogen; a dynamic method when it takes type parameters or is raw wasm.
pub proof fn law_signature_error_conditions(
    is_method: bool,
    is_static: bool,
    is_dynamic: bool,
    is_autogen: bool,
    has_parameters: bool,
    is_raw_wasm: bool,
)
    ensures
        ({
            let errors = spec_signature_errors(is_method, is_static, is_dynamic, is_autogen, has_parameters, is_raw_wasm);
            &&& errors.contains(SignatureError::RegularStatic) <==> !is_method && is_static
            &&& errors.contains(SignatureError::RegularDynamic) <==> !is_method && is_dynamic
            &&& errors.contains(SignatureError::RegularAutogen) <==> !is_method && is_autogen
            &&& errors.contains(SignatureError::DynamicWithParameters) <==> is_method && is_dynamic && has_parameters
            &&& errors.contains(SignatureError::DynamicRawWasm) <==> is_method && is_dynamic && is_raw_wasm
            &&& errors.no_duplicates()
            &&& forall|x: SignatureError| #[trigger] errors.contains(x) ==> x == SignatureError::RegularStatic
                || x == SignatureError::RegularDynamic || x == SignatureError::RegularAutogen
                || x == SignatureError::DynamicWithParameters || x == SignatureError::DynamicRawWasm
        }),
{
    let errors = spec_signature_errors(is_method, is_static, is_dynamic, is_autogen, has_parameters, is_raw_wasm);
    let a = error_if(is_dynamic && has_parameters, SignatureError::DynamicWithParameters);
    let b = error_if(is_dynamic && is_raw_wasm, SignatureError::DynamicRawWasm);
    let c = error_if(is_static, SignatureError::RegularStatic);
    let d = error_if(is_dynamic, SignatureError::RegularDynamic);
    let e = error_if(is_autogen, SignatureError::RegularAutogen);
    assert forall|x: SignatureError| #[trigger] errors.contains(x) <==> (if is_method {
        (is_dynamic && has_parameters && x == SignatureError::DynamicWithParameters)
            || (is_dynamic && is_raw_wasm && x == SignatureError::DynamicRawWasm)
    } else {
        (is_static && x == SignatureError::RegularStatic) || (is_dynamic && x == SignatureError::RegularDynamic)
            || (is_autogen && x == SignatureError::RegularAutogen)
    }) by {
        lemma_error_if_contains(is_dynamic && has_parameters, SignatureError::DynamicWithParameters, x);
        lemma_error_if_contains(is_dynamic && is_raw_wasm, SignatureError::DynamicRawWasm, x);
        lemma_error_if_contains(is_static, SignatureError::RegularStatic, x);
        lemma_error_if_contains(is_dynamic, SignatureError::RegularDynamic, x);
        lemma_error_if_contains(is_autogen, SignatureError::RegularAutogen, x);
        lemma_concat_contains(a, b, x);
        lemma_concat_contains(c, d, x);
        lemma_concat_contains(c + d, e, x);
    }
    assert forall|i: int, j: int| 0 <= i < errors.len() && 0 <= j < errors.len() && i != j
        implies errors[i] != errors[j] by {
        if is_method {
            assert(errors =~= a + b);
        } else {
            assert(errors =~= c + d + e);
        }
    }
}

} // verus!
