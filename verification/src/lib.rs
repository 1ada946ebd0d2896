//! Rewrites an asynchronous test function into a synchronous test case that
//! drives it to completion on an executor.
//!
//! The crate works on source text and does not parse. The caller hands it the
//! declaration as text together with what the Rust parser made of it, a
//! [`Signature`] or the parser's diagnostic. [`generate`] instantiates the
//! wrapper around a declaration, and [`async_test`] and
//! [`async_current_thread_test`] rewrite a declaration for one executor each.

use vstd::prelude::*;

pub mod declaration;
pub mod template;

pub use declaration::{
    declaration_of, outcome_view, parsed_view, DeclarationView, MalformedInputError, Signature,
    SignatureView, TestDeclaration,
};
pub use template::{
    executor_imports, generate, generated_source, holds_at, starts_with, test_marker,
    wrapper_header, wrapper_opening, ExecutorMode,
};

verus! {

/// The outcome of rewriting `input` for the executor of `mode`, where the
/// parser has made `parsed` of it: the generated test case for the parsed name,
/// or the parser's diagnostic.
pub open spec fn expansion(
    input: Seq<char>,
    parsed: Result<SignatureView, Seq<char>>,
    mode: ExecutorMode,
) -> Result<Seq<char>, Seq<char>> {
    match parsed {
        Ok(signature) => Ok(generated_source(signature.name, input, mode)),
        Err(message) => Err(message),
    }
}

/// The value of a generated text or of the error in its place.
pub open spec fn expanded_view(outcome: Result<String, MalformedInputError>) -> Result<
    Seq<char>,
    Seq<char>,
> {
    match outcome {
        Ok(text) => Ok(text@),
        Err(error) => Err(error@),
    }
}

/// Rewrites the declaration `input`, of which the parser has made `parsed`,
/// into a test case that runs it on the executor of `mode`. Where the parser
/// accepted the declaration, the test case is generated around `input` under
/// the parsed name; where it did not, its diagnostic is the error.
pub fn expand_parsed(input: &str, parsed: Result<Signature, String>, mode: ExecutorMode) -> (outcome:
    Result<String, MalformedInputError>)
    ensures
        expanded_view(outcome) == expansion(input@, parsed_view(parsed), mode),
{
    match TestDeclaration::from_parsed(input, parsed) {
        Ok(declaration) => Ok(generate(&declaration, mode)),
        Err(error) => Err(error),
    }
}

/// Rewrites the asynchronous function `input`, of which the parser has made
/// `parsed`, into a test case that runs it on a pool of worker threads. The
/// attribute's own arguments are not read.
pub fn async_test(_attr: &str, input: &str, parsed: Result<Signature, String>) -> (outcome: Result<
    String,
    MalformedInputError,
>)
    ensures
        expanded_view(outcome) == expansion(
            input@,
            parsed_view(parsed),
            ExecutorMode::MultiThreaded,
        ),
{
    expand_parsed(input, parsed, ExecutorMode::MultiThreaded)
}

/// Rewrites the asynchronous function `input`, of which the parser has made
/// `parsed`, into a test case that runs it on the thread of the test case. The
/// attribute's own arguments are not read.
pub fn async_current_thread_test(
    _attr: &str,
    input: &str,
    parsed: Result<Signature, String>,
) -> (outcome: Result<String, MalformedInputError>)
    ensures
        expanded_view(outcome) == expansion(
            input@,
            parsed_view(parsed),
            ExecutorMode::CurrentThread,
        ),
{
    expand_parsed(input, parsed, ExecutorMode::CurrentThread)
}

/// Rewriting succeeds exactly where the parser accepted the input, whatever the
/// mode; where it did not, rewriting fails with the parser's diagnostic.
pub proof fn lemma_expansion_fails_exactly_on_malformed_input(
    input: Seq<char>,
    parsed: Result<SignatureView, Seq<char>>,
    mode: ExecutorMode,
)
    ensures
        expansion(input, parsed, mode) is Ok <==> parsed is Ok,
        parsed is Err ==> expansion(input, parsed, mode) == Err::<Seq<char>, Seq<char>>(
            parsed->Err_0,
        ),
{
}

/// For every declaration that the parser accepted, the generated test case
/// carries the test marker and the declared name, takes no parameters, and
/// holds the declaration nested in it, character for character.
pub proof fn lemma_expansion_defines_named_test(
    input: Seq<char>,
    signature: SignatureView,
    mode: ExecutorMode,
)
    ensures
        expansion(input, Ok(signature), mode) is Ok,
        starts_with(expansion(input, Ok(signature), mode)->Ok_0, test_marker()),
        starts_with(expansion(input, Ok(signature), mode)->Ok_0, wrapper_header(signature.name)),
        holds_at(
            expansion(input, Ok(signature), mode)->Ok_0,
            (wrapper_header(signature.name) + wrapper_opening() + executor_imports(mode)).len() as int,
            input,
        ),
{
    template::lemma_generated_test_is_named_and_marked(signature.name, input, mode);
}

/// Rewriting is a function of the declaration, of what the parser made of it
/// and of the mode: where these are the same, so is the outcome, whatever the
/// attribute's arguments and whatever was rewritten before.
pub proof fn lemma_expansion_is_deterministic(
    first: &str,
    second: &str,
    first_parsed: Result<Signature, String>,
    second_parsed: Result<Signature, String>,
    mode: ExecutorMode,
)
    requires
        first@ == second@,
        parsed_view(first_parsed) == parsed_view(second_parsed),
    ensures
        expansion(first@, parsed_view(first_parsed), mode) == expansion(
            second@,
            parsed_view(second_parsed),
            mode,
        ),
{
}

} // verus!
