//! The declaration of a test function, as the Rust parser reports it to the
//! caller.

use vstd::prelude::*;
use vstd::string::*;

verus! {

/// What the parser reports of a function declaration.
#[derive(Clone, Debug, PartialEq, Eq)]
pub struct Signature {
    /// The identifier of the function.
    pub name: String,
    /// Whether the declaration carries the `async` qualifier.
    pub is_async: bool,
}

/// The mathematical value of a [`Signature`].
pub struct SignatureView {
    pub name: Seq<char>,
    pub is_async: bool,
}

impl View for Signature {
    type V = SignatureView;

    open spec fn view(&self) -> SignatureView {
        SignatureView { name: self.name@, is_async: self.is_async }
    }
}

/// A function declaration together with the text it was read from.
#[derive(Clone, Debug, PartialEq, Eq)]
pub struct TestDeclaration {
    /// The identifier of the function.
    pub name: String,
    /// The declaration, character for character.
    pub source: String,
    /// Whether the declaration carries the `async` qualifier.
    pub is_async: bool,
}

/// The mathematical value of a [`TestDeclaration`].
pub struct DeclarationView {
    pub name: Seq<char>,
    pub source: Seq<char>,
    pub is_async: bool,
}

impl View for TestDeclaration {
    type V = DeclarationView;

    open spec fn view(&self) -> DeclarationView {
        DeclarationView { name: self.name@, source: self.source@, is_async: self.is_async }
    }
}

/// The input is not a function declaration.
#[derive(Clone, Debug, PartialEq, Eq)]
pub struct MalformedInputError {
    /// The parser's diagnostic.
    pub message: String,
}

impl View for MalformedInputError {
    type V = Seq<char>;

    open spec fn view(&self) -> Seq<char> {
        self.message@
    }
}

/// The declaration that `input` stands for, where the parser has made `parsed`
/// of it.
pub open spec fn declaration_of(input: Seq<char>, parsed: Result<SignatureView, Seq<char>>) -> Result<
    DeclarationView,
    Seq<char>,
> {
    match parsed {
        Ok(signature) => Ok(
            DeclarationView { name: signature.name, source: input, is_async: signature.is_async },
        ),
        Err(message) => Err(message),
    }
}

/// The value of what the parser made of a text.
pub open spec fn parsed_view(parsed: Result<Signature, String>) -> Result<SignatureView, Seq<char>> {
    match parsed {
        Ok(signature) => Ok(signature@),
        Err(message) => Err(message@),
    }
}

/// The value of a declaration or of the error in its place.
pub open spec fn outcome_view(outcome: Result<TestDeclaration, MalformedInputError>) -> Result<
    DeclarationView,
    Seq<char>,
> {
    match outcome {
        Ok(declaration) => Ok(declaration@),
        Err(error) => Err(error@),
    }
}

impl TestDeclaration {
    /// Makes the declaration of `input` from what the parser made of it: the
    /// parsed name and qualifier with `input` as the source, or the parser's
    /// diagnostic as the error.
    pub fn from_parsed(input: &str, parsed: Result<Signature, String>) -> (outcome: Result<
        TestDeclaration,
        MalformedInputError,
    >)
        ensures
            outcome_view(outcome) == declaration_of(input@, parsed_view(parsed)),
    {
        match parsed {
            Ok(signature) => Ok(
                TestDeclaration {
                    name: signature.name,
                    source: String::from_str(input),
                    is_async: signature.is_async,
                },
            ),
            Err(message) => Err(MalformedInputError { message }),
        }
    }
}

} // verus!
