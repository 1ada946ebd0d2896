//! The wrapper template: the text that surrounds a declaration, piece by piece,
//! and the function that puts the pieces together.

use vstd::prelude::*;
use vstd::string::*;
use crate::declaration::TestDeclaration;

verus! {

/// The executor that the generated test case drives the declaration on.
#[derive(Clone, Copy, Debug, PartialEq, Eq, Structural)]
pub enum ExecutorMode {
    /// A pool of worker threads: `futures::executor::ThreadPool`.
    MultiThreaded,
    /// The thread that runs the test case: `futures::executor::LocalPool`.
    CurrentThread,
}

/// The attribute by which the test framework recognises a test case.
pub open spec fn test_marker() -> Seq<char> {
    "#[test]\n"@
}

/// The marker and the signature of the test case called `name`.
pub open spec fn wrapper_header(name: Seq<char>) -> Seq<char> {
    test_marker() + "fn "@ + name + "()"@
}

/// The result type of the test case and the brace that opens its body. The test
/// case returns what the computation returns, so that a failure value fails it.
pub open spec fn wrapper_opening() -> Seq<char> {
    " -> impl std::process::Termination {\n"@
}

/// The lines that bring the executor of `mode` into the scope of the test case.
pub open spec fn executor_imports(mode: ExecutorMode) -> Seq<char> {
    match mode {
        ExecutorMode::MultiThreaded =>
            "    use futures::executor::ThreadPool;\n    use futures::task::SpawnExt;\n"@,
        ExecutorMode::CurrentThread => "    use futures::executor::LocalPool;\n"@,
    }
}

/// What stands before the call of the nested function: the executor of `mode`
/// is constructed and handed the computation that the call returns.
pub open spec fn drive_prefix(mode: ExecutorMode) -> Seq<char> {
    match mode {
        ExecutorMode::MultiThreaded =>
            "    futures::executor::block_on(ThreadPool::new().unwrap().spawn_with_handle("@,
        ExecutorMode::CurrentThread => "    LocalPool::new().run_until("@,
    }
}

/// What stands behind the call of the nested function. Nothing catches a
/// failure: the value or the panic of the computation is that of the test case.
pub open spec fn drive_suffix(mode: ExecutorMode) -> Seq<char> {
    match mode {
        ExecutorMode::MultiThreaded => ").unwrap())\n"@,
        ExecutorMode::CurrentThread => ")\n"@,
    }
}

/// The statement that constructs the executor of `mode`, calls the nested
/// function `name` and blocks until the computation is done.
pub open spec fn drive_statement(name: Seq<char>, mode: ExecutorMode) -> Seq<char> {
    drive_prefix(mode) + name + "()"@ + drive_suffix(mode)
}

/// The body of the test case: the imports, the declaration `source` as it was
/// given, and the statement that drives it.
pub open spec fn wrapper_body(name: Seq<char>, source: Seq<char>, mode: ExecutorMode) -> Seq<char> {
    executor_imports(mode) + source + "\n"@ + drive_statement(name, mode)
}

/// The test case generated for the declaration `source` of a function called
/// `name`, to run on the executor of `mode`.
pub open spec fn generated_source(name: Seq<char>, source: Seq<char>, mode: ExecutorMode) -> Seq<char> {
    wrapper_header(name) + wrapper_opening() + wrapper_body(name, source, mode) + "}\n"@
}

/// `text` begins with `prefix`.
pub open spec fn starts_with(text: Seq<char>, prefix: Seq<char>) -> bool {
    prefix.len() <= text.len() && text.subrange(0, prefix.len() as int) == prefix
}

/// `part` stands in `text` from position `at` on.
pub open spec fn holds_at(text: Seq<char>, at: int, part: Seq<char>) -> bool {
    0 <= at && at + part.len() <= text.len() && text.subrange(at, at + part.len()) == part
}

fn executor_imports_text(mode: ExecutorMode) -> (text: &'static str)
    ensures
        text@ == executor_imports(mode),
{
    match mode {
        ExecutorMode::MultiThreaded =>
            "    use futures::executor::ThreadPool;\n    use futures::task::SpawnExt;\n",
        ExecutorMode::CurrentThread => "    use futures::executor::LocalPool;\n",
    }
}

fn drive_prefix_text(mode: ExecutorMode) -> (text: &'static str)
    ensures
        text@ == drive_prefix(mode),
{
    match mode {
        ExecutorMode::MultiThreaded =>
            "    futures::executor::block_on(ThreadPool::new().unwrap().spawn_with_handle(",
        ExecutorMode::CurrentThread => "    LocalPool::new().run_until(",
    }
}

fn drive_suffix_text(mode: ExecutorMode) -> (text: &'static str)
    ensures
        text@ == drive_suffix(mode),
{
    match mode {
        ExecutorMode::MultiThreaded => ").unwrap())\n",
        ExecutorMode::CurrentThread => ")\n",
    }
}

/// Generates the test case for `declaration`: a function of the same name,
/// marked as a test, in which the declaration is nested as it was given and
/// driven to completion on the executor of `mode`.
pub fn generate(declaration: &TestDeclaration, mode: ExecutorMode) -> (text: String)
    ensures
        text@ == generated_source(declaration@.name, declaration@.source, mode),
{
    let name = declaration.name.as_str();
    let mut text = String::from_str("#[test]\n");
    text.append("fn ");
    text.append(name);
    text.append("()");
    text.append(" -> impl std::process::Termination {\n");
    text.append(executor_imports_text(mode));
    text.append(declaration.source.as_str());
    text.append("\n");
    text.append(drive_prefix_text(mode));
    text.append(name);
    text.append("()");
    text.append(drive_suffix_text(mode));
    text.append("}\n");
    assert(text@ =~= generated_source(declaration@.name, declaration@.source, mode));
    text
}

/// Every generated test case is a function of the declaration's own name that
/// the test framework recognises: its text begins with the test marker, then
/// `fn`, the name and an empty parameter list. Behind the imports it holds the
/// declaration as it was given, behind that the statement that calls the
/// nested function and drives it, and behind that only the closing brace.
pub proof fn lemma_generated_test_is_named_and_marked(
    name: Seq<char>,
    source: Seq<char>,
    mode: ExecutorMode,
)
    ensures
        starts_with(generated_source(name, source, mode), test_marker()),
        starts_with(generated_source(name, source, mode), wrapper_header(name)),
        holds_at(
            generated_source(name, source, mode),
            (wrapper_header(name) + wrapper_opening() + executor_imports(mode)).len() as int,
            source,
        ),
        holds_at(
            generated_source(name, source, mode),
            (wrapper_header(name) + wrapper_opening() + executor_imports(mode) + source + "\n"@).len() as int,
            drive_statement(name, mode),
        ),
        generated_source(name, source, mode) == wrapper_header(name) + wrapper_opening()
            + executor_imports(mode) + source + "\n"@ + drive_statement(name, mode) + "}\n"@,
{
    let text = generated_source(name, source, mode);
    let header = wrapper_header(name);
    let before_source = header + wrapper_opening() + executor_imports(mode);
    let before_drive = before_source + source + "\n"@;
    let drive = drive_statement(name, mode);
    assert(text =~= before_drive + drive + "}\n"@);
    assert(text.subrange(0, test_marker().len() as int) =~= test_marker());
    assert(text.subrange(0, header.len() as int) =~= header);
    assert(text.subrange(before_source.len() as int, (before_source.len() + source.len()) as int)
        =~= source);
    assert(text.subrange(before_drive.len() as int, (before_drive.len() + drive.len()) as int) =~= drive);
}

/// Generation is a function of its inputs: declarations of equal value give,
/// for one mode, the same text, however often it is asked for.
pub proof fn lemma_generation_is_deterministic(
    first: TestDeclaration,
    second: TestDeclaration,
    mode: ExecutorMode,
)
    requires
        first@ == second@,
    ensures
        generated_source(first@.name, first@.source, mode) == generated_source(
            second@.name,
            second@.source,
            mode,
        ),
{
}

/// The two executors give different test cases for every declaration.
pub proof fn lemma_modes_differ(name: Seq<char>, source: Seq<char>)
    ensures
        generated_source(name, source, ExecutorMode::MultiThreaded) != generated_source(
            name,
            source,
            ExecutorMode::CurrentThread,
        ),
{
    reveal_strlit("    use futures::executor::ThreadPool;\n    use futures::task::SpawnExt;\n");
    reveal_strlit("    use futures::executor::LocalPool;\n");
    reveal_strlit(
        "    futures::executor::block_on(ThreadPool::new().unwrap().spawn_with_handle(",
    );
    reveal_strlit("    LocalPool::new().run_until(");
    reveal_strlit(").unwrap())\n");
    reveal_strlit(")\n");
    let multi = generated_source(name, source, ExecutorMode::MultiThreaded);
    let current = generated_source(name, source, ExecutorMode::CurrentThread);
    assert(multi.len() > current.len());
}

} // verus!
