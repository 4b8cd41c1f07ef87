//! One run of a script: from the script's text to the text it generates, or
//! to the message that says why there is none.

use vstd::prelude::*;
use std::path::PathBuf;
use rhai::{Engine, EvalAltResult, Scope};
use crate::capabilities::Listing;
use crate::diagnostics::{diagnostic, handle_runtime_error};
use crate::failure::Failure;
use crate::position::Position;
use crate::sandbox::get_default_engine;
use crate::scope::build_scope;

verus! {

/// What the interpreter hands back when a run fails.
#[verifier::external_type_specification]
#[verifier::external_body]
pub struct ExEvalAltResult(EvalAltResult);

/// `Engine::eval_with_scope`, asked for a text: runs the script to its end
/// with the variables of `scope`. What comes back depends on the script, on
/// the engine and on whatever the script reads while it runs, so nothing is
/// claimed of it. A script whose last value is no text fails. There is no
/// time limit: the call returns when the script ends, and a script that
/// never ends keeps it.
#[verifier::external_body]
fn eval_with_scope(engine: &Engine, scope: &mut Scope, script: &str) -> (outcome: Result<
    String,
    Box<EvalAltResult>,
>) {
    engine.eval_with_scope::<String>(scope, script)
}

/// Reads a failure of the interpreter into the library's own form: what
/// `Display` writes of it, the line and column of `EvalAltResult::position`,
/// and, for a failure in a module or in a function call, the failure inside
/// it, read in the same way.
#[verifier::external_body]
fn failure_of(error: &EvalAltResult) -> (failure: Failure) {
    let description = error.to_string();
    let place = error.position();
    let position = Position { line: place.line(), column: place.position() };
    match error {
        EvalAltResult::ErrorInModule(_, inner, _) => {
            Failure::InModule { description, position, cause: Box::new(failure_of(inner)) }
        },
        EvalAltResult::ErrorInFunctionCall(_, _, inner, _) => {
            Failure::InFunctionCall { description, position, cause: Box::new(failure_of(inner)) }
        },
        _ => Failure::Other { description, position },
    }
}

/// Runs `script` in `engine` with the variables of `scope`, and hands back
/// the text that the script ends with, or how it failed.
pub fn evaluate(engine: &Engine, scope: &mut Scope, script: &str) -> (outcome: Result<
    String,
    Failure,
>) {
    match eval_with_scope(engine, scope, script) {
        Ok(text) => Ok(text),
        Err(error) => Err(failure_of(&*error)),
    }
}

/// What a run comes to, given how the interpreter ended: the generated text
/// as it is, or the message for the failure.
pub open spec fn concluded(source: Seq<char>, outcome: Result<String, Failure>) -> Result<
    Seq<char>,
    Seq<char>,
> {
    match outcome {
        Ok(text) => Ok(text@),
        Err(failure) => Err(diagnostic(source, failure)),
    }
}

/// The text of a result, on either side.
pub open spec fn result_text(result: Result<String, String>) -> Result<Seq<char>, Seq<char>> {
    match result {
        Ok(text) => Ok(text@),
        Err(message) => Err(message@),
    }
}

/// Ends a run: hands the generated text on, or writes the message that
/// shows where in `script_source` the run failed.
pub fn conclude(script_source: &str, outcome: Result<String, Failure>) -> (generated: Result<
    String,
    String,
>)
    ensures
        result_text(generated) == concluded(script_source@, outcome),
{
    match outcome {
        Ok(text) => Ok(text),
        Err(failure) => Err(handle_runtime_error(script_source, &failure)),
    }
}

/// Whether `generated` is what some run of `source` can come to: any text
/// at all, or the message for some failure.
pub open spec fn comes_of_a_run(source: Seq<char>, generated: Result<String, String>) -> bool {
    generated matches Err(message) ==> exists|failure: Failure|
        message@ == #[trigger] diagnostic(source, failure)
}

/// Runs a script that stands alone, in an engine of its own, and hands back
/// the text it generates or the message that says where it failed. `glob`
/// searches the file system where the script asks for it.
pub fn run_script<G>(script_source: &str, glob: G) -> (generated: Result<String, String>) where
    G: Fn(&str) -> Listing<PathBuf> + 'static,

    requires
        forall|pattern: &str| call_requires(glob, (pattern,)),
    ensures
        comes_of_a_run(script_source@, generated),
{
    let engine = get_default_engine(glob);
    let mut scope = build_scope(None);
    let outcome = evaluate(&engine, &mut scope, script_source);
    conclude(script_source, outcome)
}

/// Runs a script that is attached to an item, in an engine of its own. The
/// script finds the item's text under the name `item`.
pub fn run_script_on<G>(script_source: &str, item: &str, glob: G) -> (generated: Result<
    String,
    String,
>) where G: Fn(&str) -> Listing<PathBuf> + 'static
    requires
        forall|pattern: &str| call_requires(glob, (pattern,)),
    ensures
        comes_of_a_run(script_source@, generated),
{
    let engine = get_default_engine(glob);
    let mut scope = build_scope(Some(item));
    let outcome = evaluate(&engine, &mut scope, script_source);
    conclude(script_source, outcome)
}

} // verus!
