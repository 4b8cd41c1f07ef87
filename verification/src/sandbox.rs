//! The interpreter that scripts run in: its limits, and the host functions
//! that a script can call by name.

use vstd::prelude::*;
use std::path::PathBuf;
use rhai::packages::Package;
use rhai::{Dynamic, Engine, EvalAltResult, ImmutableString};
use rhai_fs::FilesystemPackage;
use crate::capabilities::{
    helper_basename,
    helper_glob,
    helper_parse_json,
    helper_parse_yaml,
    helper_stringify_json,
    helper_stringify_yaml,
    path_text,
    Listing,
};
use crate::slug::helper_slugify_ident;

verus! {

/// The interpreter. The library sets it up and hands scripts to it, and
/// knows of it only what the names below say.
#[verifier::external_type_specification]
#[verifier::external_body]
pub struct ExEngine(Engine);

/// The names under which an engine holds functions that any script it runs
/// can call without a namespace: those of its global namespace and of the
/// packages registered with it.
pub uninterp spec fn registered_functions(engine: Engine) -> Set<Seq<char>>;

/// The kinds of value that pass between a script and a host function.
#[derive(Clone, Copy, Debug, PartialEq, Eq, Structural)]
pub enum ValueKind {
    /// A text.
    Text,
    /// A value of the scripting language, of whatever type.
    Value,
    /// A path of the file system.
    Path,
    /// Paths of the file system, in order.
    Paths,
}

/// The host functions of one parameter that were registered with an engine
/// itself, in its global namespace: for the name and the kind of the
/// parameter, the kind of what the function hands back. A function
/// registered later under the same name and for the same parameter takes
/// the place of the earlier one. What a package brings is not among them.
pub uninterp spec fn host_functions(engine: Engine) -> Map<(Seq<char>, ValueKind), ValueKind>;

/// How deeply expressions may nest at the top level of a script, zero for
/// no limit: what `Engine::max_expr_depth` returns.
pub uninterp spec fn expr_depth_limit(engine: Engine) -> nat;

/// How deeply expressions may nest inside functions of a script, zero for
/// no limit: what `Engine::max_function_expr_depth` returns.
pub uninterp spec fn function_expr_depth_limit(engine: Engine) -> nat;

/// `Engine::new` makes an engine with the standard functions of the
/// language. Nothing is claimed of its limits or of what it holds.
pub assume_specification[ Engine::new ]() -> (engine: Engine);

/// `Engine::set_max_expr_depths` stores the two limits, which the getters
/// then return as they were given, and touches nothing else.
#[verifier::external_body]
fn set_max_expr_depths(engine: &mut Engine, max_expr_depth: usize, max_function_expr_depth: usize)
    ensures
        expr_depth_limit(*final(engine)) == max_expr_depth,
        function_expr_depth_limit(*final(engine)) == max_function_expr_depth,
        registered_functions(*final(engine)) == registered_functions(*old(engine)),
        host_functions(*final(engine)) == host_functions(*old(engine)),
{
    engine.set_max_expr_depths(max_expr_depth, max_function_expr_depth);
}

/// `Engine::register_fn` for a function from text to text: the engine then
/// holds the function under `name` in its global namespace, for a text as
/// the parameter, beside what it held, with its limits as they were. The
/// engine may call the function with any text.
#[verifier::external_body]
fn register_text_fn<F: Fn(&str) -> String + 'static>(engine: &mut Engine, name: &str, capability: F)
    requires
        forall|input: &str| call_requires(capability, (input,)),
    ensures
        host_functions(*final(engine)) == host_functions(*old(engine)).insert(
            (name@, ValueKind::Text),
            ValueKind::Text,
        ),
        registered_functions(*final(engine)) == registered_functions(*old(engine)).insert(name@),
        expr_depth_limit(*final(engine)) == expr_depth_limit(*old(engine)),
        function_expr_depth_limit(*final(engine)) == function_expr_depth_limit(*old(engine)),
{
    engine.register_fn(name, move |input: ImmutableString| -> ImmutableString {
        capability(input.as_str()).into()
    });
}

/// `Engine::register_fn` for a function from text to a value that may fail:
/// the engine then holds the function under `name` in its global namespace,
/// beside what it held, with its limits as they were. A failure reaches the
/// script as a runtime error that holds the text.
#[verifier::external_body]
fn register_parse_fn<F: Fn(&str) -> Result<Dynamic, String> + 'static>(
    engine: &mut Engine,
    name: &str,
    capability: F,
)
    requires
        forall|input: &str| call_requires(capability, (input,)),
    ensures
        host_functions(*final(engine)) == host_functions(*old(engine)).insert(
            (name@, ValueKind::Text),
            ValueKind::Value,
        ),
        registered_functions(*final(engine)) == registered_functions(*old(engine)).insert(name@),
        expr_depth_limit(*final(engine)) == expr_depth_limit(*old(engine)),
        function_expr_depth_limit(*final(engine)) == function_expr_depth_limit(*old(engine)),
{
    engine.register_fn(name, move |input: ImmutableString| -> Result<Dynamic, Box<EvalAltResult>> {
        capability(input.as_str()).map_err(Into::into)
    });
}

/// `Engine::register_fn` for a function from a value to text that may fail:
/// the engine then holds the function under `name` in its global namespace,
/// beside what it held, with its limits as they were. A failure reaches the
/// script as a runtime error that holds the text.
#[verifier::external_body]
fn register_stringify_fn<F: Fn(Dynamic) -> Result<String, String> + 'static>(
    engine: &mut Engine,
    name: &str,
    capability: F,
)
    requires
        forall|input: Dynamic| call_requires(capability, (input,)),
    ensures
        host_functions(*final(engine)) == host_functions(*old(engine)).insert(
            (name@, ValueKind::Value),
            ValueKind::Text,
        ),
        registered_functions(*final(engine)) == registered_functions(*old(engine)).insert(name@),
        expr_depth_limit(*final(engine)) == expr_depth_limit(*old(engine)),
        function_expr_depth_limit(*final(engine)) == function_expr_depth_limit(*old(engine)),
{
    engine.register_fn(name, move |input: Dynamic| -> Result<ImmutableString, Box<EvalAltResult>> {
        capability(input).map(Into::into).map_err(Into::into)
    });
}

/// `Engine::register_fn` for a function from text to paths that may fail:
/// the engine then holds the function under `name` in its global namespace,
/// beside what it held, with its limits as they were. A script gets the
/// paths as an array, and a failure as a runtime error that holds the text.
#[verifier::external_body]
fn register_paths_fn<F: Fn(&str) -> Result<Vec<PathBuf>, String> + 'static>(
    engine: &mut Engine,
    name: &str,
    capability: F,
)
    requires
        forall|input: &str| call_requires(capability, (input,)),
    ensures
        host_functions(*final(engine)) == host_functions(*old(engine)).insert(
            (name@, ValueKind::Text),
            ValueKind::Paths,
        ),
        registered_functions(*final(engine)) == registered_functions(*old(engine)).insert(name@),
        expr_depth_limit(*final(engine)) == expr_depth_limit(*old(engine)),
        function_expr_depth_limit(*final(engine)) == function_expr_depth_limit(*old(engine)),
{
    engine.register_fn(name, move |input: ImmutableString| -> Result<Dynamic, Box<EvalAltResult>> {
        capability(input.as_str()).map(Into::into).map_err(Into::into)
    });
}

/// `Engine::register_fn` for a function from a path to text that may fail:
/// the engine then holds the function under `name` in its global namespace,
/// beside what it held, with its limits as they were. A failure reaches the
/// script as a runtime error that holds the text.
#[verifier::external_body]
fn register_path_fn<F: Fn(PathBuf) -> Result<String, String> + 'static>(
    engine: &mut Engine,
    name: &str,
    capability: F,
)
    requires
        forall|input: PathBuf| call_requires(capability, (input,)),
    ensures
        host_functions(*final(engine)) == host_functions(*old(engine)).insert(
            (name@, ValueKind::Path),
            ValueKind::Text,
        ),
        registered_functions(*final(engine)) == registered_functions(*old(engine)).insert(name@),
        expr_depth_limit(*final(engine)) == expr_depth_limit(*old(engine)),
        function_expr_depth_limit(*final(engine)) == function_expr_depth_limit(*old(engine)),
{
    engine.register_fn(name, move |input: PathBuf| -> Result<ImmutableString, Box<EvalAltResult>> {
        capability(input).map(Into::into).map_err(Into::into)
    });
}

/// `FilesystemPackage::new` and `Package::register_into_engine`: the engine
/// then holds the package's functions for paths, files and directories
/// beside what it held, among them `open_file` and `read_string`, with its
/// limits and what was registered with the engine itself as they were.
#[verifier::external_body]
fn register_filesystem(engine: &mut Engine)
    ensures
        registered_functions(*old(engine)).subset_of(registered_functions(*final(engine))),
        registered_functions(*final(engine)).contains("open_file"@),
        registered_functions(*final(engine)).contains("read_string"@),
        host_functions(*final(engine)) == host_functions(*old(engine)),
        expr_depth_limit(*final(engine)) == expr_depth_limit(*old(engine)),
        function_expr_depth_limit(*final(engine)) == function_expr_depth_limit(*old(engine)),
{
    FilesystemPackage::new().register_into_engine(engine);
}

/// How deeply the expressions of a script may nest, at its top level and
/// inside its functions alike.
pub const MAX_EXPR_DEPTH: usize = 100;

/// The names of the host functions that every engine made here holds. They
/// are what scripts are written against and do not change.
pub open spec fn capability_names() -> Set<Seq<char>> {
    set![
        "parse_yaml"@,
        "parse_json"@,
        "stringify_yaml"@,
        "stringify_json"@,
        "slugify_ident"@,
        "glob"@,
        "basename"@,
    ]
}

/// The names of the functions with which a script opens a file and reads
/// its text.
pub open spec fn file_function_names() -> Set<Seq<char>> {
    set!["open_file"@, "read_string"@]
}

/// Whether an engine holds, under `name` and for a parameter of the kind
/// `parameter`, a host function that hands back a value of the kind
/// `result`.
pub open spec fn answers(
    engine: Engine,
    name: Seq<char>,
    parameter: ValueKind,
    result: ValueKind,
) -> bool {
    host_functions(engine).contains_pair((name, parameter), result)
}

/// Whether an engine holds every host function under its name, for what it
/// takes and what it hands back: the parsers from text to a value, the
/// writers from a value to text, the search from text to paths, the name
/// of a path from a path to text, and the maker of identifiers from text to
/// text.
pub open spec fn answers_by_the_table(engine: Engine) -> bool {
    &&& answers(engine, "parse_yaml"@, ValueKind::Text, ValueKind::Value)
    &&& answers(engine, "parse_json"@, ValueKind::Text, ValueKind::Value)
    &&& answers(engine, "stringify_yaml"@, ValueKind::Value, ValueKind::Text)
    &&& answers(engine, "stringify_json"@, ValueKind::Value, ValueKind::Text)
    &&& answers(engine, "slugify_ident"@, ValueKind::Text, ValueKind::Text)
    &&& answers(engine, "glob"@, ValueKind::Text, ValueKind::Paths)
    &&& answers(engine, "basename"@, ValueKind::Path, ValueKind::Text)
}

/// Makes an engine of its own for one run: with both nesting limits set to
/// `MAX_EXPR_DEPTH`, with every host function under its name, each for the
/// kind of value it takes and hands back, and with the functions for files.
///
/// The library does not search the file system itself: `glob` does, for
/// the pattern it is given, and the host function of that name hands a
/// script what `helper_glob` makes of the search.
pub fn get_default_engine<G>(glob: G) -> (engine: Engine) where
    G: Fn(&str) -> Listing<PathBuf> + 'static,

    requires
        forall|pattern: &str| call_requires(glob, (pattern,)),
    ensures
        expr_depth_limit(engine) == MAX_EXPR_DEPTH,
        function_expr_depth_limit(engine) == MAX_EXPR_DEPTH,
        capability_names().subset_of(registered_functions(engine)),
        file_function_names().subset_of(registered_functions(engine)),
        answers_by_the_table(engine),
{
    proof {
        reveal_strlit("parse_yaml");
        reveal_strlit("parse_json");
        reveal_strlit("slugify_ident");
        reveal_strlit("glob");
        assert("parse_yaml"@.len() == 10 && "parse_json"@.len() == 10);
        assert("slugify_ident"@.len() == 13 && "glob"@.len() == 4);
    }
    let mut engine = Engine::new();

    set_max_expr_depths(&mut engine, MAX_EXPR_DEPTH, MAX_EXPR_DEPTH);

    register_parse_fn(&mut engine, "parse_yaml", helper_parse_yaml);
    register_parse_fn(&mut engine, "parse_json", helper_parse_json);
    register_stringify_fn(&mut engine, "stringify_yaml", helper_stringify_yaml);
    register_stringify_fn(&mut engine, "stringify_json", helper_stringify_json);
    register_text_fn(&mut engine, "slugify_ident", helper_slugify_ident);
    let search = move |pattern: &str| -> (paths: Result<Vec<PathBuf>, String>) {
        helper_glob(glob(pattern))
    };
    register_paths_fn(&mut engine, "glob", search);
    let name_of = |path: PathBuf| -> (name: Result<String, String>) {
        helper_basename(path_text(&path))
    };
    register_path_fn(&mut engine, "basename", name_of);

    register_filesystem(&mut engine);

    engine
}

} // verus!
