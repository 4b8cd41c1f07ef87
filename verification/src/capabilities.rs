//! The host functions that a script can call.
//!
//! Those that read and write structured data hand the work to the parsers
//! of the data formats. Those that deal with paths work on what was read of
//! the file system, as plain values.

use vstd::prelude::*;
use std::path::PathBuf;
use rhai::Dynamic;

verus! {

/// A value of the scripting language, of whatever type. The library carries
/// such values and never looks inside.
#[verifier::external_type_specification]
#[verifier::external_body]
pub struct ExDynamic(Dynamic);

/// A path of the file system. The library carries paths and reads them only
/// as text.
#[verifier::external_type_specification]
#[verifier::external_body]
pub struct ExPathBuf(PathBuf);

/// `serde_yaml::from_str`: reads a YAML text into a value of the scripting
/// language. Where the text is malformed, the error comes back as text, in
/// the form that `Debug` gives it. Nothing is claimed of the value.
#[verifier::external_body]
pub(crate) fn helper_parse_yaml(input: &str) -> (value: Result<Dynamic, String>) {
    serde_yaml::from_str(input).map_err(|e| format!("{e:?}"))
}

/// `serde_yaml::to_string`: writes a value of the scripting language as
/// YAML. Where the value cannot be written, the error comes back as text,
/// in the form that `Debug` gives it. Nothing is claimed of the text.
#[verifier::external_body]
pub(crate) fn helper_stringify_yaml(input: Dynamic) -> (text: Result<String, String>) {
    serde_yaml::to_string(&input).map_err(|e| format!("{e:?}"))
}

/// `serde_json::from_str`: reads a JSON text into a value of the scripting
/// language. Where the text is malformed, the error comes back as text, in
/// the form that `Debug` gives it. Nothing is claimed of the value.
#[verifier::external_body]
pub(crate) fn helper_parse_json(input: &str) -> (value: Result<Dynamic, String>) {
    serde_json::from_str(input).map_err(|e| format!("{e:?}"))
}

/// `serde_json::to_string`: writes a value of the scripting language as
/// JSON. Where the value cannot be written, the error comes back as text,
/// in the form that `Debug` gives it. Nothing is claimed of the text.
#[verifier::external_body]
pub(crate) fn helper_stringify_json(input: Dynamic) -> (text: Result<String, String>) {
    serde_json::to_string(&input).map_err(|e| format!("{e:?}"))
}

/// What a search of the file system for a pattern came to: the complaint
/// about a malformed pattern, or one entry for each match, in the order of
/// the search. An entry is the path, or the complaint about a place that
/// could not be read.
pub type Listing<T> = Result<Vec<Result<T, String>>, String>;

/// The paths of a search, in its order, unless the pattern was malformed
/// or a place could not be read: then the first complaint.
pub fn helper_glob<T>(listing: Listing<T>) -> (paths: Result<Vec<T>, String>)
    ensures
        match listing {
            Err(complaint) => paths == Err::<Vec<T>, String>(complaint),
            Ok(entries) => match paths {
                Ok(found) => {
                    &&& found@.len() == entries@.len()
                    &&& forall|i: int|
                        0 <= i < entries@.len() ==> (#[trigger] entries@[i]) == Ok::<T, String>(
                            found@[i],
                        )
                },
                Err(complaint) => exists|k: int|
                    {
                        &&& 0 <= k < entries@.len()
                        &&& (#[trigger] entries@[k]) == Err::<T, String>(complaint)
                        &&& forall|j: int| 0 <= j < k ==> (#[trigger] entries@[j]) is Ok
                    },
            },
        },
{
    match listing {
        Err(complaint) => Err(complaint),
        Ok(entries) => {
            let mut result: Vec<T> = Vec::new();
            let ghost all = entries@;
            for entry in it: entries
                invariant
                    it.seq() == all,
                    listing is Ok,
                    listing->Ok_0@ == all,
                    result@.len() == it.index(),
                    forall|i: int|
                        0 <= i < it.index() ==> (#[trigger] all[i]) == Ok::<T, String>(result@[i]),
            {
                match entry {
                    Ok(path) => {
                        result.push(path);
                    },
                    Err(complaint) => {
                        assert(all[it.index() as int] == Err::<T, String>(complaint));
                        return Err(complaint);
                    },
                }
            }
            Ok(result)
        },
    }
}

/// A path as far as it can be read as text.
#[derive(Debug, PartialEq, Eq)]
pub struct PathText {
    /// The last component of the path, where it has one: its text, where
    /// that is valid Unicode.
    pub file_name: Option<Option<String>>,
}

/// What a path holds, read as text: the whole path where it is valid
/// Unicode, and nothing where it is not. It is what `Path::to_str` returns
/// for the path.
pub uninterp spec fn whole_text_of(path: PathBuf) -> Option<Seq<char>>;

/// The last component that a path holds, as a path of its own, where the
/// path has one. It is what `Path::file_name` returns for the path.
pub uninterp spec fn file_name_of(path: PathBuf) -> Option<PathBuf>;

/// The last component that a path holds, where it has one, read as text
/// where that component is valid Unicode.
pub open spec fn file_name_text_of(path: PathBuf) -> Option<Option<Seq<char>>> {
    match file_name_of(path) {
        Some(name) => Some(whole_text_of(name)),
        None => None,
    }
}

/// `Path::to_str`: the whole path as text, where it is valid Unicode. The
/// text depends on the path alone.
#[verifier::external_body]
fn path_whole_text(path: &PathBuf) -> (text: Option<String>)
    ensures
        text.deep_view() == whole_text_of(*path),
{
    path.to_str().map(|text| text.to_owned())
}

/// `Path::file_name`: the last component of the path, where it has one,
/// handed on as a path of its own. It depends on the path alone.
#[verifier::external_body]
fn path_file_name(path: &PathBuf) -> (name: Option<PathBuf>)
    ensures
        name == file_name_of(*path),
{
    path.file_name().map(|name| PathBuf::from(name))
}

/// Reads a path as text: its last component, as far as it has one and as
/// far as that is valid Unicode.
pub fn path_text(path: &PathBuf) -> (text: PathText)
    ensures
        text.file_name.deep_view() == file_name_text_of(*path),
{
    let file_name = match path_file_name(path) {
        Some(name) => Some(path_whole_text(&name)),
        None => None,
    };
    PathText { file_name }
}

/// What is said of a path whose last component cannot be given as text.
pub open spec fn not_unicode() -> Seq<char> {
    "basename is not valid unicode"@
}

/// The last component of a path as text. Fails where the path has no last
/// component that is valid Unicode: where it has none at all, as the empty
/// path, `/` and `a/..` have none, and where the one it has is no valid
/// Unicode.
pub fn helper_basename(input: PathText) -> (name: Result<String, String>)
    ensures
        match input.file_name {
            Some(Some(text)) => name == Ok::<String, String>(text),
            _ => name matches Err(complaint) && complaint@ == not_unicode(),
        },
{
    match input.file_name {
        Some(Some(text)) => Ok(text),
        _ => Err("basename is not valid unicode".to_owned()),
    }
}

} // verus!
