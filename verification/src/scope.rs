//! The variables that a script finds when it starts.

use vstd::prelude::*;
use rhai::Scope;

verus! {

/// The variables of one run. Scripts may add to them while they run; the
/// library only fills in what a script finds at its start.
#[verifier::external_type_specification]
#[verifier::external_body]
pub struct ExScope<'a>(Scope<'a>);

/// The entries of a scope in the order in which they were added: the name
/// of each and, where its value is a text, that text.
pub uninterp spec fn scope_entries(scope: Scope) -> Seq<(Seq<char>, Option<Seq<char>>)>;

/// `Scope::new` makes a scope without entries.
pub assume_specification<'a>[ Scope::<'a>::new ]() -> (scope: Scope<'a>)
    ensures
        scope_entries(scope) == Seq::<(Seq<char>, Option<Seq<char>>)>::empty(),
;

/// `Scope::push` with a text as the value: adds one entry behind those that
/// are there, with that name and that text.
#[verifier::external_body]
fn push_text(scope: &mut Scope, name: &str, value: &str)
    ensures
        scope_entries(*final(scope)) == scope_entries(*old(scope)).push((name@, Some(value@))),
{
    scope.push(name, value.to_string());
}

/// The name under which a script finds the text of the item it is attached
/// to.
pub open spec fn item_name() -> Seq<char> {
    "item"@
}

/// What a script finds at its start: the text of the item under the name
/// `item` where there is an item, and nothing where there is none.
pub open spec fn initial_entries(item: Option<Seq<char>>) -> Seq<(Seq<char>, Option<Seq<char>>)> {
    match item {
        Some(text) => seq![(item_name(), Some(text))],
        None => Seq::empty(),
    }
}

/// Makes the scope for one run. The script gets the item as text, never in
/// any other form.
pub fn build_scope(item: Option<&str>) -> (scope: Scope<'static>)
    ensures
        scope_entries(scope) == initial_entries(
            match item {
                Some(text) => Some(text@),
                None => None,
            },
        ),
{
    let mut scope = Scope::new();
    if let Some(text) = item {
        push_text(&mut scope, "item", text);
    }
    scope
}

} // verus!
