//! Composing the `where` clause of a generated impl.
//!
//! The decode adapter needs the subject type to be deserialisable without
//! borrowing, the encode adapter needs it to be serialisable. The bound is
//! always put on the type with its own generic arguments, never on a bare
//! parameter, and only where the type has a `where` clause already or has at
//! least one type parameter.

use vstd::prelude::*;
use vstd::string::*;
use crate::descriptor::{any_type_param, append_instantiated, has_type_param, instantiated, GenericParam};
use crate::text::texts;

verus! {

/// What a generated impl needs of the subject type.
#[derive(Clone, Copy, Debug, PartialEq, Eq, Structural)]
pub enum Capability {
    /// `serde::de::DeserializeOwned`, for the decode adapter.
    Deserialize,
    /// `serde::Serialize`, for the encode adapter.
    Serialize,
}

impl Capability {
    /// The path of the trait that stands for the capability.
    pub open spec fn path(self) -> Seq<char> {
        match self {
            Capability::Deserialize => "serde::de::DeserializeOwned"@,
            Capability::Serialize => "serde::Serialize"@,
        }
    }

    /// The path of the trait that stands for the capability.
    pub fn path_text(self) -> (path: &'static str)
        ensures
            path@ == self.path(),
    {
        match self {
            Capability::Deserialize => "serde::de::DeserializeOwned",
            Capability::Serialize => "serde::Serialize",
        }
    }
}

/// The predicates of a `where` clause, in order; none where the clause is
/// absent.
#[derive(Clone, Debug, PartialEq, Eq)]
pub struct ConstraintClause {
    pub bounds: Vec<String>,
}

impl View for ConstraintClause {
    type V = Seq<Seq<char>>;

    open spec fn view(&self) -> Seq<Seq<char>> {
        texts(self.bounds@)
    }
}

/// The predicates of a type's own `where` clause as texts.
pub open spec fn existing_texts(existing: Option<Vec<String>>) -> Option<Seq<Seq<char>>> {
    match existing {
        Some(predicates) => Some(texts(predicates@)),
        None => None,
    }
}

/// The bound that a generated impl adds: the capability, required of the
/// subject type with its own generic arguments.
pub open spec fn required_bound(
    name: Seq<char>,
    params: Seq<GenericParam>,
    capability: Capability,
) -> Seq<char> {
    instantiated(name, params) + ": "@ + capability.path()
}

/// The predicates of the generated impl's `where` clause.
pub open spec fn composed(
    name: Seq<char>,
    params: Seq<GenericParam>,
    existing: Option<Seq<Seq<char>>>,
    capability: Capability,
) -> Seq<Seq<char>> {
    match existing {
        Some(predicates) => predicates.push(required_bound(name, params, capability)),
        None => if has_type_param(params) {
            seq![required_bound(name, params, capability)]
        } else {
            Seq::<Seq<char>>::empty()
        },
    }
}

/// Writes the bound that a generated impl adds.
pub fn bound_text(name: &str, params: &Vec<GenericParam>, capability: Capability) -> (bound: String)
    ensures
        bound@ == required_bound(name@, params@, capability),
{
    let mut bound = String::new();
    append_instantiated(&mut bound, name, params);
    bound.append(": ");
    bound.append(capability.path_text());
    assert(bound@ =~= required_bound(name@, params@, capability));
    bound
}

/// Composes the `where` clause of the impl that gives the type called `name`
/// the capability: the type's own predicates followed by the required bound,
/// the required bound alone where the type has no clause but a type
/// parameter, and no clause otherwise.
pub fn compose_bounds(
    name: &str,
    params: &Vec<GenericParam>,
    existing: &Option<Vec<String>>,
    capability: Capability,
) -> (clause: ConstraintClause)
    ensures
        clause@ == composed(name@, params@, existing_texts(*existing), capability),
{
    let mut bounds: Vec<String> = Vec::new();
    match existing {
        Some(predicates) => {
            let mut i: usize = 0;
            while i < predicates.len()
                invariant
                    i <= predicates.len(),
                    bounds@.len() == i,
                    forall|j: int| 0 <= j < i ==> (#[trigger] bounds@[j])@ == predicates@[j]@,
                decreases predicates.len() - i,
            {
                bounds.push(predicates[i].clone());
                i += 1;
            }
            bounds.push(bound_text(name, params, capability));
            assert(texts(bounds@) =~= texts(predicates@).push(
                required_bound(name@, params@, capability),
            ));
        },
        None => {
            if any_type_param(params) {
                bounds.push(bound_text(name, params, capability));
                assert(texts(bounds@) =~= seq![required_bound(name@, params@, capability)]);
            } else {
                assert(texts(bounds@) =~= Seq::<Seq<char>>::empty());
            }
        },
    }
    ConstraintClause { bounds }
}

/// A type with a type parameter and no `where` clause of its own gets a
/// clause of exactly one predicate: the capability asked for, required of the
/// type with its own generic arguments.
pub proof fn law_single_bound_on_instantiated_type(
    name: Seq<char>,
    params: Seq<GenericParam>,
    capability: Capability,
)
    requires
        has_type_param(params),
    ensures
        composed(name, params, None, capability).len() == 1,
        composed(name, params, None, capability)[0] == instantiated(name, params) + ": "@
            + capability.path(),
        capability == Capability::Deserialize ==> capability.path()
            == "serde::de::DeserializeOwned"@,
        capability == Capability::Serialize ==> capability.path() == "serde::Serialize"@,
{
}

/// A type without a type parameter and without a `where` clause of its own
/// gets no clause, whatever lifetime and const parameters it has.
pub proof fn law_no_clause_without_type_params(
    name: Seq<char>,
    params: Seq<GenericParam>,
    capability: Capability,
)
    requires
        !has_type_param(params),
    ensures
        composed(name, params, None, capability).len() == 0,
{
}

/// A type with a `where` clause of its own keeps every predicate of it, in
/// order, and gets exactly one more behind them: the required bound.
pub proof fn law_existing_clause_is_extended(
    name: Seq<char>,
    params: Seq<GenericParam>,
    predicates: Seq<Seq<char>>,
    capability: Capability,
)
    ensures
        composed(name, params, Some(predicates), capability).len() == predicates.len() + 1,
        composed(name, params, Some(predicates), capability).drop_last() == predicates,
        composed(name, params, Some(predicates), capability).last() == required_bound(
            name,
            params,
            capability,
        ),
{
    assert(predicates.push(required_bound(name, params, capability)).drop_last() =~= predicates);
}

} // verus!
