//! The shape of the type for which adapters are generated.

use vstd::prelude::*;
use vstd::string::*;
use crate::text::{bracketed, joined_prefix};

verus! {

/// What a generic parameter stands for.
#[derive(Clone, Copy, Debug, PartialEq, Eq, Structural)]
pub enum ParamKind {
    Type,
    Lifetime,
    Const,
}

/// One generic parameter of the subject type.
///
/// `declaration` is the parameter as an impl header declares it, bounds
/// included and defaults left out (`T: Clone`, `'a`, `const N: usize`);
/// `argument` is the parameter as the type is instantiated with it (`T`, `'a`,
/// `N`).
#[derive(Clone, Debug, PartialEq, Eq)]
pub struct GenericParam {
    pub kind: ParamKind,
    pub declaration: String,
    pub argument: String,
}

/// The brackets round a group of tokens.
#[derive(Clone, Copy, Debug, PartialEq, Eq, Structural)]
pub enum Delimiter {
    Parenthesis,
    Brace,
    Bracket,
    Invisible,
}

/// One token tree of an attribute's payload.
#[derive(Debug)]
pub enum Token {
    Ident(String),
    Punct(char),
    Literal(String),
    Group(Delimiter, Vec<Token>),
}

/// An attribute attached to the subject type: `#[path payload]`.
#[derive(Debug)]
pub struct Attribute {
    /// The segments of the attribute's path, in order.
    pub path: Vec<String>,
    /// The token trees that follow the path.
    pub payload: Vec<Token>,
}

/// The subject type of one generation request.
#[derive(Debug)]
pub struct TypeDescriptor {
    pub name: String,
    pub params: Vec<GenericParam>,
    /// The predicates of the type's own `where` clause, `None` where it has
    /// no such clause.
    pub constraints: Option<Vec<String>>,
    pub attributes: Vec<Attribute>,
}

/// The declarations of `params`, in order.
pub open spec fn declarations(params: Seq<GenericParam>) -> Seq<Seq<char>> {
    params.map_values(|p: GenericParam| p.declaration@)
}

/// The arguments of `params`, in order.
pub open spec fn arguments(params: Seq<GenericParam>) -> Seq<Seq<char>> {
    params.map_values(|p: GenericParam| p.argument@)
}

/// Whether at least one of `params` is a type parameter.
pub open spec fn has_type_param(params: Seq<GenericParam>) -> bool {
    exists|i: int| 0 <= i < params.len() && (#[trigger] params[i]).kind == ParamKind::Type
}

/// Tells whether at least one of `params` is a type parameter.
pub fn any_type_param(params: &Vec<GenericParam>) -> (found: bool)
    ensures
        found == has_type_param(params@),
{
    let mut i: usize = 0;
    while i < params.len()
        invariant
            i <= params.len(),
            forall|j: int| 0 <= j < i ==> (#[trigger] params@[j]).kind != ParamKind::Type,
        decreases params.len() - i,
    {
        if params[i].kind == ParamKind::Type {
            return true;
        }
        i += 1;
    }
    false
}

/// The generics that an impl for a type with `params` declares: the
/// declarations in angle brackets, or nothing where there are no parameters.
pub open spec fn impl_generics(params: Seq<GenericParam>) -> Seq<char> {
    bracketed("<"@, declarations(params), ", "@, ">"@)
}

/// The generic arguments of a type with `params`: the arguments in angle
/// brackets, or nothing where there are no parameters.
pub open spec fn type_generics(params: Seq<GenericParam>) -> Seq<char> {
    bracketed("<"@, arguments(params), ", "@, ">"@)
}

/// The subject type with its own generic arguments.
pub open spec fn instantiated(name: Seq<char>, params: Seq<GenericParam>) -> Seq<char> {
    name + type_generics(params)
}

fn append_params(out: &mut String, params: &Vec<GenericParam>, declare: bool)
    ensures
        final(out)@ == old(out)@ + if declare {
            impl_generics(params@)
        } else {
            type_generics(params@)
        },
{
    let ghost before = out@;
    let ghost parts = if declare {
        declarations(params@)
    } else {
        arguments(params@)
    };
    if params.len() == 0 {
        assert(out@ =~= before + Seq::<char>::empty());
        return ;
    }
    out.append("<");
    let mut i: usize = 0;
    while i < params.len()
        invariant
            i <= params.len(),
            parts.len() == params.len(),
            forall|j: int|
                0 <= j < params.len() ==> parts[j] == if declare {
                    (#[trigger] params@[j]).declaration@
                } else {
                    params@[j].argument@
                },
            out@ == before + "<"@ + joined_prefix(parts, ", "@, i as nat),
        decreases params.len() - i,
    {
        if i > 0 {
            out.append(", ");
        }
        if declare {
            out.append(params[i].declaration.as_str());
        } else {
            out.append(params[i].argument.as_str());
        }
        proof {
            if i > 0 {
                assert(out@ =~= before + "<"@ + (joined_prefix(parts, ", "@, i as nat) + ", "@
                    + parts[i as int]));
            } else {
                assert(out@ =~= before + "<"@ + parts[0]);
            }
        }
        i += 1;
    }
    out.append(">");
    assert(out@ =~= before + ("<"@ + joined_prefix(parts, ", "@, parts.len()) + ">"@));
}

/// Appends to `out` the generics that an impl for a type with `params`
/// declares.
pub fn append_impl_generics(out: &mut String, params: &Vec<GenericParam>)
    ensures
        final(out)@ == old(out)@ + impl_generics(params@),
{
    append_params(out, params, true)
}

/// Appends to `out` the type called `name` with its own generic arguments.
pub fn append_instantiated(out: &mut String, name: &str, params: &Vec<GenericParam>)
    ensures
        final(out)@ == old(out)@ + instantiated(name@, params@),
{
    let ghost before = out@;
    out.append(name);
    append_params(out, params, false);
    assert(out@ =~= before + (name@ + type_generics(params@)));
}

} // verus!
