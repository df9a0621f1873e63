//! The two generated adapters and their source text.
//!
//! `from_redis_value_macro` makes the decode adapter of a type, an impl of
//! `redis::FromRedisValue`; `to_redis_args_macro` makes its encode adapter, an
//! impl of `redis::ToRedisArgs`. Both read the codec from the type's
//! attributes and compose the `where` clause from its generics; `render`
//! writes the impl out.

use vstd::prelude::*;
use vstd::string::*;
use crate::bounds::{
    compose_bounds,
    composed,
    existing_texts,
    required_bound,
    Capability,
    ConstraintClause,
};
use crate::config::{
    codec_reference,
    default_codec,
    get_serializer,
    is_config_position,
    lacks_config,
    law_default_without_config,
    law_malformed_config_fails,
    law_named_codec_is_used,
    payload_codec,
    CodecReference,
    ConfigError,
};
use crate::descriptor::{
    append_impl_generics,
    append_instantiated,
    has_type_param,
    impl_generics,
    instantiated,
    GenericParam,
    TypeDescriptor,
};
use crate::response::{
    append_rejected_detail,
    append_unexpected_detail,
    mismatch_message,
    rejected_detail,
    unexpected_detail,
};
use crate::text::{append_joined, joined, occurs_in, texts};

verus! {

/// Which of the two adapters an impl is.
#[derive(Clone, Copy, Debug, PartialEq, Eq, Structural)]
pub enum AdapterKind {
    /// From a response of the store to a value.
    Decode,
    /// From a value to an argument of a command.
    Encode,
}

impl AdapterKind {
    /// What the adapter needs of the subject type.
    pub open spec fn capability(self) -> Capability {
        match self {
            AdapterKind::Decode => Capability::Deserialize,
            AdapterKind::Encode => Capability::Serialize,
        }
    }

    /// The path of the trait that the adapter implements.
    pub open spec fn trait_path(self) -> Seq<char> {
        match self {
            AdapterKind::Decode => "redis::FromRedisValue"@,
            AdapterKind::Encode => "redis::ToRedisArgs"@,
        }
    }

    /// What the adapter needs of the subject type.
    pub fn required_capability(self) -> (capability: Capability)
        ensures
            capability == self.capability(),
    {
        match self {
            AdapterKind::Decode => Capability::Deserialize,
            AdapterKind::Encode => Capability::Serialize,
        }
    }

    /// The path of the trait that the adapter implements.
    pub fn trait_path_text(self) -> (path: &'static str)
        ensures
            path@ == self.trait_path(),
    {
        match self {
            AdapterKind::Decode => "redis::FromRedisValue",
            AdapterKind::Encode => "redis::ToRedisArgs",
        }
    }
}

/// One generated impl: the subject type, the codec that the impl calls and
/// the `where` clause that it carries.
#[derive(Debug)]
pub struct GeneratedAdapter {
    pub kind: AdapterKind,
    pub subject: TypeDescriptor,
    pub codec: CodecReference,
    pub clause: ConstraintClause,
}

/// Whether `outcome` is what generating the adapter of this kind for `input`
/// gives: the adapter with the codec that the attributes select and the
/// clause composed for the kind's capability, or the error of the
/// configuration attribute.
pub open spec fn generated_for(
    input: TypeDescriptor,
    kind: AdapterKind,
    outcome: Result<GeneratedAdapter, ConfigError>,
) -> bool {
    match codec_reference(input.attributes@, default_codec()) {
        Ok(codec) => {
            &&& outcome matches Ok(adapter)
            &&& adapter.kind == kind
            &&& adapter.subject == input
            &&& adapter.codec@ == codec
            &&& adapter.clause@ == composed(
                input.name@,
                input.params@,
                existing_texts(input.constraints),
                kind.capability(),
            )
        },
        Err(e) => outcome matches Err(found) && found == e,
    }
}

/// `text` as a string literal. Meant for identifiers, which need no escape.
pub open spec fn quoted(text: Seq<char>) -> Seq<char> {
    "\""@ + text + "\""@
}

/// The `where` clause with these predicates, led by a space; nothing where
/// there are none.
pub open spec fn where_text(clause: Seq<Seq<char>>) -> Seq<char> {
    if clause.len() == 0 {
        Seq::<char>::empty()
    } else {
        " where "@ + joined(clause, ", "@)
    }
}

/// The header of the impl, up to its body.
pub open spec fn header_text(
    kind: AdapterKind,
    name: Seq<char>,
    params: Seq<GenericParam>,
    clause: Seq<Seq<char>>,
) -> Seq<char> {
    "impl"@ + impl_generics(params) + " "@ + kind.trait_path() + " for "@ + instantiated(
        name,
        params,
    ) + where_text(clause)
}

/// The expression that makes a type mismatch whose detail is formatted from
/// `format` and `args`.
pub open spec fn mismatch_expr(format: Seq<char>, args: Seq<char>) -> Seq<char> {
    "Err(redis::RedisError::from((redis::ErrorKind::TypeError, "@ + quoted(mismatch_message())
        + ", format!("@ + quoted(format) + ", "@ + args + "))))"@
}

/// The error that the decode adapter makes of a byte blob that the codec
/// rejects: the detail with the names of the type and the codec and the
/// response's debug rendering filled in.
pub open spec fn rejected_expr(name: Seq<char>, codec: Seq<char>) -> Seq<char> {
    mismatch_expr(
        rejected_detail("{}"@, "{}"@, "{:?}"@),
        quoted(name) + ", "@ + quoted(codec) + ", v"@,
    )
}

/// The error that the decode adapter makes of a response that is no byte
/// blob: the detail with the name of the type and the response's debug
/// rendering filled in.
pub open spec fn unexpected_expr(name: Seq<char>) -> Seq<char> {
    mismatch_expr(unexpected_detail("{}"@, "{:?}"@), quoted(name) + ", v"@)
}

/// The call of the codec's function `operation`, arguments included.
pub open spec fn invocation(codec: Seq<char>, operation: Seq<char>) -> Seq<char> {
    codec + "::"@ + operation
}

/// The body of the decode adapter.
pub open spec fn decode_body(name: Seq<char>, codec: Seq<char>) -> Seq<char> {
    " {\n    fn from_redis_value(v: &redis::Value) -> redis::RedisResult<Self> {\n        match *v {\n            redis::Value::Data(ref bytes) => {\n                if let Ok(s) = "@
        + invocation(codec, "deserialize(bytes)"@)
        + " {\n                    Ok(s)\n                } else {\n                    "@
        + rejected_expr(name, codec) + "\n                }\n            },\n            _ => "@
        + unexpected_expr(name) + ",\n        }\n    }\n}\n"@
}

/// The body of the encode adapter.
pub open spec fn encode_body(codec: Seq<char>) -> Seq<char> {
    " {\n    fn write_redis_args<W>(&self, out: &mut W)\n    where\n        W: ?Sized + redis::RedisWrite,\n    {\n        let buf = "@
        + invocation(codec, "serialize(&self)"@)
        + ".unwrap();\n        return out.write_arg(&buf);\n    }\n}\n"@
}

/// The body of the adapter of this kind.
pub open spec fn body_text(kind: AdapterKind, name: Seq<char>, codec: Seq<char>) -> Seq<char> {
    match kind {
        AdapterKind::Decode => decode_body(name, codec),
        AdapterKind::Encode => encode_body(codec),
    }
}

fn append_quoted(out: &mut String, text: &str)
    ensures
        final(out)@ == old(out)@ + quoted(text@),
{
    let ghost before = out@;
    out.append("\"");
    out.append(text);
    out.append("\"");
    assert(out@ =~= before + quoted(text@));
}

fn append_invocation(out: &mut String, codec: &str, operation: &str)
    ensures
        final(out)@ == old(out)@ + invocation(codec@, operation@),
{
    let ghost before = out@;
    out.append(codec);
    out.append("::");
    out.append(operation);
    assert(out@ =~= before + invocation(codec@, operation@));
}

fn append_where(out: &mut String, clause: &ConstraintClause)
    ensures
        final(out)@ == old(out)@ + where_text(clause@),
{
    let ghost before = out@;
    if clause.bounds.len() == 0 {
        assert(out@ =~= before + where_text(clause@));
    } else {
        out.append(" where ");
        append_joined(out, &clause.bounds, ", ");
        assert(out@ =~= before + where_text(clause@));
    }
}

fn append_rejected_expr(out: &mut String, name: &str, codec: &str)
    ensures
        final(out)@ == old(out)@ + rejected_expr(name@, codec@),
{
    let ghost before = out@;
    out.append("Err(redis::RedisError::from((redis::ErrorKind::TypeError, ");
    append_quoted(out, "Response was of incompatible type");
    out.append(", format!(");
    out.append("\"");
    append_rejected_detail(out, "{}", "{}", "{:?}");
    out.append("\"");
    out.append(", ");
    append_quoted(out, name);
    out.append(", ");
    append_quoted(out, codec);
    out.append(", v");
    out.append("))))");
    assert(out@ =~= before + rejected_expr(name@, codec@));
}

fn append_unexpected_expr(out: &mut String, name: &str)
    ensures
        final(out)@ == old(out)@ + unexpected_expr(name@),
{
    let ghost before = out@;
    out.append("Err(redis::RedisError::from((redis::ErrorKind::TypeError, ");
    append_quoted(out, "Response was of incompatible type");
    out.append(", format!(");
    out.append("\"");
    append_unexpected_detail(out, "{}", "{:?}");
    out.append("\"");
    out.append(", ");
    append_quoted(out, name);
    out.append(", v");
    out.append("))))");
    assert(out@ =~= before + unexpected_expr(name@));
}

fn append_decode_body(out: &mut String, name: &str, codec: &str)
    ensures
        final(out)@ == old(out)@ + decode_body(name@, codec@),
{
    let ghost before = out@;
    out.append(
        " {\n    fn from_redis_value(v: &redis::Value) -> redis::RedisResult<Self> {\n        match *v {\n            redis::Value::Data(ref bytes) => {\n                if let Ok(s) = ",
    );
    append_invocation(out, codec, "deserialize(bytes)");
    out.append(" {\n                    Ok(s)\n                } else {\n                    ");
    append_rejected_expr(out, name, codec);
    out.append("\n                }\n            },\n            _ => ");
    append_unexpected_expr(out, name);
    out.append(",\n        }\n    }\n}\n");
    assert(out@ =~= before + decode_body(name@, codec@));
}

fn append_encode_body(out: &mut String, codec: &str)
    ensures
        final(out)@ == old(out)@ + encode_body(codec@),
{
    let ghost before = out@;
    out.append(
        " {\n    fn write_redis_args<W>(&self, out: &mut W)\n    where\n        W: ?Sized + redis::RedisWrite,\n    {\n        let buf = ",
    );
    append_invocation(out, codec, "serialize(&self)");
    out.append(".unwrap();\n        return out.write_arg(&buf);\n    }\n}\n");
    assert(out@ =~= before + encode_body(codec@));
}

impl GeneratedAdapter {
    /// Whether the adapter is the one that is generated for its subject: its
    /// codec is the one that the subject's attributes select, and its clause
    /// the one composed from the subject's generics.
    pub open spec fn well_formed(&self) -> bool {
        generated_for(self.subject, self.kind, Ok(*self))
    }

    /// The source text of the impl.
    pub open spec fn text(&self) -> Seq<char> {
        header_text(self.kind, self.subject.name@, self.subject.params@, self.clause@) + body_text(
            self.kind,
            self.subject.name@,
            self.codec@,
        )
    }

    /// Writes the impl out as source text.
    pub fn render(&self) -> (source: String)
        ensures
            source@ == self.text(),
    {
        let mut out = String::new();
        out.append("impl");
        append_impl_generics(&mut out, &self.subject.params);
        out.append(" ");
        out.append(self.kind.trait_path_text());
        out.append(" for ");
        append_instantiated(&mut out, self.subject.name.as_str(), &self.subject.params);
        append_where(&mut out, &self.clause);
        assert(out@ =~= header_text(
            self.kind,
            self.subject.name@,
            self.subject.params@,
            self.clause@,
        ));
        match self.kind {
            AdapterKind::Decode => {
                append_decode_body(&mut out, self.subject.name.as_str(), self.codec.name.as_str());
            },
            AdapterKind::Encode => {
                append_encode_body(&mut out, self.codec.name.as_str());
            },
        }
        out
    }
}

/// Generates the adapter of this kind for `input`.
pub fn generate(input: TypeDescriptor, kind: AdapterKind) -> (outcome: Result<
    GeneratedAdapter,
    ConfigError,
>)
    ensures
        generated_for(input, kind, outcome),
        outcome matches Ok(adapter) ==> adapter.well_formed(),
{
    let codec = match get_serializer(&input.attributes, "bincode") {
        Ok(codec) => codec,
        Err(e) => {
            return Err(e);
        },
    };
    let clause = compose_bounds(
        input.name.as_str(),
        &input.params,
        &input.constraints,
        kind.required_capability(),
    );
    Ok(GeneratedAdapter { kind, subject: input, codec, clause })
}

/// Generates the decode adapter of `input`: the impl of
/// `redis::FromRedisValue` that hands a byte blob to the codec.
pub fn from_redis_value_macro(input: TypeDescriptor) -> (outcome: Result<
    GeneratedAdapter,
    ConfigError,
>)
    ensures
        generated_for(input, AdapterKind::Decode, outcome),
{
    generate(input, AdapterKind::Decode)
}

/// Generates the encode adapter of `input`: the impl of `redis::ToRedisArgs`
/// that writes the codec's bytes as one argument.
pub fn to_redis_args_macro(input: TypeDescriptor) -> (outcome: Result<
    GeneratedAdapter,
    ConfigError,
>)
    ensures
        generated_for(input, AdapterKind::Encode, outcome),
{
    generate(input, AdapterKind::Encode)
}

/// The adapters of a type without a configuration attribute call the default
/// codec, `bincode`.
pub proof fn law_default_codec_is_used(
    input: TypeDescriptor,
    kind: AdapterKind,
    outcome: Result<GeneratedAdapter, ConfigError>,
)
    requires
        lacks_config(input.attributes@),
        generated_for(input, kind, outcome),
    ensures
        outcome matches Ok(adapter) && adapter.codec@ == "bincode"@,
{
    law_default_without_config(input.attributes@, default_codec());
}

/// The adapters of a type whose first configuration attribute is well formed
/// call exactly the codec that it names.
pub proof fn law_configured_codec_is_used(
    input: TypeDescriptor,
    kind: AdapterKind,
    outcome: Result<GeneratedAdapter, ConfigError>,
    i: int,
    name: Seq<char>,
)
    requires
        is_config_position(input.attributes@, i),
        payload_codec(input.attributes@[i].payload@) == Some(name),
        generated_for(input, kind, outcome),
    ensures
        outcome matches Ok(adapter) && adapter.codec@ == name,
{
    law_named_codec_is_used(input.attributes@, default_codec(), i, name);
}

/// No adapter is generated for a type whose first configuration attribute is
/// malformed: the outcome is the error that names the attribute.
pub proof fn law_malformed_config_aborts(
    input: TypeDescriptor,
    kind: AdapterKind,
    outcome: Result<GeneratedAdapter, ConfigError>,
    i: int,
)
    requires
        is_config_position(input.attributes@, i),
        payload_codec(input.attributes@[i].payload@) is None,
        generated_for(input, kind, outcome),
    ensures
        outcome matches Err(e) && e == (ConfigError::MalformedPayload { attribute: i as usize }),
{
    law_malformed_config_fails(input.attributes@, default_codec(), i);
}

/// The adapter of a type with a type parameter and no `where` clause of its
/// own carries exactly one predicate: the type with its own generic
/// arguments has to be deserialisable without borrowing for the decode
/// adapter, serialisable for the encode adapter.
pub proof fn law_generic_type_gets_one_bound(
    input: TypeDescriptor,
    kind: AdapterKind,
    adapter: GeneratedAdapter,
)
    requires
        has_type_param(input.params@),
        input.constraints is None,
        generated_for(input, kind, Ok(adapter)),
    ensures
        adapter.clause@.len() == 1,
        kind == AdapterKind::Decode ==> adapter.clause@[0] == instantiated(
            input.name@,
            input.params@,
        ) + ": "@ + "serde::de::DeserializeOwned"@,
        kind == AdapterKind::Encode ==> adapter.clause@[0] == instantiated(
            input.name@,
            input.params@,
        ) + ": "@ + "serde::Serialize"@,
{
}

/// The adapter of a type without a type parameter and without a `where`
/// clause of its own carries no clause.
pub proof fn law_other_types_get_no_clause(
    input: TypeDescriptor,
    kind: AdapterKind,
    adapter: GeneratedAdapter,
)
    requires
        !has_type_param(input.params@),
        input.constraints is None,
        generated_for(input, kind, Ok(adapter)),
    ensures
        adapter.clause@.len() == 0,
        where_text(adapter.clause@).len() == 0,
{
}

/// The adapter of a type with a `where` clause of its own carries that
/// clause's predicates, in order, and one more behind them.
pub proof fn law_own_clause_is_kept(
    input: TypeDescriptor,
    kind: AdapterKind,
    adapter: GeneratedAdapter,
)
    requires
        input.constraints is Some,
        generated_for(input, kind, Ok(adapter)),
    ensures
        adapter.clause@.len() == input.constraints->0@.len() + 1,
        adapter.clause@.drop_last() == texts(input.constraints->0@),
        adapter.clause@.last() == required_bound(input.name@, input.params@, kind.capability()),
{
    assert(adapter.clause@.drop_last() =~= texts(input.constraints->0@));
}

/// The text of an adapter calls the adapter's codec: `deserialize` on the
/// bytes in a decode adapter, `serialize` on the value in an encode adapter.
pub proof fn law_text_invokes_codec(adapter: GeneratedAdapter)
    ensures
        adapter.kind == AdapterKind::Decode ==> occurs_in(
            invocation(adapter.codec@, "deserialize(bytes)"@),
            adapter.text(),
        ),
        adapter.kind == AdapterKind::Encode ==> occurs_in(
            invocation(adapter.codec@, "serialize(&self)"@),
            adapter.text(),
        ),
{
    let header = header_text(
        adapter.kind,
        adapter.subject.name@,
        adapter.subject.params@,
        adapter.clause@,
    );
    let text = adapter.text();
    match adapter.kind {
        AdapterKind::Decode => {
            let call = invocation(adapter.codec@, "deserialize(bytes)"@);
            let at = (header
                + " {\n    fn from_redis_value(v: &redis::Value) -> redis::RedisResult<Self> {\n        match *v {\n            redis::Value::Data(ref bytes) => {\n                if let Ok(s) = "@).len() as int;
            assert(text.subrange(at, at + call.len()) =~= call);
        },
        AdapterKind::Encode => {
            let call = invocation(adapter.codec@, "serialize(&self)"@);
            let at = (header
                + " {\n    fn write_redis_args<W>(&self, out: &mut W)\n    where\n        W: ?Sized + redis::RedisWrite,\n    {\n        let buf = "@).len() as int;
            assert(text.subrange(at, at + call.len()) =~= call);
        },
    }
}

/// Generation is a function of the request: two adapters of one kind
/// generated for one type have the same text.
pub proof fn law_generation_is_deterministic(
    input: TypeDescriptor,
    kind: AdapterKind,
    first: GeneratedAdapter,
    second: GeneratedAdapter,
)
    requires
        generated_for(input, kind, Ok(first)),
        generated_for(input, kind, Ok(second)),
    ensures
        first.text() == second.text(),
{
}

} // verus!
