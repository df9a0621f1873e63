//! Reading the codec that a type asks for from its attributes.
//!
//! A type names its codec with `#[redis_serializer(name)]`. The first
//! attribute whose path is the single segment `redis_serializer` decides: its
//! payload has to be one parenthesised group that holds one identifier, the
//! codec's name. A type without such an attribute gets the default codec.

use vstd::prelude::*;
use vstd::string::*;
use crate::descriptor::{Attribute, Delimiter, Token};

verus! {

/// The codec module that the generated adapters call: one identifier.
#[derive(Clone, Debug, PartialEq, Eq)]
pub struct CodecReference {
    pub name: String,
}

impl View for CodecReference {
    type V = Seq<char>;

    open spec fn view(&self) -> Seq<char> {
        self.name@
    }
}

/// Why no codec could be read from the attributes.
#[derive(Clone, Copy, Debug, PartialEq, Eq, Structural)]
pub enum ConfigError {
    /// The configuration attribute at this position of the attribute list has
    /// a payload that is not one parenthesised identifier.
    MalformedPayload { attribute: usize },
}

impl ConfigError {
    /// What the error tells the author of the type.
    pub open spec fn message(self) -> Seq<char> {
        "expected `#[redis_serializer(name)]` with the name of one codec module"@
    }

    /// The position of the offending attribute in the attribute list.
    pub open spec fn position(self) -> usize {
        match self {
            ConfigError::MalformedPayload { attribute } => attribute,
        }
    }

    /// Says what the error tells the author of the type.
    pub fn describe(&self) -> (text: String)
        ensures
            text@ == self.message(),
    {
        String::from_str("expected `#[redis_serializer(name)]` with the name of one codec module")
    }

    /// Gives the position of the offending attribute in the attribute list.
    pub fn attribute(&self) -> (index: usize)
        ensures
            index == self.position(),
    {
        match self {
            ConfigError::MalformedPayload { attribute } => *attribute,
        }
    }
}

/// The path of the configuration attribute.
pub open spec fn reserved_name() -> Seq<char> {
    "redis_serializer"@
}

/// The codec that the built-in adapters use where a type names none.
pub open spec fn default_codec() -> Seq<char> {
    "bincode"@
}

/// Whether `attribute` is the configuration attribute: its path is the single
/// segment `redis_serializer`.
pub open spec fn names_config(attribute: Attribute) -> bool {
    attribute.path@.len() == 1 && attribute.path@[0]@ == reserved_name()
}

/// The codec that a payload names: `Some` exactly for one parenthesised group
/// that holds one identifier.
pub open spec fn payload_codec(payload: Seq<Token>) -> Option<Seq<char>> {
    if payload.len() != 1 {
        None
    } else {
        match payload[0] {
            Token::Group(Delimiter::Parenthesis, inner) => {
                if inner@.len() != 1 {
                    None
                } else {
                    match inner@[0] {
                        Token::Ident(name) => Some(name@),
                        _ => None,
                    }
                }
            },
            _ => None,
        }
    }
}

/// Whether `i` is the position of the first configuration attribute.
pub open spec fn is_config_position(attributes: Seq<Attribute>, i: int) -> bool {
    &&& 0 <= i < attributes.len()
    &&& names_config(attributes[i])
    &&& forall|j: int| 0 <= j < i ==> !names_config(#[trigger] attributes[j])
}

/// Whether no attribute is the configuration attribute.
pub open spec fn lacks_config(attributes: Seq<Attribute>) -> bool {
    forall|j: int| 0 <= j < attributes.len() ==> !names_config(#[trigger] attributes[j])
}

/// The codec that the attributes from position `from` on select.
pub open spec fn codec_from(attributes: Seq<Attribute>, default: Seq<char>, from: int) -> Result<
    Seq<char>,
    ConfigError,
>
    decreases attributes.len() - from,
{
    if from < 0 || from >= attributes.len() {
        Ok(default)
    } else if names_config(attributes[from]) {
        match payload_codec(attributes[from].payload@) {
            Some(name) => Ok(name),
            None => Err(ConfigError::MalformedPayload { attribute: from as usize }),
        }
    } else {
        codec_from(attributes, default, from + 1)
    }
}

/// The codec that a type with these attributes uses.
pub open spec fn codec_reference(attributes: Seq<Attribute>, default: Seq<char>) -> Result<
    Seq<char>,
    ConfigError,
> {
    codec_from(attributes, default, 0)
}

/// Tells whether `attribute` is the configuration attribute.
pub fn is_config(attribute: &Attribute) -> (yes: bool)
    ensures
        yes == names_config(*attribute),
{
    if attribute.path.len() != 1 {
        return false;
    }
    let reserved = String::from_str("redis_serializer");
    attribute.path[0] == reserved
}

/// Reads the codec's name from the payload of a configuration attribute.
pub fn read_payload(payload: &Vec<Token>) -> (codec: Option<CodecReference>)
    ensures
        match payload_codec(payload@) {
            Some(expected) => codec matches Some(found) && found@ == expected,
            None => codec is None,
        },
{
    if payload.len() != 1 {
        return None;
    }
    match &payload[0] {
        Token::Group(Delimiter::Parenthesis, inner) => {
            if inner.len() != 1 {
                return None;
            }
            match &inner[0] {
                Token::Ident(name) => Some(CodecReference { name: name.clone() }),
                _ => None,
            }
        },
        _ => None,
    }
}

/// The codec that a type with the attributes `attrs` uses: the one that its
/// first configuration attribute names, `default` where it has none, and an
/// error where that attribute's payload is malformed.
pub fn get_serializer(attrs: &Vec<Attribute>, default: &str) -> (codec: Result<
    CodecReference,
    ConfigError,
>)
    ensures
        match codec_reference(attrs@, default@) {
            Ok(expected) => codec matches Ok(found) && found@ == expected,
            Err(e) => codec matches Err(found) && found == e,
        },
{
    let mut i: usize = 0;
    while i < attrs.len()
        invariant
            i <= attrs.len(),
            codec_reference(attrs@, default@) == codec_from(attrs@, default@, i as int),
        decreases attrs.len() - i,
    {
        if is_config(&attrs[i]) {
            return match read_payload(&attrs[i].payload) {
                Some(codec) => Ok(codec),
                None => Err(ConfigError::MalformedPayload { attribute: i }),
            };
        }
        i += 1;
    }
    Ok(CodecReference { name: String::from_str(default) })
}

/// A list without a configuration attribute selects the default codec.
pub proof fn law_default_without_config(attributes: Seq<Attribute>, default: Seq<char>)
    requires
        lacks_config(attributes),
    ensures
        codec_reference(attributes, default) == Ok::<Seq<char>, ConfigError>(default),
{
    lemma_skips_others(attributes, default, 0, attributes.len() as int);
}

/// A well-formed first configuration attribute selects exactly the codec that
/// its payload names, whatever the default is and whatever follows it.
pub proof fn law_named_codec_is_used(
    attributes: Seq<Attribute>,
    default: Seq<char>,
    i: int,
    name: Seq<char>,
)
    requires
        is_config_position(attributes, i),
        payload_codec(attributes[i].payload@) == Some(name),
    ensures
        codec_reference(attributes, default) == Ok::<Seq<char>, ConfigError>(name),
{
    lemma_skips_others(attributes, default, 0, i);
}

/// A malformed first configuration attribute is an error that names its
/// position, whatever the default is and whatever follows it.
pub proof fn law_malformed_config_fails(attributes: Seq<Attribute>, default: Seq<char>, i: int)
    requires
        is_config_position(attributes, i),
        payload_codec(attributes[i].payload@) is None,
    ensures
        codec_reference(attributes, default) == Err::<Seq<char>, ConfigError>(
            ConfigError::MalformedPayload { attribute: i as usize },
        ),
{
    lemma_skips_others(attributes, default, 0, i);
}

/// The search passes over attributes that are not the configuration
/// attribute.
proof fn lemma_skips_others(attributes: Seq<Attribute>, default: Seq<char>, from: int, to: int)
    requires
        0 <= from <= to <= attributes.len(),
        forall|j: int| from <= j < to ==> !names_config(#[trigger] attributes[j]),
    ensures
        codec_from(attributes, default, from) == codec_from(attributes, default, to),
    decreases to - from,
{
    if from < to {
        lemma_skips_others(attributes, default, from + 1, to);
    }
}

} // verus!
