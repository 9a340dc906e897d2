//! The parser's event alphabet: what the tokenizer hands the state machine.
//!
//! Tag and attribute names arrive decoded (lossily, so an undecodable name
//! simply matches no known tag), attribute values and text stay raw bytes:
//! the dialect decodes them strictly, field by field, at the moment a field
//! is read.

use vstd::prelude::*;

verus! {

/// A source position: 1-based line, and bytes since the last line break.
#[derive(Debug, Clone, Copy, PartialEq, Eq, Structural)]
pub struct Pos {
    pub line: u64,
    pub column: u64,
}

/// One attribute of a tag: decoded key, raw value bytes.
#[derive(Debug, Clone, PartialEq)]
pub struct XmlAttr {
    pub key: String,
    pub value: Vec<u8>,
}

pub struct XmlAttrV {
    pub key: Seq<char>,
    pub value: Seq<u8>,
}

impl DeepView for XmlAttr {
    type V = XmlAttrV;

    open spec fn deep_view(&self) -> XmlAttrV {
        XmlAttrV { key: self.key.deep_view(), value: self.value.deep_view() }
    }
}

/// A tag's attribute list: the attributes read before the first malformed
/// one, and the tokenizer's message for that malformed one, if any.
#[derive(Debug, Clone, PartialEq)]
pub struct XmlAttrs {
    pub items: Vec<XmlAttr>,
    pub bad: Option<String>,
}

pub struct XmlAttrsV {
    pub items: Seq<XmlAttrV>,
    pub bad: Option<Seq<char>>,
}

impl DeepView for XmlAttrs {
    type V = XmlAttrsV;

    open spec fn deep_view(&self) -> XmlAttrsV {
        XmlAttrsV { items: self.items.deep_view(), bad: self.bad.deep_view() }
    }
}

/// One low-level XML event, as the state machine consumes it.
#[derive(Debug, Clone, PartialEq)]
pub enum XmlEvent {
    /// An opening tag `<name ...>`.
    Open { name: String, attrs: XmlAttrs },
    /// A self-closing tag `<name ... />`.
    SelfClose { name: String, attrs: XmlAttrs },
    /// A closing tag `</name>`.
    Close { name: String },
    /// A text or CDATA fragment, raw.
    Text { content: Vec<u8> },
    /// Markup the dialect has no use for: a comment, declaration,
    /// processing instruction or document type.
    Other,
    /// End of input.
    StreamEnd,
    /// The tokenizer failed to produce an event; the message describes the
    /// well-formedness failure.
    Syntax { msg: String },
}

pub enum XmlEventV {
    Open { name: Seq<char>, attrs: XmlAttrsV },
    SelfClose { name: Seq<char>, attrs: XmlAttrsV },
    Close { name: Seq<char> },
    Text { content: Seq<u8> },
    Other,
    StreamEnd,
    Syntax { msg: Seq<char> },
}

impl DeepView for XmlEvent {
    type V = XmlEventV;

    open spec fn deep_view(&self) -> XmlEventV {
        match self {
            XmlEvent::Open { name, attrs } => XmlEventV::Open {
                name: name.deep_view(),
                attrs: attrs.deep_view(),
            },
            XmlEvent::SelfClose { name, attrs } => XmlEventV::SelfClose {
                name: name.deep_view(),
                attrs: attrs.deep_view(),
            },
            XmlEvent::Close { name } => XmlEventV::Close { name: name.deep_view() },
            XmlEvent::Text { content } => XmlEventV::Text { content: content.deep_view() },
            XmlEvent::Other => XmlEventV::Other,
            XmlEvent::StreamEnd => XmlEventV::StreamEnd,
            XmlEvent::Syntax { msg } => XmlEventV::Syntax { msg: msg.deep_view() },
        }
    }
}

} // verus!
