//! The trusted boundary around the XML tokenizer and text decoding.
//!
//! Everything the crate assumes about outside code stands in this file:
//! declarations of the tokenizer's types, thin wrappers around its calls,
//! and the two UTF-8 decoding wrappers. What the tokenizer returns depends
//! on its configuration as well as its document, so the only constructor
//! here, [`make_reader`], fixes the configuration (text trimming on) and is
//! itself trusted: every reader verified code can hold lexes the same way.
//! Over an in-memory byte source a reader so configured is deterministic,
//! so its output is named: `xml_events` is the event stream a document
//! lexes to under that one configuration, `event_ends` where each event
//! ends, and the wrappers promise that each call returns the next element
//! of that stream. The state machine is verified for every event sequence;
//! the parser's contract then speaks of `xml_events` of its input.

use vstd::prelude::*;

use quick_xml::events::Event;

use crate::events::{XmlAttr, XmlAttrV, XmlAttrs, XmlAttrsV, XmlEvent, XmlEventV};

verus! {

#[verifier::external_type_specification]
#[verifier::external_body]
#[verifier::reject_recursive_types(R)]
pub struct ExReader<R>(quick_xml::Reader<R>);

#[verifier::external_type_specification]
#[verifier::external_body]
#[verifier::reject_recursive_types(T)]
pub struct ExCursor<T>(std::io::Cursor<T>);

#[verifier::external_type_specification]
#[verifier::external_body]
pub struct ExBytesStart<'a>(quick_xml::events::BytesStart<'a>);

/// The reader this parser drives: the tokenizer over an in-memory byte
/// source.
pub type ByteReader = quick_xml::Reader<std::io::Cursor<Vec<u8>>>;

/// One tokenizer event, its payloads copied out as plain values.
pub enum RawEvent {
    Open(Vec<u8>, RawAttrs),
    SelfClose(Vec<u8>, RawAttrs),
    Close(Vec<u8>),
    Text(Vec<u8>),
    Other,
    StreamEnd,
    Syntax(String),
}

/// A tag's attribute list as the tokenizer reports it: the well-formed
/// prefix, and the message of the first malformed attribute, if any.
pub struct RawAttrs {
    pub items: Vec<RawAttr>,
    pub bad: Option<String>,
}

/// One raw attribute: key bytes and (still escaped) value bytes.
pub struct RawAttr {
    pub key: Vec<u8>,
    pub value: Vec<u8>,
}

// ---------------------------------------------------------------------------
// Names for the tokenizer's deterministic behaviour
// ---------------------------------------------------------------------------

/// The document the tokenizer was built over.
pub uninterp spec fn reader_bytes(r: ByteReader) -> Seq<u8>;

/// How many input bytes the tokenizer has consumed: the byte offset just
/// after the last event it produced.
pub uninterp spec fn reader_offset(r: ByteReader) -> u64;

/// How many events the tokenizer has produced so far.
pub uninterp spec fn events_done(r: ByteReader) -> nat;

/// The event stream a document lexes to under [`make_reader`]'s
/// configuration, through the first end-of-stream marker. With the
/// configuration fixed there, this is a function of the document's bytes
/// alone.
pub uninterp spec fn xml_events(input: Seq<u8>) -> Seq<XmlEventV>;

/// The byte offset just after each event of [`xml_events`].
pub uninterp spec fn event_ends(input: Seq<u8>) -> Seq<u64>;

/// What lossy decoding yields on arbitrary bytes; a function of the bytes
/// alone.
pub uninterp spec fn utf8_lossy(b: Seq<u8>) -> Seq<char>;

/// A raw attribute list seen as the event alphabet's: keys decoded
/// lossily, values kept raw.
pub open spec fn raw_attrs_view(a: RawAttrs) -> XmlAttrsV {
    XmlAttrsV {
        items: Seq::new(
            a.items@.len(),
            |i: int|
                XmlAttrV {
                    key: utf8_lossy(a.items@[i].key@),
                    value: a.items@[i].value.deep_view(),
                },
        ),
        bad: match a.bad {
            Some(m) => Some(m@),
            None => None,
        },
    }
}

/// A raw event seen as the event alphabet's: tag and attribute names
/// decoded lossily, text and attribute values kept raw.
pub open spec fn raw_view(ev: RawEvent) -> XmlEventV {
    match ev {
        RawEvent::Open(name, attrs) => XmlEventV::Open {
            name: utf8_lossy(name@),
            attrs: raw_attrs_view(attrs),
        },
        RawEvent::SelfClose(name, attrs) => XmlEventV::SelfClose {
            name: utf8_lossy(name@),
            attrs: raw_attrs_view(attrs),
        },
        RawEvent::Close(name) => XmlEventV::Close { name: utf8_lossy(name@) },
        RawEvent::Text(content) => XmlEventV::Text { content: content.deep_view() },
        RawEvent::Other => XmlEventV::Other,
        RawEvent::StreamEnd => XmlEventV::StreamEnd,
        RawEvent::Syntax(msg) => XmlEventV::Syntax { msg: msg@ },
    }
}

// ---------------------------------------------------------------------------
// The trusted wrappers
// ---------------------------------------------------------------------------

/// Relies on quick_xml::Reader::from_reader and Config::trim_text: builds
/// a tokenizer over the bytes (std::io::Cursor::new converts them to the
/// stream it reads), standing at the start with nothing produced yet. This
/// is the crate's only reader constructor, and it pins the configuration —
/// text trimming on, all else at its defaults — so [`xml_events`] and
/// [`event_ends`] name how a document lexes under exactly this
/// configuration.
#[verifier::external_body]
pub(crate) fn make_reader(input: Vec<u8>) -> (r: ByteReader)
    ensures
        reader_bytes(r) == input@,
        reader_offset(r) == 0,
        events_done(r) == 0,
{
    let mut r = quick_xml::Reader::from_reader(std::io::Cursor::new(input));
    r.config_mut().trim_text(true);
    r
}

/// Relies on quick_xml::events::BytesStart::attributes: the tag's
/// attributes in source order, each key and raw value copied out; iteration
/// stops at the first malformed attribute, whose message is kept.
#[verifier::external_body]
fn take_attrs<'a>(t: &quick_xml::events::BytesStart<'a>) -> RawAttrs {
    let mut items: Vec<RawAttr> = Vec::new();
    for a in t.attributes() {
        match a {
            Ok(at) => items.push(
                RawAttr { key: at.key.as_ref().to_vec(), value: at.value.into_owned() },
            ),
            Err(e) => return RawAttrs { items, bad: Some(format!("{}", e)) },
        }
    }
    RawAttrs { items, bad: None }
}

/// Relies on quick_xml::Reader::read_event_into: returns the next XML
/// event, converted to plain values. Over an in-memory source the
/// tokenizer is deterministic, so the result is the next element of
/// [`xml_events`] of its document, ending at the offset [`event_ends`]
/// gives; past the stream's end it keeps returning end-of-stream without
/// moving. The offset only ever grows, never beyond the input, and every
/// tag, text or markup event covers at least one input byte; only end of
/// stream and failures may stand still.
#[verifier::external_body]
pub(crate) fn read_event_raw(r: &mut ByteReader) -> (ev: RawEvent)
    ensures
        reader_bytes(*final(r)) == reader_bytes(*old(r)),
        events_done(*final(r)) == events_done(*old(r)) + 1,
        reader_offset(*final(r)) >= reader_offset(*old(r)),
        reader_offset(*old(r)) as int <= reader_bytes(*old(r)).len() ==> reader_offset(
            *final(r),
        ) as int <= reader_bytes(*old(r)).len(),
        !(ev is StreamEnd || ev is Syntax) ==> reader_offset(*final(r)) > reader_offset(*old(r)),
        events_done(*old(r)) < xml_events(reader_bytes(*old(r))).len() ==> raw_view(ev)
            == xml_events(reader_bytes(*old(r)))[events_done(*old(r)) as int] && reader_offset(
            *final(r),
        ) == event_ends(reader_bytes(*old(r)))[events_done(*old(r)) as int],
        events_done(*old(r)) >= xml_events(reader_bytes(*old(r))).len() ==> ev is StreamEnd
            && reader_offset(*final(r)) == reader_offset(*old(r)),
{
    let mut buf = Vec::new();
    match r.read_event_into(&mut buf) {
        Ok(Event::Start(t)) => RawEvent::Open(t.name().as_ref().to_vec(), take_attrs(&t)),
        Ok(Event::Empty(t)) => RawEvent::SelfClose(t.name().as_ref().to_vec(), take_attrs(&t)),
        Ok(Event::End(t)) => RawEvent::Close(t.name().as_ref().to_vec()),
        Ok(Event::Text(t)) => RawEvent::Text(t.to_vec()),
        Ok(Event::CData(t)) => RawEvent::Text(t.to_vec()),
        Ok(Event::Eof) => RawEvent::StreamEnd,
        Ok(_) => RawEvent::Other,
        Err(e) => RawEvent::Syntax(format!("{}", e)),
    }
}

/// Relies on quick_xml::Reader::buffer_position: the byte offset just after
/// the last event the tokenizer produced. A UTF-8 byte-order mark at the
/// start of the document is consumed without being counted, so over such a
/// document every offset reported here is short by its three bytes.
#[verifier::external_body]
pub(crate) fn reader_position(r: &ByteReader) -> (p: u64)
    ensures
        p == reader_offset(*r),
{
    r.buffer_position()
}

/// Relies on core::str::from_utf8: `Some` exactly on valid UTF-8, and then
/// the decoding of the bytes.
#[verifier::external_body]
pub(crate) fn bytes_to_str(v: &[u8]) -> (r: Option<&str>)
    ensures
        r is Some <==> vstd::utf8::valid_utf8(v@),
        r is Some ==> r.unwrap()@ == vstd::utf8::decode_utf8(v@),
{
    core::str::from_utf8(v).ok()
}

/// Relies on String::from_utf8_lossy: decodes bytes, substituting the
/// replacement character for invalid sequences; valid UTF-8 decodes as is.
#[verifier::external_body]
pub(crate) fn bytes_to_string_lossy(v: &[u8]) -> (r: String)
    ensures
        r@ == utf8_lossy(v@),
        vstd::utf8::valid_utf8(v@) ==> r@ == vstd::utf8::decode_utf8(v@),
{
    String::from_utf8_lossy(v).into_owned()
}

// ---------------------------------------------------------------------------
// Verified assembly into the event alphabet
// ---------------------------------------------------------------------------

/// Turns a raw attribute list into the event alphabet's, decoding the
/// keys.
fn assemble_attrs(raw: RawAttrs) -> (r: XmlAttrs)
    ensures
        r.deep_view() == raw_attrs_view(raw),
{
    let ghost orig = raw;
    let mut rest = raw;
    let mut items: Vec<XmlAttr> = Vec::new();
    while rest.items.len() > 0
        invariant
            items@.len() + rest.items@.len() == orig.items@.len(),
            rest.items@ =~= orig.items@.skip(items@.len() as int),
            rest.bad == orig.bad,
            forall|i: int|
                0 <= i < items@.len() ==> (#[trigger] items@[i]).key@ == utf8_lossy(
                    orig.items@[i].key@,
                ) && items@[i].value == orig.items@[i].value,
        decreases rest.items@.len(),
    {
        let a = rest.items.remove(0);
        proof {
            assert(orig.items@.skip(items@.len() as int)[0] == orig.items@[items@.len() as int]);
            assert(rest.items@ =~= orig.items@.skip(items@.len() as int + 1));
        }
        let key = bytes_to_string_lossy(a.key.as_slice());
        items.push(XmlAttr { key, value: a.value });
    }
    let out = XmlAttrs { items, bad: rest.bad };
    proof {
        let dv = out.deep_view().items;
        let rv = raw_attrs_view(orig).items;
        assert(dv.len() == rv.len());
        assert forall|i: int| 0 <= i < dv.len() implies dv[i] == rv[i] by {
            assert(items@[i].key@ == utf8_lossy(orig.items@[i].key@));
            assert(items@[i].value == orig.items@[i].value);
            assert(dv[i] == items@[i].deep_view());
            assert(rv[i] == XmlAttrV {
                key: utf8_lossy(orig.items@[i].key@),
                value: orig.items@[i].value.deep_view(),
            });
        }
        assert(dv =~= rv);
    }
    out
}

/// Turns the tokenizer's next event into the state machine's alphabet:
/// the next element of the document's event stream.
pub(crate) fn next_xml_event(r: &mut ByteReader) -> (ev: XmlEvent)
    ensures
        reader_bytes(*final(r)) == reader_bytes(*old(r)),
        events_done(*final(r)) == events_done(*old(r)) + 1,
        reader_offset(*final(r)) >= reader_offset(*old(r)),
        reader_offset(*old(r)) as int <= reader_bytes(*old(r)).len() ==> reader_offset(
            *final(r),
        ) as int <= reader_bytes(*old(r)).len(),
        !(ev is StreamEnd || ev is Syntax) ==> reader_offset(*final(r)) > reader_offset(*old(r)),
        events_done(*old(r)) < xml_events(reader_bytes(*old(r))).len() ==> ev.deep_view()
            == xml_events(reader_bytes(*old(r)))[events_done(*old(r)) as int] && reader_offset(
            *final(r),
        ) == event_ends(reader_bytes(*old(r)))[events_done(*old(r)) as int],
        events_done(*old(r)) >= xml_events(reader_bytes(*old(r))).len() ==> ev is StreamEnd
            && reader_offset(*final(r)) == reader_offset(*old(r)),
{
    let raw = read_event_raw(r);
    let ghost rv = raw_view(raw);
    let ev = match raw {
        RawEvent::Open(name, attrs) => {
            let name = bytes_to_string_lossy(name.as_slice());
            let attrs = assemble_attrs(attrs);
            XmlEvent::Open { name, attrs }
        },
        RawEvent::SelfClose(name, attrs) => {
            let name = bytes_to_string_lossy(name.as_slice());
            let attrs = assemble_attrs(attrs);
            XmlEvent::SelfClose { name, attrs }
        },
        RawEvent::Close(name) => {
            let name = bytes_to_string_lossy(name.as_slice());
            XmlEvent::Close { name }
        },
        RawEvent::Text(content) => XmlEvent::Text { content },
        RawEvent::Other => XmlEvent::Other,
        RawEvent::StreamEnd => XmlEvent::StreamEnd,
        RawEvent::Syntax(msg) => XmlEvent::Syntax { msg },
    };
    proof {
        assert(ev.deep_view() == rv);
    }
    ev
}

} // verus!
