//! The parser's core: a flat state machine over XML events.
//!
//! All progress lives in [`ParserCore`]; one call of [`ParserCore::feed`]
//! consumes one event and either asks for more, yields a completed record,
//! or reports a failure. The transition relation is the spec function
//! [`spec_feed`], and `feed` is proved to implement it exactly, so every
//! statement about the parser reduces to statements about `spec_feed` over
//! event sequences.
//!
//! After a recoverable failure inside an offer, the machine resynchronizes
//! at the offers scope: the remaining events of the broken offer are
//! skipped there until the next offer opens, mirroring a parse that leaves
//! the tokenizer wherever the failing read stopped.

use vstd::prelude::*;
use vstd::utf8::{decode_utf8, valid_utf8};

use crate::coerce::{
    is_decimal_str, num_err_string, parse_available, parse_bool_text, parse_u64_str,
    spec_bool_err_msg, spec_decimal_err_msg, spec_is_decimal, spec_num_err_msg, spec_parse_available,
    spec_parse_bool, spec_parse_u64, spec_trim_chars, trim_str,
};
use crate::coerce::{bool_err_string, decimal_err_string, str_eq};
use crate::events::{Pos, XmlAttrV, XmlAttrs, XmlAttrsV, XmlEvent, XmlEventV};
use crate::tokenizer::bytes_to_str;
use crate::types::{
    empty_condition_v, empty_currency_v, empty_offer_v, empty_param_v, empty_shop_v, Category,
    CategoryV, Condition, ConditionV, Currency, CurrencyV, DeliveryOption, DeliveryOptionV,
    MarketXmlError, MarketXmlErrorV, Offer, OfferV, Param, ParamV, ParsedItem, ParsedItemV, Price,
    PriceV, Shop, ShopV, YmlCatalog, YmlCatalogV,
};

verus! {

// ---------------------------------------------------------------------------
// States
// ---------------------------------------------------------------------------

/// Where the machine stands in the document. The first five mirror the
/// document's scopes; the rest are the sub-scopes of one in-flight record.
#[derive(Debug, Clone, Copy, PartialEq, Eq, Structural)]
pub enum State {
    /// Before the catalog root tag.
    Begin,
    /// Inside `yml_catalog`.
    Catalog,
    /// Inside `shop`.
    Shop,
    /// Reading the text of a scalar shop field.
    ShopText,
    /// Inside `currencies`.
    Currencies,
    /// Inside `categories`.
    Categories,
    /// Reading one category's text content.
    CategoryText,
    /// Inside a delivery- or pickup-options list.
    OptionsList,
    /// Inside `offers`.
    Offers,
    /// Inside one `offer`, between fields.
    OfferFields,
    /// Reading the text of a scalar offer field.
    OfferText,
    /// Reading a price tag's text.
    OfferPrice,
    /// Reading a param tag's text.
    OfferParam,
    /// Inside `condition`.
    OfferCondition,
    /// Reading the condition reason's text.
    OfferReason,
    /// After the catalog root closed: terminal.
    End,
}

/// Which scalar shop field text is being read for.
#[derive(Debug, Clone, Copy, PartialEq, Eq, Structural)]
pub enum ShopField {
    Name,
    Company,
    Url,
}

/// Which offer field text is being read for.
#[derive(Debug, Clone, Copy, PartialEq, Eq, Structural)]
pub enum OfferField {
    Name,
    Vendor,
    VendorCode,
    Url,
    Picture,
    CurrencyId,
    Description,
    SalesNotes,
    CountryOfOrigin,
    Dimensions,
    Barcode,
    CategoryId,
    Weight,
    Downloadable,
    EnableAutoDiscounts,
    ManufacturerWarranty,
    Delivery,
    Pickup,
    Store,
    MinQuantity,
}

/// Where a finished options list belongs.
#[derive(Debug, Clone, Copy, PartialEq, Eq, Structural)]
pub enum OptDest {
    Shop,
    OfferDelivery,
    OfferPickup,
}

// ---------------------------------------------------------------------------
// Error constructors
// ---------------------------------------------------------------------------

pub open spec fn v_xml(msg: Seq<char>, p: Pos) -> MarketXmlErrorV {
    MarketXmlErrorV::Xml { msg, line: p.line, column: p.column }
}

pub open spec fn v_utag(tag: Seq<char>, p: Pos) -> MarketXmlErrorV {
    MarketXmlErrorV::UnexpectedTag { tag, line: p.line, column: p.column }
}

pub open spec fn v_utf8(p: Pos) -> MarketXmlErrorV {
    MarketXmlErrorV::InvalidUtf8 { line: p.line, column: p.column }
}

pub open spec fn v_valid(msg: Seq<char>, p: Pos, value: Seq<char>) -> MarketXmlErrorV {
    MarketXmlErrorV::Validation { msg, line: p.line, column: p.column, value }
}

fn e_xml(msg: String, p: Pos) -> (r: MarketXmlError)
    ensures
        r.deep_view() == v_xml(msg@, p),
{
    MarketXmlError::Xml { msg, line: p.line, column: p.column }
}

fn e_xml_lit(msg: &str, p: Pos) -> (r: MarketXmlError)
    ensures
        r.deep_view() == v_xml(msg@, p),
{
    MarketXmlError::Xml { msg: String::from_str(msg), line: p.line, column: p.column }
}

fn e_utag(tag: String, p: Pos) -> (r: MarketXmlError)
    ensures
        r.deep_view() == v_utag(tag@, p),
{
    MarketXmlError::UnexpectedTag { tag, line: p.line, column: p.column }
}

fn e_utf8(p: Pos) -> (r: MarketXmlError)
    ensures
        r.deep_view() == v_utf8(p),
{
    MarketXmlError::InvalidUtf8 { line: p.line, column: p.column }
}

fn e_valid(msg: String, p: Pos, value: String) -> (r: MarketXmlError)
    ensures
        r.deep_view() == v_valid(msg@, p, value@),
{
    MarketXmlError::Validation { msg, line: p.line, column: p.column, value }
}

/// The message of each premature end of stream, by the scope it ends in.
pub open spec fn spec_eof_msg(s: State) -> Seq<char> {
    match s {
        State::Begin => "unexpected end of stream: yandex market file"@,
        State::Catalog => "unexpected end of stream: yml_catalog"@,
        State::Shop => "unexpected end of stream: shop"@,
        State::Currencies => "unexpected end of stream: currencies"@,
        State::Categories => "unexpected end of stream: categories"@,
        State::OptionsList => "unexpected end of stream: delivery options"@,
        State::Offers => "unexpected end of stream: offers"@,
        State::OfferFields => "unexpected end of stream: offer"@,
        State::OfferCondition => "unexpected end of stream: condition"@,
        _ => "unexpected end of stream: text"@,
    }
}

/// The message where markup stands in place of expected text.
pub open spec fn spec_text_not_found_msg() -> Seq<char> {
    "expected text content"@
}

// ---------------------------------------------------------------------------
// Strict decoding of attribute values and text fragments
// ---------------------------------------------------------------------------

/// A byte vector's deep view is its view.
pub proof fn lemma_bytes_deep_view(v: &Vec<u8>)
    ensures
        v.deep_view() == v@,
{
    assert(v.deep_view() =~= v@);
}

/// Decodes bytes strictly; invalid UTF-8 is an encoding failure at `pa`.
fn decode_string(v: &[u8], pa: Pos) -> (r: Result<String, MarketXmlError>)
    ensures
        match r {
            Ok(s) => valid_utf8(v@) && s@ == decode_utf8(v@),
            Err(e) => !valid_utf8(v@) && e.deep_view() == v_utf8(pa),
        },
{
    match bytes_to_str(v) {
        Some(s) => Ok(String::from_str(s)),
        None => Err(e_utf8(pa)),
    }
}

// ---------------------------------------------------------------------------
// Attribute scanners
// ---------------------------------------------------------------------------
//
// Each scanner folds over the attribute list from position `i`, carrying
// the record being filled; reaching the end, a malformed tail of the list
// (`bad`) is the tokenizer's own failure. The executable counterparts walk
// the same list with the same accumulator.

pub open spec fn scan_catalog_attrs(
    cat: YmlCatalogV,
    items: Seq<XmlAttrV>,
    bad: Option<Seq<char>>,
    i: int,
    pa: Pos,
) -> (YmlCatalogV, Option<MarketXmlErrorV>)
    decreases items.len() - i,
{
    if i < 0 || i >= items.len() {
        match bad {
            None => (cat, None),
            Some(m) => (cat, Some(v_xml(m, pa))),
        }
    } else {
        let a = items[i];
        if a.key == "date"@ {
            if valid_utf8(a.value) {
                scan_catalog_attrs(
                    YmlCatalogV { date: decode_utf8(a.value), ..cat },
                    items,
                    bad,
                    i + 1,
                    pa,
                )
            } else {
                (cat, Some(v_utf8(pa)))
            }
        } else {
            scan_catalog_attrs(cat, items, bad, i + 1, pa)
        }
    }
}

#[verifier::loop_isolation(false)]
fn apply_catalog_attrs(cat: &mut YmlCatalog, attrs: &XmlAttrs, pa: Pos) -> (r: Option<
    MarketXmlError,
>)
    ensures
        ({
            let (c2, e) = scan_catalog_attrs(
                old(cat).deep_view(),
                attrs.deep_view().items,
                attrs.deep_view().bad,
                0,
                pa,
            );
            final(cat).deep_view() == c2 && r.deep_view() == e
        }),
{
    let n = attrs.items.len();
    let mut i: usize = 0;
    while i < n
        invariant
            0 <= i <= n,
            scan_catalog_attrs(old(cat).deep_view(), attrs.deep_view().items, attrs.deep_view().bad, 0, pa)
                == scan_catalog_attrs(cat.deep_view(), attrs.deep_view().items, attrs.deep_view().bad, i as int, pa),
        decreases n - i,
    {
        let a = &attrs.items[i];
        proof {
            assert(attrs.deep_view().items[i as int] == attrs.items@[i as int].deep_view());
            lemma_bytes_deep_view(&a.value);
        }
        if str_eq(a.key.as_str(), "date") {
            match decode_string(a.value.as_slice(), pa) {
                Ok(s) => {
                    cat.date = s;
                },
                Err(e) => {
                    return Some(e);
                },
            }
        }
        i = i + 1;
    }
    match &attrs.bad {
        Some(m) => Some(e_xml(m.clone(), pa)),
        None => None,
    }
}

/// A numeric attribute value: strict decoding, then the unsigned coercion;
/// the validation error carries the decoded literal.
pub open spec fn spec_u64_attr(v: Seq<u8>, pa: Pos) -> Result<u64, MarketXmlErrorV> {
    if !valid_utf8(v) {
        Err(v_utf8(pa))
    } else {
        let s = decode_utf8(v);
        match spec_parse_u64(s) {
            Ok(x) => Ok(x),
            Err(e) => Err(v_valid(spec_num_err_msg(e), pa, s)),
        }
    }
}

fn u64_attr(v: &[u8], pa: Pos) -> (r: Result<u64, MarketXmlError>)
    ensures
        match r {
            Ok(x) => spec_u64_attr(v@, pa) == Ok::<u64, MarketXmlErrorV>(x),
            Err(e) => spec_u64_attr(v@, pa) == Err::<u64, MarketXmlErrorV>(e.deep_view()),
        },
{
    let s = match decode_string(v, pa) {
        Ok(s) => s,
        Err(e) => {
            return Err(e);
        },
    };
    match parse_u64_str(s.as_str()) {
        Ok(x) => Ok(x),
        Err(k) => Err(e_valid(num_err_string(k), pa, s)),
    }
}

pub open spec fn scan_currency_attrs(
    cur: CurrencyV,
    items: Seq<XmlAttrV>,
    bad: Option<Seq<char>>,
    i: int,
    pa: Pos,
) -> (CurrencyV, Option<MarketXmlErrorV>)
    decreases items.len() - i,
{
    if i < 0 || i >= items.len() {
        match bad {
            None => (cur, None),
            Some(m) => (cur, Some(v_xml(m, pa))),
        }
    } else {
        let a = items[i];
        if !valid_utf8(a.value) {
            (cur, Some(v_utf8(pa)))
        } else {
            let s = decode_utf8(a.value);
            if a.key == "id"@ {
                scan_currency_attrs(CurrencyV { id: s, ..cur }, items, bad, i + 1, pa)
            } else if a.key == "rate"@ {
                scan_currency_attrs(CurrencyV { rate: s, ..cur }, items, bad, i + 1, pa)
            } else if a.key == "plus"@ {
                scan_currency_attrs(CurrencyV { plus: s, ..cur }, items, bad, i + 1, pa)
            } else {
                scan_currency_attrs(cur, items, bad, i + 1, pa)
            }
        }
    }
}

#[verifier::loop_isolation(false)]
fn apply_currency_attrs(cur: &mut Currency, attrs: &XmlAttrs, pa: Pos) -> (r: Option<
    MarketXmlError,
>)
    ensures
        ({
            let (c2, e) = scan_currency_attrs(
                old(cur).deep_view(),
                attrs.deep_view().items,
                attrs.deep_view().bad,
                0,
                pa,
            );
            final(cur).deep_view() == c2 && r.deep_view() == e
        }),
{
    let n = attrs.items.len();
    let mut i: usize = 0;
    while i < n
        invariant
            0 <= i <= n,
            scan_currency_attrs(old(cur).deep_view(), attrs.deep_view().items, attrs.deep_view().bad, 0, pa)
                == scan_currency_attrs(cur.deep_view(), attrs.deep_view().items, attrs.deep_view().bad, i as int, pa),
        decreases n - i,
    {
        let a = &attrs.items[i];
        proof {
            assert(attrs.deep_view().items[i as int] == attrs.items@[i as int].deep_view());
            lemma_bytes_deep_view(&a.value);
        }
        let s = match decode_string(a.value.as_slice(), pa) {
            Ok(s) => s,
            Err(e) => {
                return Some(e);
            },
        };
        if str_eq(a.key.as_str(), "id") {
            cur.id = s;
        } else if str_eq(a.key.as_str(), "rate") {
            cur.rate = s;
        } else if str_eq(a.key.as_str(), "plus") {
            cur.plus = s;
        }
        i = i + 1;
    }
    match &attrs.bad {
        Some(m) => Some(e_xml(m.clone(), pa)),
        None => None,
    }
}

pub open spec fn scan_category_attrs(
    id: u64,
    parent: u64,
    items: Seq<XmlAttrV>,
    bad: Option<Seq<char>>,
    i: int,
    pa: Pos,
) -> ((u64, u64), Option<MarketXmlErrorV>)
    decreases items.len() - i,
{
    if i < 0 || i >= items.len() {
        match bad {
            None => ((id, parent), None),
            Some(m) => ((id, parent), Some(v_xml(m, pa))),
        }
    } else {
        let a = items[i];
        if a.key == "id"@ {
            match spec_u64_attr(a.value, pa) {
                Ok(x) => scan_category_attrs(x, parent, items, bad, i + 1, pa),
                Err(e) => ((id, parent), Some(e)),
            }
        } else if a.key == "parentId"@ {
            match spec_u64_attr(a.value, pa) {
                Ok(x) => scan_category_attrs(id, x, items, bad, i + 1, pa),
                Err(e) => ((id, parent), Some(e)),
            }
        } else {
            scan_category_attrs(id, parent, items, bad, i + 1, pa)
        }
    }
}

#[verifier::loop_isolation(false)]
fn apply_category_attrs(id: &mut u64, parent: &mut u64, attrs: &XmlAttrs, pa: Pos) -> (r: Option<
    MarketXmlError,
>)
    ensures
        ({
            let (c2, e) = scan_category_attrs(
                *old(id),
                *old(parent),
                attrs.deep_view().items,
                attrs.deep_view().bad,
                0,
                pa,
            );
            *final(id) == c2.0 && *final(parent) == c2.1 && r.deep_view() == e
        }),
{
    let n = attrs.items.len();
    let mut i: usize = 0;
    while i < n
        invariant
            0 <= i <= n,
            scan_category_attrs(*old(id), *old(parent), attrs.deep_view().items, attrs.deep_view().bad, 0, pa)
                == scan_category_attrs(*id, *parent, attrs.deep_view().items, attrs.deep_view().bad, i as int, pa),
        decreases n - i,
    {
        let a = &attrs.items[i];
        proof {
            assert(attrs.deep_view().items[i as int] == attrs.items@[i as int].deep_view());
            lemma_bytes_deep_view(&a.value);
        }
        if str_eq(a.key.as_str(), "id") {
            match u64_attr(a.value.as_slice(), pa) {
                Ok(x) => {
                    *id = x;
                },
                Err(e) => {
                    return Some(e);
                },
            }
        } else if str_eq(a.key.as_str(), "parentId") {
            match u64_attr(a.value.as_slice(), pa) {
                Ok(x) => {
                    *parent = x;
                },
                Err(e) => {
                    return Some(e);
                },
            }
        }
        i = i + 1;
    }
    match &attrs.bad {
        Some(m) => Some(e_xml(m.clone(), pa)),
        None => None,
    }
}

pub open spec fn scan_offer_attrs(
    o: OfferV,
    items: Seq<XmlAttrV>,
    bad: Option<Seq<char>>,
    i: int,
    pa: Pos,
) -> (OfferV, Option<MarketXmlErrorV>)
    decreases items.len() - i,
{
    if i < 0 || i >= items.len() {
        match bad {
            None => (o, None),
            Some(m) => (o, Some(v_xml(m, pa))),
        }
    } else {
        let a = items[i];
        if a.key == "id"@ {
            if valid_utf8(a.value) {
                scan_offer_attrs(OfferV { id: decode_utf8(a.value), ..o }, items, bad, i + 1, pa)
            } else {
                (o, Some(v_utf8(pa)))
            }
        } else if a.key == "type"@ {
            if valid_utf8(a.value) {
                scan_offer_attrs(OfferV { kind: decode_utf8(a.value), ..o }, items, bad, i + 1, pa)
            } else {
                (o, Some(v_utf8(pa)))
            }
        } else if a.key == "bid"@ {
            match spec_u64_attr(a.value, pa) {
                Ok(x) => scan_offer_attrs(OfferV { bid: x, ..o }, items, bad, i + 1, pa),
                Err(e) => (o, Some(e)),
            }
        } else if a.key == "cbid"@ {
            match spec_u64_attr(a.value, pa) {
                Ok(x) => scan_offer_attrs(OfferV { cbid: x, ..o }, items, bad, i + 1, pa),
                Err(e) => (o, Some(e)),
            }
        } else if a.key == "available"@ {
            match spec_parse_available(a.value) {
                Some(v) => scan_offer_attrs(OfferV { available: v, ..o }, items, bad, i + 1, pa),
                None => if valid_utf8(a.value) {
                    (o, Some(v_valid("parse bool"@, pa, decode_utf8(a.value))))
                } else {
                    (o, Some(v_utf8(pa)))
                },
            }
        } else {
            scan_offer_attrs(o, items, bad, i + 1, pa)
        }
    }
}

#[verifier::loop_isolation(false)]
fn apply_offer_attrs(o: &mut Offer, attrs: &XmlAttrs, pa: Pos) -> (r: Option<MarketXmlError>)
    ensures
        ({
            let (c2, e) = scan_offer_attrs(
                old(o).deep_view(),
                attrs.deep_view().items,
                attrs.deep_view().bad,
                0,
                pa,
            );
            final(o).deep_view() == c2 && r.deep_view() == e
        }),
{
    let n = attrs.items.len();
    let mut i: usize = 0;
    while i < n
        invariant
            0 <= i <= n,
            scan_offer_attrs(old(o).deep_view(), attrs.deep_view().items, attrs.deep_view().bad, 0, pa)
                == scan_offer_attrs(o.deep_view(), attrs.deep_view().items, attrs.deep_view().bad, i as int, pa),
        decreases n - i,
    {
        let a = &attrs.items[i];
        proof {
            assert(attrs.deep_view().items[i as int] == attrs.items@[i as int].deep_view());
            lemma_bytes_deep_view(&a.value);
        }
        if str_eq(a.key.as_str(), "id") {
            match decode_string(a.value.as_slice(), pa) {
                Ok(s) => {
                    o.id = s;
                },
                Err(e) => {
                    return Some(e);
                },
            }
        } else if str_eq(a.key.as_str(), "type") {
            match decode_string(a.value.as_slice(), pa) {
                Ok(s) => {
                    o.kind = s;
                },
                Err(e) => {
                    return Some(e);
                },
            }
        } else if str_eq(a.key.as_str(), "bid") {
            match u64_attr(a.value.as_slice(), pa) {
                Ok(x) => {
                    o.bid = x;
                },
                Err(e) => {
                    return Some(e);
                },
            }
        } else if str_eq(a.key.as_str(), "cbid") {
            match u64_attr(a.value.as_slice(), pa) {
                Ok(x) => {
                    o.cbid = x;
                },
                Err(e) => {
                    return Some(e);
                },
            }
        } else if str_eq(a.key.as_str(), "available") {
            match parse_available(a.value.as_slice()) {
                Some(v) => {
                    o.available = v;
                },
                None => {
                    match decode_string(a.value.as_slice(), pa) {
                        Ok(s) => {
                            return Some(e_valid(String::from_str("parse bool"), pa, s));
                        },
                        Err(e) => {
                            return Some(e);
                        },
                    }
                },
            }
        }
        i = i + 1;
    }
    match &attrs.bad {
        Some(m) => Some(e_xml(m.clone(), pa)),
        None => None,
    }
}

pub open spec fn scan_option_attrs(
    opt: DeliveryOptionV,
    items: Seq<XmlAttrV>,
    bad: Option<Seq<char>>,
    i: int,
    pa: Pos,
) -> (DeliveryOptionV, Option<MarketXmlErrorV>)
    decreases items.len() - i,
{
    if i < 0 || i >= items.len() {
        match bad {
            None => (opt, None),
            Some(m) => (opt, Some(v_xml(m, pa))),
        }
    } else {
        let a = items[i];
        if a.key == "cost"@ {
            match spec_u64_attr(a.value, pa) {
                Ok(x) => scan_option_attrs(DeliveryOptionV { cost: x, ..opt }, items, bad, i + 1, pa),
                Err(e) => (opt, Some(e)),
            }
        } else if a.key == "days"@ {
            if valid_utf8(a.value) {
                scan_option_attrs(
                    DeliveryOptionV { days: decode_utf8(a.value), ..opt },
                    items,
                    bad,
                    i + 1,
                    pa,
                )
            } else {
                (opt, Some(v_utf8(pa)))
            }
        } else if a.key == "order-before"@ {
            if a.value.len() == 0 {
                scan_option_attrs(DeliveryOptionV { order_before: None, ..opt }, items, bad, i + 1, pa)
            } else {
                match spec_u64_attr(a.value, pa) {
                    Ok(x) => scan_option_attrs(
                        DeliveryOptionV { order_before: Some(x), ..opt },
                        items,
                        bad,
                        i + 1,
                        pa,
                    ),
                    Err(e) => (opt, Some(e)),
                }
            }
        } else {
            scan_option_attrs(opt, items, bad, i + 1, pa)
        }
    }
}

#[verifier::loop_isolation(false)]
fn apply_option_attrs(opt: &mut DeliveryOption, attrs: &XmlAttrs, pa: Pos) -> (r: Option<
    MarketXmlError,
>)
    ensures
        ({
            let (c2, e) = scan_option_attrs(
                old(opt).deep_view(),
                attrs.deep_view().items,
                attrs.deep_view().bad,
                0,
                pa,
            );
            final(opt).deep_view() == c2 && r.deep_view() == e
        }),
{
    let n = attrs.items.len();
    let mut i: usize = 0;
    while i < n
        invariant
            0 <= i <= n,
            scan_option_attrs(old(opt).deep_view(), attrs.deep_view().items, attrs.deep_view().bad, 0, pa)
                == scan_option_attrs(opt.deep_view(), attrs.deep_view().items, attrs.deep_view().bad, i as int, pa),
        decreases n - i,
    {
        let a = &attrs.items[i];
        proof {
            assert(attrs.deep_view().items[i as int] == attrs.items@[i as int].deep_view());
            lemma_bytes_deep_view(&a.value);
        }
        if str_eq(a.key.as_str(), "cost") {
            match u64_attr(a.value.as_slice(), pa) {
                Ok(x) => {
                    opt.cost = x;
                },
                Err(e) => {
                    return Some(e);
                },
            }
        } else if str_eq(a.key.as_str(), "days") {
            match decode_string(a.value.as_slice(), pa) {
                Ok(s) => {
                    opt.days = s;
                },
                Err(e) => {
                    return Some(e);
                },
            }
        } else if str_eq(a.key.as_str(), "order-before") {
            if a.value.len() == 0 {
                opt.order_before = None;
            } else {
                match u64_attr(a.value.as_slice(), pa) {
                    Ok(x) => {
                        opt.order_before = Some(x);
                    },
                    Err(e) => {
                        return Some(e);
                    },
                }
            }
        }
        i = i + 1;
    }
    match &attrs.bad {
        Some(m) => Some(e_xml(m.clone(), pa)),
        None => None,
    }
}

pub open spec fn scan_param_attrs(
    p: ParamV,
    items: Seq<XmlAttrV>,
    bad: Option<Seq<char>>,
    i: int,
    pa: Pos,
) -> (ParamV, Option<MarketXmlErrorV>)
    decreases items.len() - i,
{
    if i < 0 || i >= items.len() {
        match bad {
            None => (p, None),
            Some(m) => (p, Some(v_xml(m, pa))),
        }
    } else {
        let a = items[i];
        if !valid_utf8(a.value) {
            (p, Some(v_utf8(pa)))
        } else {
            let s = decode_utf8(a.value);
            if a.key == "name"@ {
                scan_param_attrs(ParamV { name: s, ..p }, items, bad, i + 1, pa)
            } else if a.key == "unit"@ {
                scan_param_attrs(ParamV { unit: s, ..p }, items, bad, i + 1, pa)
            } else if a.key == "id"@ {
                scan_param_attrs(ParamV { id: s, ..p }, items, bad, i + 1, pa)
            } else if a.key == "valueid"@ {
                scan_param_attrs(ParamV { value_id: s, ..p }, items, bad, i + 1, pa)
            } else {
                scan_param_attrs(p, items, bad, i + 1, pa)
            }
        }
    }
}

#[verifier::loop_isolation(false)]
fn apply_param_attrs(p: &mut Param, attrs: &XmlAttrs, pa: Pos) -> (r: Option<MarketXmlError>)
    ensures
        ({
            let (c2, e) = scan_param_attrs(
                old(p).deep_view(),
                attrs.deep_view().items,
                attrs.deep_view().bad,
                0,
                pa,
            );
            final(p).deep_view() == c2 && r.deep_view() == e
        }),
{
    let n = attrs.items.len();
    let mut i: usize = 0;
    while i < n
        invariant
            0 <= i <= n,
            scan_param_attrs(old(p).deep_view(), attrs.deep_view().items, attrs.deep_view().bad, 0, pa)
                == scan_param_attrs(p.deep_view(), attrs.deep_view().items, attrs.deep_view().bad, i as int, pa),
        decreases n - i,
    {
        let a = &attrs.items[i];
        proof {
            assert(attrs.deep_view().items[i as int] == attrs.items@[i as int].deep_view());
            lemma_bytes_deep_view(&a.value);
        }
        let s = match decode_string(a.value.as_slice(), pa) {
            Ok(s) => s,
            Err(e) => {
                return Some(e);
            },
        };
        if str_eq(a.key.as_str(), "name") {
            p.name = s;
        } else if str_eq(a.key.as_str(), "unit") {
            p.unit = s;
        } else if str_eq(a.key.as_str(), "id") {
            p.id = s;
        } else if str_eq(a.key.as_str(), "valueid") {
            p.value_id = s;
        }
        i = i + 1;
    }
    match &attrs.bad {
        Some(m) => Some(e_xml(m.clone(), pa)),
        None => None,
    }
}

pub open spec fn scan_condition_attrs(
    c: ConditionV,
    items: Seq<XmlAttrV>,
    bad: Option<Seq<char>>,
    i: int,
    pa: Pos,
) -> (ConditionV, Option<MarketXmlErrorV>)
    decreases items.len() - i,
{
    if i < 0 || i >= items.len() {
        match bad {
            None => (c, None),
            Some(m) => (c, Some(v_xml(m, pa))),
        }
    } else {
        let a = items[i];
        if a.key == "type"@ {
            if valid_utf8(a.value) {
                scan_condition_attrs(
                    ConditionV { kind: decode_utf8(a.value), ..c },
                    items,
                    bad,
                    i + 1,
                    pa,
                )
            } else {
                (c, Some(v_utf8(pa)))
            }
        } else {
            scan_condition_attrs(c, items, bad, i + 1, pa)
        }
    }
}

#[verifier::loop_isolation(false)]
fn apply_condition_attrs(c: &mut Condition, attrs: &XmlAttrs, pa: Pos) -> (r: Option<
    MarketXmlError,
>)
    ensures
        ({
            let (c2, e) = scan_condition_attrs(
                old(c).deep_view(),
                attrs.deep_view().items,
                attrs.deep_view().bad,
                0,
                pa,
            );
            final(c).deep_view() == c2 && r.deep_view() == e
        }),
{
    let n = attrs.items.len();
    let mut i: usize = 0;
    while i < n
        invariant
            0 <= i <= n,
            scan_condition_attrs(old(c).deep_view(), attrs.deep_view().items, attrs.deep_view().bad, 0, pa)
                == scan_condition_attrs(c.deep_view(), attrs.deep_view().items, attrs.deep_view().bad, i as int, pa),
        decreases n - i,
    {
        let a = &attrs.items[i];
        proof {
            assert(attrs.deep_view().items[i as int] == attrs.items@[i as int].deep_view());
            lemma_bytes_deep_view(&a.value);
        }
        if str_eq(a.key.as_str(), "type") {
            match decode_string(a.value.as_slice(), pa) {
                Ok(s) => {
                    c.kind = s;
                },
                Err(e) => {
                    return Some(e);
                },
            }
        }
        i = i + 1;
    }
    match &attrs.bad {
        Some(m) => Some(e_xml(m.clone(), pa)),
        None => None,
    }
}

/// Whether the `from` attribute of a price tag is literally `true`; the
/// raw bytes are compared, nothing is decoded.
pub open spec fn scan_price_from(
    from: bool,
    items: Seq<XmlAttrV>,
    bad: Option<Seq<char>>,
    i: int,
    pa: Pos,
) -> (bool, Option<MarketXmlErrorV>)
    decreases items.len() - i,
{
    if i < 0 || i >= items.len() {
        match bad {
            None => (from, None),
            Some(m) => (from, Some(v_xml(m, pa))),
        }
    } else {
        let a = items[i];
        if a.key == "from"@ && a.value == crate::coerce::spec_true_bytes() {
            scan_price_from(true, items, bad, i + 1, pa)
        } else {
            scan_price_from(from, items, bad, i + 1, pa)
        }
    }
}

#[verifier::loop_isolation(false)]
fn apply_price_from(from: &mut bool, attrs: &XmlAttrs, pa: Pos) -> (r: Option<MarketXmlError>)
    ensures
        ({
            let (f2, e) = scan_price_from(
                *old(from),
                attrs.deep_view().items,
                attrs.deep_view().bad,
                0,
                pa,
            );
            *final(from) == f2 && r.deep_view() == e
        }),
{
    let n = attrs.items.len();
    let mut i: usize = 0;
    while i < n
        invariant
            0 <= i <= n,
            scan_price_from(*old(from), attrs.deep_view().items, attrs.deep_view().bad, 0, pa)
                == scan_price_from(*from, attrs.deep_view().items, attrs.deep_view().bad, i as int, pa),
        decreases n - i,
    {
        let a = &attrs.items[i];
        proof {
            assert(attrs.deep_view().items[i as int] == attrs.items@[i as int].deep_view());
            lemma_bytes_deep_view(&a.value);
        }
        let v = a.value.as_slice();
        if str_eq(a.key.as_str(), "from") && v.len() == 4 && v[0] == 116 && v[1] == 114 && v[2]
            == 117 && v[3] == 101 {
            proof {
                assert(a.value@ =~= crate::coerce::spec_true_bytes());
            }
            *from = true;
        } else {
            proof {
                if a.value@ == crate::coerce::spec_true_bytes() {
                    assert(v@.len() == 4);
                    assert(v[0nat as int] == 116);
                }
            }
        }
        i = i + 1;
    }
    match &attrs.bad {
        Some(m) => Some(e_xml(m.clone(), pa)),
        None => None,
    }
}

/// The `credit-template` tag's `id` attribute: the first occurrence wins
/// and ends the scan; later attributes, well-formed or not, are not read.
pub open spec fn scan_credit_attrs(
    items: Seq<XmlAttrV>,
    bad: Option<Seq<char>>,
    i: int,
    pa: Pos,
) -> (Option<Seq<char>>, Option<MarketXmlErrorV>)
    decreases items.len() - i,
{
    if i < 0 || i >= items.len() {
        match bad {
            None => (None, None),
            Some(m) => (None, Some(v_xml(m, pa))),
        }
    } else {
        let a = items[i];
        if a.key == "id"@ {
            if valid_utf8(a.value) {
                (Some(decode_utf8(a.value)), None)
            } else {
                (None, Some(v_utf8(pa)))
            }
        } else {
            scan_credit_attrs(items, bad, i + 1, pa)
        }
    }
}

#[verifier::loop_isolation(false)]
fn apply_credit_attrs(attrs: &XmlAttrs, pa: Pos) -> (r: Result<Option<String>, MarketXmlError>)
    ensures
        ({
            let (v, e) = scan_credit_attrs(attrs.deep_view().items, attrs.deep_view().bad, 0, pa);
            match r {
                Ok(x) => e is None && x.deep_view() == v,
                Err(err) => e == Some(err.deep_view()),
            }
        }),
{
    let n = attrs.items.len();
    let mut i: usize = 0;
    while i < n
        invariant
            0 <= i <= n,
            scan_credit_attrs(attrs.deep_view().items, attrs.deep_view().bad, 0, pa)
                == scan_credit_attrs(attrs.deep_view().items, attrs.deep_view().bad, i as int, pa),
        decreases n - i,
    {
        let a = &attrs.items[i];
        proof {
            assert(attrs.deep_view().items[i as int] == attrs.items@[i as int].deep_view());
            lemma_bytes_deep_view(&a.value);
        }
        if str_eq(a.key.as_str(), "id") {
            match decode_string(a.value.as_slice(), pa) {
                Ok(s) => {
                    return Ok(Some(s));
                },
                Err(e) => {
                    return Err(e);
                },
            }
        }
        i = i + 1;
    }
    match &attrs.bad {
        Some(m) => Err(e_xml(m.clone(), pa)),
        None => Ok(None),
    }
}

// ---------------------------------------------------------------------------
// The machine's state
// ---------------------------------------------------------------------------

/// All progress of the parse: the current scope, the record being
/// accumulated, and the sub-record scratch fields the current scope fills.
/// Scratch fields keep their last value when a scope ends or fails; every
/// scope initializes its own scratch on entry.
#[derive(Debug, Clone, PartialEq)]
pub struct ParserCore {
    pub state: State,
    pub catalog: YmlCatalog,
    pub text: String,
    pub shop_field: ShopField,
    pub offer_field: OfferField,
    pub currencies: Vec<Currency>,
    pub categories: Vec<Category>,
    pub options: Vec<DeliveryOption>,
    pub opt_dest: OptDest,
    pub cat_id: u64,
    pub cat_parent: u64,
    pub offer: Offer,
    pub price_old: bool,
    pub price_from: bool,
    pub param: Param,
    pub condition: Condition,
}

pub struct CoreV {
    pub state: State,
    pub catalog: YmlCatalogV,
    pub text: Seq<char>,
    pub shop_field: ShopField,
    pub offer_field: OfferField,
    pub currencies: Seq<CurrencyV>,
    pub categories: Seq<CategoryV>,
    pub options: Seq<DeliveryOptionV>,
    pub opt_dest: OptDest,
    pub cat_id: u64,
    pub cat_parent: u64,
    pub offer: OfferV,
    pub price_old: bool,
    pub price_from: bool,
    pub param: ParamV,
    pub condition: ConditionV,
}

impl DeepView for ParserCore {
    type V = CoreV;

    open spec fn deep_view(&self) -> CoreV {
        CoreV {
            state: self.state,
            catalog: self.catalog.deep_view(),
            text: self.text.deep_view(),
            shop_field: self.shop_field,
            offer_field: self.offer_field,
            currencies: self.currencies.deep_view(),
            categories: self.categories.deep_view(),
            options: self.options.deep_view(),
            opt_dest: self.opt_dest,
            cat_id: self.cat_id,
            cat_parent: self.cat_parent,
            offer: self.offer.deep_view(),
            price_old: self.price_old,
            price_from: self.price_from,
            param: self.param.deep_view(),
            condition: self.condition.deep_view(),
        }
    }
}

/// The machine's initial state: before the catalog root, nothing
/// accumulated.
pub open spec fn spec_init_core() -> CoreV {
    CoreV {
        state: State::Begin,
        catalog: crate::types::empty_catalog_v(),
        text: Seq::empty(),
        shop_field: ShopField::Name,
        offer_field: OfferField::Name,
        currencies: Seq::empty(),
        categories: Seq::empty(),
        options: Seq::empty(),
        opt_dest: OptDest::Shop,
        cat_id: 0,
        cat_parent: 0,
        offer: empty_offer_v(),
        price_old: false,
        price_from: false,
        param: empty_param_v(),
        condition: empty_condition_v(),
    }
}

// ---------------------------------------------------------------------------
// The transition relation
// ---------------------------------------------------------------------------

/// What one consumed event produces: nothing yet, a completed record, or a
/// failure.
pub enum FeedV {
    More,
    Item(ParsedItemV),
    Fail(MarketXmlErrorV),
}

/// The shop under accumulation; scalar shop tags create it on first use.
pub open spec fn shop_of(cat: YmlCatalogV) -> ShopV {
    match cat.shop {
        Some(s) => s,
        None => empty_shop_v(),
    }
}

pub open spec fn with_shop(c: CoreV, s: ShopV) -> CoreV {
    CoreV { catalog: YmlCatalogV { shop: Some(s), ..c.catalog }, ..c }
}

/// Where a failed options list resynchronizes.
pub open spec fn opt_fail_state(d: OptDest) -> State {
    match d {
        OptDest::Shop => State::Shop,
        OptDest::OfferDelivery => State::Offers,
        OptDest::OfferPickup => State::Offers,
    }
}

/// Where the machine stands after a failure: the enclosing scope whose
/// loop keeps consuming events.
pub open spec fn fail_state(c: CoreV) -> State {
    match c.state {
        State::Begin => State::Begin,
        State::Catalog => State::Catalog,
        State::Shop => State::Shop,
        State::ShopText => State::Shop,
        State::Currencies => State::Shop,
        State::Categories => State::Shop,
        State::CategoryText => State::Shop,
        State::OptionsList => opt_fail_state(c.opt_dest),
        State::End => State::End,
        _ => State::Offers,
    }
}

/// A fragment decoded, trimmed of whitespace, and appended to the
/// accumulated text; nothing if its bytes do not decode.
pub open spec fn spec_append(text: Seq<char>, content: Seq<u8>) -> Option<Seq<char>> {
    if valid_utf8(content) {
        Some(text + spec_trim_chars(decode_utf8(content)))
    } else {
        None
    }
}

pub open spec fn spec_feed_begin(c: CoreV, ev: XmlEventV, pa: Pos) -> (CoreV, FeedV) {
    match ev {
        XmlEventV::Open { name, attrs } => {
            if name == "yml_catalog"@ {
                let (cat2, e) = scan_catalog_attrs(c.catalog, attrs.items, attrs.bad, 0, pa);
                match e {
                    None => (CoreV { state: State::Catalog, catalog: cat2, ..c }, FeedV::More),
                    Some(err) => (CoreV { catalog: cat2, ..c }, FeedV::Fail(err)),
                }
            } else {
                (c, FeedV::Fail(v_utag(name, pa)))
            }
        },
        XmlEventV::StreamEnd => (c, FeedV::Fail(v_xml(spec_eof_msg(State::Begin), pa))),
        _ => (c, FeedV::More),
    }
}

pub open spec fn spec_feed_catalog(c: CoreV, ev: XmlEventV, pa: Pos) -> (CoreV, FeedV) {
    match ev {
        XmlEventV::Open { name, .. } => if name == "shop"@ {
            (CoreV { state: State::Shop, ..c }, FeedV::More)
        } else {
            (c, FeedV::More)
        },
        XmlEventV::Close { name } => if name == "yml_catalog"@ {
            (
                CoreV { state: State::End, catalog: crate::types::empty_catalog_v(), ..c },
                FeedV::Item(ParsedItemV::YmlCatalog(c.catalog)),
            )
        } else {
            (c, FeedV::More)
        },
        XmlEventV::StreamEnd => (c, FeedV::Fail(v_xml(spec_eof_msg(State::Catalog), pa))),
        _ => (c, FeedV::More),
    }
}

pub open spec fn spec_shop_tag(c: CoreV, name: Seq<char>) -> (CoreV, FeedV) {
    if name == "offers"@ {
        (CoreV { state: State::Offers, ..c }, FeedV::More)
    } else if name == "name"@ {
        (
            CoreV { state: State::ShopText, shop_field: ShopField::Name, text: Seq::empty(), ..c },
            FeedV::More,
        )
    } else if name == "company"@ {
        (
            CoreV {
                state: State::ShopText,
                shop_field: ShopField::Company,
                text: Seq::empty(),
                ..c
            },
            FeedV::More,
        )
    } else if name == "url"@ {
        (
            CoreV { state: State::ShopText, shop_field: ShopField::Url, text: Seq::empty(), ..c },
            FeedV::More,
        )
    } else if name == "currencies"@ {
        (CoreV { state: State::Currencies, currencies: Seq::empty(), ..c }, FeedV::More)
    } else if name == "categories"@ {
        (CoreV { state: State::Categories, categories: Seq::empty(), ..c }, FeedV::More)
    } else if name == "delivery-options"@ {
        (
            CoreV {
                state: State::OptionsList,
                options: Seq::empty(),
                opt_dest: OptDest::Shop,
                ..c
            },
            FeedV::More,
        )
    } else {
        (c, FeedV::More)
    }
}

pub open spec fn spec_feed_shop(c: CoreV, ev: XmlEventV, pa: Pos) -> (CoreV, FeedV) {
    match ev {
        XmlEventV::Open { name, .. } => spec_shop_tag(c, name),
        XmlEventV::SelfClose { name, .. } => spec_shop_tag(c, name),
        XmlEventV::Close { name } => if name == "shop"@ {
            (CoreV { state: State::Catalog, ..c }, FeedV::More)
        } else {
            (c, FeedV::More)
        },
        XmlEventV::StreamEnd => (c, FeedV::Fail(v_xml(spec_eof_msg(State::Shop), pa))),
        _ => (c, FeedV::More),
    }
}

pub open spec fn spec_feed_shop_text(c: CoreV, ev: XmlEventV, pa: Pos) -> (CoreV, FeedV) {
    match ev {
        XmlEventV::Text { content } => match spec_append(c.text, content) {
            Some(t2) => (CoreV { text: t2, ..c }, FeedV::More),
            None => (CoreV { state: State::Shop, ..c }, FeedV::Fail(v_utf8(pa))),
        },
        XmlEventV::Close { .. } => {
            let s = shop_of(c.catalog);
            let s2 = match c.shop_field {
                ShopField::Name => ShopV { name: c.text, ..s },
                ShopField::Company => ShopV { company: c.text, ..s },
                ShopField::Url => ShopV { url: c.text, ..s },
            };
            (CoreV { state: State::Shop, ..with_shop(c, s2) }, FeedV::More)
        },
        XmlEventV::StreamEnd => (
            CoreV { state: State::Shop, ..c },
            FeedV::Fail(v_xml(spec_eof_msg(State::ShopText), pa)),
        ),
        _ => (
            CoreV { state: State::Shop, ..c },
            FeedV::Fail(v_xml(spec_text_not_found_msg(), pa)),
        ),
    }
}

pub open spec fn spec_currency_entry(c: CoreV, attrs: XmlAttrsV, pa: Pos) -> (CoreV, FeedV) {
    let (cur, e) = scan_currency_attrs(empty_currency_v(), attrs.items, attrs.bad, 0, pa);
    match e {
        None => (CoreV { currencies: c.currencies.push(cur), ..c }, FeedV::More),
        Some(err) => (CoreV { state: State::Shop, ..c }, FeedV::Fail(err)),
    }
}

pub open spec fn spec_feed_currencies(c: CoreV, ev: XmlEventV, pa: Pos) -> (CoreV, FeedV) {
    match ev {
        XmlEventV::Open { name, attrs } => if name == "currency"@ {
            spec_currency_entry(c, attrs, pa)
        } else {
            (c, FeedV::More)
        },
        XmlEventV::SelfClose { name, attrs } => if name == "currency"@ {
            spec_currency_entry(c, attrs, pa)
        } else {
            (c, FeedV::More)
        },
        XmlEventV::Close { name } => if name == "currencies"@ {
            let s2 = ShopV { currencies: c.currencies, ..shop_of(c.catalog) };
            (CoreV { state: State::Shop, currencies: Seq::empty(), ..with_shop(c, s2) }, FeedV::More)
        } else {
            (c, FeedV::More)
        },
        XmlEventV::StreamEnd => (
            CoreV { state: State::Shop, ..c },
            FeedV::Fail(v_xml(spec_eof_msg(State::Currencies), pa)),
        ),
        _ => (c, FeedV::More),
    }
}

pub open spec fn spec_category_entry(c: CoreV, attrs: XmlAttrsV, pa: Pos) -> (CoreV, FeedV) {
    let ((id, parent), e) = scan_category_attrs(0, 0, attrs.items, attrs.bad, 0, pa);
    match e {
        None => (
            CoreV {
                state: State::CategoryText,
                cat_id: id,
                cat_parent: parent,
                text: Seq::empty(),
                ..c
            },
            FeedV::More,
        ),
        Some(err) => (CoreV { state: State::Shop, ..c }, FeedV::Fail(err)),
    }
}

pub open spec fn spec_feed_categories(c: CoreV, ev: XmlEventV, pa: Pos) -> (CoreV, FeedV) {
    match ev {
        XmlEventV::Open { name, attrs } => if name == "category"@ {
            spec_category_entry(c, attrs, pa)
        } else {
            (c, FeedV::More)
        },
        XmlEventV::SelfClose { name, attrs } => if name == "category"@ {
            spec_category_entry(c, attrs, pa)
        } else {
            (c, FeedV::More)
        },
        XmlEventV::Close { name } => if name == "categories"@ {
            let s2 = ShopV { categories: c.categories, ..shop_of(c.catalog) };
            (CoreV { state: State::Shop, categories: Seq::empty(), ..with_shop(c, s2) }, FeedV::More)
        } else {
            (c, FeedV::More)
        },
        XmlEventV::StreamEnd => (
            CoreV { state: State::Shop, ..c },
            FeedV::Fail(v_xml(spec_eof_msg(State::Categories), pa)),
        ),
        _ => (c, FeedV::More),
    }
}

pub open spec fn spec_feed_category_text(c: CoreV, ev: XmlEventV, pa: Pos) -> (CoreV, FeedV) {
    match ev {
        XmlEventV::Text { content } => match spec_append(c.text, content) {
            Some(t2) => (CoreV { text: t2, ..c }, FeedV::More),
            None => (CoreV { state: State::Shop, ..c }, FeedV::Fail(v_utf8(pa))),
        },
        XmlEventV::Close { .. } => {
            let cat = CategoryV { id: c.cat_id, parent_id: c.cat_parent, name: c.text };
            (
                CoreV { state: State::Categories, categories: c.categories.push(cat), ..c },
                FeedV::More,
            )
        },
        XmlEventV::StreamEnd => (
            CoreV { state: State::Shop, ..c },
            FeedV::Fail(v_xml(spec_eof_msg(State::CategoryText), pa)),
        ),
        _ => (
            CoreV { state: State::Shop, ..c },
            FeedV::Fail(v_xml(spec_text_not_found_msg(), pa)),
        ),
    }
}

pub open spec fn spec_option_entry(c: CoreV, attrs: XmlAttrsV, pa: Pos) -> (CoreV, FeedV) {
    let (o, e) = scan_option_attrs(
        crate::types::empty_delivery_option_v(),
        attrs.items,
        attrs.bad,
        0,
        pa,
    );
    match e {
        None => (CoreV { options: c.options.push(o), ..c }, FeedV::More),
        Some(err) => (CoreV { state: opt_fail_state(c.opt_dest), ..c }, FeedV::Fail(err)),
    }
}

pub open spec fn spec_feed_options(c: CoreV, ev: XmlEventV, pa: Pos) -> (CoreV, FeedV) {
    match ev {
        XmlEventV::Open { name, attrs } => if name == "option"@ {
            spec_option_entry(c, attrs, pa)
        } else {
            (c, FeedV::More)
        },
        XmlEventV::SelfClose { name, attrs } => if name == "option"@ {
            spec_option_entry(c, attrs, pa)
        } else {
            (c, FeedV::More)
        },
        XmlEventV::Close { .. } => match c.opt_dest {
            OptDest::Shop => {
                let s2 = ShopV { delivery_options: c.options, ..shop_of(c.catalog) };
                (CoreV { state: State::Shop, options: Seq::empty(), ..with_shop(c, s2) }, FeedV::More)
            },
            OptDest::OfferDelivery => (
                CoreV {
                    state: State::OfferFields,
                    options: Seq::empty(),
                    offer: OfferV { delivery_options: c.options, ..c.offer },
                    ..c
                },
                FeedV::More,
            ),
            OptDest::OfferPickup => (
                CoreV {
                    state: State::OfferFields,
                    options: Seq::empty(),
                    offer: OfferV { pickup_options: c.options, ..c.offer },
                    ..c
                },
                FeedV::More,
            ),
        },
        XmlEventV::StreamEnd => (
            CoreV { state: opt_fail_state(c.opt_dest), ..c },
            FeedV::Fail(v_xml(spec_eof_msg(State::OptionsList), pa)),
        ),
        _ => (c, FeedV::More),
    }
}

pub open spec fn spec_feed_offers(c: CoreV, ev: XmlEventV, pa: Pos) -> (CoreV, FeedV) {
    match ev {
        XmlEventV::Open { name, attrs } => if name == "offer"@ {
            let (o, e) = scan_offer_attrs(empty_offer_v(), attrs.items, attrs.bad, 0, pa);
            match e {
                None => (CoreV { state: State::OfferFields, offer: o, ..c }, FeedV::More),
                Some(err) => (CoreV { offer: o, ..c }, FeedV::Fail(err)),
            }
        } else {
            (c, FeedV::More)
        },
        XmlEventV::Close { name } => if name == "offers"@ {
            (CoreV { state: State::Shop, ..c }, FeedV::More)
        } else {
            (c, FeedV::More)
        },
        XmlEventV::StreamEnd => (c, FeedV::Fail(v_xml(spec_eof_msg(State::Offers), pa))),
        _ => (c, FeedV::More),
    }
}

/// Which scalar offer field a tag name selects.
pub open spec fn spec_offer_text_field(name: Seq<char>) -> Option<OfferField> {
    if name == "name"@ {
        Some(OfferField::Name)
    } else if name == "vendor"@ {
        Some(OfferField::Vendor)
    } else if name == "vendorCode"@ {
        Some(OfferField::VendorCode)
    } else if name == "url"@ {
        Some(OfferField::Url)
    } else if name == "picture"@ {
        Some(OfferField::Picture)
    } else if name == "currencyId"@ {
        Some(OfferField::CurrencyId)
    } else if name == "description"@ {
        Some(OfferField::Description)
    } else if name == "sales_notes"@ {
        Some(OfferField::SalesNotes)
    } else if name == "country_of_origin"@ {
        Some(OfferField::CountryOfOrigin)
    } else if name == "dimensions"@ {
        Some(OfferField::Dimensions)
    } else if name == "barcode"@ {
        Some(OfferField::Barcode)
    } else if name == "categoryId"@ {
        Some(OfferField::CategoryId)
    } else if name == "weight"@ {
        Some(OfferField::Weight)
    } else if name == "downloadable"@ {
        Some(OfferField::Downloadable)
    } else if name == "enable_auto_discounts"@ {
        Some(OfferField::EnableAutoDiscounts)
    } else if name == "manufacturer_warranty"@ {
        Some(OfferField::ManufacturerWarranty)
    } else if name == "delivery"@ {
        Some(OfferField::Delivery)
    } else if name == "pickup"@ {
        Some(OfferField::Pickup)
    } else if name == "store"@ {
        Some(OfferField::Store)
    } else if name == "min_quantity"@ {
        Some(OfferField::MinQuantity)
    } else {
        None
    }
}

pub open spec fn spec_offer_tag(c: CoreV, name: Seq<char>, attrs: XmlAttrsV, pa: Pos) -> (
    CoreV,
    FeedV,
) {
    match spec_offer_text_field(name) {
        Some(f) => (
            CoreV { state: State::OfferText, offer_field: f, text: Seq::empty(), ..c },
            FeedV::More,
        ),
        None => if name == "price"@ || name == "oldprice"@ {
            let (f, e) = scan_price_from(false, attrs.items, attrs.bad, 0, pa);
            match e {
                None => (
                    CoreV {
                        state: State::OfferPrice,
                        price_old: name == "oldprice"@,
                        price_from: f,
                        text: Seq::empty(),
                        ..c
                    },
                    FeedV::More,
                ),
                Some(err) => (CoreV { state: State::Offers, ..c }, FeedV::Fail(err)),
            }
        } else if name == "param"@ {
            let (p, e) = scan_param_attrs(empty_param_v(), attrs.items, attrs.bad, 0, pa);
            match e {
                None => (
                    CoreV { state: State::OfferParam, param: p, text: Seq::empty(), ..c },
                    FeedV::More,
                ),
                Some(err) => (CoreV { state: State::Offers, ..c }, FeedV::Fail(err)),
            }
        } else if name == "condition"@ {
            let (k, e) = scan_condition_attrs(empty_condition_v(), attrs.items, attrs.bad, 0, pa);
            match e {
                None => (CoreV { state: State::OfferCondition, condition: k, ..c }, FeedV::More),
                Some(err) => (CoreV { state: State::Offers, ..c }, FeedV::Fail(err)),
            }
        } else if name == "credit-template"@ {
            let (v, e) = scan_credit_attrs(attrs.items, attrs.bad, 0, pa);
            match e {
                None => {
                    let id = match v {
                        Some(s) => s,
                        None => Seq::empty(),
                    };
                    (
                        CoreV { offer: OfferV { credit_template_id: id, ..c.offer }, ..c },
                        FeedV::More,
                    )
                },
                Some(err) => (CoreV { state: State::Offers, ..c }, FeedV::Fail(err)),
            }
        } else if name == "delivery-options"@ {
            (
                CoreV {
                    state: State::OptionsList,
                    options: Seq::empty(),
                    opt_dest: OptDest::OfferDelivery,
                    ..c
                },
                FeedV::More,
            )
        } else if name == "pickup-options"@ {
            (
                CoreV {
                    state: State::OptionsList,
                    options: Seq::empty(),
                    opt_dest: OptDest::OfferPickup,
                    ..c
                },
                FeedV::More,
            )
        } else {
            (c, FeedV::More)
        },
    }
}

pub open spec fn spec_feed_offer_fields(c: CoreV, ev: XmlEventV, pa: Pos) -> (CoreV, FeedV) {
    match ev {
        XmlEventV::Open { name, attrs } => spec_offer_tag(c, name, attrs, pa),
        XmlEventV::SelfClose { name, attrs } => spec_offer_tag(c, name, attrs, pa),
        XmlEventV::Close { name } => if name == "offer"@ {
            (
                CoreV { state: State::Offers, offer: empty_offer_v(), ..c },
                FeedV::Item(ParsedItemV::Offer(c.offer)),
            )
        } else {
            (c, FeedV::More)
        },
        XmlEventV::StreamEnd => (
            CoreV { state: State::Offers, ..c },
            FeedV::Fail(v_xml(spec_eof_msg(State::OfferFields), pa)),
        ),
        _ => (c, FeedV::More),
    }
}

/// Commits the accumulated text to the selected offer field, coercing it
/// to the field's type.
pub open spec fn spec_commit_offer_text(c: CoreV, pa: Pos) -> (CoreV, FeedV) {
    let t = c.text;
    let o = c.offer;
    match c.offer_field {
        OfferField::Name => (
            CoreV { state: State::OfferFields, offer: OfferV { name: t, ..o }, ..c },
            FeedV::More,
        ),
        OfferField::Vendor => (
            CoreV { state: State::OfferFields, offer: OfferV { vendor: t, ..o }, ..c },
            FeedV::More,
        ),
        OfferField::VendorCode => (
            CoreV { state: State::OfferFields, offer: OfferV { vendor_code: t, ..o }, ..c },
            FeedV::More,
        ),
        OfferField::Url => (
            CoreV { state: State::OfferFields, offer: OfferV { url: t, ..o }, ..c },
            FeedV::More,
        ),
        OfferField::Picture => (
            CoreV { state: State::OfferFields, offer: OfferV { picture: t, ..o }, ..c },
            FeedV::More,
        ),
        OfferField::CurrencyId => (
            CoreV { state: State::OfferFields, offer: OfferV { currency_id: t, ..o }, ..c },
            FeedV::More,
        ),
        OfferField::Description => (
            CoreV { state: State::OfferFields, offer: OfferV { description: t, ..o }, ..c },
            FeedV::More,
        ),
        OfferField::SalesNotes => (
            CoreV { state: State::OfferFields, offer: OfferV { sales_notes: t, ..o }, ..c },
            FeedV::More,
        ),
        OfferField::CountryOfOrigin => (
            CoreV { state: State::OfferFields, offer: OfferV { country_of_origin: t, ..o }, ..c },
            FeedV::More,
        ),
        OfferField::Dimensions => (
            CoreV { state: State::OfferFields, offer: OfferV { dimensions: t, ..o }, ..c },
            FeedV::More,
        ),
        OfferField::Barcode => (
            CoreV {
                state: State::OfferFields,
                offer: OfferV { barcodes: o.barcodes.push(t), ..o },
                ..c
            },
            FeedV::More,
        ),
        OfferField::CategoryId => match spec_parse_u64(t) {
            Ok(v) => (
                CoreV { state: State::OfferFields, offer: OfferV { category_id: v, ..o }, ..c },
                FeedV::More,
            ),
            Err(e) => (
                CoreV { state: State::Offers, ..c },
                FeedV::Fail(v_valid(spec_num_err_msg(e), pa, t)),
            ),
        },
        OfferField::Weight => if spec_is_decimal(t) {
            (CoreV { state: State::OfferFields, offer: OfferV { weight: t, ..o }, ..c }, FeedV::More)
        } else {
            (
                CoreV { state: State::Offers, ..c },
                FeedV::Fail(v_valid(spec_decimal_err_msg(), pa, t)),
            )
        },
        OfferField::Downloadable => match spec_parse_bool(t) {
            Some(b) => (
                CoreV { state: State::OfferFields, offer: OfferV { downloadable: b, ..o }, ..c },
                FeedV::More,
            ),
            None => (
                CoreV { state: State::Offers, ..c },
                FeedV::Fail(v_valid(spec_bool_err_msg(), pa, t)),
            ),
        },
        OfferField::EnableAutoDiscounts => match spec_parse_bool(t) {
            Some(b) => (
                CoreV {
                    state: State::OfferFields,
                    offer: OfferV { enable_auto_discounts: b, ..o },
                    ..c
                },
                FeedV::More,
            ),
            None => (
                CoreV { state: State::Offers, ..c },
                FeedV::Fail(v_valid(spec_bool_err_msg(), pa, t)),
            ),
        },
        OfferField::ManufacturerWarranty => match spec_parse_bool(t) {
            Some(b) => (
                CoreV {
                    state: State::OfferFields,
                    offer: OfferV { manufacturer_warranty: b, ..o },
                    ..c
                },
                FeedV::More,
            ),
            None => (
                CoreV { state: State::Offers, ..c },
                FeedV::Fail(v_valid(spec_bool_err_msg(), pa, t)),
            ),
        },
        OfferField::Delivery => if t.len() == 0 {
            (
                CoreV { state: State::OfferFields, offer: OfferV { delivery: None, ..o }, ..c },
                FeedV::More,
            )
        } else {
            match spec_parse_bool(t) {
                Some(b) => (
                    CoreV {
                        state: State::OfferFields,
                        offer: OfferV { delivery: Some(b), ..o },
                        ..c
                    },
                    FeedV::More,
                ),
                None => (
                    CoreV { state: State::Offers, ..c },
                    FeedV::Fail(v_valid(spec_bool_err_msg(), pa, t)),
                ),
            }
        },
        OfferField::Pickup => if t.len() == 0 {
            (
                CoreV { state: State::OfferFields, offer: OfferV { pickup: None, ..o }, ..c },
                FeedV::More,
            )
        } else {
            match spec_parse_bool(t) {
                Some(b) => (
                    CoreV { state: State::OfferFields, offer: OfferV { pickup: Some(b), ..o }, ..c },
                    FeedV::More,
                ),
                None => (
                    CoreV { state: State::Offers, ..c },
                    FeedV::Fail(v_valid(spec_bool_err_msg(), pa, t)),
                ),
            }
        },
        OfferField::Store => if t.len() == 0 {
            (
                CoreV { state: State::OfferFields, offer: OfferV { store: None, ..o }, ..c },
                FeedV::More,
            )
        } else {
            match spec_parse_bool(t) {
                Some(b) => (
                    CoreV { state: State::OfferFields, offer: OfferV { store: Some(b), ..o }, ..c },
                    FeedV::More,
                ),
                None => (
                    CoreV { state: State::Offers, ..c },
                    FeedV::Fail(v_valid(spec_bool_err_msg(), pa, t)),
                ),
            }
        },
        OfferField::MinQuantity => if t.len() == 0 {
            (
                CoreV { state: State::OfferFields, offer: OfferV { min_quantity: None, ..o }, ..c },
                FeedV::More,
            )
        } else if spec_is_decimal(t) {
            (
                CoreV {
                    state: State::OfferFields,
                    offer: OfferV { min_quantity: Some(t), ..o },
                    ..c
                },
                FeedV::More,
            )
        } else {
            (
                CoreV { state: State::Offers, ..c },
                FeedV::Fail(v_valid(spec_decimal_err_msg(), pa, t)),
            )
        },
    }
}

pub open spec fn spec_feed_offer_text(c: CoreV, ev: XmlEventV, pa: Pos) -> (CoreV, FeedV) {
    match ev {
        XmlEventV::Text { content } => match spec_append(c.text, content) {
            Some(t2) => (CoreV { text: t2, ..c }, FeedV::More),
            None => (CoreV { state: State::Offers, ..c }, FeedV::Fail(v_utf8(pa))),
        },
        XmlEventV::Close { .. } => spec_commit_offer_text(c, pa),
        XmlEventV::StreamEnd => (
            CoreV { state: State::Offers, ..c },
            FeedV::Fail(v_xml(spec_eof_msg(State::OfferText), pa)),
        ),
        _ => (
            CoreV { state: State::Offers, ..c },
            FeedV::Fail(v_xml(spec_text_not_found_msg(), pa)),
        ),
    }
}

pub open spec fn spec_feed_offer_price(c: CoreV, ev: XmlEventV, pa: Pos) -> (CoreV, FeedV) {
    match ev {
        XmlEventV::Text { content } => match spec_append(c.text, content) {
            Some(t2) => (CoreV { text: t2, ..c }, FeedV::More),
            None => (CoreV { state: State::Offers, ..c }, FeedV::Fail(v_utf8(pa))),
        },
        XmlEventV::Close { .. } => if spec_is_decimal(c.text) {
            let pr = PriceV { price: c.text, from: c.price_from };
            let o2 = if c.price_old {
                OfferV { old_price: Some(pr), ..c.offer }
            } else {
                OfferV { price: Some(pr), ..c.offer }
            };
            (CoreV { state: State::OfferFields, offer: o2, ..c }, FeedV::More)
        } else {
            (
                CoreV { state: State::Offers, ..c },
                FeedV::Fail(v_valid(spec_decimal_err_msg(), pa, c.text)),
            )
        },
        XmlEventV::StreamEnd => (
            CoreV { state: State::Offers, ..c },
            FeedV::Fail(v_xml(spec_eof_msg(State::OfferPrice), pa)),
        ),
        _ => (
            CoreV { state: State::Offers, ..c },
            FeedV::Fail(v_xml(spec_text_not_found_msg(), pa)),
        ),
    }
}

pub open spec fn spec_feed_offer_param(c: CoreV, ev: XmlEventV, pa: Pos) -> (CoreV, FeedV) {
    match ev {
        XmlEventV::Text { content } => match spec_append(c.text, content) {
            Some(t2) => (CoreV { text: t2, ..c }, FeedV::More),
            None => (CoreV { state: State::Offers, ..c }, FeedV::Fail(v_utf8(pa))),
        },
        XmlEventV::Close { .. } => {
            let p = ParamV { value: c.text, ..c.param };
            (
                CoreV {
                    state: State::OfferFields,
                    param: empty_param_v(),
                    offer: OfferV { params: c.offer.params.push(p), ..c.offer },
                    ..c
                },
                FeedV::More,
            )
        },
        XmlEventV::StreamEnd => (
            CoreV { state: State::Offers, ..c },
            FeedV::Fail(v_xml(spec_eof_msg(State::OfferParam), pa)),
        ),
        _ => (
            CoreV { state: State::Offers, ..c },
            FeedV::Fail(v_xml(spec_text_not_found_msg(), pa)),
        ),
    }
}

pub open spec fn spec_feed_offer_condition(c: CoreV, ev: XmlEventV, pa: Pos) -> (CoreV, FeedV) {
    match ev {
        XmlEventV::Open { name, .. } => if name == "reason"@ {
            (CoreV { state: State::OfferReason, text: Seq::empty(), ..c }, FeedV::More)
        } else {
            (c, FeedV::More)
        },
        XmlEventV::Close { .. } => (
            CoreV {
                state: State::OfferFields,
                condition: empty_condition_v(),
                offer: OfferV { condition: Some(c.condition), ..c.offer },
                ..c
            },
            FeedV::More,
        ),
        XmlEventV::StreamEnd => (
            CoreV { state: State::Offers, ..c },
            FeedV::Fail(v_xml(spec_eof_msg(State::OfferCondition), pa)),
        ),
        _ => (
            CoreV { state: State::Offers, ..c },
            FeedV::Fail(v_xml(spec_text_not_found_msg(), pa)),
        ),
    }
}

pub open spec fn spec_feed_offer_reason(c: CoreV, ev: XmlEventV, pa: Pos) -> (CoreV, FeedV) {
    match ev {
        XmlEventV::Text { content } => match spec_append(c.text, content) {
            Some(t2) => (CoreV { text: t2, ..c }, FeedV::More),
            None => (CoreV { state: State::Offers, ..c }, FeedV::Fail(v_utf8(pa))),
        },
        XmlEventV::Close { .. } => (
            CoreV {
                state: State::OfferCondition,
                condition: ConditionV { reason: c.text, ..c.condition },
                ..c
            },
            FeedV::More,
        ),
        XmlEventV::StreamEnd => (
            CoreV { state: State::Offers, ..c },
            FeedV::Fail(v_xml(spec_eof_msg(State::OfferReason), pa)),
        ),
        _ => (
            CoreV { state: State::Offers, ..c },
            FeedV::Fail(v_xml(spec_text_not_found_msg(), pa)),
        ),
    }
}

/// The transition relation: what one event does to the machine, and what
/// the caller gets back. `pb` is the position before the event was read,
/// `pa` the position after; tokenizer failures are reported at `pb`,
/// everything else at `pa`.
pub open spec fn spec_feed(c: CoreV, ev: XmlEventV, pb: Pos, pa: Pos) -> (CoreV, FeedV) {
    match ev {
        XmlEventV::Syntax { msg } => (
            CoreV { state: fail_state(c), ..c },
            FeedV::Fail(v_xml(msg, pb)),
        ),
        _ => match c.state {
            State::Begin => spec_feed_begin(c, ev, pa),
            State::Catalog => spec_feed_catalog(c, ev, pa),
            State::Shop => spec_feed_shop(c, ev, pa),
            State::ShopText => spec_feed_shop_text(c, ev, pa),
            State::Currencies => spec_feed_currencies(c, ev, pa),
            State::Categories => spec_feed_categories(c, ev, pa),
            State::CategoryText => spec_feed_category_text(c, ev, pa),
            State::OptionsList => spec_feed_options(c, ev, pa),
            State::Offers => spec_feed_offers(c, ev, pa),
            State::OfferFields => spec_feed_offer_fields(c, ev, pa),
            State::OfferText => spec_feed_offer_text(c, ev, pa),
            State::OfferPrice => spec_feed_offer_price(c, ev, pa),
            State::OfferParam => spec_feed_offer_param(c, ev, pa),
            State::OfferCondition => spec_feed_offer_condition(c, ev, pa),
            State::OfferReason => spec_feed_offer_reason(c, ev, pa),
            State::End => (c, FeedV::Item(ParsedItemV::Eof)),
        },
    }
}

/// How the executable result of one step corresponds to the spec-level
/// outcome.
pub open spec fn feed_out_matches(
    r: Result<Option<ParsedItem>, MarketXmlError>,
    out: FeedV,
) -> bool {
    match r {
        Ok(None) => out == FeedV::More,
        Ok(Some(item)) => out == FeedV::Item(item.deep_view()),
        Err(e) => out == FeedV::Fail(e.deep_view()),
    }
}

impl ParserCore {
    /// A fresh machine, standing before the catalog root.
    pub fn new() -> (r: ParserCore)
        ensures
            r.deep_view() == spec_init_core(),
    {
        let r = ParserCore {
            state: State::Begin,
            catalog: YmlCatalog::default(),
            text: String::new(),
            shop_field: ShopField::Name,
            offer_field: OfferField::Name,
            currencies: Vec::new(),
            categories: Vec::new(),
            options: Vec::new(),
            opt_dest: OptDest::Shop,
            cat_id: 0,
            cat_parent: 0,
            offer: Offer::default(),
            price_old: false,
            price_from: false,
            param: Param::default(),
            condition: Condition::default(),
        };
        proof {
            assert(r.deep_view().currencies =~= spec_init_core().currencies);
            assert(r.deep_view().categories =~= spec_init_core().categories);
            assert(r.deep_view().options =~= spec_init_core().options);
        }
        r
    }

    /// Consumes one event. `pb` is the tokenizer's position before the
    /// event was read, `pa` the position after.
    pub fn feed(&mut self, ev: XmlEvent, pb: Pos, pa: Pos) -> (r: Result<
        Option<ParsedItem>,
        MarketXmlError,
    >)
        ensures
            ({
                let (c2, out) = spec_feed(old(self).deep_view(), ev.deep_view(), pb, pa);
                final(self).deep_view() == c2 && feed_out_matches(r, out)
            }),
    {
        match ev {
            XmlEvent::Syntax { msg } => {
                self.state = match self.state {
                    State::Begin => State::Begin,
                    State::Catalog => State::Catalog,
                    State::Shop => State::Shop,
                    State::ShopText => State::Shop,
                    State::Currencies => State::Shop,
                    State::Categories => State::Shop,
                    State::CategoryText => State::Shop,
                    State::OptionsList => match self.opt_dest {
                        OptDest::Shop => State::Shop,
                        OptDest::OfferDelivery => State::Offers,
                        OptDest::OfferPickup => State::Offers,
                    },
                    State::End => State::End,
                    _ => State::Offers,
                };
                Err(e_xml(msg, pb))
            },
            other => match self.state {
                State::Begin => self.step_begin(other, pa),
                State::Catalog => self.step_catalog(other, pa),
                State::Shop => self.step_shop(other, pa),
                State::ShopText => self.step_shop_text(other, pa),
                State::Currencies => self.step_currencies(other, pa),
                State::Categories => self.step_categories(other, pa),
                State::CategoryText => self.step_category_text(other, pa),
                State::OptionsList => self.step_options(other, pa),
                State::Offers => self.step_offers(other, pa),
                State::OfferFields => self.step_offer_fields(other, pa),
                State::OfferText => self.step_offer_text(other, pa),
                State::OfferPrice => self.step_offer_price(other, pa),
                State::OfferParam => self.step_offer_param(other, pa),
                State::OfferCondition => self.step_offer_condition(other, pa),
                State::OfferReason => self.step_offer_reason(other, pa),
                State::End => Ok(Some(ParsedItem::Eof)),
            },
        }
    }

    fn step_begin(&mut self, ev: XmlEvent, pa: Pos) -> (r: Result<
        Option<ParsedItem>,
        MarketXmlError,
    >)
        requires
            !(old(self).deep_view().state is End),
        ensures
            ({
                let (c2, out) = spec_feed_begin(old(self).deep_view(), ev.deep_view(), pa);
                final(self).deep_view() == c2 && feed_out_matches(r, out)
            }),
    {
        match ev {
            XmlEvent::Open { name, attrs } => {
                if str_eq(name.as_str(), "yml_catalog") {
                    match apply_catalog_attrs(&mut self.catalog, &attrs, pa) {
                        None => {
                            self.state = State::Catalog;
                            Ok(None)
                        },
                        Some(e) => Err(e),
                    }
                } else {
                    Err(e_utag(name, pa))
                }
            },
            XmlEvent::StreamEnd => Err(
                e_xml_lit("unexpected end of stream: yandex market file", pa),
            ),
            _ => Ok(None),
        }
    }

    fn step_catalog(&mut self, ev: XmlEvent, pa: Pos) -> (r: Result<
        Option<ParsedItem>,
        MarketXmlError,
    >)
        ensures
            ({
                let (c2, out) = spec_feed_catalog(old(self).deep_view(), ev.deep_view(), pa);
                final(self).deep_view() == c2 && feed_out_matches(r, out)
            }),
    {
        match ev {
            XmlEvent::Open { name, .. } => {
                if str_eq(name.as_str(), "shop") {
                    self.state = State::Shop;
                }
                Ok(None)
            },
            XmlEvent::Close { name } => {
                if str_eq(name.as_str(), "yml_catalog") {
                    self.state = State::End;
                    let mut out = YmlCatalog::default();
                    core::mem::swap(&mut out, &mut self.catalog);
                    Ok(Some(ParsedItem::YmlCatalog(out)))
                } else {
                    Ok(None)
                }
            },
            XmlEvent::StreamEnd => Err(e_xml_lit("unexpected end of stream: yml_catalog", pa)),
            _ => Ok(None),
        }
    }

    fn apply_shop_tag(&mut self, name: String)
        ensures
            ({
                let (c2, out) = spec_shop_tag(old(self).deep_view(), name@);
                final(self).deep_view() == c2 && out == FeedV::More
            }),
    {
        if str_eq(name.as_str(), "offers") {
            self.state = State::Offers;
        } else if str_eq(name.as_str(), "name") {
            self.state = State::ShopText;
            self.shop_field = ShopField::Name;
            self.text = String::new();
        } else if str_eq(name.as_str(), "company") {
            self.state = State::ShopText;
            self.shop_field = ShopField::Company;
            self.text = String::new();
        } else if str_eq(name.as_str(), "url") {
            self.state = State::ShopText;
            self.shop_field = ShopField::Url;
            self.text = String::new();
        } else if str_eq(name.as_str(), "currencies") {
            self.state = State::Currencies;
            self.currencies = Vec::new();
            proof {
                assert(self.deep_view().currencies =~= Seq::<CurrencyV>::empty());
            }
        } else if str_eq(name.as_str(), "categories") {
            self.state = State::Categories;
            self.categories = Vec::new();
            proof {
                assert(self.deep_view().categories =~= Seq::<CategoryV>::empty());
            }
        } else if str_eq(name.as_str(), "delivery-options") {
            self.state = State::OptionsList;
            self.options = Vec::new();
            self.opt_dest = OptDest::Shop;
            proof {
                assert(self.deep_view().options =~= Seq::<DeliveryOptionV>::empty());
            }
        }
    }

    fn step_shop(&mut self, ev: XmlEvent, pa: Pos) -> (r: Result<
        Option<ParsedItem>,
        MarketXmlError,
    >)
        ensures
            ({
                let (c2, out) = spec_feed_shop(old(self).deep_view(), ev.deep_view(), pa);
                final(self).deep_view() == c2 && feed_out_matches(r, out)
            }),
    {
        match ev {
            XmlEvent::Open { name, .. } => {
                self.apply_shop_tag(name);
                Ok(None)
            },
            XmlEvent::SelfClose { name, .. } => {
                self.apply_shop_tag(name);
                Ok(None)
            },
            XmlEvent::Close { name } => {
                if str_eq(name.as_str(), "shop") {
                    self.state = State::Catalog;
                }
                Ok(None)
            },
            XmlEvent::StreamEnd => Err(e_xml_lit("unexpected end of stream: shop", pa)),
            _ => Ok(None),
        }
    }

    fn step_shop_text(&mut self, ev: XmlEvent, pa: Pos) -> (r: Result<
        Option<ParsedItem>,
        MarketXmlError,
    >)
        ensures
            ({
                let (c2, out) = spec_feed_shop_text(old(self).deep_view(), ev.deep_view(), pa);
                final(self).deep_view() == c2 && feed_out_matches(r, out)
            }),
    {
        match ev {
            XmlEvent::Text { content } => {
                proof {
                    lemma_bytes_deep_view(&content);
                }
                match append_fragment(&mut self.text, content.as_slice(), pa) {
                    None => Ok(None),
                    Some(e) => {
                        self.state = State::Shop;
                        Err(e)
                    },
                }
            },
            XmlEvent::Close { .. } => {
                if self.catalog.shop.is_none() {
                    self.catalog.shop = Some(Shop::default());
                }
                let t = self.text.clone();
                let f = self.shop_field;
                match &mut self.catalog.shop {
                    Some(s) => {
                        match f {
                            ShopField::Name => {
                                s.name = t;
                            },
                            ShopField::Company => {
                                s.company = t;
                            },
                            ShopField::Url => {
                                s.url = t;
                            },
                        }
                    },
                    None => {},
                }
                self.state = State::Shop;
                Ok(None)
            },
            XmlEvent::StreamEnd => {
                self.state = State::Shop;
                Err(e_xml_lit("unexpected end of stream: text", pa))
            },
            _ => {
                self.state = State::Shop;
                Err(e_xml_lit("expected text content", pa))
            },
        }
    }

    fn currency_entry(&mut self, attrs: XmlAttrs, pa: Pos) -> (r: Result<
        Option<ParsedItem>,
        MarketXmlError,
    >)
        ensures
            ({
                let (c2, out) = spec_currency_entry(old(self).deep_view(), attrs.deep_view(), pa);
                final(self).deep_view() == c2 && feed_out_matches(r, out)
            }),
    {
        let mut cur = Currency::default();
        match apply_currency_attrs(&mut cur, &attrs, pa) {
            None => {
                let ghost pre = self.deep_view().currencies;
                let ghost curv = cur.deep_view();
                self.currencies.push(cur);
                proof {
                    assert(self.deep_view().currencies =~= pre.push(curv));
                }
                Ok(None)
            },
            Some(e) => {
                self.state = State::Shop;
                Err(e)
            },
        }
    }

    fn step_currencies(&mut self, ev: XmlEvent, pa: Pos) -> (r: Result<
        Option<ParsedItem>,
        MarketXmlError,
    >)
        ensures
            ({
                let (c2, out) = spec_feed_currencies(old(self).deep_view(), ev.deep_view(), pa);
                final(self).deep_view() == c2 && feed_out_matches(r, out)
            }),
    {
        match ev {
            XmlEvent::Open { name, attrs } => {
                if str_eq(name.as_str(), "currency") {
                    self.currency_entry(attrs, pa)
                } else {
                    Ok(None)
                }
            },
            XmlEvent::SelfClose { name, attrs } => {
                if str_eq(name.as_str(), "currency") {
                    self.currency_entry(attrs, pa)
                } else {
                    Ok(None)
                }
            },
            XmlEvent::Close { name } => {
                if str_eq(name.as_str(), "currencies") {
                    if self.catalog.shop.is_none() {
                        self.catalog.shop = Some(Shop::default());
                    }
                    let mut lst: Vec<Currency> = Vec::new();
                    core::mem::swap(&mut lst, &mut self.currencies);
                    match &mut self.catalog.shop {
                        Some(s) => {
                            s.currencies = lst;
                        },
                        None => {},
                    }
                    self.state = State::Shop;
                    proof {
                        assert(self.deep_view().currencies =~= Seq::<CurrencyV>::empty());
                    }
                }
                Ok(None)
            },
            XmlEvent::StreamEnd => {
                self.state = State::Shop;
                Err(e_xml_lit("unexpected end of stream: currencies", pa))
            },
            _ => Ok(None),
        }
    }

    fn category_entry(&mut self, attrs: XmlAttrs, pa: Pos) -> (r: Result<
        Option<ParsedItem>,
        MarketXmlError,
    >)
        ensures
            ({
                let (c2, out) = spec_category_entry(old(self).deep_view(), attrs.deep_view(), pa);
                final(self).deep_view() == c2 && feed_out_matches(r, out)
            }),
    {
        let mut id: u64 = 0;
        let mut parent: u64 = 0;
        match apply_category_attrs(&mut id, &mut parent, &attrs, pa) {
            None => {
                self.state = State::CategoryText;
                self.cat_id = id;
                self.cat_parent = parent;
                self.text = String::new();
                Ok(None)
            },
            Some(e) => {
                self.state = State::Shop;
                Err(e)
            },
        }
    }

    fn step_categories(&mut self, ev: XmlEvent, pa: Pos) -> (r: Result<
        Option<ParsedItem>,
        MarketXmlError,
    >)
        ensures
            ({
                let (c2, out) = spec_feed_categories(old(self).deep_view(), ev.deep_view(), pa);
                final(self).deep_view() == c2 && feed_out_matches(r, out)
            }),
    {
        match ev {
            XmlEvent::Open { name, attrs } => {
                if str_eq(name.as_str(), "category") {
                    self.category_entry(attrs, pa)
                } else {
                    Ok(None)
                }
            },
            XmlEvent::SelfClose { name, attrs } => {
                if str_eq(name.as_str(), "category") {
                    self.category_entry(attrs, pa)
                } else {
                    Ok(None)
                }
            },
            XmlEvent::Close { name } => {
                if str_eq(name.as_str(), "categories") {
                    if self.catalog.shop.is_none() {
                        self.catalog.shop = Some(Shop::default());
                    }
                    let mut lst: Vec<Category> = Vec::new();
                    core::mem::swap(&mut lst, &mut self.categories);
                    match &mut self.catalog.shop {
                        Some(s) => {
                            s.categories = lst;
                        },
                        None => {},
                    }
                    self.state = State::Shop;
                    proof {
                        assert(self.deep_view().categories =~= Seq::<CategoryV>::empty());
                    }
                }
                Ok(None)
            },
            XmlEvent::StreamEnd => {
                self.state = State::Shop;
                Err(e_xml_lit("unexpected end of stream: categories", pa))
            },
            _ => Ok(None),
        }
    }

    fn step_category_text(&mut self, ev: XmlEvent, pa: Pos) -> (r: Result<
        Option<ParsedItem>,
        MarketXmlError,
    >)
        ensures
            ({
                let (c2, out) = spec_feed_category_text(old(self).deep_view(), ev.deep_view(), pa);
                final(self).deep_view() == c2 && feed_out_matches(r, out)
            }),
    {
        match ev {
            XmlEvent::Text { content } => {
                proof {
                    lemma_bytes_deep_view(&content);
                }
                match append_fragment(&mut self.text, content.as_slice(), pa) {
                    None => Ok(None),
                    Some(e) => {
                        self.state = State::Shop;
                        Err(e)
                    },
                }
            },
            XmlEvent::Close { .. } => {
                let cat = Category {
                    id: self.cat_id,
                    parent_id: self.cat_parent,
                    name: self.text.clone(),
                };
                let ghost pre = self.deep_view().categories;
                let ghost catv = cat.deep_view();
                self.categories.push(cat);
                self.state = State::Categories;
                proof {
                    assert(self.deep_view().categories =~= pre.push(catv));
                }
                Ok(None)
            },
            XmlEvent::StreamEnd => {
                self.state = State::Shop;
                Err(e_xml_lit("unexpected end of stream: text", pa))
            },
            _ => {
                self.state = State::Shop;
                Err(e_xml_lit("expected text content", pa))
            },
        }
    }

    fn option_entry(&mut self, attrs: XmlAttrs, pa: Pos) -> (r: Result<
        Option<ParsedItem>,
        MarketXmlError,
    >)
        ensures
            ({
                let (c2, out) = spec_option_entry(old(self).deep_view(), attrs.deep_view(), pa);
                final(self).deep_view() == c2 && feed_out_matches(r, out)
            }),
    {
        let mut opt = DeliveryOption::default();
        match apply_option_attrs(&mut opt, &attrs, pa) {
            None => {
                let ghost pre = self.deep_view().options;
                let ghost optv = opt.deep_view();
                self.options.push(opt);
                proof {
                    assert(self.deep_view().options =~= pre.push(optv));
                }
                Ok(None)
            },
            Some(e) => {
                self.state = match self.opt_dest {
                    OptDest::Shop => State::Shop,
                    OptDest::OfferDelivery => State::Offers,
                    OptDest::OfferPickup => State::Offers,
                };
                Err(e)
            },
        }
    }

    fn step_options(&mut self, ev: XmlEvent, pa: Pos) -> (r: Result<
        Option<ParsedItem>,
        MarketXmlError,
    >)
        ensures
            ({
                let (c2, out) = spec_feed_options(old(self).deep_view(), ev.deep_view(), pa);
                final(self).deep_view() == c2 && feed_out_matches(r, out)
            }),
    {
        match ev {
            XmlEvent::Open { name, attrs } => {
                if str_eq(name.as_str(), "option") {
                    self.option_entry(attrs, pa)
                } else {
                    Ok(None)
                }
            },
            XmlEvent::SelfClose { name, attrs } => {
                if str_eq(name.as_str(), "option") {
                    self.option_entry(attrs, pa)
                } else {
                    Ok(None)
                }
            },
            XmlEvent::Close { .. } => {
                let mut lst: Vec<DeliveryOption> = Vec::new();
                core::mem::swap(&mut lst, &mut self.options);
                match self.opt_dest {
                    OptDest::Shop => {
                        if self.catalog.shop.is_none() {
                            self.catalog.shop = Some(Shop::default());
                        }
                        match &mut self.catalog.shop {
                            Some(s) => {
                                s.delivery_options = lst;
                            },
                            None => {},
                        }
                        self.state = State::Shop;
                    },
                    OptDest::OfferDelivery => {
                        self.offer.delivery_options = lst;
                        self.state = State::OfferFields;
                    },
                    OptDest::OfferPickup => {
                        self.offer.pickup_options = lst;
                        self.state = State::OfferFields;
                    },
                }
                proof {
                    assert(self.deep_view().options =~= Seq::<DeliveryOptionV>::empty());
                }
                Ok(None)
            },
            XmlEvent::StreamEnd => {
                self.state = match self.opt_dest {
                    OptDest::Shop => State::Shop,
                    OptDest::OfferDelivery => State::Offers,
                    OptDest::OfferPickup => State::Offers,
                };
                Err(e_xml_lit("unexpected end of stream: delivery options", pa))
            },
            _ => Ok(None),
        }
    }

    fn step_offers(&mut self, ev: XmlEvent, pa: Pos) -> (r: Result<
        Option<ParsedItem>,
        MarketXmlError,
    >)
        ensures
            ({
                let (c2, out) = spec_feed_offers(old(self).deep_view(), ev.deep_view(), pa);
                final(self).deep_view() == c2 && feed_out_matches(r, out)
            }),
    {
        match ev {
            XmlEvent::Open { name, attrs } => {
                if str_eq(name.as_str(), "offer") {
                    let mut o = Offer::default();
                    match apply_offer_attrs(&mut o, &attrs, pa) {
                        None => {
                            self.offer = o;
                            self.state = State::OfferFields;
                            Ok(None)
                        },
                        Some(e) => {
                            self.offer = o;
                            Err(e)
                        },
                    }
                } else {
                    Ok(None)
                }
            },
            XmlEvent::Close { name } => {
                if str_eq(name.as_str(), "offers") {
                    self.state = State::Shop;
                }
                Ok(None)
            },
            XmlEvent::StreamEnd => Err(e_xml_lit("unexpected end of stream: offers", pa)),
            _ => Ok(None),
        }
    }

    fn apply_offer_tag(&mut self, name: String, attrs: XmlAttrs, pa: Pos) -> (r: Result<
        Option<ParsedItem>,
        MarketXmlError,
    >)
        ensures
            ({
                let (c2, out) = spec_offer_tag(old(self).deep_view(), name@, attrs.deep_view(), pa);
                final(self).deep_view() == c2 && feed_out_matches(r, out)
            }),
    {
        match offer_text_field(name.as_str()) {
            Some(f) => {
                self.state = State::OfferText;
                self.offer_field = f;
                self.text = String::new();
                Ok(None)
            },
            None => {
                if str_eq(name.as_str(), "price") || str_eq(name.as_str(), "oldprice") {
                    let mut fr = false;
                    match apply_price_from(&mut fr, &attrs, pa) {
                        None => {
                            self.state = State::OfferPrice;
                            self.price_old = str_eq(name.as_str(), "oldprice");
                            self.price_from = fr;
                            self.text = String::new();
                            Ok(None)
                        },
                        Some(e) => {
                            self.state = State::Offers;
                            Err(e)
                        },
                    }
                } else if str_eq(name.as_str(), "param") {
                    let mut p = Param::default();
                    match apply_param_attrs(&mut p, &attrs, pa) {
                        None => {
                            self.state = State::OfferParam;
                            self.param = p;
                            self.text = String::new();
                            Ok(None)
                        },
                        Some(e) => {
                            self.state = State::Offers;
                            Err(e)
                        },
                    }
                } else if str_eq(name.as_str(), "condition") {
                    let mut k = Condition::default();
                    match apply_condition_attrs(&mut k, &attrs, pa) {
                        None => {
                            self.state = State::OfferCondition;
                            self.condition = k;
                            Ok(None)
                        },
                        Some(e) => {
                            self.state = State::Offers;
                            Err(e)
                        },
                    }
                } else if str_eq(name.as_str(), "credit-template") {
                    match apply_credit_attrs(&attrs, pa) {
                        Ok(Some(s)) => {
                            self.offer.credit_template_id = s;
                            Ok(None)
                        },
                        Ok(None) => {
                            self.offer.credit_template_id = String::new();
                            Ok(None)
                        },
                        Err(e) => {
                            self.state = State::Offers;
                            Err(e)
                        },
                    }
                } else if str_eq(name.as_str(), "delivery-options") {
                    self.state = State::OptionsList;
                    self.options = Vec::new();
                    self.opt_dest = OptDest::OfferDelivery;
                    proof {
                        assert(self.deep_view().options =~= Seq::<DeliveryOptionV>::empty());
                    }
                    Ok(None)
                } else if str_eq(name.as_str(), "pickup-options") {
                    self.state = State::OptionsList;
                    self.options = Vec::new();
                    self.opt_dest = OptDest::OfferPickup;
                    proof {
                        assert(self.deep_view().options =~= Seq::<DeliveryOptionV>::empty());
                    }
                    Ok(None)
                } else {
                    Ok(None)
                }
            },
        }
    }

    fn step_offer_fields(&mut self, ev: XmlEvent, pa: Pos) -> (r: Result<
        Option<ParsedItem>,
        MarketXmlError,
    >)
        ensures
            ({
                let (c2, out) = spec_feed_offer_fields(old(self).deep_view(), ev.deep_view(), pa);
                final(self).deep_view() == c2 && feed_out_matches(r, out)
            }),
    {
        match ev {
            XmlEvent::Open { name, attrs } => self.apply_offer_tag(name, attrs, pa),
            XmlEvent::SelfClose { name, attrs } => self.apply_offer_tag(name, attrs, pa),
            XmlEvent::Close { name } => {
                if str_eq(name.as_str(), "offer") {
                    self.state = State::Offers;
                    let mut out = Offer::default();
                    core::mem::swap(&mut out, &mut self.offer);
                    Ok(Some(ParsedItem::Offer(out)))
                } else {
                    Ok(None)
                }
            },
            XmlEvent::StreamEnd => {
                self.state = State::Offers;
                Err(e_xml_lit("unexpected end of stream: offer", pa))
            },
            _ => Ok(None),
        }
    }

    #[verifier::rlimit(50)]
    fn commit_offer_text(&mut self, pa: Pos) -> (r: Result<Option<ParsedItem>, MarketXmlError>)
        ensures
            ({
                let (c2, out) = spec_commit_offer_text(old(self).deep_view(), pa);
                final(self).deep_view() == c2 && feed_out_matches(r, out)
            }),
    {
        let t = self.text.clone();
        match self.offer_field {
            OfferField::Name => {
                self.offer.name = t;
                self.state = State::OfferFields;
                Ok(None)
            },
            OfferField::Vendor => {
                self.offer.vendor = t;
                self.state = State::OfferFields;
                Ok(None)
            },
            OfferField::VendorCode => {
                self.offer.vendor_code = t;
                self.state = State::OfferFields;
                Ok(None)
            },
            OfferField::Url => {
                self.offer.url = t;
                self.state = State::OfferFields;
                Ok(None)
            },
            OfferField::Picture => {
                self.offer.picture = t;
                self.state = State::OfferFields;
                Ok(None)
            },
            OfferField::CurrencyId => {
                self.offer.currency_id = t;
                self.state = State::OfferFields;
                Ok(None)
            },
            OfferField::Description => {
                self.offer.description = t;
                self.state = State::OfferFields;
                Ok(None)
            },
            OfferField::SalesNotes => {
                self.offer.sales_notes = t;
                self.state = State::OfferFields;
                Ok(None)
            },
            OfferField::CountryOfOrigin => {
                self.offer.country_of_origin = t;
                self.state = State::OfferFields;
                Ok(None)
            },
            OfferField::Dimensions => {
                self.offer.dimensions = t;
                self.state = State::OfferFields;
                Ok(None)
            },
            OfferField::Barcode => {
                let ghost pre = self.deep_view().offer.barcodes;
                let ghost tv = t.deep_view();
                self.offer.barcodes.push(t);
                self.state = State::OfferFields;
                proof {
                    assert(self.deep_view().offer.barcodes =~= pre.push(tv));
                }
                Ok(None)
            },
            OfferField::CategoryId => {
                match parse_u64_str(t.as_str()) {
                    Ok(v) => {
                        self.offer.category_id = v;
                        self.state = State::OfferFields;
                        Ok(None)
                    },
                    Err(k) => {
                        self.state = State::Offers;
                        Err(e_valid(num_err_string(k), pa, t))
                    },
                }
            },
            OfferField::Weight => {
                if is_decimal_str(t.as_str()) {
                    self.offer.weight = t;
                    self.state = State::OfferFields;
                    Ok(None)
                } else {
                    self.state = State::Offers;
                    Err(e_valid(decimal_err_string(), pa, t))
                }
            },
            OfferField::Downloadable => {
                match parse_bool_text(t.as_str()) {
                    Some(b) => {
                        self.offer.downloadable = b;
                        self.state = State::OfferFields;
                        Ok(None)
                    },
                    None => {
                        self.state = State::Offers;
                        Err(e_valid(bool_err_string(), pa, t))
                    },
                }
            },
            OfferField::EnableAutoDiscounts => {
                match parse_bool_text(t.as_str()) {
                    Some(b) => {
                        self.offer.enable_auto_discounts = b;
                        self.state = State::OfferFields;
                        Ok(None)
                    },
                    None => {
                        self.state = State::Offers;
                        Err(e_valid(bool_err_string(), pa, t))
                    },
                }
            },
            OfferField::ManufacturerWarranty => {
                match parse_bool_text(t.as_str()) {
                    Some(b) => {
                        self.offer.manufacturer_warranty = b;
                        self.state = State::OfferFields;
                        Ok(None)
                    },
                    None => {
                        self.state = State::Offers;
                        Err(e_valid(bool_err_string(), pa, t))
                    },
                }
            },
            OfferField::Delivery => {
                if t.as_str().unicode_len() == 0 {
                    self.offer.delivery = None;
                    self.state = State::OfferFields;
                    Ok(None)
                } else {
                    match parse_bool_text(t.as_str()) {
                        Some(b) => {
                            self.offer.delivery = Some(b);
                            self.state = State::OfferFields;
                            Ok(None)
                        },
                        None => {
                            self.state = State::Offers;
                            Err(e_valid(bool_err_string(), pa, t))
                        },
                    }
                }
            },
            OfferField::Pickup => {
                if t.as_str().unicode_len() == 0 {
                    self.offer.pickup = None;
                    self.state = State::OfferFields;
                    Ok(None)
                } else {
                    match parse_bool_text(t.as_str()) {
                        Some(b) => {
                            self.offer.pickup = Some(b);
                            self.state = State::OfferFields;
                            Ok(None)
                        },
                        None => {
                            self.state = State::Offers;
                            Err(e_valid(bool_err_string(), pa, t))
                        },
                    }
                }
            },
            OfferField::Store => {
                if t.as_str().unicode_len() == 0 {
                    self.offer.store = None;
                    self.state = State::OfferFields;
                    Ok(None)
                } else {
                    match parse_bool_text(t.as_str()) {
                        Some(b) => {
                            self.offer.store = Some(b);
                            self.state = State::OfferFields;
                            Ok(None)
                        },
                        None => {
                            self.state = State::Offers;
                            Err(e_valid(bool_err_string(), pa, t))
                        },
                    }
                }
            },
            OfferField::MinQuantity => {
                if t.as_str().unicode_len() == 0 {
                    self.offer.min_quantity = None;
                    self.state = State::OfferFields;
                    Ok(None)
                } else if is_decimal_str(t.as_str()) {
                    self.offer.min_quantity = Some(t);
                    self.state = State::OfferFields;
                    Ok(None)
                } else {
                    self.state = State::Offers;
                    Err(e_valid(decimal_err_string(), pa, t))
                }
            },
        }
    }

    fn step_offer_text(&mut self, ev: XmlEvent, pa: Pos) -> (r: Result<
        Option<ParsedItem>,
        MarketXmlError,
    >)
        ensures
            ({
                let (c2, out) = spec_feed_offer_text(old(self).deep_view(), ev.deep_view(), pa);
                final(self).deep_view() == c2 && feed_out_matches(r, out)
            }),
    {
        match ev {
            XmlEvent::Text { content } => {
                proof {
                    lemma_bytes_deep_view(&content);
                }
                match append_fragment(&mut self.text, content.as_slice(), pa) {
                    None => Ok(None),
                    Some(e) => {
                        self.state = State::Offers;
                        Err(e)
                    },
                }
            },
            XmlEvent::Close { .. } => self.commit_offer_text(pa),
            XmlEvent::StreamEnd => {
                self.state = State::Offers;
                Err(e_xml_lit("unexpected end of stream: text", pa))
            },
            _ => {
                self.state = State::Offers;
                Err(e_xml_lit("expected text content", pa))
            },
        }
    }

    fn step_offer_price(&mut self, ev: XmlEvent, pa: Pos) -> (r: Result<
        Option<ParsedItem>,
        MarketXmlError,
    >)
        ensures
            ({
                let (c2, out) = spec_feed_offer_price(old(self).deep_view(), ev.deep_view(), pa);
                final(self).deep_view() == c2 && feed_out_matches(r, out)
            }),
    {
        match ev {
            XmlEvent::Text { content } => {
                proof {
                    lemma_bytes_deep_view(&content);
                }
                match append_fragment(&mut self.text, content.as_slice(), pa) {
                    None => Ok(None),
                    Some(e) => {
                        self.state = State::Offers;
                        Err(e)
                    },
                }
            },
            XmlEvent::Close { .. } => {
                if is_decimal_str(self.text.as_str()) {
                    let pr = Price { price: self.text.clone(), from: self.price_from };
                    if self.price_old {
                        self.offer.old_price = Some(pr);
                    } else {
                        self.offer.price = Some(pr);
                    }
                    self.state = State::OfferFields;
                    Ok(None)
                } else {
                    self.state = State::Offers;
                    Err(e_valid(decimal_err_string(), pa, self.text.clone()))
                }
            },
            XmlEvent::StreamEnd => {
                self.state = State::Offers;
                Err(e_xml_lit("unexpected end of stream: text", pa))
            },
            _ => {
                self.state = State::Offers;
                Err(e_xml_lit("expected text content", pa))
            },
        }
    }

    fn step_offer_param(&mut self, ev: XmlEvent, pa: Pos) -> (r: Result<
        Option<ParsedItem>,
        MarketXmlError,
    >)
        ensures
            ({
                let (c2, out) = spec_feed_offer_param(old(self).deep_view(), ev.deep_view(), pa);
                final(self).deep_view() == c2 && feed_out_matches(r, out)
            }),
    {
        match ev {
            XmlEvent::Text { content } => {
                proof {
                    lemma_bytes_deep_view(&content);
                }
                match append_fragment(&mut self.text, content.as_slice(), pa) {
                    None => Ok(None),
                    Some(e) => {
                        self.state = State::Offers;
                        Err(e)
                    },
                }
            },
            XmlEvent::Close { .. } => {
                let mut p = Param::default();
                core::mem::swap(&mut p, &mut self.param);
                p.value = self.text.clone();
                let ghost pre = self.deep_view().offer.params;
                let ghost pv = p.deep_view();
                self.offer.params.push(p);
                self.state = State::OfferFields;
                proof {
                    assert(self.deep_view().offer.params =~= pre.push(pv));
                    assert(self.deep_view().param =~= empty_param_v());
                }
                Ok(None)
            },
            XmlEvent::StreamEnd => {
                self.state = State::Offers;
                Err(e_xml_lit("unexpected end of stream: text", pa))
            },
            _ => {
                self.state = State::Offers;
                Err(e_xml_lit("expected text content", pa))
            },
        }
    }

    fn step_offer_condition(&mut self, ev: XmlEvent, pa: Pos) -> (r: Result<
        Option<ParsedItem>,
        MarketXmlError,
    >)
        ensures
            ({
                let (c2, out) = spec_feed_offer_condition(old(self).deep_view(), ev.deep_view(), pa);
                final(self).deep_view() == c2 && feed_out_matches(r, out)
            }),
    {
        match ev {
            XmlEvent::Open { name, .. } => {
                if str_eq(name.as_str(), "reason") {
                    self.state = State::OfferReason;
                    self.text = String::new();
                }
                Ok(None)
            },
            XmlEvent::Close { .. } => {
                let mut k = Condition::default();
                core::mem::swap(&mut k, &mut self.condition);
                self.offer.condition = Some(k);
                self.state = State::OfferFields;
                Ok(None)
            },
            XmlEvent::StreamEnd => {
                self.state = State::Offers;
                Err(e_xml_lit("unexpected end of stream: condition", pa))
            },
            _ => {
                self.state = State::Offers;
                Err(e_xml_lit("expected text content", pa))
            },
        }
    }

    fn step_offer_reason(&mut self, ev: XmlEvent, pa: Pos) -> (r: Result<
        Option<ParsedItem>,
        MarketXmlError,
    >)
        ensures
            ({
                let (c2, out) = spec_feed_offer_reason(old(self).deep_view(), ev.deep_view(), pa);
                final(self).deep_view() == c2 && feed_out_matches(r, out)
            }),
    {
        match ev {
            XmlEvent::Text { content } => {
                proof {
                    lemma_bytes_deep_view(&content);
                }
                match append_fragment(&mut self.text, content.as_slice(), pa) {
                    None => Ok(None),
                    Some(e) => {
                        self.state = State::Offers;
                        Err(e)
                    },
                }
            },
            XmlEvent::Close { .. } => {
                self.condition.reason = self.text.clone();
                self.state = State::OfferCondition;
                Ok(None)
            },
            XmlEvent::StreamEnd => {
                self.state = State::Offers;
                Err(e_xml_lit("unexpected end of stream: text", pa))
            },
            _ => {
                self.state = State::Offers;
                Err(e_xml_lit("expected text content", pa))
            },
        }
    }
}

/// Which scalar offer field a tag name selects; `None` for container tags
/// and unknown names.
fn offer_text_field(name: &str) -> (r: Option<OfferField>)
    ensures
        r == spec_offer_text_field(name@),
{
    if str_eq(name, "name") {
        Some(OfferField::Name)
    } else if str_eq(name, "vendor") {
        Some(OfferField::Vendor)
    } else if str_eq(name, "vendorCode") {
        Some(OfferField::VendorCode)
    } else if str_eq(name, "url") {
        Some(OfferField::Url)
    } else if str_eq(name, "picture") {
        Some(OfferField::Picture)
    } else if str_eq(name, "currencyId") {
        Some(OfferField::CurrencyId)
    } else if str_eq(name, "description") {
        Some(OfferField::Description)
    } else if str_eq(name, "sales_notes") {
        Some(OfferField::SalesNotes)
    } else if str_eq(name, "country_of_origin") {
        Some(OfferField::CountryOfOrigin)
    } else if str_eq(name, "dimensions") {
        Some(OfferField::Dimensions)
    } else if str_eq(name, "barcode") {
        Some(OfferField::Barcode)
    } else if str_eq(name, "categoryId") {
        Some(OfferField::CategoryId)
    } else if str_eq(name, "weight") {
        Some(OfferField::Weight)
    } else if str_eq(name, "downloadable") {
        Some(OfferField::Downloadable)
    } else if str_eq(name, "enable_auto_discounts") {
        Some(OfferField::EnableAutoDiscounts)
    } else if str_eq(name, "manufacturer_warranty") {
        Some(OfferField::ManufacturerWarranty)
    } else if str_eq(name, "delivery") {
        Some(OfferField::Delivery)
    } else if str_eq(name, "pickup") {
        Some(OfferField::Pickup)
    } else if str_eq(name, "store") {
        Some(OfferField::Store)
    } else if str_eq(name, "min_quantity") {
        Some(OfferField::MinQuantity)
    } else {
        None
    }
}

/// Appends one strictly decoded, whitespace-trimmed fragment to the
/// accumulated text.
fn append_fragment(text: &mut String, content: &[u8], pa: Pos) -> (r: Option<MarketXmlError>)
    ensures
        match spec_append(old(text)@, content@) {
            Some(t2) => final(text)@ == t2 && r is None,
            None => final(text)@ == old(text)@ && r.deep_view() == Some(v_utf8(pa)),
        },
{
    match bytes_to_str(content) {
        Some(s) => {
            let t = trim_str(s);
            text.append(t);
            None
        },
        None => Some(e_utf8(pa)),
    }
}

} // verus!
