//! The library's laws: properties of the transition relation that hold for
//! every event sequence, stated over [`crate::machine::spec_feed`] and
//! proved here once and for all.

use vstd::prelude::*;
use vstd::utf8::valid_utf8;

use crate::events::{Pos, XmlAttrV, XmlEventV};
use crate::machine::{
    scan_category_attrs, scan_currency_attrs, scan_offer_attrs, scan_option_attrs, spec_feed,
    CoreV, FeedV, OptDest, State,
};
use crate::machine::{spec_u64_attr, v_valid};
use crate::types::{empty_currency_v, CurrencyV, DeliveryOptionV, OfferV};
use crate::coerce::spec_parse_available;

verus! {

broadcast use vstd::string::group_string_axioms;

/// One event with the positions it was read at: before and after.
pub struct EventAt {
    pub ev: XmlEventV,
    pub pb: Pos,
    pub pa: Pos,
}

/// The machine run over a sequence of events, from position `i` on.
pub open spec fn spec_run(c: CoreV, evs: Seq<EventAt>, i: int) -> CoreV
    decreases evs.len() - i,
{
    if i < 0 || i >= evs.len() {
        c
    } else {
        spec_run(spec_feed(c, evs[i].ev, evs[i].pb, evs[i].pa).0, evs, i + 1)
    }
}

/// The machine run over the events from position `i` up to (excluding)
/// position `j`.
pub open spec fn spec_run_to(c: CoreV, evs: Seq<EventAt>, i: int, j: int) -> CoreV
    decreases j - i,
{
    if i < 0 || i >= j || i >= evs.len() {
        c
    } else {
        spec_run_to(spec_feed(c, evs[i].ev, evs[i].pb, evs[i].pa).0, evs, i + 1, j)
    }
}

/// A partial run splits at any midpoint.
pub proof fn lemma_run_to_split(c: CoreV, evs: Seq<EventAt>, i: int, m: int, j: int)
    requires
        0 <= i <= m <= j,
    ensures
        spec_run_to(c, evs, i, j) == spec_run_to(spec_run_to(c, evs, i, m), evs, m, j),
    decreases m - i,
{
    if i < m && i < evs.len() {
        lemma_run_to_split(spec_feed(c, evs[i].ev, evs[i].pb, evs[i].pa).0, evs, i + 1, m, j);
    } else if i >= evs.len() {
        lemma_run_to_stalls(c, evs, i, m);
        lemma_run_to_stalls(c, evs, m, j);
    }
}

/// Beyond the end of the sequence a run does nothing.
proof fn lemma_run_to_stalls(c: CoreV, evs: Seq<EventAt>, i: int, j: int)
    requires
        i >= evs.len(),
    ensures
        spec_run_to(c, evs, i, j) == c,
    decreases j - i,
{
    if 0 <= i && i < j && i < evs.len() {
        assert(false);
    }
}

// ---------------------------------------------------------------------------
// Order and exactness of the shop's currency list
// ---------------------------------------------------------------------------

/// The currency an entry's attributes describe.
pub open spec fn currency_of(a: EventAt) -> CurrencyV {
    match a.ev {
        XmlEventV::Open { attrs, .. } => scan_currency_attrs(
            empty_currency_v(),
            attrs.items,
            attrs.bad,
            0,
            a.pa,
        ).0,
        XmlEventV::SelfClose { attrs, .. } => scan_currency_attrs(
            empty_currency_v(),
            attrs.items,
            attrs.bad,
            0,
            a.pa,
        ).0,
        _ => empty_currency_v(),
    }
}

/// A well-formed currency entry: a `currency` tag whose attributes all
/// scan without failure.
pub open spec fn is_currency_entry(a: EventAt) -> bool {
    match a.ev {
        XmlEventV::Open { name, attrs } => name == "currency"@ && scan_currency_attrs(
            empty_currency_v(),
            attrs.items,
            attrs.bad,
            0,
            a.pa,
        ).1 is None,
        XmlEventV::SelfClose { name, attrs } => name == "currency"@ && scan_currency_attrs(
            empty_currency_v(),
            attrs.items,
            attrs.bad,
            0,
            a.pa,
        ).1 is None,
        _ => false,
    }
}

/// An event the currencies scope ignores.
pub open spec fn is_ignored_in_currencies(a: EventAt) -> bool {
    match a.ev {
        XmlEventV::Open { name, .. } => name != "currency"@,
        XmlEventV::SelfClose { name, .. } => name != "currency"@,
        XmlEventV::Close { name } => name != "currencies"@,
        XmlEventV::Text { .. } => true,
        XmlEventV::Other => true,
        _ => false,
    }
}

/// The currencies of a block's entries, in source order.
pub open spec fn currencies_of(evs: Seq<EventAt>, i: int) -> Seq<CurrencyV>
    decreases evs.len() - i,
{
    if i < 0 || i >= evs.len() {
        Seq::empty()
    } else if is_currency_entry(evs[i]) {
        seq![currency_of(evs[i])] + currencies_of(evs, i + 1)
    } else {
        currencies_of(evs, i + 1)
    }
}

/// Law: inside a currencies block, every well-formed entry appends exactly
/// the currency its attributes spell, at the end of the list: the parsed
/// list holds the entries' values in source order, and nothing else of the
/// machine changes.
pub proof fn lemma_currencies_preserve_order(c: CoreV, evs: Seq<EventAt>, i: int)
    requires
        c.state == State::Currencies,
        0 <= i <= evs.len(),
        forall|j: int|
            i <= j < evs.len() ==> is_currency_entry(#[trigger] evs[j]) || is_ignored_in_currencies(
                evs[j],
            ),
    ensures
        spec_run(c, evs, i) == (CoreV {
            currencies: c.currencies + currencies_of(evs, i),
            ..c
        }),
    decreases evs.len() - i,
{
    if i < 0 || i >= evs.len() {
        assert(c.currencies + currencies_of(evs, i) =~= c.currencies);
    } else {
        let a = evs[i];
        let c1 = spec_feed(c, a.ev, a.pb, a.pa).0;
        if is_currency_entry(a) {
            assert(c1 == CoreV { currencies: c.currencies.push(currency_of(a)), ..c });
        } else {
            assert(c1 == c);
        }
        lemma_currencies_preserve_order(c1, evs, i + 1);
        if is_currency_entry(a) {
            assert(c.currencies.push(currency_of(a)) + currencies_of(evs, i + 1) =~= c.currencies
                + currencies_of(evs, i));
        }
    }
}

/// Law: closing a currencies block hands the accumulated list to the shop
/// unchanged; with the lemma above, a whole well-formed block yields the
/// shop's `currencies` equal to its entries' values in source order.
pub proof fn lemma_currencies_commit(c: CoreV, name: Seq<char>, pb: Pos, pa: Pos)
    requires
        c.state == State::Currencies,
        name == "currencies"@,
    ensures
        ({
            let (c2, out) = spec_feed(c, XmlEventV::Close { name }, pb, pa);
            &&& out == FeedV::More
            &&& c2.state == State::Shop
            &&& c2.catalog.shop is Some
            &&& c2.catalog.shop.unwrap().currencies == c.currencies
        }),
{
}

// ---------------------------------------------------------------------------
// Order and exactness of delivery option lists
// ---------------------------------------------------------------------------

/// The option an entry's attributes describe.
pub open spec fn option_of(a: EventAt) -> DeliveryOptionV {
    match a.ev {
        XmlEventV::Open { attrs, .. } => scan_option_attrs(
            crate::types::empty_delivery_option_v(),
            attrs.items,
            attrs.bad,
            0,
            a.pa,
        ).0,
        XmlEventV::SelfClose { attrs, .. } => scan_option_attrs(
            crate::types::empty_delivery_option_v(),
            attrs.items,
            attrs.bad,
            0,
            a.pa,
        ).0,
        _ => crate::types::empty_delivery_option_v(),
    }
}

/// A well-formed option entry of a delivery- or pickup-options list.
pub open spec fn is_option_entry(a: EventAt) -> bool {
    match a.ev {
        XmlEventV::Open { name, attrs } => name == "option"@ && scan_option_attrs(
            crate::types::empty_delivery_option_v(),
            attrs.items,
            attrs.bad,
            0,
            a.pa,
        ).1 is None,
        XmlEventV::SelfClose { name, attrs } => name == "option"@ && scan_option_attrs(
            crate::types::empty_delivery_option_v(),
            attrs.items,
            attrs.bad,
            0,
            a.pa,
        ).1 is None,
        _ => false,
    }
}

/// An event the options scope ignores: any other element name, text, and
/// markup the dialect has no use for.
pub open spec fn is_ignored_in_options(a: EventAt) -> bool {
    match a.ev {
        XmlEventV::Open { name, .. } => name != "option"@,
        XmlEventV::SelfClose { name, .. } => name != "option"@,
        XmlEventV::Text { .. } => true,
        XmlEventV::Other => true,
        _ => false,
    }
}

/// The options of a block's entries, in source order.
pub open spec fn options_of(evs: Seq<EventAt>, i: int) -> Seq<DeliveryOptionV>
    decreases evs.len() - i,
{
    if i < 0 || i >= evs.len() {
        Seq::empty()
    } else if is_option_entry(evs[i]) {
        seq![option_of(evs[i])] + options_of(evs, i + 1)
    } else {
        options_of(evs, i + 1)
    }
}

/// Law: inside an options list, every well-formed entry appends exactly
/// the option its attributes spell, at the end of the list, whatever the
/// list's destination; order is source order.
pub proof fn lemma_options_preserve_order(c: CoreV, evs: Seq<EventAt>, i: int)
    requires
        c.state == State::OptionsList,
        0 <= i <= evs.len(),
        forall|j: int|
            i <= j < evs.len() ==> is_option_entry(#[trigger] evs[j]) || is_ignored_in_options(
                evs[j],
            ),
    ensures
        spec_run(c, evs, i) == (CoreV { options: c.options + options_of(evs, i), ..c }),
    decreases evs.len() - i,
{
    if i < 0 || i >= evs.len() {
        assert(c.options + options_of(evs, i) =~= c.options);
    } else {
        let a = evs[i];
        let c1 = spec_feed(c, a.ev, a.pb, a.pa).0;
        if is_option_entry(a) {
            assert(c1 == CoreV { options: c.options.push(option_of(a)), ..c });
        } else {
            assert(c1 == c);
        }
        lemma_options_preserve_order(c1, evs, i + 1);
        if is_option_entry(a) {
            assert(c.options.push(option_of(a)) + options_of(evs, i + 1) =~= c.options
                + options_of(evs, i));
        }
    }
}

/// Law: closing an options list hands the accumulated options, in order,
/// to where the list belongs: the shop, the offer's delivery options, or
/// the offer's pickup options.
pub proof fn lemma_options_commit(c: CoreV, name: Seq<char>, pb: Pos, pa: Pos)
    requires
        c.state == State::OptionsList,
    ensures
        ({
            let (c2, out) = spec_feed(c, XmlEventV::Close { name }, pb, pa);
            &&& out == FeedV::More
            &&& match c.opt_dest {
                OptDest::Shop => c2.state == State::Shop && c2.catalog.shop is Some
                    && c2.catalog.shop.unwrap().delivery_options == c.options,
                OptDest::OfferDelivery => c2.state == State::OfferFields
                    && c2.offer.delivery_options == c.options,
                OptDest::OfferPickup => c2.state == State::OfferFields
                    && c2.offer.pickup_options == c.options,
            }
        }),
{
}

// ---------------------------------------------------------------------------
// The tri-state availability attribute
// ---------------------------------------------------------------------------

/// Law: when no `available` attribute occurs among an offer tag's
/// attributes from position `i` on and the scan succeeds, the field stays
/// as it began — for a fresh offer, unset.
pub proof fn lemma_available_absent(
    o: OfferV,
    items: Seq<XmlAttrV>,
    bad: Option<Seq<char>>,
    i: int,
    pa: Pos,
)
    requires
        forall|j: int| i <= j < items.len() ==> (#[trigger] items[j].key) != "available"@,
        scan_offer_attrs(o, items, bad, i, pa).1 is None,
    ensures
        scan_offer_attrs(o, items, bad, i, pa).0.available == o.available,
    decreases items.len() - i,
{
    if i < 0 || i >= items.len() {
    } else {
        let a = items[i];
        if a.key == "id"@ || a.key == "type"@ {
            let o2 = scan_offer_attrs(o, items, bad, i, pa);
            let o1 = if a.key == "id"@ {
                OfferV { id: vstd::utf8::decode_utf8(a.value), ..o }
            } else {
                OfferV { kind: vstd::utf8::decode_utf8(a.value), ..o }
            };
            lemma_available_absent(o1, items, bad, i + 1, pa);
        } else if a.key == "bid"@ {
            match spec_u64_attr(a.value, pa) {
                Ok(x) => lemma_available_absent(OfferV { bid: x, ..o }, items, bad, i + 1, pa),
                Err(_) => {},
            }
        } else if a.key == "cbid"@ {
            match spec_u64_attr(a.value, pa) {
                Ok(x) => lemma_available_absent(OfferV { cbid: x, ..o }, items, bad, i + 1, pa),
                Err(_) => {},
            }
        } else {
            lemma_available_absent(o, items, bad, i + 1, pa);
        }
    }
}

/// Law: an `available` attribute bearing any literal other than
/// `true`/`1`/`false`/`0`/empty fails the offer with a validation error
/// carrying that literal, provided the attributes before it scan cleanly;
/// the accepted literals set the field as [`spec_parse_available`] says.
pub proof fn lemma_available_invalid(
    o: OfferV,
    items: Seq<XmlAttrV>,
    bad: Option<Seq<char>>,
    i: int,
    k: int,
    pa: Pos,
)
    requires
        0 <= i <= k < items.len(),
        items[k].key == "available"@,
        valid_utf8(items[k].value),
        spec_parse_available(items[k].value) is None,
        forall|j: int| i <= j < k ==> offer_attr_clean(#[trigger] items[j]),
    ensures
        scan_offer_attrs(o, items, bad, i, pa).1 == Some(
            v_valid("parse bool"@, pa, vstd::utf8::decode_utf8(items[k].value)),
        ),
    decreases k - i,
{
    reveal_strlit("id");
    reveal_strlit("type");
    reveal_strlit("bid");
    reveal_strlit("cbid");
    reveal_strlit("available");
    let a = items[i];
    if i == k {
        assert("id"@.len() == 2 && "type"@.len() == 4 && "bid"@.len() == 3 && "cbid"@.len() == 4
            && "available"@.len() == 9);
    } else {
        assert(offer_attr_clean(items[i]));
        if a.key == "id"@ {
            lemma_available_invalid(
                OfferV { id: vstd::utf8::decode_utf8(a.value), ..o },
                items,
                bad,
                i + 1,
                k,
                pa,
            );
        } else if a.key == "type"@ {
            lemma_available_invalid(
                OfferV { kind: vstd::utf8::decode_utf8(a.value), ..o },
                items,
                bad,
                i + 1,
                k,
                pa,
            );
        } else if a.key == "bid"@ {
            assert(spec_u64_attr(a.value, pa) is Ok);
            let x = (match spec_u64_attr(a.value, pa) {
                Ok(v) => v,
                Err(_) => 0u64,
            });
            lemma_available_invalid(OfferV { bid: x, ..o }, items, bad, i + 1, k, pa);
        } else if a.key == "cbid"@ {
            assert(spec_u64_attr(a.value, pa) is Ok);
            let x = (match spec_u64_attr(a.value, pa) {
                Ok(v) => v,
                Err(_) => 0u64,
            });
            lemma_available_invalid(OfferV { cbid: x, ..o }, items, bad, i + 1, k, pa);
        } else if a.key == "available"@ {
            let x = (match spec_parse_available(a.value) {
                Some(v) => v,
                None => None,
            });
            lemma_available_invalid(OfferV { available: x, ..o }, items, bad, i + 1, k, pa);
        } else {
            lemma_available_invalid(o, items, bad, i + 1, k, pa);
        }
    }
}

/// Clean attributes without an `available` key scan without failure and
/// leave the field as it stands.
proof fn lemma_offer_scan_clean_rest(
    o: OfferV,
    items: Seq<XmlAttrV>,
    bad: Option<Seq<char>>,
    i: int,
    pa: Pos,
)
    requires
        bad is None,
        forall|j: int| i <= j < items.len() ==> offer_attr_clean(#[trigger] items[j]),
        forall|j: int| i <= j < items.len() ==> (#[trigger] items[j].key) != "available"@,
    ensures
        scan_offer_attrs(o, items, bad, i, pa).1 is None,
        scan_offer_attrs(o, items, bad, i, pa).0.available == o.available,
    decreases items.len() - i,
{
    if i < 0 || i >= items.len() {
    } else {
        let a = items[i];
        if a.key == "id"@ {
            lemma_offer_scan_clean_rest(
                OfferV { id: vstd::utf8::decode_utf8(a.value), ..o },
                items,
                bad,
                i + 1,
                pa,
            );
        } else if a.key == "type"@ {
            lemma_offer_scan_clean_rest(
                OfferV { kind: vstd::utf8::decode_utf8(a.value), ..o },
                items,
                bad,
                i + 1,
                pa,
            );
        } else if a.key == "bid"@ {
            assert(spec_u64_attr(a.value, pa) is Ok);
            let x = (match spec_u64_attr(a.value, pa) {
                Ok(v) => v,
                Err(_) => 0u64,
            });
            lemma_offer_scan_clean_rest(OfferV { bid: x, ..o }, items, bad, i + 1, pa);
        } else if a.key == "cbid"@ {
            assert(spec_u64_attr(a.value, pa) is Ok);
            let x = (match spec_u64_attr(a.value, pa) {
                Ok(v) => v,
                Err(_) => 0u64,
            });
            lemma_offer_scan_clean_rest(OfferV { cbid: x, ..o }, items, bad, i + 1, pa);
        } else {
            lemma_offer_scan_clean_rest(o, items, bad, i + 1, pa);
        }
    }
}

/// Law: an `available` attribute bearing an accepted literal — `true`/`1`,
/// `false`/`0`, or empty — sets the offer's tri-state field to exactly what
/// [`spec_parse_available`] spells for that literal, wherever the attribute
/// stands among otherwise clean attributes, provided no later `available`
/// attribute overrides it; the whole scan succeeds.
pub proof fn lemma_available_set(
    o: OfferV,
    items: Seq<XmlAttrV>,
    bad: Option<Seq<char>>,
    i: int,
    k: int,
    pa: Pos,
)
    requires
        bad is None,
        0 <= i <= k < items.len(),
        items[k].key == "available"@,
        spec_parse_available(items[k].value) is Some,
        forall|j: int| i <= j < items.len() ==> offer_attr_clean(#[trigger] items[j]),
        forall|j: int| k < j < items.len() ==> (#[trigger] items[j].key) != "available"@,
    ensures
        scan_offer_attrs(o, items, bad, i, pa).1 is None,
        scan_offer_attrs(o, items, bad, i, pa).0.available == spec_parse_available(
            items[k].value,
        ).unwrap(),
    decreases k - i,
{
    reveal_strlit("id");
    reveal_strlit("type");
    reveal_strlit("bid");
    reveal_strlit("cbid");
    reveal_strlit("available");
    let a = items[i];
    if i == k {
        assert("id"@.len() == 2 && "type"@.len() == 4 && "bid"@.len() == 3 && "cbid"@.len() == 4
            && "available"@.len() == 9);
        let v = spec_parse_available(a.value).unwrap();
        lemma_offer_scan_clean_rest(OfferV { available: v, ..o }, items, bad, i + 1, pa);
    } else {
        assert(offer_attr_clean(items[i]));
        if a.key == "id"@ {
            lemma_available_set(
                OfferV { id: vstd::utf8::decode_utf8(a.value), ..o },
                items,
                bad,
                i + 1,
                k,
                pa,
            );
        } else if a.key == "type"@ {
            lemma_available_set(
                OfferV { kind: vstd::utf8::decode_utf8(a.value), ..o },
                items,
                bad,
                i + 1,
                k,
                pa,
            );
        } else if a.key == "bid"@ {
            assert(spec_u64_attr(a.value, pa) is Ok);
            let x = (match spec_u64_attr(a.value, pa) {
                Ok(v) => v,
                Err(_) => 0u64,
            });
            lemma_available_set(OfferV { bid: x, ..o }, items, bad, i + 1, k, pa);
        } else if a.key == "cbid"@ {
            assert(spec_u64_attr(a.value, pa) is Ok);
            let x = (match spec_u64_attr(a.value, pa) {
                Ok(v) => v,
                Err(_) => 0u64,
            });
            lemma_available_set(OfferV { cbid: x, ..o }, items, bad, i + 1, k, pa);
        } else if a.key == "available"@ {
            let x = (match spec_parse_available(a.value) {
                Some(v) => v,
                None => None,
            });
            lemma_available_set(OfferV { available: x, ..o }, items, bad, i + 1, k, pa);
        } else {
            lemma_available_set(o, items, bad, i + 1, k, pa);
        }
    }
}

/// One offer attribute that scans without failing.
pub open spec fn offer_attr_clean(a: XmlAttrV) -> bool {
    if a.key == "id"@ || a.key == "type"@ {
        valid_utf8(a.value)
    } else if a.key == "bid"@ || a.key == "cbid"@ {
        spec_u64_attr(a.value, Pos { line: 0, column: 0 }) is Ok
    } else if a.key == "available"@ {
        spec_parse_available(a.value) is Some
    } else {
        true
    }
}

// ---------------------------------------------------------------------------
// Absent order-before stays unset
// ---------------------------------------------------------------------------

/// Law: when no `order-before` attribute occurs among an option tag's
/// attributes and the scan succeeds, `order_before` stays as it began —
/// for a fresh option, unset, never zero.
pub proof fn lemma_order_before_absent(
    opt: DeliveryOptionV,
    items: Seq<XmlAttrV>,
    bad: Option<Seq<char>>,
    i: int,
    pa: Pos,
)
    requires
        forall|j: int| i <= j < items.len() ==> (#[trigger] items[j].key) != "order-before"@,
        scan_option_attrs(opt, items, bad, i, pa).1 is None,
    ensures
        scan_option_attrs(opt, items, bad, i, pa).0.order_before == opt.order_before,
    decreases items.len() - i,
{
    if i < 0 || i >= items.len() {
    } else {
        let a = items[i];
        if a.key == "cost"@ {
            match spec_u64_attr(a.value, pa) {
                Ok(x) => lemma_order_before_absent(
                    DeliveryOptionV { cost: x, ..opt },
                    items,
                    bad,
                    i + 1,
                    pa,
                ),
                Err(_) => {},
            }
        } else if a.key == "days"@ {
            if valid_utf8(a.value) {
                lemma_order_before_absent(
                    DeliveryOptionV { days: vstd::utf8::decode_utf8(a.value), ..opt },
                    items,
                    bad,
                    i + 1,
                    pa,
                );
            }
        } else {
            lemma_order_before_absent(opt, items, bad, i + 1, pa);
        }
    }
}

// ---------------------------------------------------------------------------
// Failures inside an offer resynchronize at the offers scope
// ---------------------------------------------------------------------------

/// Whether the machine stands inside the offers scope: in it, or assembling
/// one offer or one of its parts.
pub open spec fn in_offer_scope(c: CoreV) -> bool {
    ||| c.state == State::Offers
    ||| c.state == State::OfferFields
    ||| c.state == State::OfferText
    ||| c.state == State::OfferPrice
    ||| c.state == State::OfferParam
    ||| c.state == State::OfferCondition
    ||| c.state == State::OfferReason
    ||| (c.state == State::OptionsList && c.opt_dest != OptDest::Shop)
}

/// Law: a failure while the machine is anywhere inside the offers scope
/// leaves it at the offers scope itself, where parsing continues with the
/// next offer; one broken record never takes the stream down.
pub proof fn lemma_offer_failure_resyncs(c: CoreV, ev: XmlEventV, pb: Pos, pa: Pos)
    requires
        in_offer_scope(c),
        spec_feed(c, ev, pb, pa).1 is Fail,
    ensures
        spec_feed(c, ev, pb, pa).0.state == State::Offers,
{
}

/// Law: the offers scope skips everything except an offer opening, the
/// scope's own closing, and stream failures: after a broken offer, the
/// machine stays ready for the next one.
pub proof fn lemma_offers_scope_skips(c: CoreV, ev: XmlEventV, pb: Pos, pa: Pos)
    requires
        c.state == State::Offers,
        !(ev is StreamEnd),
        !(ev is Syntax),
        !(ev matches XmlEventV::Open { name, .. } && name == "offer"@),
        !(ev matches XmlEventV::Close { name } && name == "offers"@),
    ensures
        spec_feed(c, ev, pb, pa) == (c, FeedV::More),
{
}

// ---------------------------------------------------------------------------
// The end-of-stream marker is terminal
// ---------------------------------------------------------------------------

/// Law: once the machine has reached its terminal state, every event
/// produces the end-of-stream marker again and changes nothing; the
/// parser's own `next_item` does not even consult the tokenizer then.
pub proof fn lemma_end_is_terminal(c: CoreV, ev: XmlEventV, pb: Pos, pa: Pos)
    requires
        c.state == State::End,
        !(ev is Syntax),
    ensures
        spec_feed(c, ev, pb, pa) == (c, FeedV::Item(crate::types::ParsedItemV::Eof)),
{
}

// ---------------------------------------------------------------------------
// Order and exactness of the shop's category list
// ---------------------------------------------------------------------------

/// A text fragment whose bytes decode.
pub open spec fn is_clean_text(a: EventAt) -> bool {
    match a.ev {
        XmlEventV::Text { content } => valid_utf8(content),
        _ => false,
    }
}

/// What one fragment contributes to the accumulated text: its decoding,
/// trimmed of whitespace.
pub open spec fn frag_of(a: EventAt) -> Seq<char> {
    match a.ev {
        XmlEventV::Text { content } => crate::coerce::spec_trim_chars(
            vstd::utf8::decode_utf8(content),
        ),
        _ => Seq::empty(),
    }
}

/// The text a run of fragments accumulates, in order.
pub open spec fn texts_content(evs: Seq<EventAt>, i: int, j: int) -> Seq<char>
    decreases j - i,
{
    if i < 0 || i >= j || i >= evs.len() {
        Seq::empty()
    } else {
        frag_of(evs[i]) + texts_content(evs, i + 1, j)
    }
}

/// While reading a category's text, clean fragments accumulate in order.
proof fn lemma_category_texts(c: CoreV, evs: Seq<EventAt>, i: int, j: int)
    requires
        c.state == State::CategoryText,
        0 <= i <= j <= evs.len(),
        forall|k: int| i <= k < j ==> is_clean_text(#[trigger] evs[k]),
    ensures
        spec_run_to(c, evs, i, j) == (CoreV { text: c.text + texts_content(evs, i, j), ..c }),
    decreases j - i,
{
    if i >= j {
        assert(c.text + texts_content(evs, i, j) =~= c.text);
    } else {
        let a = evs[i];
        let c1 = spec_feed(c, a.ev, a.pb, a.pa).0;
        assert(c1 == (CoreV { text: c.text + frag_of(a), ..c }));
        lemma_category_texts(c1, evs, i + 1, j);
        assert((c.text + frag_of(a)) + texts_content(evs, i + 1, j) =~= c.text + texts_content(
            evs,
            i,
            j,
        ));
    }
}

/// The id and parent id a category entry's attributes spell.
pub open spec fn category_ids_of(a: EventAt) -> (u64, u64) {
    match a.ev {
        XmlEventV::Open { attrs, .. } => scan_category_attrs(0, 0, attrs.items, attrs.bad, 0, a.pa).0,
        XmlEventV::SelfClose { attrs, .. } => scan_category_attrs(
            0,
            0,
            attrs.items,
            attrs.bad,
            0,
            a.pa,
        ).0,
        _ => (0, 0),
    }
}

/// A well-formed category opening: a `category` tag whose attributes scan
/// without failure.
pub open spec fn is_category_entry(a: EventAt) -> bool {
    match a.ev {
        XmlEventV::Open { name, attrs } => name == "category"@ && scan_category_attrs(
            0,
            0,
            attrs.items,
            attrs.bad,
            0,
            a.pa,
        ).1 is None,
        XmlEventV::SelfClose { name, attrs } => name == "category"@ && scan_category_attrs(
            0,
            0,
            attrs.items,
            attrs.bad,
            0,
            a.pa,
        ).1 is None,
        _ => false,
    }
}

/// The category one whole element describes: ids from the opening tag's
/// attributes, the name from the text between it and the closing tag.
pub open spec fn category_of(evs: Seq<EventAt>, i: int, j: int) -> crate::types::CategoryV {
    crate::types::CategoryV {
        id: category_ids_of(evs[i]).0,
        parent_id: category_ids_of(evs[i]).1,
        name: texts_content(evs, i + 1, j),
    }
}

/// Law: one well-formed category element — a clean opening at `i`, clean
/// text up to `j`, and the closing tag at `j` — appends exactly the
/// category it describes at the end of the list; elements read later land
/// later, so the parsed list keeps source order.
pub proof fn lemma_category_element(c: CoreV, evs: Seq<EventAt>, i: int, j: int)
    requires
        c.state == State::Categories,
        0 <= i < j < evs.len(),
        is_category_entry(evs[i]),
        forall|k: int| i < k < j ==> is_clean_text(#[trigger] evs[k]),
        evs[j].ev is Close,
    ensures
        spec_run_to(c, evs, i, j + 1) == (CoreV {
            state: State::Categories,
            categories: c.categories.push(category_of(evs, i, j)),
            text: texts_content(evs, i + 1, j),
            cat_id: category_ids_of(evs[i]).0,
            cat_parent: category_ids_of(evs[i]).1,
            ..c
        }),
{
    let a = evs[i];
    let c1 = spec_feed(c, a.ev, a.pb, a.pa).0;
    assert(c1 == (CoreV {
        state: State::CategoryText,
        cat_id: category_ids_of(evs[i]).0,
        cat_parent: category_ids_of(evs[i]).1,
        text: Seq::empty(),
        ..c
    }));
    lemma_run_to_split(c, evs, i, i + 1, j + 1);
    lemma_run_to_split(c1, evs, i + 1, j, j + 1);
    lemma_category_texts(c1, evs, i + 1, j);
    let c2 = spec_run_to(c1, evs, i + 1, j);
    assert(Seq::<char>::empty() + texts_content(evs, i + 1, j) =~= texts_content(evs, i + 1, j));
    let b = evs[j];
    let c3 = spec_feed(c2, b.ev, b.pb, b.pa).0;
    assert(spec_run_to(c3, evs, j + 1, j + 1) == c3);
    assert(spec_run_to(c2, evs, j, j + 1) == spec_run_to(c3, evs, j + 1, j + 1));
}

/// Law: closing a categories block hands the accumulated list to the shop
/// unchanged.
pub proof fn lemma_categories_commit(c: CoreV, name: Seq<char>, pb: Pos, pa: Pos)
    requires
        c.state == State::Categories,
        name == "categories"@,
    ensures
        ({
            let (c2, out) = spec_feed(c, XmlEventV::Close { name }, pb, pa);
            &&& out == FeedV::More
            &&& c2.state == State::Shop
            &&& c2.catalog.shop is Some
            &&& c2.catalog.shop.unwrap().categories == c.categories
        }),
{
}

// ---------------------------------------------------------------------------
// Scalar offer fields and params equal their elements' text
// ---------------------------------------------------------------------------

/// While reading a scalar offer field's text, clean fragments accumulate
/// in order.
proof fn lemma_offer_texts(c: CoreV, evs: Seq<EventAt>, i: int, j: int)
    requires
        c.state == State::OfferText,
        0 <= i <= j <= evs.len(),
        forall|k: int| i <= k < j ==> is_clean_text(#[trigger] evs[k]),
    ensures
        spec_run_to(c, evs, i, j) == (CoreV { text: c.text + texts_content(evs, i, j), ..c }),
    decreases j - i,
{
    if i >= j {
        assert(c.text + texts_content(evs, i, j) =~= c.text);
    } else {
        let a = evs[i];
        let c1 = spec_feed(c, a.ev, a.pb, a.pa).0;
        assert(c1 == (CoreV { text: c.text + frag_of(a), ..c }));
        lemma_offer_texts(c1, evs, i + 1, j);
        assert((c.text + frag_of(a)) + texts_content(evs, i + 1, j) =~= c.text + texts_content(
            evs,
            i,
            j,
        ));
    }
}

/// While reading a param's text, clean fragments accumulate in order.
proof fn lemma_param_texts(c: CoreV, evs: Seq<EventAt>, i: int, j: int)
    requires
        c.state == State::OfferParam,
        0 <= i <= j <= evs.len(),
        forall|k: int| i <= k < j ==> is_clean_text(#[trigger] evs[k]),
    ensures
        spec_run_to(c, evs, i, j) == (CoreV { text: c.text + texts_content(evs, i, j), ..c }),
    decreases j - i,
{
    if i >= j {
        assert(c.text + texts_content(evs, i, j) =~= c.text);
    } else {
        let a = evs[i];
        let c1 = spec_feed(c, a.ev, a.pb, a.pa).0;
        assert(c1 == (CoreV { text: c.text + frag_of(a), ..c }));
        lemma_param_texts(c1, evs, i + 1, j);
        assert((c.text + frag_of(a)) + texts_content(evs, i + 1, j) =~= c.text + texts_content(
            evs,
            i,
            j,
        ));
    }
}

/// The scalar offer field an element's opening tag selects, if any.
pub open spec fn offer_scalar_field_of(a: EventAt) -> Option<crate::machine::OfferField> {
    match a.ev {
        XmlEventV::Open { name, .. } => crate::machine::spec_offer_text_field(name),
        XmlEventV::SelfClose { name, .. } => crate::machine::spec_offer_text_field(name),
        _ => None,
    }
}

/// Law: one scalar offer element — a field-selecting tag at `i`, clean text
/// up to `j`, the closing tag at `j` — behaves exactly as the element's
/// trimmed, concatenated text committed to that field: the field's value is
/// the element's text, coerced per the field's type, and a failing coercion
/// resynchronizes at the offers scope with the validation error the commit
/// spells.
pub proof fn lemma_offer_scalar_element(c: CoreV, evs: Seq<EventAt>, i: int, j: int)
    requires
        c.state == State::OfferFields,
        0 <= i < j < evs.len(),
        offer_scalar_field_of(evs[i]) is Some,
        forall|k: int| i < k < j ==> is_clean_text(#[trigger] evs[k]),
        evs[j].ev is Close,
    ensures
        ({
            let mid = CoreV {
                state: State::OfferText,
                offer_field: offer_scalar_field_of(evs[i]).unwrap(),
                text: texts_content(evs, i + 1, j),
                ..c
            };
            spec_run_to(c, evs, i, j + 1) == crate::machine::spec_commit_offer_text(
                mid,
                evs[j].pa,
            ).0
        }),
{
    let a = evs[i];
    let f = offer_scalar_field_of(evs[i]).unwrap();
    let c1 = spec_feed(c, a.ev, a.pb, a.pa).0;
    assert(c1 == (CoreV {
        state: State::OfferText,
        offer_field: f,
        text: Seq::empty(),
        ..c
    }));
    lemma_run_to_split(c, evs, i, i + 1, j + 1);
    lemma_run_to_split(c1, evs, i + 1, j, j + 1);
    lemma_offer_texts(c1, evs, i + 1, j);
    let c2 = spec_run_to(c1, evs, i + 1, j);
    assert(Seq::<char>::empty() + texts_content(evs, i + 1, j) =~= texts_content(evs, i + 1, j));
    let b = evs[j];
    let c3 = spec_feed(c2, b.ev, b.pb, b.pa).0;
    assert(spec_run_to(c3, evs, j + 1, j + 1) == c3);
    assert(spec_run_to(c2, evs, j, j + 1) == spec_run_to(c3, evs, j + 1, j + 1));
}

/// Law: inside an offer, a `categoryId` element whose text is no number is
/// rejected at its closing tag with a validation error carrying that very
/// text; no record comes out of it, the offer under assembly is dropped
/// unchanged, and the machine stands at the offers scope again, ready for
/// the next offer.
pub proof fn lemma_category_id_invalid(c: CoreV, evs: Seq<EventAt>, i: int, j: int)
    requires
        c.state == State::OfferFields,
        0 <= i < j < evs.len(),
        offer_scalar_field_of(evs[i]) == Some(crate::machine::OfferField::CategoryId),
        forall|k: int| i < k < j ==> is_clean_text(#[trigger] evs[k]),
        evs[j].ev is Close,
        crate::coerce::spec_parse_u64(texts_content(evs, i + 1, j)) is Err,
    ensures
        ({
            let t = texts_content(evs, i + 1, j);
            let e = (match crate::coerce::spec_parse_u64(t) {
                Ok(_) => v_valid(Seq::empty(), evs[j].pa, t),
                Err(err) => v_valid(crate::coerce::spec_num_err_msg(err), evs[j].pa, t),
            });
            let cj = spec_run_to(c, evs, i, j);
            &&& spec_feed(cj, evs[j].ev, evs[j].pb, evs[j].pa).1 == FeedV::Fail(e)
            &&& spec_run_to(c, evs, i, j + 1).state == State::Offers
            &&& spec_run_to(c, evs, i, j + 1).offer == c.offer
        }),
{
    let a = evs[i];
    let c1 = spec_feed(c, a.ev, a.pb, a.pa).0;
    assert(c1 == (CoreV {
        state: State::OfferText,
        offer_field: crate::machine::OfferField::CategoryId,
        text: Seq::empty(),
        ..c
    }));
    lemma_run_to_split(c, evs, i, i + 1, j + 1);
    lemma_run_to_split(c1, evs, i + 1, j, j + 1);
    lemma_offer_texts(c1, evs, i + 1, j);
    let c2 = spec_run_to(c1, evs, i + 1, j);
    assert(Seq::<char>::empty() + texts_content(evs, i + 1, j) =~= texts_content(evs, i + 1, j));
    let b = evs[j];
    let c3 = spec_feed(c2, b.ev, b.pb, b.pa).0;
    assert(spec_run_to(c3, evs, j + 1, j + 1) == c3);
    assert(spec_run_to(c2, evs, j, j + 1) == spec_run_to(c3, evs, j + 1, j + 1));
}

/// The param an element describes: attributes from its opening tag, the
/// value from its text.
pub open spec fn param_of(evs: Seq<EventAt>, i: int, j: int) -> crate::types::ParamV {
    let scanned = match evs[i].ev {
        XmlEventV::Open { attrs, .. } => crate::machine::scan_param_attrs(
            crate::types::empty_param_v(),
            attrs.items,
            attrs.bad,
            0,
            evs[i].pa,
        ).0,
        XmlEventV::SelfClose { attrs, .. } => crate::machine::scan_param_attrs(
            crate::types::empty_param_v(),
            attrs.items,
            attrs.bad,
            0,
            evs[i].pa,
        ).0,
        _ => crate::types::empty_param_v(),
    };
    crate::types::ParamV { value: texts_content(evs, i + 1, j), ..scanned }
}

/// A well-formed param opening: a `param` tag whose attributes scan
/// without failure.
pub open spec fn is_param_entry(a: EventAt) -> bool {
    match a.ev {
        XmlEventV::Open { name, attrs } => name == "param"@ && crate::machine::scan_param_attrs(
            crate::types::empty_param_v(),
            attrs.items,
            attrs.bad,
            0,
            a.pa,
        ).1 is None,
        XmlEventV::SelfClose { name, attrs } => name == "param"@
            && crate::machine::scan_param_attrs(
            crate::types::empty_param_v(),
            attrs.items,
            attrs.bad,
            0,
            a.pa,
        ).1 is None,
        _ => false,
    }
}

/// The tag name `param` selects no scalar field and is not a price tag.
proof fn lemma_param_name_distinct(name: Seq<char>)
    requires
        name == "param"@,
    ensures
        crate::machine::spec_offer_text_field(name) is None,
        name != "price"@,
        name != "oldprice"@,
{
    reveal_strlit("param");
    reveal_strlit("name");
    reveal_strlit("vendor");
    reveal_strlit("vendorCode");
    reveal_strlit("url");
    reveal_strlit("picture");
    reveal_strlit("currencyId");
    reveal_strlit("description");
    reveal_strlit("sales_notes");
    reveal_strlit("country_of_origin");
    reveal_strlit("dimensions");
    reveal_strlit("barcode");
    reveal_strlit("categoryId");
    reveal_strlit("weight");
    reveal_strlit("downloadable");
    reveal_strlit("enable_auto_discounts");
    reveal_strlit("manufacturer_warranty");
    reveal_strlit("delivery");
    reveal_strlit("pickup");
    reveal_strlit("store");
    reveal_strlit("min_quantity");
    reveal_strlit("price");
    reveal_strlit("oldprice");
    assert("param"@.len() == 5 && "name"@.len() == 4 && "vendor"@.len() == 6 && "vendorCode"@.len()
        == 10 && "url"@.len() == 3 && "picture"@.len() == 7 && "currencyId"@.len() == 10
        && "description"@.len() == 11 && "sales_notes"@.len() == 11
        && "country_of_origin"@.len() == 17 && "dimensions"@.len() == 10 && "barcode"@.len() == 7
        && "categoryId"@.len() == 10 && "weight"@.len() == 6 && "downloadable"@.len() == 12
        && "enable_auto_discounts"@.len() == 21 && "manufacturer_warranty"@.len() == 21
        && "delivery"@.len() == 8 && "pickup"@.len() == 6 && "store"@.len() == 5
        && "min_quantity"@.len() == 12 && "price"@.len() == 5 && "oldprice"@.len() == 8);
    assert("param"@[0] != "store"@[0]);
    assert("param"@[1] != "price"@[1]);
}

/// Law: one well-formed param element appends exactly the param it
/// describes — attributes from the tag, value from the text — at the end
/// of the offer's param list, so params keep source order.
pub proof fn lemma_param_element(c: CoreV, evs: Seq<EventAt>, i: int, j: int)
    requires
        c.state == State::OfferFields,
        0 <= i < j < evs.len(),
        is_param_entry(evs[i]),
        forall|k: int| i < k < j ==> is_clean_text(#[trigger] evs[k]),
        evs[j].ev is Close,
    ensures
        ({
            let r = spec_run_to(c, evs, i, j + 1);
            &&& r.state == State::OfferFields
            &&& r.offer == (crate::types::OfferV {
                params: c.offer.params.push(param_of(evs, i, j)),
                ..c.offer
            })
            &&& r.catalog == c.catalog
        }),
{
    let a = evs[i];
    match a.ev {
        XmlEventV::Open { name, .. } => lemma_param_name_distinct(name),
        XmlEventV::SelfClose { name, .. } => lemma_param_name_distinct(name),
        _ => {},
    }
    let c1 = spec_feed(c, a.ev, a.pb, a.pa).0;
    lemma_run_to_split(c, evs, i, i + 1, j + 1);
    lemma_run_to_split(c1, evs, i + 1, j, j + 1);
    lemma_param_texts(c1, evs, i + 1, j);
    let c2 = spec_run_to(c1, evs, i + 1, j);
    assert(Seq::<char>::empty() + texts_content(evs, i + 1, j) =~= texts_content(evs, i + 1, j));
    let b = evs[j];
    let c3 = spec_feed(c2, b.ev, b.pb, b.pa).0;
    assert(spec_run_to(c3, evs, j + 1, j + 1) == c3);
    assert(spec_run_to(c2, evs, j, j + 1) == spec_run_to(c3, evs, j + 1, j + 1));
}

// ---------------------------------------------------------------------------
// A whole well-formed offer block
// ---------------------------------------------------------------------------

/// Whether the coercion of a scalar field's text succeeds.
pub open spec fn scalar_commit_ok(f: crate::machine::OfferField, t: Seq<char>) -> bool {
    match f {
        crate::machine::OfferField::CategoryId => crate::coerce::spec_parse_u64(t) is Ok,
        crate::machine::OfferField::Weight => crate::coerce::spec_is_decimal(t),
        crate::machine::OfferField::Downloadable => crate::coerce::spec_parse_bool(t) is Some,
        crate::machine::OfferField::EnableAutoDiscounts => crate::coerce::spec_parse_bool(
            t,
        ) is Some,
        crate::machine::OfferField::ManufacturerWarranty => crate::coerce::spec_parse_bool(
            t,
        ) is Some,
        crate::machine::OfferField::Delivery => t.len() == 0 || crate::coerce::spec_parse_bool(
            t,
        ) is Some,
        crate::machine::OfferField::Pickup => t.len() == 0 || crate::coerce::spec_parse_bool(
            t,
        ) is Some,
        crate::machine::OfferField::Store => t.len() == 0 || crate::coerce::spec_parse_bool(
            t,
        ) is Some,
        crate::machine::OfferField::MinQuantity => t.len() == 0 || crate::coerce::spec_is_decimal(
            t,
        ),
        _ => true,
    }
}

/// One field element of an offer block: a scalar element spanning
/// `[i, j]`, a param element spanning `[i, j]`, or one event the offer
/// scope skips.
pub enum OfferPart {
    Scalar { i: int, j: int },
    ParamElem { i: int, j: int },
    Skipped { i: int },
}

pub open spec fn part_start(p: OfferPart) -> int {
    match p {
        OfferPart::Scalar { i, .. } => i,
        OfferPart::ParamElem { i, .. } => i,
        OfferPart::Skipped { i } => i,
    }
}

pub open spec fn part_end(p: OfferPart) -> int {
    match p {
        OfferPart::Scalar { j, .. } => j + 1,
        OfferPart::ParamElem { j, .. } => j + 1,
        OfferPart::Skipped { i } => i + 1,
    }
}

/// An event the offer scope skips without touching the record.
pub open spec fn is_skipped_in_offer(a: EventAt) -> bool {
    match a.ev {
        XmlEventV::Open { name, .. } => crate::machine::spec_offer_text_field(name) is None && name
            != "price"@ && name != "oldprice"@ && name != "param"@ && name != "condition"@ && name
            != "credit-template"@ && name != "delivery-options"@ && name != "pickup-options"@,
        XmlEventV::SelfClose { name, .. } => crate::machine::spec_offer_text_field(name) is None
            && name != "price"@ && name != "oldprice"@ && name != "param"@ && name != "condition"@
            && name != "credit-template"@ && name != "delivery-options"@ && name
            != "pickup-options"@,
        XmlEventV::Close { name } => name != "offer"@,
        XmlEventV::Text { .. } => true,
        XmlEventV::Other => true,
        _ => false,
    }
}

/// One well-formed offer part.
pub open spec fn part_wf(evs: Seq<EventAt>, p: OfferPart) -> bool {
    match p {
        OfferPart::Scalar { i, j } => {
            &&& 0 <= i < j < evs.len()
            &&& offer_scalar_field_of(evs[i]) is Some
            &&& forall|k: int| i < k < j ==> is_clean_text(#[trigger] evs[k])
            &&& evs[j].ev is Close
            &&& scalar_commit_ok(offer_scalar_field_of(evs[i]).unwrap(), texts_content(evs, i + 1, j))
        },
        OfferPart::ParamElem { i, j } => {
            &&& 0 <= i < j < evs.len()
            &&& is_param_entry(evs[i])
            &&& forall|k: int| i < k < j ==> is_clean_text(#[trigger] evs[k])
            &&& evs[j].ev is Close
        },
        OfferPart::Skipped { i } => 0 <= i < evs.len() && is_skipped_in_offer(evs[i]),
    }
}

/// The parts cover `[pos, end)` contiguously, each well-formed.
pub open spec fn parts_cover(
    evs: Seq<EventAt>,
    parts: Seq<OfferPart>,
    k: int,
    pos: int,
    end: int,
) -> bool
    decreases parts.len() - k,
{
    if k < 0 || k >= parts.len() {
        pos == end
    } else {
        &&& part_wf(evs, parts[k])
        &&& part_start(parts[k]) == pos
        &&& part_end(parts[k]) <= end
        &&& parts_cover(evs, parts, k + 1, part_end(parts[k]), end)
    }
}

/// What one part does to the offer under assembly.
pub open spec fn apply_part(evs: Seq<EventAt>, o: OfferV, p: OfferPart) -> OfferV {
    match p {
        OfferPart::Scalar { i, j } => crate::machine::spec_commit_offer_text(
            CoreV {
                state: State::OfferText,
                offer_field: offer_scalar_field_of(evs[i]).unwrap(),
                text: texts_content(evs, i + 1, j),
                offer: o,
                ..crate::machine::spec_init_core()
            },
            evs[j].pa,
        ).0.offer,
        OfferPart::ParamElem { i, j } => OfferV { params: o.params.push(param_of(evs, i, j)), ..o },
        OfferPart::Skipped { .. } => o,
    }
}

/// The offer the parts assemble, first to last.
pub open spec fn apply_parts(evs: Seq<EventAt>, o: OfferV, parts: Seq<OfferPart>, k: int) -> OfferV
    decreases parts.len() - k,
{
    if k < 0 || k >= parts.len() {
        o
    } else {
        apply_parts(evs, apply_part(evs, o, parts[k]), parts, k + 1)
    }
}

/// Inside one offer, well-formed parts land in their fields one after the
/// other.
proof fn lemma_offer_parts(
    c: CoreV,
    evs: Seq<EventAt>,
    parts: Seq<OfferPart>,
    k: int,
    pos: int,
    end: int,
)
    requires
        c.state == State::OfferFields,
        0 <= k <= parts.len(),
        0 <= pos,
        end <= evs.len(),
        parts_cover(evs, parts, k, pos, end),
    ensures
        ({
            let r = spec_run_to(c, evs, pos, end);
            r.state == State::OfferFields && r.offer == apply_parts(evs, c.offer, parts, k)
        }),
    decreases parts.len() - k,
{
    if k >= parts.len() {
    } else {
        let p = parts[k];
        let m = part_end(p);
        lemma_run_to_split(c, evs, pos, m, end);
        let c1 = spec_run_to(c, evs, pos, m);
        match p {
            OfferPart::Scalar { i, j } => {
                lemma_offer_scalar_element(c, evs, i, j);
                assert(c1.state == State::OfferFields && c1.offer == apply_part(evs, c.offer, p));
            },
            OfferPart::ParamElem { i, j } => {
                lemma_param_element(c, evs, i, j);
            },
            OfferPart::Skipped { i } => {
                let a = evs[i];
                assert(spec_feed(c, a.ev, a.pb, a.pa) == (c, FeedV::More));
                let c0 = spec_feed(c, a.ev, a.pb, a.pa).0;
                assert(spec_run_to(c0, evs, i + 1, i + 1) == c0);
                assert(spec_run_to(c, evs, i, i + 1) == spec_run_to(c0, evs, i + 1, i + 1));
            },
        }
        lemma_offer_parts(c1, evs, parts, k + 1, m, end);
    }
}

/// Law: a whole well-formed offer block — the offer opening with clean
/// attributes, any succession of well-formed field elements and skipped
/// events, and the offer's closing tag — produces exactly the offer whose
/// fields come from the opening's attributes and the elements' contents,
/// in order, and is emitted at the closing tag.
pub proof fn lemma_offer_block(
    c: CoreV,
    evs: Seq<EventAt>,
    parts: Seq<OfferPart>,
    i: int,
    j: int,
)
    requires
        c.state == State::Offers,
        0 <= i < j < evs.len(),
        ({
            &&& evs[i].ev matches XmlEventV::Open { name, attrs } && name == "offer"@
                && scan_offer_attrs(
                crate::types::empty_offer_v(),
                attrs.items,
                attrs.bad,
                0,
                evs[i].pa,
            ).1 is None
        }),
        parts_cover(evs, parts, 0, i + 1, j),
        evs[j].ev matches XmlEventV::Close { name } && name == "offer"@,
    ensures
        ({
            let o0 = (match evs[i].ev {
                XmlEventV::Open { attrs, .. } => scan_offer_attrs(
                    crate::types::empty_offer_v(),
                    attrs.items,
                    attrs.bad,
                    0,
                    evs[i].pa,
                ).0,
                _ => crate::types::empty_offer_v(),
            });
            let built = apply_parts(evs, o0, parts, 0);
            let cj = spec_run_to(c, evs, i, j);
            &&& cj.state == State::OfferFields
            &&& cj.offer == built
            &&& spec_feed(cj, evs[j].ev, evs[j].pb, evs[j].pa).1 == FeedV::Item(
                crate::types::ParsedItemV::Offer(built),
            )
        }),
{
    let a = evs[i];
    let c1 = spec_feed(c, a.ev, a.pb, a.pa).0;
    assert(c1.state == State::OfferFields);
    lemma_run_to_split(c, evs, i, i + 1, j);
    lemma_offer_parts(c1, evs, parts, 0, i + 1, j);
}

// ---------------------------------------------------------------------------
// A broken offer, then a well-formed one
// ---------------------------------------------------------------------------

/// An event the offers scope passes over without output: any element other
/// than an offer opening, any closing tag but the scope's own, text and
/// other markup.
pub open spec fn is_passed_in_offers(a: EventAt) -> bool {
    match a.ev {
        XmlEventV::Open { name, .. } => name != "offer"@,
        XmlEventV::SelfClose { .. } => true,
        XmlEventV::Close { name } => name != "offers"@,
        XmlEventV::Text { .. } => true,
        XmlEventV::Other => true,
        _ => false,
    }
}

/// At the offers scope, a run of passed-over events changes nothing.
proof fn lemma_offers_run_skips(c: CoreV, evs: Seq<EventAt>, i: int, j: int)
    requires
        c.state == State::Offers,
        0 <= i <= j <= evs.len(),
        forall|k: int| i <= k < j ==> is_passed_in_offers(#[trigger] evs[k]),
    ensures
        spec_run_to(c, evs, i, j) == c,
    decreases j - i,
{
    if i < j {
        let a = evs[i];
        assert(spec_feed(c, a.ev, a.pb, a.pa) == (c, FeedV::More));
        lemma_offers_run_skips(c, evs, i + 1, j);
    }
}

/// Law: one broken offer never reaches the output and never takes the
/// stream down. Wherever inside the offers scope the failure strikes, the
/// failing event produces its failure and no record, the machine stands at
/// the offers scope again, passes over the rest of the broken block
/// producing nothing, and the next well-formed offer block yields exactly
/// the offer its tags and contents spell, emitted whole at its closing tag
/// — as if the broken offer had not been there.
pub proof fn lemma_offer_failure_then_recovery(
    c: CoreV,
    evs: Seq<EventAt>,
    parts: Seq<OfferPart>,
    f: int,
    g: int,
    h: int,
)
    requires
        in_offer_scope(c),
        0 <= f < g < h < evs.len(),
        spec_feed(c, evs[f].ev, evs[f].pb, evs[f].pa).1 is Fail,
        forall|k: int| f < k < g ==> is_passed_in_offers(#[trigger] evs[k]),
        ({
            &&& evs[g].ev matches XmlEventV::Open { name, attrs } && name == "offer"@
                && scan_offer_attrs(
                crate::types::empty_offer_v(),
                attrs.items,
                attrs.bad,
                0,
                evs[g].pa,
            ).1 is None
        }),
        parts_cover(evs, parts, 0, g + 1, h),
        evs[h].ev matches XmlEventV::Close { name } && name == "offer"@,
    ensures
        spec_run_to(c, evs, f, f + 1).state == State::Offers,
        forall|k: int|
            f < k < g ==> #[trigger] spec_run_to(c, evs, f, k) == spec_run_to(c, evs, f, f + 1)
                && spec_feed(spec_run_to(c, evs, f, k), evs[k].ev, evs[k].pb, evs[k].pa).1
                == FeedV::More,
        ({
            let o0 = (match evs[g].ev {
                XmlEventV::Open { attrs, .. } => scan_offer_attrs(
                    crate::types::empty_offer_v(),
                    attrs.items,
                    attrs.bad,
                    0,
                    evs[g].pa,
                ).0,
                _ => crate::types::empty_offer_v(),
            });
            let built = apply_parts(evs, o0, parts, 0);
            let ch = spec_run_to(c, evs, f, h);
            &&& ch.state == State::OfferFields
            &&& ch.offer == built
            &&& spec_feed(ch, evs[h].ev, evs[h].pb, evs[h].pa).1 == FeedV::Item(
                crate::types::ParsedItemV::Offer(built),
            )
        }),
{
    let c1 = spec_feed(c, evs[f].ev, evs[f].pb, evs[f].pa).0;
    lemma_offer_failure_resyncs(c, evs[f].ev, evs[f].pb, evs[f].pa);
    assert(spec_run_to(c1, evs, f + 1, f + 1) == c1);
    assert(spec_run_to(c, evs, f, f + 1) == c1);
    assert forall|k: int| f < k < g implies #[trigger] spec_run_to(c, evs, f, k) == spec_run_to(
        c,
        evs,
        f,
        f + 1,
    ) && spec_feed(spec_run_to(c, evs, f, k), evs[k].ev, evs[k].pb, evs[k].pa).1
        == FeedV::More by {
        lemma_offers_run_skips(c1, evs, f + 1, k);
        assert(spec_run_to(c, evs, f, k) == spec_run_to(c1, evs, f + 1, k));
        assert(is_passed_in_offers(evs[k]));
        assert(spec_feed(c1, evs[k].ev, evs[k].pb, evs[k].pa) == (c1, FeedV::More));
    }
    lemma_offers_run_skips(c1, evs, f + 1, g);
    lemma_run_to_split(c1, evs, f + 1, g, h);
    assert(spec_run_to(c, evs, f, h) == spec_run_to(c1, evs, f + 1, h));
    lemma_offer_block(c1, evs, parts, g, h);
}

// ---------------------------------------------------------------------------
// When records are emitted
// ---------------------------------------------------------------------------

/// Law: an offer is emitted exactly at the moment its closing tag is
/// observed, carrying whatever fields were read up to that point, and the
/// machine returns to the offers scope with a fresh accumulator.
pub proof fn lemma_offer_emitted_at_close(c: CoreV, name: Seq<char>, pb: Pos, pa: Pos)
    requires
        c.state == State::OfferFields,
        name == "offer"@,
    ensures
        spec_feed(c, XmlEventV::Close { name }, pb, pa) == (
            (CoreV { state: State::Offers, offer: crate::types::empty_offer_v(), ..c }),
            FeedV::Item(crate::types::ParsedItemV::Offer(c.offer)),
        ),
{
}

/// Law: the catalog header is emitted exactly when the catalog root
/// closes, carrying the accumulated date and shop, and the machine becomes
/// terminal.
pub proof fn lemma_catalog_emitted_at_close(c: CoreV, name: Seq<char>, pb: Pos, pa: Pos)
    requires
        c.state == State::Catalog,
        name == "yml_catalog"@,
    ensures
        spec_feed(c, XmlEventV::Close { name }, pb, pa) == (
            (CoreV { state: State::End, catalog: crate::types::empty_catalog_v(), ..c }),
            FeedV::Item(crate::types::ParsedItemV::YmlCatalog(c.catalog)),
        ),
{
}

} // verus!
