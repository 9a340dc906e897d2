//! Streaming parser for market catalog XML feeds.
//!
//! The feed is a schema-constrained XML dialect (`yml_catalog` → `shop` →
//! `offers`), turned into strongly typed records one at a time through a pull
//! interface: a catalog header, a shop, or an offer per call.

mod coerce;
mod events;
mod laws;
mod machine;
mod parser;
mod tokenizer;
mod types;

pub use coerce::{parse_bool_text, parse_u64_str, is_decimal_str, parse_available, trim_str, NumError};
pub use machine::{
    scan_catalog_attrs, scan_category_attrs, scan_condition_attrs, scan_credit_attrs,
    scan_currency_attrs, scan_offer_attrs, scan_option_attrs, scan_param_attrs, scan_price_from,
    spec_commit_offer_text, spec_feed, spec_init_core, spec_offer_text_field, spec_u64_attr,
    CoreV, FeedV, OfferField, OptDest, ParserCore, ShopField, State,
};
pub use parser::{clamped, pos_at, spec_line_col, spec_pull, stream_offset, MarketXmlParser};
pub use tokenizer::{
    event_ends, events_done, raw_attrs_view, raw_view, reader_bytes, reader_offset,
    utf8_lossy, xml_events, ByteReader, RawAttr, RawAttrs, RawEvent,
};
pub use laws::{
    currencies_of, currency_of, category_of, is_category_entry, is_clean_text, is_currency_entry,
    is_ignored_in_currencies, is_ignored_in_options, is_option_entry, is_param_entry,
    in_offer_scope, is_passed_in_offers, offer_attr_clean, offer_scalar_field_of, option_of,
    options_of, param_of,
    spec_run, spec_run_to, texts_content, frag_of, category_ids_of, apply_part, apply_parts,
    is_skipped_in_offer, lemma_offer_block, part_end, part_start, part_wf, parts_cover,
    scalar_commit_ok, OfferPart,
    lemma_available_absent, lemma_available_invalid, lemma_available_set,
    lemma_catalog_emitted_at_close,
    lemma_categories_commit, lemma_category_element, lemma_category_id_invalid,
    lemma_currencies_commit,
    lemma_currencies_preserve_order, lemma_end_is_terminal, lemma_offer_emitted_at_close,
    lemma_offer_failure_resyncs, lemma_offer_failure_then_recovery, lemma_offer_scalar_element,
    lemma_offers_scope_skips,
    lemma_options_commit, lemma_options_preserve_order, lemma_order_before_absent,
    lemma_param_element, lemma_run_to_split, EventAt,
};
pub use events::{Pos, XmlAttr, XmlAttrV, XmlAttrs, XmlAttrsV, XmlEvent, XmlEventV};
pub use types::{
    Category, CategoryV, Condition, ConditionV, Currency, CurrencyV, DeliveryOption,
    DeliveryOptionV, MarketXmlConfig, MarketXmlError, MarketXmlErrorV, Offer, OfferV, Param,
    ParamV, ParsedItem, ParsedItemV, Price, PriceV, Shop, ShopV, YmlCatalog, YmlCatalogV,
};
