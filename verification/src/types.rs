//! Record types assembled by the parser, their mathematical views, and the
//! error taxonomy.
//!
//! Each executable record type `T` has a spec-level mirror `TV` reachable
//! through [`vstd::view::DeepView`]: `String` fields become `Seq<char>`,
//! `Vec` fields become `Seq` of the element views, numbers stay themselves.
//! Contracts throughout the crate speak about these views.

use vstd::prelude::*;

verus! {

/// A currency accepted by the shop; `rate` and `plus` stay raw text because
/// the dialect permits non-numeric placeholders there.
#[derive(Debug, Clone, PartialEq)]
pub struct Currency {
    pub id: String,
    pub rate: String,
    pub plus: String,
}

pub struct CurrencyV {
    pub id: Seq<char>,
    pub rate: Seq<char>,
    pub plus: Seq<char>,
}

impl DeepView for Currency {
    type V = CurrencyV;

    open spec fn deep_view(&self) -> CurrencyV {
        CurrencyV { id: self.id.deep_view(), rate: self.rate.deep_view(), plus: self.plus.deep_view() }
    }
}

pub open spec fn empty_currency_v() -> CurrencyV {
    CurrencyV { id: Seq::empty(), rate: Seq::empty(), plus: Seq::empty() }
}

impl Default for Currency {
    fn default() -> (r: Currency)
        ensures
            r.deep_view() == empty_currency_v(),
    {
        Currency { id: String::new(), rate: String::new(), plus: String::new() }
    }
}

/// A category node: `parent_id` 0 means "no parent"; `name` is the tag's
/// text content.
#[derive(Debug, Clone, PartialEq)]
pub struct Category {
    pub id: u64,
    pub parent_id: u64,
    pub name: String,
}

pub struct CategoryV {
    pub id: u64,
    pub parent_id: u64,
    pub name: Seq<char>,
}

impl DeepView for Category {
    type V = CategoryV;

    open spec fn deep_view(&self) -> CategoryV {
        CategoryV { id: self.id, parent_id: self.parent_id, name: self.name.deep_view() }
    }
}

pub open spec fn empty_category_v() -> CategoryV {
    CategoryV { id: 0, parent_id: 0, name: Seq::empty() }
}

impl Default for Category {
    fn default() -> (r: Category)
        ensures
            r.deep_view() == empty_category_v(),
    {
        Category { id: 0, parent_id: 0, name: String::new() }
    }
}

/// One delivery (or pickup) option: an absent `order-before` attribute is
/// kept as `None`, never turned into zero.
#[derive(Debug, Clone, PartialEq)]
pub struct DeliveryOption {
    pub cost: u64,
    pub days: String,
    pub order_before: Option<u64>,
}

pub struct DeliveryOptionV {
    pub cost: u64,
    pub days: Seq<char>,
    pub order_before: Option<u64>,
}

impl DeepView for DeliveryOption {
    type V = DeliveryOptionV;

    open spec fn deep_view(&self) -> DeliveryOptionV {
        DeliveryOptionV {
            cost: self.cost,
            days: self.days.deep_view(),
            order_before: self.order_before,
        }
    }
}

pub open spec fn empty_delivery_option_v() -> DeliveryOptionV {
    DeliveryOptionV { cost: 0, days: Seq::empty(), order_before: None }
}

impl Default for DeliveryOption {
    fn default() -> (r: DeliveryOption)
        ensures
            r.deep_view() == empty_delivery_option_v(),
    {
        DeliveryOption { cost: 0, days: String::new(), order_before: None }
    }
}

/// A price: the decimal literal is kept as validated text, and `from` is
/// true exactly when the `from` attribute literal equals `true`.
#[derive(Debug, Clone, PartialEq)]
pub struct Price {
    pub price: String,
    pub from: bool,
}

pub struct PriceV {
    pub price: Seq<char>,
    pub from: bool,
}

impl DeepView for Price {
    type V = PriceV;

    open spec fn deep_view(&self) -> PriceV {
        PriceV { price: self.price.deep_view(), from: self.from }
    }
}

pub open spec fn empty_price_v() -> PriceV {
    PriceV { price: Seq::empty(), from: false }
}

impl Default for Price {
    fn default() -> (r: Price)
        ensures
            r.deep_view() == empty_price_v(),
    {
        Price { price: String::new(), from: false }
    }
}

/// A free-form offer parameter: `value` is the tag's text content, the rest
/// are attributes.
#[derive(Debug, Clone, PartialEq)]
pub struct Param {
    pub name: String,
    pub unit: String,
    pub value: String,
    pub id: String,
    pub value_id: String,
}

pub struct ParamV {
    pub name: Seq<char>,
    pub unit: Seq<char>,
    pub value: Seq<char>,
    pub id: Seq<char>,
    pub value_id: Seq<char>,
}

impl DeepView for Param {
    type V = ParamV;

    open spec fn deep_view(&self) -> ParamV {
        ParamV {
            name: self.name.deep_view(),
            unit: self.unit.deep_view(),
            value: self.value.deep_view(),
            id: self.id.deep_view(),
            value_id: self.value_id.deep_view(),
        }
    }
}

pub open spec fn empty_param_v() -> ParamV {
    ParamV {
        name: Seq::empty(),
        unit: Seq::empty(),
        value: Seq::empty(),
        id: Seq::empty(),
        value_id: Seq::empty(),
    }
}

impl Default for Param {
    fn default() -> (r: Param)
        ensures
            r.deep_view() == empty_param_v(),
    {
        Param {
            name: String::new(),
            unit: String::new(),
            value: String::new(),
            id: String::new(),
            value_id: String::new(),
        }
    }
}

/// The offer's second-hand condition: `kind` is the `type` attribute of the
/// dialect, `reason` the text of the nested `reason` tag.
#[derive(Debug, Clone, PartialEq)]
pub struct Condition {
    pub kind: String,
    pub reason: String,
}

pub struct ConditionV {
    pub kind: Seq<char>,
    pub reason: Seq<char>,
}

impl DeepView for Condition {
    type V = ConditionV;

    open spec fn deep_view(&self) -> ConditionV {
        ConditionV { kind: self.kind.deep_view(), reason: self.reason.deep_view() }
    }
}

pub open spec fn empty_condition_v() -> ConditionV {
    ConditionV { kind: Seq::empty(), reason: Seq::empty() }
}

impl Default for Condition {
    fn default() -> (r: Condition)
        ensures
            r.deep_view() == empty_condition_v(),
    {
        Condition { kind: String::new(), reason: String::new() }
    }
}

/// One offer of the feed. `kind` holds the dialect's `type` attribute.
/// Decimal fields (`weight`, `min_quantity`, and the prices) keep their
/// validated source text.
#[derive(Debug, Clone, PartialEq)]
pub struct Offer {
    pub id: String,
    pub kind: String,
    pub bid: u64,
    pub cbid: u64,
    pub available: Option<bool>,
    pub name: String,
    pub vendor: String,
    pub vendor_code: String,
    pub url: String,
    pub picture: String,
    pub price: Option<Price>,
    pub old_price: Option<Price>,
    pub currency_id: String,
    pub category_id: u64,
    pub description: String,
    pub sales_notes: String,
    pub delivery: Option<bool>,
    pub pickup: Option<bool>,
    pub store: Option<bool>,
    pub downloadable: bool,
    pub enable_auto_discounts: bool,
    pub manufacturer_warranty: bool,
    pub min_quantity: Option<String>,
    pub country_of_origin: String,
    pub weight: String,
    pub dimensions: String,
    pub credit_template_id: String,
    pub barcodes: Vec<String>,
    pub params: Vec<Param>,
    pub condition: Option<Condition>,
    pub delivery_options: Vec<DeliveryOption>,
    pub pickup_options: Vec<DeliveryOption>,
}

pub struct OfferV {
    pub id: Seq<char>,
    pub kind: Seq<char>,
    pub bid: u64,
    pub cbid: u64,
    pub available: Option<bool>,
    pub name: Seq<char>,
    pub vendor: Seq<char>,
    pub vendor_code: Seq<char>,
    pub url: Seq<char>,
    pub picture: Seq<char>,
    pub price: Option<PriceV>,
    pub old_price: Option<PriceV>,
    pub currency_id: Seq<char>,
    pub category_id: u64,
    pub description: Seq<char>,
    pub sales_notes: Seq<char>,
    pub delivery: Option<bool>,
    pub pickup: Option<bool>,
    pub store: Option<bool>,
    pub downloadable: bool,
    pub enable_auto_discounts: bool,
    pub manufacturer_warranty: bool,
    pub min_quantity: Option<Seq<char>>,
    pub country_of_origin: Seq<char>,
    pub weight: Seq<char>,
    pub dimensions: Seq<char>,
    pub credit_template_id: Seq<char>,
    pub barcodes: Seq<Seq<char>>,
    pub params: Seq<ParamV>,
    pub condition: Option<ConditionV>,
    pub delivery_options: Seq<DeliveryOptionV>,
    pub pickup_options: Seq<DeliveryOptionV>,
}

impl DeepView for Offer {
    type V = OfferV;

    open spec fn deep_view(&self) -> OfferV {
        OfferV {
            id: self.id.deep_view(),
            kind: self.kind.deep_view(),
            bid: self.bid,
            cbid: self.cbid,
            available: self.available,
            name: self.name.deep_view(),
            vendor: self.vendor.deep_view(),
            vendor_code: self.vendor_code.deep_view(),
            url: self.url.deep_view(),
            picture: self.picture.deep_view(),
            price: self.price.deep_view(),
            old_price: self.old_price.deep_view(),
            currency_id: self.currency_id.deep_view(),
            category_id: self.category_id,
            description: self.description.deep_view(),
            sales_notes: self.sales_notes.deep_view(),
            delivery: self.delivery,
            pickup: self.pickup,
            store: self.store,
            downloadable: self.downloadable,
            enable_auto_discounts: self.enable_auto_discounts,
            manufacturer_warranty: self.manufacturer_warranty,
            min_quantity: self.min_quantity.deep_view(),
            country_of_origin: self.country_of_origin.deep_view(),
            weight: self.weight.deep_view(),
            dimensions: self.dimensions.deep_view(),
            credit_template_id: self.credit_template_id.deep_view(),
            barcodes: self.barcodes.deep_view(),
            params: self.params.deep_view(),
            condition: self.condition.deep_view(),
            delivery_options: self.delivery_options.deep_view(),
            pickup_options: self.pickup_options.deep_view(),
        }
    }
}

pub open spec fn empty_offer_v() -> OfferV {
    OfferV {
        id: Seq::empty(),
        kind: Seq::empty(),
        bid: 0,
        cbid: 0,
        available: None,
        name: Seq::empty(),
        vendor: Seq::empty(),
        vendor_code: Seq::empty(),
        url: Seq::empty(),
        picture: Seq::empty(),
        price: None,
        old_price: None,
        currency_id: Seq::empty(),
        category_id: 0,
        description: Seq::empty(),
        sales_notes: Seq::empty(),
        delivery: None,
        pickup: None,
        store: None,
        downloadable: false,
        enable_auto_discounts: false,
        manufacturer_warranty: false,
        min_quantity: None,
        country_of_origin: Seq::empty(),
        weight: Seq::empty(),
        dimensions: Seq::empty(),
        credit_template_id: Seq::empty(),
        barcodes: Seq::empty(),
        params: Seq::empty(),
        condition: None,
        delivery_options: Seq::empty(),
        pickup_options: Seq::empty(),
    }
}

impl Default for Offer {
    fn default() -> (r: Offer)
        ensures
            r.deep_view() == empty_offer_v(),
    {
        let r = Offer {
            id: String::new(),
            kind: String::new(),
            bid: 0,
            cbid: 0,
            available: None,
            name: String::new(),
            vendor: String::new(),
            vendor_code: String::new(),
            url: String::new(),
            picture: String::new(),
            price: None,
            old_price: None,
            currency_id: String::new(),
            category_id: 0,
            description: String::new(),
            sales_notes: String::new(),
            delivery: None,
            pickup: None,
            store: None,
            downloadable: false,
            enable_auto_discounts: false,
            manufacturer_warranty: false,
            min_quantity: None,
            country_of_origin: String::new(),
            weight: String::new(),
            dimensions: String::new(),
            credit_template_id: String::new(),
            barcodes: Vec::new(),
            params: Vec::new(),
            condition: None,
            delivery_options: Vec::new(),
            pickup_options: Vec::new(),
        };
        proof {
            assert(r.deep_view().barcodes =~= empty_offer_v().barcodes);
            assert(r.deep_view().params =~= empty_offer_v().params);
            assert(r.deep_view().delivery_options =~= empty_offer_v().delivery_options);
            assert(r.deep_view().pickup_options =~= empty_offer_v().pickup_options);
        }
        r
    }
}

/// The shop header: scalar fields plus the three ordered lists accumulated
/// from the shop scope.
#[derive(Debug, Clone, PartialEq)]
pub struct Shop {
    pub name: String,
    pub company: String,
    pub url: String,
    pub currencies: Vec<Currency>,
    pub categories: Vec<Category>,
    pub delivery_options: Vec<DeliveryOption>,
}

pub struct ShopV {
    pub name: Seq<char>,
    pub company: Seq<char>,
    pub url: Seq<char>,
    pub currencies: Seq<CurrencyV>,
    pub categories: Seq<CategoryV>,
    pub delivery_options: Seq<DeliveryOptionV>,
}

impl DeepView for Shop {
    type V = ShopV;

    open spec fn deep_view(&self) -> ShopV {
        ShopV {
            name: self.name.deep_view(),
            company: self.company.deep_view(),
            url: self.url.deep_view(),
            currencies: self.currencies.deep_view(),
            categories: self.categories.deep_view(),
            delivery_options: self.delivery_options.deep_view(),
        }
    }
}

pub open spec fn empty_shop_v() -> ShopV {
    ShopV {
        name: Seq::empty(),
        company: Seq::empty(),
        url: Seq::empty(),
        currencies: Seq::empty(),
        categories: Seq::empty(),
        delivery_options: Seq::empty(),
    }
}

impl Default for Shop {
    fn default() -> (r: Shop)
        ensures
            r.deep_view() == empty_shop_v(),
    {
        let r = Shop {
            name: String::new(),
            company: String::new(),
            url: String::new(),
            currencies: Vec::new(),
            categories: Vec::new(),
            delivery_options: Vec::new(),
        };
        proof {
            assert(r.deep_view().currencies =~= empty_shop_v().currencies);
            assert(r.deep_view().categories =~= empty_shop_v().categories);
            assert(r.deep_view().delivery_options =~= empty_shop_v().delivery_options);
        }
        r
    }
}

/// The catalog header: the root tag's `date` attribute and the shop, once
/// one has been seen.
#[derive(Debug, Clone, PartialEq)]
pub struct YmlCatalog {
    pub date: String,
    pub shop: Option<Shop>,
}

pub struct YmlCatalogV {
    pub date: Seq<char>,
    pub shop: Option<ShopV>,
}

impl DeepView for YmlCatalog {
    type V = YmlCatalogV;

    open spec fn deep_view(&self) -> YmlCatalogV {
        YmlCatalogV { date: self.date.deep_view(), shop: self.shop.deep_view() }
    }
}

pub open spec fn empty_catalog_v() -> YmlCatalogV {
    YmlCatalogV { date: Seq::empty(), shop: None }
}

impl Default for YmlCatalog {
    fn default() -> (r: YmlCatalog)
        ensures
            r.deep_view() == empty_catalog_v(),
    {
        YmlCatalog { date: String::new(), shop: None }
    }
}

/// One completed parse result: an offer, the catalog header, or the
/// end-of-stream marker.
#[derive(Debug, Clone, PartialEq)]
pub enum ParsedItem {
    Offer(Offer),
    YmlCatalog(YmlCatalog),
    Eof,
}

pub enum ParsedItemV {
    Offer(OfferV),
    YmlCatalog(YmlCatalogV),
    Eof,
}

impl DeepView for ParsedItem {
    type V = ParsedItemV;

    open spec fn deep_view(&self) -> ParsedItemV {
        match self {
            ParsedItem::Offer(o) => ParsedItemV::Offer(o.deep_view()),
            ParsedItem::YmlCatalog(c) => ParsedItemV::YmlCatalog(c.deep_view()),
            ParsedItem::Eof => ParsedItemV::Eof,
        }
    }
}

/// The closed set of parse failures. `Xml` wraps the tokenizer's own
/// well-formedness failures and is fatal to the whole stream; the others are
/// recoverable at record granularity. Every variant carries the position at
/// the moment of failure; `UnexpectedTag` and `Validation` also carry the
/// offending literal.
#[derive(Debug, Clone, PartialEq)]
pub enum MarketXmlError {
    Xml { msg: String, line: u64, column: u64 },
    UnexpectedTag { tag: String, line: u64, column: u64 },
    InvalidUtf8 { line: u64, column: u64 },
    Validation { msg: String, line: u64, column: u64, value: String },
}

pub enum MarketXmlErrorV {
    Xml { msg: Seq<char>, line: u64, column: u64 },
    UnexpectedTag { tag: Seq<char>, line: u64, column: u64 },
    InvalidUtf8 { line: u64, column: u64 },
    Validation { msg: Seq<char>, line: u64, column: u64, value: Seq<char> },
}

impl DeepView for MarketXmlError {
    type V = MarketXmlErrorV;

    open spec fn deep_view(&self) -> MarketXmlErrorV {
        match self {
            MarketXmlError::Xml { msg, line, column } => MarketXmlErrorV::Xml {
                msg: msg.deep_view(),
                line: *line,
                column: *column,
            },
            MarketXmlError::UnexpectedTag { tag, line, column } => MarketXmlErrorV::UnexpectedTag {
                tag: tag.deep_view(),
                line: *line,
                column: *column,
            },
            MarketXmlError::InvalidUtf8 { line, column } => MarketXmlErrorV::InvalidUtf8 {
                line: *line,
                column: *column,
            },
            MarketXmlError::Validation { msg, line, column, value } => MarketXmlErrorV::Validation {
                msg: msg.deep_view(),
                line: *line,
                column: *column,
                value: value.deep_view(),
            },
        }
    }
}

impl MarketXmlError {
    /// True exactly for the fatal, stream-terminating kind.
    pub open spec fn spec_is_fatal(&self) -> bool {
        self matches MarketXmlError::Xml { .. }
    }

    /// Whether this failure terminates the whole parse.
    pub fn is_fatal(&self) -> (r: bool)
        ensures
            r == self.spec_is_fatal(),
    {
        matches!(self, MarketXmlError::Xml { .. })
    }

    /// The line at the moment of failure.
    pub fn line(&self) -> (r: u64)
        ensures
            r == match self.deep_view() {
                MarketXmlErrorV::Xml { line, .. } => line,
                MarketXmlErrorV::UnexpectedTag { line, .. } => line,
                MarketXmlErrorV::InvalidUtf8 { line, .. } => line,
                MarketXmlErrorV::Validation { line, .. } => line,
            },
    {
        match self {
            MarketXmlError::Xml { line, .. } => *line,
            MarketXmlError::UnexpectedTag { line, .. } => *line,
            MarketXmlError::InvalidUtf8 { line, .. } => *line,
            MarketXmlError::Validation { line, .. } => *line,
        }
    }

    /// The column at the moment of failure.
    pub fn column(&self) -> (r: u64)
        ensures
            r == match self.deep_view() {
                MarketXmlErrorV::Xml { column, .. } => column,
                MarketXmlErrorV::UnexpectedTag { column, .. } => column,
                MarketXmlErrorV::InvalidUtf8 { column, .. } => column,
                MarketXmlErrorV::Validation { column, .. } => column,
            },
    {
        match self {
            MarketXmlError::Xml { column, .. } => *column,
            MarketXmlError::UnexpectedTag { column, .. } => *column,
            MarketXmlError::InvalidUtf8 { column, .. } => *column,
            MarketXmlError::Validation { column, .. } => *column,
        }
    }

    /// The offending literal, where one applies.
    pub fn value(&self) -> (r: Option<&String>)
        ensures
            match self.deep_view() {
                MarketXmlErrorV::UnexpectedTag { tag, .. } => r is Some && r.unwrap().deep_view()
                    == tag,
                MarketXmlErrorV::Validation { value, .. } => r is Some && r.unwrap().deep_view()
                    == value,
                _ => r is None,
            },
    {
        match self {
            MarketXmlError::Xml { .. } => None,
            MarketXmlError::UnexpectedTag { tag, .. } => Some(tag),
            MarketXmlError::InvalidUtf8 { .. } => None,
            MarketXmlError::Validation { value, .. } => Some(value),
        }
    }

    /// A human-readable description of the failure.
    pub fn message(&self) -> (r: String)
        ensures
            match self.deep_view() {
                MarketXmlErrorV::Xml { msg, .. } => r.deep_view() == msg,
                MarketXmlErrorV::Validation { msg, .. } => r.deep_view() == msg,
                _ => true,
            },
    {
        match self {
            MarketXmlError::Xml { msg, .. } => msg.clone(),
            MarketXmlError::UnexpectedTag { .. } => String::from_str("unexpected tag"),
            MarketXmlError::InvalidUtf8 { .. } => String::from_str("invalid utf-8"),
            MarketXmlError::Validation { msg, .. } => msg.clone(),
        }
    }
}

/// Parser configuration; `offer_tags` lists the tag names recognized as one
/// offer record.
#[derive(Debug, Clone, PartialEq)]
pub struct MarketXmlConfig {
    pub offer_tags: Vec<Vec<u8>>,
}

impl Default for MarketXmlConfig {
    fn default() -> (r: MarketXmlConfig)
        ensures
            r.offer_tags.deep_view().len() == 1,
    {
        let mut tag: Vec<u8> = Vec::new();
        tag.push(111);
        tag.push(102);
        tag.push(102);
        tag.push(101);
        tag.push(114);
        let mut offer_tags: Vec<Vec<u8>> = Vec::new();
        offer_tags.push(tag);
        MarketXmlConfig { offer_tags }
    }
}

} // verus!
