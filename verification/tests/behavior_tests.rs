use market_xml::{
    is_decimal_str, parse_available, parse_bool_text, parse_u64_str, trim_str, MarketXmlConfig,
    MarketXmlError, MarketXmlParser, NumError, ParsedItem,
};

fn parser_for(xml: &str) -> MarketXmlParser {
    MarketXmlParser::new(MarketXmlConfig::default(), xml.as_bytes().to_vec())
}

fn offer_xml(offer_body: &str) -> String {
    format!(
        "<yml_catalog><shop><offers>{}</offers></shop></yml_catalog>",
        offer_body
    )
}

fn first_offer(xml: &str) -> market_xml::Offer {
    let mut parser = parser_for(xml);
    match parser.next_item().unwrap() {
        ParsedItem::Offer(o) => o,
        other => panic!("expected an offer, got {:?}", other),
    }
}

#[test]
fn available_absent_is_unset() {
    let o = first_offer(&offer_xml(r#"<offer id="1"></offer>"#));
    assert_eq!(o.available, None);
}

#[test]
fn available_literals() {
    let o = first_offer(&offer_xml(r#"<offer id="1" available="true"></offer>"#));
    assert_eq!(o.available, Some(true));
    let o = first_offer(&offer_xml(r#"<offer id="1" available="1"></offer>"#));
    assert_eq!(o.available, Some(true));
    let o = first_offer(&offer_xml(r#"<offer id="1" available="false"></offer>"#));
    assert_eq!(o.available, Some(false));
    let o = first_offer(&offer_xml(r#"<offer id="1" available="0"></offer>"#));
    assert_eq!(o.available, Some(false));
    let o = first_offer(&offer_xml(r#"<offer id="1" available=""></offer>"#));
    assert_eq!(o.available, Some(false));
}

#[test]
fn available_bad_literal_is_validation_error() {
    let mut parser = parser_for(&offer_xml(r#"<offer id="1" available="maybe"></offer>"#));
    let e = parser.next_item().unwrap_err();
    match &e {
        MarketXmlError::Validation { value, .. } => assert_eq!(value, "maybe"),
        other => panic!("expected a validation error, got {:?}", other),
    }
    assert!(!e.is_fatal());
    assert_eq!(e.value().map(|s| s.as_str()), Some("maybe"));
}

#[test]
fn order_before_absent_is_unset_not_zero() {
    let o = first_offer(&offer_xml(
        r#"<offer id="1"><delivery-options><option cost="300" days="1"/><option cost="5" days="2" order-before="18"/><option cost="7" days="3" order-before=""/></delivery-options></offer>"#,
    ));
    assert_eq!(o.delivery_options.len(), 3);
    assert_eq!(o.delivery_options[0].order_before, None);
    assert_eq!(o.delivery_options[0].cost, 300);
    assert_eq!(o.delivery_options[1].order_before, Some(18));
    assert_eq!(o.delivery_options[2].order_before, None);
}

#[test]
fn stray_text_inside_option_lists_is_ignored() {
    let o = first_offer(&offer_xml(
        r#"<offer id="1"><delivery-options>stray<option cost="300" days="1"/>more</delivery-options></offer>"#,
    ));
    assert_eq!(o.delivery_options.len(), 1);
    assert_eq!(o.delivery_options[0].cost, 300);
}

#[test]
fn eof_is_terminal_and_idempotent() {
    let mut parser = parser_for("<yml_catalog><shop></shop></yml_catalog>");
    match parser.next_item().unwrap() {
        ParsedItem::YmlCatalog(_) => {},
        other => panic!("expected the catalog header, got {:?}", other),
    }
    assert_eq!(parser.next_item().unwrap(), ParsedItem::Eof);
    let pos = parser.buffer_position();
    assert_eq!(parser.next_item().unwrap(), ParsedItem::Eof);
    assert_eq!(parser.next_item().unwrap(), ParsedItem::Eof);
    assert_eq!(parser.buffer_position(), pos);
}

#[test]
fn malformed_offer_then_good_offer() {
    let body = r#"<offer id="bad"><categoryId>not-a-number</categoryId></offer><offer id="good"><categoryId>7</categoryId></offer>"#;
    let mut parser = parser_for(&offer_xml(body));
    let e = parser.next_item().unwrap_err();
    match &e {
        MarketXmlError::Validation { value, .. } => assert_eq!(value, "not-a-number"),
        other => panic!("expected a validation error, got {:?}", other),
    }
    assert!(!e.is_fatal());
    let o = match parser.next_item().unwrap() {
        ParsedItem::Offer(o) => o,
        other => panic!("expected the second offer, got {:?}", other),
    };
    assert_eq!(&o.id, "good");
    assert_eq!(o.category_id, 7);
    match parser.next_item().unwrap() {
        ParsedItem::YmlCatalog(_) => {},
        other => panic!("expected the catalog header, got {:?}", other),
    }
    assert_eq!(parser.next_item().unwrap(), ParsedItem::Eof);
}

#[test]
fn unexpected_root_tag() {
    let mut parser = parser_for("<catalog></catalog>");
    let e = parser.next_item().unwrap_err();
    match &e {
        MarketXmlError::UnexpectedTag { tag, line, .. } => {
            assert_eq!(tag, "catalog");
            assert_eq!(*line, 1);
        },
        other => panic!("expected an unexpected-tag error, got {:?}", other),
    }
}

#[test]
fn empty_input_is_a_syntax_error() {
    let mut parser = parser_for("");
    let e = parser.next_item().unwrap_err();
    match &e {
        MarketXmlError::Xml { msg, .. } => {
            assert_eq!(msg, "unexpected end of stream: yandex market file")
        },
        other => panic!("expected a stream error, got {:?}", other),
    }
    assert!(e.is_fatal());
    assert_eq!(e.value(), None);
}

#[test]
fn truncated_document_is_a_syntax_error() {
    let mut parser = parser_for("<yml_catalog><shop>");
    match parser.next_item().unwrap_err() {
        MarketXmlError::Xml { msg, .. } => assert_eq!(msg, "unexpected end of stream: shop"),
        other => panic!("expected a stream error, got {:?}", other),
    }
}

#[test]
fn invalid_utf8_attribute_value() {
    let mut input = br#"<yml_catalog><shop><currencies><currency id=""#.to_vec();
    input.push(0xFF);
    input.extend_from_slice(br#""/></currencies></shop></yml_catalog>"#);
    let mut parser = MarketXmlParser::new(MarketXmlConfig::default(), input);
    let e = parser.next_item().unwrap_err();
    match &e {
        MarketXmlError::InvalidUtf8 { line, .. } => assert_eq!(*line, 1),
        other => panic!("expected an encoding error, got {:?}", other),
    }
    assert_eq!(e.value(), None);
}

#[test]
fn invalid_weight_is_validation_error() {
    let mut parser = parser_for(&offer_xml(r#"<offer id="1"><weight>heavy</weight></offer>"#));
    match parser.next_item().unwrap_err() {
        MarketXmlError::Validation { msg, value, .. } => {
            assert_eq!(msg, "invalid float literal");
            assert_eq!(value, "heavy");
        },
        other => panic!("expected a validation error, got {:?}", other),
    }
}

#[test]
fn invalid_bool_is_validation_error() {
    let mut parser = parser_for(&offer_xml(
        r#"<offer id="1"><downloadable>yes</downloadable></offer>"#,
    ));
    match parser.next_item().unwrap_err() {
        MarketXmlError::Validation { msg, value, .. } => {
            assert_eq!(msg, "provided string was not `true` or `false`");
            assert_eq!(value, "yes");
        },
        other => panic!("expected a validation error, got {:?}", other),
    }
}

#[test]
fn empty_optional_bool_is_unset() {
    let o = first_offer(&offer_xml(r#"<offer id="1"><delivery></delivery></offer>"#));
    assert_eq!(o.delivery, None);
}

#[test]
fn price_from_attribute() {
    let o = first_offer(&offer_xml(r#"<offer id="1"><price from="true">100</price></offer>"#));
    let p = o.price.unwrap();
    assert_eq!(p.price, "100");
    assert_eq!(p.from, true);
    let o = first_offer(&offer_xml(r#"<offer id="1"><price from="1">100</price></offer>"#));
    assert_eq!(o.price.unwrap().from, false);
}

#[test]
fn credit_template_without_id_is_empty() {
    let o = first_offer(&offer_xml(r#"<offer id="1"><credit-template/></offer>"#));
    assert_eq!(&o.credit_template_id, "");
}

#[test]
fn offers_keep_document_order() {
    let body = r#"<offer id="a"></offer><offer id="b"></offer><offer id="c"></offer>"#;
    let mut parser = parser_for(&offer_xml(body));
    for expected in ["a", "b", "c"] {
        match parser.next_item().unwrap() {
            ParsedItem::Offer(o) => assert_eq!(o.id, expected),
            other => panic!("expected an offer, got {:?}", other),
        }
    }
}

#[test]
fn currencies_keep_document_order() {
    let xml = r#"<yml_catalog><shop><currencies><currency id="RUR" rate="1"/><currency id="USD" rate="60"/><currency id="EUR" rate="70" plus="2"/></currencies></shop></yml_catalog>"#;
    let mut parser = parser_for(xml);
    let c = match parser.next_item().unwrap() {
        ParsedItem::YmlCatalog(c) => c,
        other => panic!("expected the catalog header, got {:?}", other),
    };
    let ids: Vec<&str> = c.shop.as_ref().unwrap().currencies.iter().map(|c| c.id.as_str()).collect();
    assert_eq!(ids, vec!["RUR", "USD", "EUR"]);
    assert_eq!(c.shop.as_ref().unwrap().currencies[2].plus, "2");
}

#[test]
fn parse_u64_cases() {
    assert_eq!(parse_u64_str("42"), Ok(42));
    assert_eq!(parse_u64_str("+42"), Ok(42));
    assert_eq!(parse_u64_str("0"), Ok(0));
    assert_eq!(parse_u64_str("18446744073709551615"), Ok(u64::MAX));
    assert_eq!(parse_u64_str("18446744073709551616"), Err(NumError::TooLarge));
    assert_eq!(parse_u64_str(""), Err(NumError::Empty));
    assert_eq!(parse_u64_str("+"), Err(NumError::InvalidDigit));
    assert_eq!(parse_u64_str("12x"), Err(NumError::InvalidDigit));
    assert_eq!(parse_u64_str("-3"), Err(NumError::InvalidDigit));
}

#[test]
fn decimal_grammar_cases() {
    assert!(is_decimal_str("3.6"));
    assert!(is_decimal_str("8990"));
    assert!(is_decimal_str("-0.5"));
    assert!(is_decimal_str("+.5"));
    assert!(is_decimal_str("5."));
    assert!(is_decimal_str("1e5"));
    assert!(is_decimal_str("1.25E-3"));
    assert!(!is_decimal_str(""));
    assert!(!is_decimal_str("."));
    assert!(!is_decimal_str("1.2.3"));
    assert!(!is_decimal_str("1e"));
    assert!(!is_decimal_str(".e5"));
    assert!(!is_decimal_str("abc"));
}

#[test]
fn bool_and_available_coercions() {
    assert_eq!(parse_bool_text("true"), Some(true));
    assert_eq!(parse_bool_text("false"), Some(false));
    assert_eq!(parse_bool_text("1"), None);
    assert_eq!(parse_available(b"true"), Some(Some(true)));
    assert_eq!(parse_available(b"1"), Some(Some(true)));
    assert_eq!(parse_available(b"false"), Some(Some(false)));
    assert_eq!(parse_available(b"0"), Some(Some(false)));
    assert_eq!(parse_available(b""), Some(Some(false)));
    assert_eq!(parse_available(b"yes"), None);
}

#[test]
fn trim_keeps_inner_whitespace() {
    assert_eq!(trim_str("  a b\t\n"), "a b");
    assert_eq!(trim_str(""), "");
    assert_eq!(trim_str(" \t "), "");
    assert_eq!(trim_str("\u{a0}\u{2003}x\u{3000}"), "x");
}

#[test]
fn undecodable_root_tag_name_is_reported_lossily() {
    let mut input = b"<r".to_vec();
    input.push(0xFF);
    input.extend_from_slice(b"></r");
    input.push(0xFF);
    input.extend_from_slice(b">");
    let mut parser = MarketXmlParser::new(MarketXmlConfig::default(), input);
    let e = parser.next_item().unwrap_err();
    match &e {
        MarketXmlError::UnexpectedTag { tag, .. } => {
            assert_eq!(tag, "r\u{FFFD}");
        },
        other => panic!("expected an unexpected-tag error, got {:?}", other),
    }
}

#[test]
fn line_and_column_track_consumed_bytes() {
    let mut parser = parser_for("<yml_catalog>\n</yml_catalog>");
    match parser.next_item().unwrap() {
        ParsedItem::YmlCatalog(_) => {},
        other => panic!("expected the catalog header, got {:?}", other),
    }
    assert_eq!(parser.current_line(), 2);
    assert_eq!(parser.current_column(), 14);
    assert_eq!(parser.buffer_position(), 28);
}
