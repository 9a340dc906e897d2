use market_xml::{
    Category, Condition, Currency, DeliveryOption, MarketXmlConfig, MarketXmlParser, Param,
    ParsedItem,
};

#[test]
fn test_parsing_shop() {
    let xml = r#"
        <yml_catalog date="2019-11-01 17:22">
          <shop>
            <name>BestSeller</name>
            <company>Tne Best inc.</company>
            <url>http://best.seller.ru</url>
            <currencies>
              <currency id="RUR" rate="1"/>
              <currency id="USD" rate="60"/>
            </currencies>
            <categories>
              <category id="1">Бытовая техника</category>
              <category id="10" parentId="1">Мелкая техника для кухни</category>
            </categories>
            <delivery-options>
                <option cost="200" days="1"/>
            </delivery-options>
          </shop>
        </yml_catalog>
        "#;
    let mut parser = MarketXmlParser::new(MarketXmlConfig::default(), xml.as_bytes().to_vec());
    let c = match parser.next_item().unwrap() {
        ParsedItem::YmlCatalog(yml_catalog) => yml_catalog,
        _ => panic!("Expected yml_catalog"),
    };
    assert_eq!(parser.current_line(), 19);
    assert_eq!(&c.date, "2019-11-01 17:22");
    let s = c.shop.unwrap();
    assert_eq!(&s.name, "BestSeller");
    assert_eq!(&s.company, "Tne Best inc.");
    assert_eq!(&s.url, "http://best.seller.ru");
    assert_eq!(
        s.currencies,
        vec![
            Currency { id: "RUR".to_string(), rate: "1".to_string(), plus: "".to_string() },
            Currency { id: "USD".to_string(), rate: "60".to_string(), plus: "".to_string() },
        ]
    );
    assert_eq!(
        s.categories,
        vec![
            Category { id: 1, parent_id: 0, name: "Бытовая техника".to_string() },
            Category { id: 10, parent_id: 1, name: "Мелкая техника для кухни".to_string() }
        ]
    );
    assert_eq!(
        s.delivery_options,
        vec![DeliveryOption { cost: 200, days: "1".to_string(), order_before: None }]
    );
}

#[test]
fn test_parsing_simplified_offer() {
    let xml = r#"
        <yml_catalog>
          <shop>
            <name>Хладкомбинат</name>
            <offers>
              <offer id="9012" bid="80">
                <name>Мороженица Brand 3811</name>
                <vendor>Brand</vendor>
                <vendorCode>A1234567B</vendorCode>
                <url>http://best.seller.ru/product_page.asp?pid=12345</url>
                <price>8990</price>
                <oldprice>9990</oldprice>
                <enable_auto_discounts>true</enable_auto_discounts>
                <currencyId>RUR</currencyId>
                <categoryId>101</categoryId>
                <picture>http://best.seller.ru/img/model_12345.jpg</picture>
                <delivery>true</delivery>
                <pickup>true</pickup>
                <delivery-options>
                  <option cost="300" days="1" order-before="18"/>
                </delivery-options>
                <pickup-options>
                  <option cost="300" days="1-3"/>
                </pickup-options>
                <store>true</store>
                <description>
                  <![CDATA[
                    <h3>Мороженица Brand 3811</h3>
                    <p>Это прибор, который придётся по вкусу всем любителям десертов и сладостей, ведь с его помощью вы сможете делать вкусное домашнее мороженое из натуральных ингредиентов.</p>
                  ]]>
                </description>
                <sales_notes>Необходима предоплата.</sales_notes>
                <manufacturer_warranty>true</manufacturer_warranty>
                <country_of_origin>Китай</country_of_origin>
                <barcode>4601546021298</barcode>
                <param name="Цвет">белый</param>
                <condition type="likenew">
                    <reason>Повреждена упаковка</reason>
                </condition>
                <credit-template id="20034"/>
                <weight>3.6</weight>
                <dimensions>20.1/20.551/22.5</dimensions>
              </offer>
            </offers>
          </shop>
        </yml_catalog>
        "#;
    let mut parser = MarketXmlParser::new(MarketXmlConfig::default(), xml.as_bytes().to_vec());
    let o = match parser.next_item().unwrap() {
        ParsedItem::Offer(offer) => offer,
        _ => panic!("Expected offer"),
    };
    assert_eq!(parser.current_line(), 43);
    assert_eq!(&o.id, "9012");
    assert_eq!(o.bid, 80);
    assert_eq!(&o.name, "Мороженица Brand 3811");
    assert_eq!(&o.vendor, "Brand");
    assert_eq!(&o.vendor_code, "A1234567B");
    assert_eq!(&o.url, "http://best.seller.ru/product_page.asp?pid=12345");
    assert_eq!(o.price.clone().unwrap().price.parse::<f32>().unwrap(), 8990.0);
    assert_eq!(o.old_price.clone().unwrap().price.parse::<f32>().unwrap(), 9990.0);
    assert_eq!(o.enable_auto_discounts, true);
    assert_eq!(&o.currency_id, "RUR");
    assert_eq!(o.category_id, 101);
    assert_eq!(&o.picture, "http://best.seller.ru/img/model_12345.jpg");
    assert_eq!(o.delivery, Some(true));
    assert_eq!(o.pickup, Some(true));
    assert_eq!(
        o.delivery_options,
        vec![DeliveryOption { cost: 300, days: "1".to_string(), order_before: Some(18) }]
    );
    assert_eq!(
        o.pickup_options,
        vec![DeliveryOption { cost: 300, days: "1-3".to_string(), order_before: None }]
    );
    assert_eq!(o.store, Some(true));
    assert_eq!(
        &o.description,
        r#"<h3>Мороженица Brand 3811</h3>
                    <p>Это прибор, который придётся по вкусу всем любителям десертов и сладостей, ведь с его помощью вы сможете делать вкусное домашнее мороженое из натуральных ингредиентов.</p>"#
    );
    assert_eq!(&o.sales_notes, "Необходима предоплата.");
    assert_eq!(o.manufacturer_warranty, true);
    assert_eq!(&o.country_of_origin, "Китай");
    assert_eq!(o.barcodes, vec!["4601546021298".to_string()]);
    assert_eq!(
        o.params,
        vec![Param {
            name: "Цвет".to_string(),
            unit: "".to_string(),
            value: "белый".to_string(),
            ..Default::default()
        }]
    );
    assert_eq!(
        o.condition,
        Some(Condition { kind: "likenew".to_string(), reason: "Повреждена упаковка".to_string() })
    );
    assert_eq!(&o.credit_template_id, "20034");
    assert_eq!(o.weight.parse::<f32>().unwrap(), 3.6);
    assert_eq!(&o.dimensions, "20.1/20.551/22.5");

    let c = match parser.next_item().unwrap() {
        ParsedItem::YmlCatalog(yml_catalog) => yml_catalog,
        _ => panic!("Expected yml_catalog"),
    };
    assert_eq!(parser.current_line(), 46);
    assert_eq!(&c.date, "");
    let s = c.shop.unwrap();
    assert_eq!(&s.name, "Хладкомбинат");

    assert_eq!(parser.next_item().unwrap(), ParsedItem::Eof);
}
