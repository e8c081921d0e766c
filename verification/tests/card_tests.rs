use feishu_sdk::feishu_card::{
    FeishuCardBuilder, FeishuCardConfigBuilder, FeishuCardElement, FeishuCardHeader,
    FeishuCardLanguage, FeishuCardWidthMode,
};

#[test]
fn new_builder_prepares_the_default_language() {
    let b = FeishuCardBuilder::new();
    let card = b.build();
    let headers = card.i18n_header.unwrap();
    assert_eq!(headers.len(), 1);
    assert_eq!(headers[0].0, FeishuCardLanguage::ZhCN);
    assert!(headers[0].1.title.is_none());
    let elements = card.i18n_elements.unwrap();
    assert_eq!(elements.len(), 1);
    assert_eq!(elements[0].0, FeishuCardLanguage::ZhCN);
    assert!(elements[0].1.is_empty());
}

#[test]
fn parse_language_tags() {
    assert_eq!(
        FeishuCardLanguage::from_str("zh_cn").unwrap(),
        FeishuCardLanguage::ZhCN
    );
    assert_eq!(
        FeishuCardLanguage::from_str("en_us").unwrap(),
        FeishuCardLanguage::EnUS
    );
    assert_eq!(
        FeishuCardLanguage::from_str("ja_jp").unwrap(),
        FeishuCardLanguage::JaJP
    );
    assert_eq!(
        FeishuCardLanguage::from_str("zh_hk").unwrap(),
        FeishuCardLanguage::ZhHK
    );
    assert_eq!(
        FeishuCardLanguage::from_str("zh_tw").unwrap(),
        FeishuCardLanguage::ZhTW
    );
    let err = FeishuCardLanguage::from_str("fr_fr").unwrap_err();
    assert_eq!(err, "unknown language: fr_fr");
}

#[test]
fn push_element_appends_under_the_current_language() {
    let card = FeishuCardBuilder::new()
        .push_element(FeishuCardElement::Hr)
        .push_element(FeishuCardElement::Markdown("**bold**".to_string()))
        .build();
    let elements = card.i18n_elements.unwrap();
    assert_eq!(elements.len(), 1);
    let (lang, items) = &elements[0];
    assert_eq!(*lang, FeishuCardLanguage::ZhCN);
    assert_eq!(items.len(), 2);
    assert!(matches!(items[0], FeishuCardElement::Hr));
    match &items[1] {
        FeishuCardElement::Markdown(text) => assert_eq!(text, "**bold**"),
        _ => panic!("expected markdown"),
    }
}

#[test]
fn push_language_element_creates_the_language_entry() {
    let card = FeishuCardBuilder::new()
        .push_language_element("en_us", FeishuCardElement::Div)
        .build();
    let elements = card.i18n_elements.unwrap();
    assert_eq!(elements.len(), 2);
    let en = elements
        .iter()
        .find(|(l, _)| *l == FeishuCardLanguage::EnUS)
        .unwrap();
    assert_eq!(en.1.len(), 1);
    assert!(matches!(en.1[0], FeishuCardElement::Div));
}

#[test]
fn current_language_switches_the_target() {
    let card = FeishuCardBuilder::new()
        .current_language("ja_jp")
        .push_element(FeishuCardElement::Note)
        .build();
    let elements = card.i18n_elements.unwrap();
    let ja = elements
        .iter()
        .find(|(l, _)| *l == FeishuCardLanguage::JaJP)
        .unwrap();
    assert_eq!(ja.1.len(), 1);
}

#[test]
fn add_language_leaves_the_builder_unchanged() {
    let card = FeishuCardBuilder::new().add_language("en_us").build();
    assert_eq!(card.i18n_elements.unwrap().len(), 1);
    assert_eq!(card.i18n_header.unwrap().len(), 1);
}

#[test]
fn header_replaces_the_current_language_entry() {
    let header = FeishuCardHeader::default();
    let card = FeishuCardBuilder::new().header(header).build();
    let headers = card.i18n_header.unwrap();
    assert_eq!(headers.len(), 1);
    assert_eq!(headers[0].0, FeishuCardLanguage::ZhCN);
}

#[test]
fn config_builder_collects_every_flag() {
    let config = FeishuCardConfigBuilder::new()
        .enable_forward(true)
        .update_multi(false)
        .width_mode(FeishuCardWidthMode::Fill)
        .use_custom_translation(true)
        .enable_forward_interaction(false)
        .build();
    assert_eq!(config.enable_forward, Some(true));
    assert_eq!(config.update_multi, Some(false));
    assert!(matches!(config.width_mode, Some(FeishuCardWidthMode::Fill)));
    assert_eq!(config.use_custom_translation, Some(true));
    assert_eq!(config.enable_forward_interaction, Some(false));
    assert!(config.style.is_none());

    let card = FeishuCardBuilder::new().config(config).build();
    assert!(card.config.is_some());
}
