use bevyex_lib::cascade::css_color_to_bevy_color;
use bevyex_lib::lexer::{tokenize, CssToken};
use bevyex_lib::parser::{
    parse_color, parse_rule, parse_stylesheet, parse_ui_rect, parse_value, ParseErrorKind,
};
use bevyex_lib::rules::CssRules;
use bevyex_lib::types::{
    AlignItems, BorderRadius, CssColor, Declaration, Direction, DisplayMode, FlexDirection,
    Length, Number, Rgba, StyleProperties, UiRect,
};

fn px(v: f32) -> Length {
    Length::Px(Number { bits: v.to_bits() })
}

fn sheet(css: &str) -> CssRules {
    let mut rules = CssRules::new();
    parse_stylesheet(css, &mut rules);
    rules
}

fn rule(rules: &CssRules, sel: &str) -> StyleProperties {
    rules.get(&sel.to_string()).expect("selector present").clone()
}

#[test]
fn parsing_twice_gives_the_same_table() {
    let css = "div { width: 100px; color: red; } .box { padding: 1px 2px; } #main { display: none; }";
    let a = sheet(css);
    let b = sheet(css);
    assert_eq!(a.rules.len(), 3);
    assert_eq!(a.rules.len(), b.rules.len());
    for (x, y) in a.rules.iter().zip(b.rules.iter()) {
        assert_eq!(x.selector, y.selector);
        assert_eq!(x.properties, y.properties);
    }
}

#[test]
fn padding_with_one_value_sets_all_edges() {
    let p = rule(&sheet("div { padding: 10px; }"), "div");
    assert_eq!(p.padding, Some(UiRect { left: px(10.0), right: px(10.0), top: px(10.0), bottom: px(10.0) }));
}

#[test]
fn margin_with_two_values() {
    let p = rule(&sheet("div { margin: 10px 20px; }"), "div");
    assert_eq!(p.margin, Some(UiRect { left: px(20.0), right: px(20.0), top: px(10.0), bottom: px(10.0) }));
}

#[test]
fn border_with_three_values() {
    let p = rule(&sheet("div { border: 1px 2px 3px; }"), "div");
    assert_eq!(p.border, Some(UiRect { left: px(2.0), right: px(2.0), top: px(1.0), bottom: px(3.0) }));
}

#[test]
fn padding_with_four_values() {
    let p = rule(&sheet("div { padding: 1px 2px 3px 4px; }"), "div");
    assert_eq!(p.padding, Some(UiRect { left: px(4.0), right: px(2.0), top: px(1.0), bottom: px(3.0) }));
}

#[test]
fn six_digit_hash_is_opaque_color() {
    let p = rule(&sheet("div { background-color: #ff0000; }"), "div");
    let c = p.background_color.expect("set");
    assert_eq!(c, CssColor::Hex(Rgba { red: 255, green: 0, blue: 0, alpha: 255 }));
    let ch = css_color_to_bevy_color(&c);
    assert_eq!(ch.red as f32 / 255.0, 1.0);
    assert_eq!(ch.green as f32 / 255.0, 0.0);
    assert_eq!(ch.alpha as f32 / 255.0, 1.0);
}

#[test]
fn eight_digit_hash_carries_alpha() {
    let p = rule(&sheet("div { background-color: #ff000080; }"), "div");
    let ch = css_color_to_bevy_color(&p.background_color.expect("set"));
    assert_eq!(ch.alpha, 128);
    assert!((ch.alpha as f32 / 255.0 - 0.502).abs() < 0.001);
}

#[test]
fn hash_of_three_or_five_digits_is_invalid_and_skipped() {
    for hash in ["#f00", "#ff000"] {
        let toks = tokenize(hash);
        let e = parse_color(&toks, 0).unwrap_err();
        assert_eq!(e.kind, ParseErrorKind::InvalidToken);
        let css = format!("div {{ background-color: {}; width: 5px; }}", hash);
        let p = rule(&sheet(&css), "div");
        assert_eq!(p.background_color, None);
        assert_eq!(p.width, Some(px(5.0)));
    }
}

#[test]
fn malformed_first_declaration_keeps_the_rest() {
    let p = rule(&sheet("div { color: #zzz; width: 10px; }"), "div");
    assert_eq!(p.width, Some(px(10.0)));
    assert_eq!(p.color, None);
}

#[test]
fn unknown_property_is_tolerated() {
    let p = rule(&sheet("div { unknown-prop: whatever; width: 50px; }"), "div");
    assert_eq!(p.width, Some(px(50.0)));
}

#[test]
fn value_decoder_outcomes() {
    let toks = tokenize("12px 50% 7 auto undefined 3em bogus {");
    let (v, p) = parse_value(&toks, 0).unwrap();
    assert_eq!(v, px(12.0));
    let (v, p) = parse_value(&toks, p).unwrap();
    assert_eq!(v, Length::Percent(Number { bits: 0.5f32.to_bits() }));
    let (v, p) = parse_value(&toks, p).unwrap();
    assert_eq!(v, px(7.0));
    let (v, p) = parse_value(&toks, p).unwrap();
    assert_eq!(v, Length::Auto);
    let (v, p) = parse_value(&toks, p).unwrap();
    assert_eq!(v, Length::Undefined);
    let e = parse_value(&toks, p).unwrap_err();
    assert_eq!(e.kind, ParseErrorKind::InvalidToken);
    let e = parse_value(&toks, e.position + 1).unwrap_err();
    assert_eq!(e.kind, ParseErrorKind::InvalidToken);
    let e = parse_value(&toks, e.position + 1).unwrap_err();
    assert_eq!(e.kind, ParseErrorKind::UnexpectedToken);
    let e = parse_value(&toks, toks.len()).unwrap_err();
    assert_eq!(e.kind, ParseErrorKind::EndOfInput);
}

#[test]
fn rect_stops_before_a_non_length() {
    let toks = tokenize("1px 2px ;");
    let (r, end) = parse_ui_rect(&toks, 0).unwrap();
    assert_eq!(r, UiRect { left: px(2.0), right: px(2.0), top: px(1.0), bottom: px(1.0) });
    assert_eq!(toks[end].text, " ");
}

#[test]
fn declaration_parser_outcomes() {
    let toks = tokenize("display: flex");
    assert_eq!(parse_rule(&toks, 0).unwrap().0, Some(Declaration::Display(DisplayMode::Flex)));
    let toks = tokenize("other: 1px");
    assert_eq!(parse_rule(&toks, 0).unwrap().0, None);
    let toks = tokenize("display 1px");
    assert_eq!(parse_rule(&toks, 0).unwrap_err().kind, ParseErrorKind::UnexpectedToken);
    let toks = tokenize("display: grid");
    assert_eq!(parse_rule(&toks, 0).unwrap_err().kind, ParseErrorKind::InvalidToken);
    let toks = tokenize("display:");
    assert_eq!(parse_rule(&toks, 0).unwrap_err().kind, ParseErrorKind::EndOfInput);
}

#[test]
fn tokenizer_reports_kinds_and_text() {
    let toks = tokenize("a{width:10px}");
    assert_eq!(toks.len(), 6);
    assert_eq!(toks[0].token, CssToken::Ident("a".to_string()));
    assert_eq!(toks[1].text, "{");
    assert_eq!(toks[2].token, CssToken::Ident("width".to_string()));
    assert_eq!(toks[3].text, ":");
    assert_eq!(toks[4].token, CssToken::Dimension(10.0f32.to_bits(), "px".to_string()));
    assert_eq!(toks[5].text, "}");
}

#[test]
fn selectors_keep_their_prefix() {
    let rules = sheet(".container { width: 1px; } #main { width: 2px; } .button:hover { width: 3px; } div { width: 4px; }");
    assert_eq!(rule(&rules, ".container").width, Some(px(1.0)));
    assert_eq!(rule(&rules, "#main").width, Some(px(2.0)));
    assert_eq!(rule(&rules, ".button:hover").width, Some(px(3.0)));
    assert_eq!(rule(&rules, "div").width, Some(px(4.0)));
}

#[test]
fn repeated_selector_merges_later_wins() {
    let rules = sheet("div { width: 1px; height: 2px; } div { width: 3px; }");
    assert_eq!(rules.rules.len(), 1);
    let p = rule(&rules, "div");
    assert_eq!(p.width, Some(px(3.0)));
    assert_eq!(p.height, Some(px(2.0)));
}

#[test]
fn at_rules_and_comments_are_skipped() {
    let rules = sheet("@import url(x.css) { } /* note */ p { /* c */ width /* d */ : 4px; }");
    assert_eq!(rules.rules.len(), 1);
    assert_eq!(rule(&rules, "p").width, Some(px(4.0)));
}

#[test]
fn keywords_ignore_ascii_case() {
    let p = rule(&sheet("div { DISPLAY: None; Flex-Direction: COLUMN; align-items: center; direction: rtl; }"), "div");
    assert_eq!(p.display, Some(DisplayMode::Hidden));
    assert_eq!(p.flex_direction, Some(FlexDirection::Column));
    assert_eq!(p.align_items, Some(AlignItems::Center));
    assert_eq!(p.direction, Some(Direction::RightToLeft));
}

#[test]
fn other_value_kinds() {
    let p = rule(
        &sheet("div { aspect-ratio: 1.5; custom-property: \"hello\"; border-radius: 1px 2px; color: white; font-size: 20px; }"),
        "div",
    );
    assert_eq!(p.aspect_ratio, Some(Number { bits: 1.5f32.to_bits() }));
    assert_eq!(p.custom_property, Some("hello".to_string()));
    assert_eq!(
        p.border_radius,
        Some(BorderRadius { top_left: px(1.0), top_right: px(2.0), bottom_right: px(1.0), bottom_left: px(2.0) })
    );
    assert_eq!(p.color, Some(CssColor::White));
    assert_eq!(p.font_size, Some(px(20.0)));
}

#[test]
fn empty_sheet_gives_empty_table() {
    assert_eq!(sheet("").rules.len(), 0);
    assert_eq!(sheet("   ;; } ").rules.len(), 0);
}

#[test]
fn selector_whitespace_is_kept_once_and_trimmed() {
    let rules = sheet("div   p /* x */ { width: 1px; } a , b{ width: 2px; }");
    assert_eq!(rule(&rules, "div p").width, Some(px(1.0)));
    assert!(rules.get(&"divp".to_string()).is_none());
    assert_eq!(rule(&rules, "a , b").width, Some(px(2.0)));
}

#[test]
fn closing_brace_where_a_name_is_expected_ends_the_rule() {
    let toks = tokenize("}");
    assert_eq!(parse_rule(&toks, 0), Ok((None, 1)));
}

#[test]
fn unknown_property_is_skipped_by_the_declaration_parser() {
    let toks = tokenize("unknown-prop: whatever; width: 50px;");
    let (d, end) = parse_rule(&toks, 0).unwrap();
    assert_eq!(d, None);
    assert_eq!(toks[end - 1].text, ";");
    let (d, _) = parse_rule(&toks, end).unwrap();
    assert_eq!(d, Some(Declaration::Width(px(50.0))));
    let toks = tokenize("unknown-prop: whatever }");
    let (_, end) = parse_rule(&toks, 0).unwrap();
    assert_eq!(toks[end].text, "}");
}
