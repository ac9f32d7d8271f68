use bevyex_lib::builder::{extract_css, parse_html_elements, HtmlCssUIBuilder};
use bevyex_lib::cascade::{
    compute_element_styles, convert_css_to_bevy_style, extract_background_color,
    extract_border_radius, extract_font_size, extract_text_color,
};
use bevyex_lib::element::UIElement;
use bevyex_lib::parser::parse_stylesheet;
use bevyex_lib::rules::CssRules;
use bevyex_lib::types::{
    AlignItems, CssColor, DisplayMode, FlexDirection, Length, Number, Rgba, StyleProperties,
};

fn px(v: f32) -> Length {
    Length::Px(Number { bits: v.to_bits() })
}

fn sheet(css: &str) -> CssRules {
    let mut rules = CssRules::new();
    parse_stylesheet(css, &mut rules);
    rules
}

fn styles(rules: &CssRules, tag: &str, id: Option<&str>, classes: &[&str]) -> StyleProperties {
    let classes: Vec<String> = classes.iter().map(|c| c.to_string()).collect();
    compute_element_styles(&tag.to_string(), &id.map(|s| s.to_string()), &classes, rules)
}

#[test]
fn id_beats_class_beats_tag() {
    let rules = sheet("div { width: 100px; } .box { width: 200px; } #main { width: 300px; }");
    assert_eq!(styles(&rules, "div", Some("main"), &["box"]).width, Some(px(300.0)));
    assert_eq!(styles(&rules, "div", None, &["box"]).width, Some(px(200.0)));
    assert_eq!(styles(&rules, "div", None, &[]).width, Some(px(100.0)));
}

#[test]
fn later_class_beats_earlier_class() {
    let rules = sheet(".a { width: 1px; } .b { width: 2px; }");
    assert_eq!(styles(&rules, "p", None, &["a", "b"]).width, Some(px(2.0)));
    assert_eq!(styles(&rules, "p", None, &["b", "a"]).width, Some(px(1.0)));
}

#[test]
fn unset_slots_do_not_clobber() {
    let rules = sheet("div { color: red; } .box { width: 10px; }");
    let p = styles(&rules, "div", None, &["box"]);
    assert_eq!(p.color, Some(CssColor::Red));
    assert_eq!(p.width, Some(px(10.0)));
}

#[test]
fn defaults_fill_unset_slots() {
    let p = StyleProperties::default();
    let s = convert_css_to_bevy_style(&p);
    assert_eq!(s.display, DisplayMode::Flex);
    assert_eq!(s.flex_direction, FlexDirection::Row);
    assert_eq!(s.align_items, AlignItems::Stretch);
    assert_eq!(s.width, Length::Auto);
    assert_eq!(s.margin.top, Length::Undefined);
    assert_eq!(extract_background_color(&p), Rgba { red: 0, green: 0, blue: 0, alpha: 0 });
    assert_eq!(extract_text_color(&p), Rgba { red: 0, green: 0, blue: 0, alpha: 255 });
    assert_eq!(extract_font_size(&p), px(16.0));
    assert_eq!(extract_border_radius(&p).top_left, px(0.0));
}

#[test]
fn set_slots_reach_the_computed_style() {
    let rules = sheet("p { width: 50%; flex-direction: column; color: blue; background-color: #00ff00; font-size: 24px; }");
    let p = styles(&rules, "p", None, &[]);
    let s = convert_css_to_bevy_style(&p);
    assert_eq!(s.width, Length::Percent(Number { bits: 0.5f32.to_bits() }));
    assert_eq!(s.flex_direction, FlexDirection::Column);
    assert_eq!(extract_text_color(&p), Rgba { red: 0, green: 0, blue: 255, alpha: 255 });
    assert_eq!(extract_background_color(&p), Rgba { red: 0, green: 255, blue: 0, alpha: 255 });
    assert_eq!(extract_font_size(&p), px(24.0));
}

const PAGE: &str = r#"<html><head><style>
  div { width: 100px; }
  .box { width: 200px; }
  #main { width: 300px; background-color: white; }
</style></head>
<body>
  <div id="main" class="box card">Hello <span>inner</span> world
    <p class="box">para</p>
  </div>
  <div class="box">second</div>
</body></html>"#;

fn same_tree(a: &UIElement, b: &UIElement) -> bool {
    a.tag == b.tag
        && a.id == b.id
        && a.classes == b.classes
        && a.text == b.text
        && a.computed_style == b.computed_style
        && a.background_color == b.background_color
        && a.children.len() == b.children.len()
        && a.children.iter().zip(b.children.iter()).all(|(x, y)| same_tree(x, y))
}

#[test]
fn building_twice_gives_equal_trees() {
    let first = HtmlCssUIBuilder::new().parse_and_build(PAGE);
    let second = HtmlCssUIBuilder::new().parse_and_build(PAGE);
    assert_eq!(first.len(), second.len());
    assert!(first.iter().zip(second.iter()).all(|(x, y)| same_tree(x, y)));
}

#[test]
fn tree_mirrors_the_document() {
    let mut builder = HtmlCssUIBuilder::new();
    let tree = builder.parse_and_build(PAGE);
    assert_eq!(builder.stylesheet.rules.len(), 3);
    assert_eq!(tree.len(), 2);
    let main = &tree[0];
    assert_eq!(main.tag, "div");
    assert_eq!(main.id, Some("main".to_string()));
    assert_eq!(main.classes, vec!["box".to_string(), "card".to_string()]);
    assert_eq!(main.text, "Hello  world");
    assert_eq!(main.computed_style.width, px(300.0));
    assert_eq!(main.background_color, Rgba { red: 255, green: 255, blue: 255, alpha: 255 });
    assert_eq!(main.children.len(), 2);
    assert_eq!(main.children[0].tag, "span");
    assert_eq!(main.children[0].text, "inner");
    assert_eq!(main.children[1].tag, "p");
    assert_eq!(main.children[1].computed_style.width, px(200.0));
    let second = &tree[1];
    assert_eq!(second.id, None);
    assert_eq!(second.text, "second");
    assert_eq!(second.computed_style.width, px(200.0));
}

#[test]
fn flat_mode_lists_every_body_element() {
    let mut builder = HtmlCssUIBuilder::new();
    builder.parse_and_build(PAGE);
    let events = bevyex_lib::markup::parse_markup_events(PAGE);
    let flat = parse_html_elements(&events, &builder.stylesheet);
    let tags: Vec<&str> = flat.iter().map(|e| e.tag.as_str()).collect();
    assert_eq!(tags, vec!["div", "span", "p", "div"]);
    assert!(flat.iter().all(|e| e.children.is_empty()));
    assert!(flat[0].text.starts_with("Hello inner world"));
    assert!(flat[0].text.ends_with("para"));
}

#[test]
fn style_elements_become_the_sheet() {
    let events = bevyex_lib::markup::parse_markup_events("<style>a{}</style><style>b{}</style><p>x</p>");
    assert_eq!(extract_css(&events), "a{}\nb{}\n");
}

#[test]
fn document_without_body_content_gives_no_elements() {
    let tree = HtmlCssUIBuilder::new().parse_and_build("");
    assert!(tree.is_empty());
}

#[test]
fn font_size_not_in_pixels_falls_back_to_sixteen() {
    let rules = sheet("p { font-size: 50%; } h1 { font-size: auto; } h2 { font-size: 2em; }");
    for tag in ["p", "h1", "h2", "span"] {
        assert_eq!(extract_font_size(&styles(&rules, tag, None, &[])), px(16.0));
    }
}
