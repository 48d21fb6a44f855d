use protomap_tiles::style::{
    boundary_style, carries, decimal_string, style_rule, style_rule_kind, make_style, road_style, Color, StyleRule,
    Symbol, VectorTileStyle,
};

fn props(pairs: &[(&str, &str)]) -> Vec<(String, String)> {
    pairs.iter().map(|(k, v)| (k.to_string(), v.to_string())).collect()
}

fn forest_table() -> VectorTileStyle {
    VectorTileStyle {
        rules: vec![
            style_rule_kind("landcover", "forest", (10, 20, 30, 255)),
            style_rule_kind("landcover", "scrub", (40, 50, 60, 255)),
            style_rule("landcover", (70, 80, 90, 255)),
        ],
        default_symbol: Symbol::Empty,
        background: Color::rgb(0, 0, 0),
    }
}

#[test]
fn specific_rule_wins_over_later_fallback() {
    let style = forest_table();
    let layer = "landcover".to_string();
    let p = props(&[("kind", "forest")]);
    assert_eq!(style.find_rule(&layer, &p), Some(0));
    assert_eq!(
        style.resolve(&layer, &p),
        Symbol::Polygon { fill_color: Color::rgba(10, 20, 30, 255) }
    );
}

#[test]
fn missing_kind_falls_through_to_fallback() {
    let style = forest_table();
    let layer = "landcover".to_string();
    let fallback = Symbol::Polygon { fill_color: Color::rgba(70, 80, 90, 255) };
    assert_eq!(style.resolve(&layer, &props(&[])), fallback);
    assert_eq!(style.resolve(&layer, &props(&[("name", "x")])), fallback);
}

#[test]
fn unmatched_kind_falls_through_to_fallback() {
    let style = forest_table();
    let layer = "landcover".to_string();
    assert_eq!(style.find_rule(&layer, &props(&[("kind", "desert")])), Some(2));
}

#[test]
fn unknown_layer_gets_default_symbol() {
    let style = forest_table();
    assert_eq!(style.find_rule(&"places".to_string(), &props(&[("kind", "forest")])), None);
    assert_eq!(style.resolve(&"places".to_string(), &props(&[("kind", "forest")])), Symbol::Empty);
}

#[test]
fn missing_attribute_never_matches() {
    let rule = style_rule_kind("roads", "highway", (1, 2, 3, 4));
    let layer = "roads".to_string();
    assert!(!rule.matches(&layer, &props(&[])));
    assert!(!rule.matches(&layer, &props(&[("kind_detail", "highway")])));
    assert!(rule.matches(&layer, &props(&[("name", "A1"), ("kind", "highway")])));
}

#[test]
fn earlier_general_rule_shadows_specific_one() {
    let style = VectorTileStyle {
        rules: vec![style_rule("landcover", (1, 1, 1, 255)), style_rule_kind("landcover", "forest", (2, 2, 2, 255))],
        default_symbol: Symbol::Empty,
        background: Color::rgb(0, 0, 0),
    };
    assert_eq!(style.find_rule(&"landcover".to_string(), &props(&[("kind", "forest")])), Some(0));
}

#[test]
fn rule_without_layer_matches_every_layer() {
    let rule = StyleRule { layer_name: None, properties: props(&[("kind", "rail")]), symbol: Symbol::Empty };
    assert!(rule.matches(&"roads".to_string(), &props(&[("kind", "rail")])));
    assert!(rule.matches(&"transit".to_string(), &props(&[("kind", "rail")])));
    assert!(!rule.matches(&"transit".to_string(), &props(&[("kind", "bus")])));
}

#[test]
fn values_compare_by_text() {
    let p = props(&[("kind_detail", "2")]);
    assert!(carries(&p, &"kind_detail".to_string(), &"2".to_string()));
    assert!(!carries(&p, &"kind_detail".to_string(), &"2.0".to_string()));
    assert!(!carries(&p, &"kind_detail".to_string(), &"02".to_string()));
}

#[test]
fn helper_rules_have_their_fields() {
    let b = boundary_style(3, 40);
    assert_eq!(b.layer_name, Some("boundaries".to_string()));
    assert_eq!(b.properties, props(&[("kind_detail", "3")]));
    assert_eq!(b.symbol, Symbol::Line { width_hundredths: 40, stroke_color: Color::rgb(0xad, 0xad, 0xad) });
    let r = road_style("rail", 100, Color::rgb(1, 2, 3));
    assert_eq!(r.layer_name, Some("roads".to_string()));
    assert_eq!(r.properties, props(&[("kind", "rail")]));
    let g = style_rule("water", (0x80, 0xde, 0xea, 255));
    assert!(g.properties.is_empty());
}

#[test]
fn map_style_table() {
    let style = make_style();
    assert_eq!(style.rules.len(), 48);
    assert_eq!(style.default_symbol, Symbol::Empty);
    assert_eq!(style.background, Color::rgb(0xcc, 0xcc, 0xcc));
    let water = style.resolve(&"water".to_string(), &props(&[]));
    assert_eq!(water, Symbol::Polygon { fill_color: Color::rgb(0x80, 0xde, 0xea) });
    let forest = style.resolve(&"landuse".to_string(), &props(&[("kind", "forest")]));
    assert_eq!(forest, Symbol::Polygon { fill_color: Color::rgb(156, 211, 180) });
    let scrub = style.resolve(&"landcover".to_string(), &props(&[("kind", "scrub")]));
    assert_eq!(scrub, Symbol::Polygon { fill_color: Color::rgb(234, 239, 210) });
    let other = style.resolve(&"landcover".to_string(), &props(&[("kind", "forest")]));
    assert_eq!(other, Symbol::Polygon { fill_color: Color::rgb(196, 231, 210) });
    let border = style.resolve(&"boundaries".to_string(), &props(&[("kind_detail", "4")]));
    assert_eq!(border, Symbol::Line { width_hundredths: 40, stroke_color: Color::rgb(0xad, 0xad, 0xad) });
    let highway = style.resolve(&"roads".to_string(), &props(&[("kind", "highway")]));
    assert_eq!(highway, Symbol::Line { width_hundredths: 300, stroke_color: Color::rgb(0xff, 0xff, 0xff) });
    let rail = style.resolve(&"roads".to_string(), &props(&[("kind", "rail")]));
    assert_eq!(rail, Symbol::Line { width_hundredths: 100, stroke_color: Color::rgb(0xa7, 0xb1, 0xb3) });
    assert_eq!(style.resolve(&"roads".to_string(), &props(&[])), Symbol::Empty);
    assert_eq!(style.resolve(&"places".to_string(), &props(&[("kind", "city")])), Symbol::Empty);
}

#[test]
fn map_style_values() {
    let style = make_style();
    let landcover = "landcover".to_string();
    let general = Symbol::Polygon { fill_color: Color::rgb(196, 231, 210) };
    assert_eq!(
        style.resolve(&landcover, &props(&[("kind", "grassland")])),
        Symbol::Polygon { fill_color: Color::rgb(210, 239, 207) }
    );
    assert_eq!(style.resolve(&landcover, &props(&[])), general);
    assert_eq!(style.resolve(&landcover, &props(&[("class", "wood")])), general);
    assert_eq!(style.resolve(&landcover, &props(&[("kind", "forest")])), general);
    assert_eq!(style.resolve(&"roads".to_string(), &props(&[("kind", "ferry")])), Symbol::Empty);
    assert_eq!(style.resolve(&"landuse".to_string(), &props(&[("kind", "park")])), Symbol::Empty);
    let boundaries = "boundaries".to_string();
    let line = Symbol::Line { width_hundredths: 70, stroke_color: Color::rgb(0xad, 0xad, 0xad) };
    assert_eq!(style.resolve(&boundaries, &props(&[("kind_detail", "2")])), line);
    assert_eq!(style.resolve(&boundaries, &props(&[("kind_detail", "2.0")])), Symbol::Empty);
    assert_eq!(style.resolve(&boundaries, &props(&[("kind_detail", "02")])), Symbol::Empty);
    let water = Symbol::Polygon { fill_color: Color::rgb(0x80, 0xde, 0xea) };
    assert_eq!(style.resolve(&"water".to_string(), &props(&[("kind", "ocean"), ("name", "Atlantic")])), water);
}

#[test]
fn every_map_rule_is_reachable() {
    let style = make_style();
    for (i, rule) in style.rules.iter().enumerate() {
        let layer = rule.layer_name.clone().unwrap();
        assert_eq!(style.find_rule(&layer, &rule.properties), Some(i));
    }
}

#[test]
fn decimal_numerals() {
    assert_eq!(decimal_string(0), "0");
    assert_eq!(decimal_string(7), "7");
    assert_eq!(decimal_string(42), "42");
    assert_eq!(decimal_string(100), "100");
    assert_eq!(decimal_string(255), "255");
    for n in 0..=255u8 {
        assert_eq!(decimal_string(n), n.to_string());
    }
}
