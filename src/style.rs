//! Style rules and their first-match resolution.
//!
//! A feature is described by the name of its layer and its properties, each
//! property a name with the textual form of its scalar value. Rules are tried
//! in declaration order and the first one that applies decides the symbol.
use vstd::prelude::*;

verus! {

/// An RGBA color.
#[derive(Clone, Copy, Debug, PartialEq, Eq, Structural)]
pub struct Color {
    pub r: u8,
    pub g: u8,
    pub b: u8,
    pub a: u8,
}

impl Color {
    /// A color with the given channels.
    pub fn rgba(r: u8, g: u8, b: u8, a: u8) -> (c: Color)
        ensures
            c == (Color { r, g, b, a }),
    {
        Color { r, g, b, a }
    }

    /// An opaque color with the given red, green and blue channels.
    pub fn rgb(r: u8, g: u8, b: u8) -> (c: Color)
        ensures
            c == (Color { r, g, b, a: 255 }),
    {
        Color { r, g, b, a: 255 }
    }
}

/// How a feature is drawn.
///
/// Line widths are kept in hundredths of a pixel.
#[derive(Clone, Copy, Debug, PartialEq, Eq, Structural)]
pub enum Symbol {
    /// The feature is not drawn.
    Empty,
    /// The area of the feature is filled.
    Polygon { fill_color: Color },
    /// The outline of the feature is stroked.
    Line { width_hundredths: u32, stroke_color: Color },
}

/// A rule: an optional layer name (none matches every layer), properties that
/// the feature must carry with exactly these values, and the symbol it gives.
#[derive(Clone, Debug)]
pub struct StyleRule {
    pub layer_name: Option<String>,
    pub properties: Vec<(String, String)>,
    pub symbol: Symbol,
}

/// An ordered rule table with the symbol used where no rule applies.
#[derive(Clone, Debug)]
pub struct VectorTileStyle {
    pub rules: Vec<StyleRule>,
    pub default_symbol: Symbol,
    pub background: Color,
}

/// The properties carry an entry with name `key` and value `value`.
pub open spec fn has_property(props: Seq<(String, String)>, key: Seq<char>, value: Seq<char>) -> bool {
    exists|i: int| 0 <= i < props.len() && #[trigger] props[i].0@ == key && props[i].1@ == value
}

/// The properties carry no entry named `key`.
pub open spec fn lacks_property(props: Seq<(String, String)>, key: Seq<char>) -> bool {
    forall|i: int| 0 <= i < props.len() ==> #[trigger] props[i].0@ != key
}

impl StyleRule {
    /// No two of the rule's property conditions name the same property.
    pub open spec fn wf(&self) -> bool {
        forall|i: int, j: int|
            0 <= i < j < self.properties@.len() ==> (#[trigger] self.properties@[i]).0@ != (#[trigger] self.properties@[j]).0@
    }

    /// The rule's layer condition admits `layer`.
    pub open spec fn admits_layer(&self, layer: Seq<char>) -> bool {
        match self.layer_name {
            Option::None => true,
            Option::Some(name) => name@ == layer,
        }
    }

    /// Every property the rule asks for is carried with the same value.
    pub open spec fn predicates_hold(&self, props: Seq<(String, String)>) -> bool {
        forall|j: int|
            0 <= j < self.properties@.len() ==> has_property(
                props,
                #[trigger] self.properties@[j].0@,
                self.properties@[j].1@,
            )
    }

    /// The rule applies to a feature of `layer` with properties `props`.
    pub open spec fn applies(&self, layer: Seq<char>, props: Seq<(String, String)>) -> bool {
        self.admits_layer(layer) && self.predicates_hold(props)
    }

    /// Whether the rule applies to a feature of `layer` with properties `props`.
    pub fn matches(&self, layer: &String, props: &[(String, String)]) -> (r: bool)
        ensures
            r == self.applies(layer@, props@),
    {
        match &self.layer_name {
            Option::Some(name) => {
                if !(*name == *layer) {
                    return false;
                }
            },
            Option::None => {},
        }
        let mut j: usize = 0;
        while j < self.properties.len()
            invariant
                j <= self.properties@.len(),
                forall|k: int|
                    0 <= k < j ==> has_property(
                        props@,
                        #[trigger] self.properties@[k].0@,
                        self.properties@[k].1@,
                    ),
            decreases self.properties@.len() - j,
        {
            if !carries(props, &self.properties[j].0, &self.properties[j].1) {
                return false;
            }
            j = j + 1;
        }
        true
    }
}

/// Whether `props` carries an entry named `key` with value `value`.
pub fn carries(props: &[(String, String)], key: &String, value: &String) -> (r: bool)
    ensures
        r == has_property(props@, key@, value@),
{
    let mut i: usize = 0;
    while i < props.len()
        invariant
            i <= props@.len(),
            forall|k: int| 0 <= k < i ==> !(#[trigger] props@[k].0@ == key@ && props@[k].1@ == value@),
        decreases props@.len() - i,
    {
        if props[i].0 == *key && props[i].1 == *value {
            return true;
        }
        i = i + 1;
    }
    false
}

impl VectorTileStyle {
    /// The index of the first rule that applies, if any does.
    pub open spec fn first_match(&self, layer: Seq<char>, props: Seq<(String, String)>) -> Option<int> {
        if exists|i: int| 0 <= i < self.rules@.len() && #[trigger] self.rules@[i].applies(layer, props) {
            Option::Some(
                choose|i: int|
                    0 <= i < self.rules@.len() && #[trigger] self.rules@[i].applies(layer, props)
                        && forall|k: int| 0 <= k < i ==> !#[trigger] self.rules@[k].applies(layer, props),
            )
        } else {
            Option::None
        }
    }

    /// The symbol of the first rule that applies, or the default symbol.
    pub open spec fn resolved(&self, layer: Seq<char>, props: Seq<(String, String)>) -> Symbol {
        match self.first_match(layer, props) {
            Option::Some(i) => self.rules@[i].symbol,
            Option::None => self.default_symbol,
        }
    }

    /// The index of the first rule, in declaration order, that applies to a
    /// feature of `layer` with properties `props`.
    pub fn find_rule(&self, layer: &String, props: &[(String, String)]) -> (r: Option<usize>)
        ensures
            match r {
                Option::Some(i) => {
                    &&& i < self.rules@.len()
                    &&& self.rules@[i as int].applies(layer@, props@)
                    &&& forall|k: int| 0 <= k < i ==> !#[trigger] self.rules@[k].applies(layer@, props@)
                },
                Option::None => forall|k: int|
                    0 <= k < self.rules@.len() ==> !#[trigger] self.rules@[k].applies(layer@, props@),
            },
    {
        let mut i: usize = 0;
        while i < self.rules.len()
            invariant
                i <= self.rules@.len(),
                forall|k: int| 0 <= k < i ==> !#[trigger] self.rules@[k].applies(layer@, props@),
            decreases self.rules@.len() - i,
        {
            if self.rules[i].matches(layer, props) {
                return Option::Some(i);
            }
            i = i + 1;
        }
        Option::None
    }

    /// The symbol for a feature of `layer` with properties `props`: that of the
    /// first rule that applies, or the default symbol where none does.
    pub fn resolve(&self, layer: &String, props: &[(String, String)]) -> (s: Symbol)
        ensures
            s == self.resolved(layer@, props@),
    {
        let found = self.find_rule(layer, props);
        match found {
            Option::Some(i) => {
                proof {
                    lemma_first_match_at(self, layer@, props@, i as int);
                }
                self.rules[i].symbol
            },
            Option::None => self.default_symbol,
        }
    }
}

/// `first_match` names a rule that applies when no earlier rule does.
pub proof fn lemma_first_match_at(style: &VectorTileStyle, layer: Seq<char>, props: Seq<(String, String)>, i: int)
    requires
        0 <= i < style.rules@.len(),
        style.rules@[i].applies(layer, props),
        forall|k: int| 0 <= k < i ==> !#[trigger] style.rules@[k].applies(layer, props),
    ensures
        style.first_match(layer, props) == Option::Some(i),
{
    let c = style.first_match(layer, props)->Some_0;
    if c < i {
        assert(!style.rules@[c].applies(layer, props));
    } else if c > i {
        assert(!style.rules@[i].applies(layer, props));
    }
}

/// A rule that applies shadows every later rule: when no earlier rule applies,
/// resolution picks it and gives its symbol, whatever rules (a general rule of
/// the same layer included) follow it.
pub proof fn law_applying_rule_shadows_later(
    style: &VectorTileStyle,
    layer: Seq<char>,
    props: Seq<(String, String)>,
    i: int,
    j: int,
)
    requires
        0 <= i < j < style.rules@.len(),
        style.rules@[i].applies(layer, props),
        forall|k: int| 0 <= k < i ==> !#[trigger] style.rules@[k].applies(layer, props),
    ensures
        style.first_match(layer, props) == Option::Some(i),
        style.first_match(layer, props) != Option::Some(j),
        style.resolved(layer, props) == style.rules@[i].symbol,
{
    lemma_first_match_at(style, layer, props, i);
}

/// In a table whose general rules come last, a feature that a rule of its
/// layer with property conditions covers is never given the symbol of a
/// general rule: resolution picks a rule with property conditions, no later
/// than the covering one.
pub proof fn law_specific_rule_beats_general(
    style: &VectorTileStyle,
    layer: Seq<char>,
    props: Seq<(String, String)>,
    i: int,
)
    requires
        general_rules_last(style.rules@),
        0 <= i < style.rules@.len(),
        style.rules@[i].layer_name is Some,
        style.rules@[i].properties@.len() > 0,
        style.rules@[i].applies(layer, props),
    ensures
        style.first_match(layer, props) is Some,
        style.first_match(layer, props)->Some_0 <= i,
        style.rules@[style.first_match(layer, props)->Some_0].properties@.len() > 0,
{
    lemma_earliest_applying(style, layer, props, i);
    let k = choose|k: int|
        0 <= k <= i && #[trigger] style.rules@[k].applies(layer, props)
            && forall|m: int| 0 <= m < k ==> !#[trigger] style.rules@[m].applies(layer, props);
    lemma_first_match_at(style, layer, props, k);
    if style.rules@[k].properties@.len() == 0 && k < i {
        assert(style.rules@[k].layer_name is Some);
        assert(!same_layer(style.rules@[i].layer_name, style.rules@[k].layer_name));
    }
}

/// When rule `i` applies, some rule no later than `i` applies with no earlier
/// rule applying.
proof fn lemma_earliest_applying(style: &VectorTileStyle, layer: Seq<char>, props: Seq<(String, String)>, i: int)
    requires
        0 <= i < style.rules@.len(),
        style.rules@[i].applies(layer, props),
    ensures
        exists|k: int|
            0 <= k <= i && #[trigger] style.rules@[k].applies(layer, props)
                && forall|m: int| 0 <= m < k ==> !#[trigger] style.rules@[m].applies(layer, props),
    decreases i,
{
    if exists|m: int| 0 <= m < i && #[trigger] style.rules@[m].applies(layer, props) {
        let m = choose|m: int| 0 <= m < i && #[trigger] style.rules@[m].applies(layer, props);
        lemma_earliest_applying(style, layer, props, m);
    } else {
        assert(0 <= i <= i && style.rules@[i].applies(layer, props)
            && forall|m: int| 0 <= m < i ==> !#[trigger] style.rules@[m].applies(layer, props));
    }
}

/// A feature that lacks property `key`, or carries it with a value that no
/// earlier rule asks for, falls through every earlier rule of its layer that
/// asks for `key`, and resolves to the first rule that asks for nothing.
pub proof fn law_falls_through_to_general_rule(
    style: &VectorTileStyle,
    layer: Seq<char>,
    props: Seq<(String, String)>,
    key: Seq<char>,
    j: int,
)
    requires
        0 <= j < style.rules@.len(),
        style.rules@[j].admits_layer(layer),
        style.rules@[j].properties@.len() == 0,
        forall|k: int|
            0 <= k < j && #[trigger] style.rules@[k].admits_layer(layer) ==> exists|p: int|
                0 <= p < style.rules@[k].properties@.len()
                    && #[trigger] style.rules@[k].properties@[p].0@ == key
                    && !has_property(props, key, style.rules@[k].properties@[p].1@),
    ensures
        style.first_match(layer, props) == Option::Some(j),
        style.resolved(layer, props) == style.rules@[j].symbol,
{
    assert forall|k: int| 0 <= k < j implies !#[trigger] style.rules@[k].applies(layer, props) by {
        if style.rules@[k].admits_layer(layer) {
            let p = choose|p: int|
                0 <= p < style.rules@[k].properties@.len()
                    && #[trigger] style.rules@[k].properties@[p].0@ == key
                    && !has_property(props, key, style.rules@[k].properties@[p].1@);
            assert(!has_property(props, style.rules@[k].properties@[p].0@, style.rules@[k].properties@[p].1@));
        }
    }
    lemma_first_match_at(style, layer, props, j);
}

/// Where no rule names the feature's layer and no rule admits every layer,
/// resolution gives the default symbol.
pub proof fn law_default_when_no_rule_admits_layer(
    style: &VectorTileStyle,
    layer: Seq<char>,
    props: Seq<(String, String)>,
)
    requires
        forall|k: int| 0 <= k < style.rules@.len() ==> !#[trigger] style.rules@[k].admits_layer(layer),
    ensures
        style.first_match(layer, props) is None,
        style.resolved(layer, props) == style.default_symbol,
{
    assert forall|k: int| 0 <= k < style.rules@.len() implies !#[trigger] style.rules@[k].applies(layer, props) by {
        assert(!style.rules@[k].admits_layer(layer));
    }
}

/// A feature that lacks property `key` never matches a rule that asks for
/// `key`, whatever value the rule asks for.
pub proof fn law_missing_property_never_matches(
    rule: &StyleRule,
    layer: Seq<char>,
    props: Seq<(String, String)>,
    key: Seq<char>,
    p: int,
)
    requires
        lacks_property(props, key),
        0 <= p < rule.properties@.len(),
        rule.properties@[p].0@ == key,
    ensures
        !rule.applies(layer, props),
{
    if has_property(props, rule.properties@[p].0@, rule.properties@[p].1@) {
        let i = choose|i: int| 0 <= i < props.len() && #[trigger] props[i].0@ == key && props[i].1@ == rule.properties@[p].1@;
        assert(props[i].0@ != key);
    }
}

/// The rule has layer `layer` and asks for property `key`, or for nothing.
pub open spec fn shaped(rule: StyleRule, layer: Seq<char>, key: Option<Seq<char>>) -> bool {
    &&& rule.layer_name is Some
    &&& rule.layer_name->Some_0@ == layer
    &&& match key {
        Option::Some(k) => rule.properties@.len() == 1 && rule.properties@[0].0@ == k,
        Option::None => rule.properties@.len() == 0,
    }
}

/// Every rule that asks for nothing names a layer and comes after all other
/// rules of that layer, so that general rules never shadow more specific ones.
pub open spec fn general_rules_last(rules: Seq<StyleRule>) -> bool {
    forall|i: int, j: int|
        0 <= i < j < rules.len() && (#[trigger] rules[i]).properties@.len() == 0 ==> {
            &&& rules[i].layer_name is Some
            &&& !same_layer((#[trigger] rules[j]).layer_name, rules[i].layer_name)
        }
}

/// Two layer conditions name the same layer, or both admit every layer.
pub open spec fn same_layer(a: Option<String>, b: Option<String>) -> bool {
    match (a, b) {
        (Option::Some(x), Option::Some(y)) => x@ == y@,
        (Option::None, Option::None) => true,
        _ => false,
    }
}

/// The character of decimal digit `d`.
pub open spec fn digit_char(d: nat) -> char {
    seq!['0', '1', '2', '3', '4', '5', '6', '7', '8', '9'][(d % 10) as int]
}

/// The decimal digits of `n`.
pub open spec fn decimal(n: nat) -> Seq<char>
    decreases n,
{
    if n < 10 {
        seq![digit_char(n)]
    } else {
        decimal(n / 10).push(digit_char(n % 10))
    }
}

/// The numeral of decimal digit `d`.
fn digit_str(d: u8) -> (r: &'static str)
    requires
        d < 10,
    ensures
        r@ == seq![digit_char(d as nat)],
{
    match d {
        0 => {
            proof {
                reveal_strlit("0");
                assert("0"@ =~= seq!['0']);
            }
            "0"
        },
        1 => {
            proof {
                reveal_strlit("1");
                assert("1"@ =~= seq!['1']);
            }
            "1"
        },
        2 => {
            proof {
                reveal_strlit("2");
                assert("2"@ =~= seq!['2']);
            }
            "2"
        },
        3 => {
            proof {
                reveal_strlit("3");
                assert("3"@ =~= seq!['3']);
            }
            "3"
        },
        4 => {
            proof {
                reveal_strlit("4");
                assert("4"@ =~= seq!['4']);
            }
            "4"
        },
        5 => {
            proof {
                reveal_strlit("5");
                assert("5"@ =~= seq!['5']);
            }
            "5"
        },
        6 => {
            proof {
                reveal_strlit("6");
                assert("6"@ =~= seq!['6']);
            }
            "6"
        },
        7 => {
            proof {
                reveal_strlit("7");
                assert("7"@ =~= seq!['7']);
            }
            "7"
        },
        8 => {
            proof {
                reveal_strlit("8");
                assert("8"@ =~= seq!['8']);
            }
            "8"
        },
        _ => {
            proof {
                reveal_strlit("9");
                assert("9"@ =~= seq!['9']);
            }
            "9"
        },
    }
}

/// The decimal digits of `n`, without sign or leading zeros.
pub fn decimal_string(n: u8) -> (r: String)
    ensures
        r@ == decimal(n as nat),
{
    let mut s = String::new();
    if n >= 100 {
        s.append(digit_str(n / 100));
    }
    if n >= 10 {
        s.append(digit_str((n / 10) % 10));
    }
    s.append(digit_str(n % 10));
    proof {
        reveal_with_fuel(decimal, 3);
        let m = n as nat;
        if m >= 100 {
            assert(decimal(m / 10) == decimal(m / 100).push(digit_char((m / 10) % 10)));
            assert(s@ =~= decimal(m));
        } else if m >= 10 {
            assert(s@ =~= decimal(m));
        } else {
            assert(s@ =~= decimal(m));
        }
    }
    s
}

/// A list of `kind` values with their fill colors, as plain values.
pub open spec fn kinds_view(kinds: Seq<(&str, (u8, u8, u8, u8))>) -> Seq<(Seq<char>, (u8, u8, u8, u8))> {
    kinds.map_values(|k: (&str, (u8, u8, u8, u8))| (k.0@, k.1))
}

/// The fill color of a color quadruple.
pub open spec fn fill(c: (u8, u8, u8, u8)) -> Symbol {
    Symbol::Polygon { fill_color: Color { r: c.0, g: c.1, b: c.2, a: c.3 } }
}

/// The land-cover kinds of the map's style with their fill colors.
pub open spec fn landcover_kinds() -> Seq<(Seq<char>, (u8, u8, u8, u8))> {
    seq![
        ("grassland"@, (210, 239, 207, 255)),
        ("barren"@, (255, 243, 215, 255)),
        ("urban_area"@, (230, 230, 230, 255)),
        ("farmland"@, (216, 239, 210, 255)),
        ("glacier"@, (255, 255, 255, 255)),
        ("scrub"@, (234, 239, 210, 255)),
    ]
}

/// The land-use kinds of the map's style with their fill colors.
pub open spec fn landuse_kinds() -> Seq<(Seq<char>, (u8, u8, u8, u8))> {
    seq![
        ("cemetery"@, (156, 211, 180, 255)),
        ("forest"@, (156, 211, 180, 255)),
        ("golf_course"@, (156, 211, 180, 255)),
        ("wood"@, (160, 217, 160, 255)),
        ("scrub"@, (153, 210, 187, 255)),
        ("grassland"@, (153, 210, 187, 255)),
        ("grass"@, (153, 210, 187, 255)),
        ("glacier"@, (231, 231, 231, 255)),
        ("sand"@, (226, 224, 215, 255)),
        ("military"@, (198, 220, 220, 255)),
        ("naval_base"@, (198, 220, 220, 255)),
        ("airfield"@, (198, 220, 220, 255)),
        ("allotments"@, (156, 211, 180, 255)),
        ("village_green"@, (156, 211, 180, 255)),
        ("playground"@, (156, 211, 180, 255)),
        ("hospital"@, (228, 218, 217, 255)),
        ("industrial"@, (209, 221, 225, 255)),
        ("school"@, (228, 222, 215, 255)),
        ("university"@, (228, 222, 215, 255)),
        ("college"@, (228, 222, 215, 255)),
        ("beach"@, (232, 228, 208, 255)),
        ("zoo"@, (198, 220, 220, 255)),
        ("aerodrome"@, (218, 219, 223, 255)),
        ("runway"@, (233, 233, 237, 255)),
        ("taxiway"@, (233, 233, 237, 255)),
        ("pedestrian"@, (227, 224, 212, 255)),
        ("dam"@, (227, 224, 212, 255)),
        ("pier"@, (224, 224, 224, 255)),
    ]
}

/// Line width, in hundredths of a pixel, of administrative levels 0 to 5.
pub open spec fn boundary_widths() -> Seq<u32> {
    seq![70, 70, 70, 40, 40, 40]
}

/// Stroke of the boundary lines.
pub open spec fn boundary_gray() -> Color {
    Color { r: 0xad, g: 0xad, b: 0xad, a: 255 }
}

/// The road kinds of the map's style with line width (hundredths of a pixel)
/// and stroke color.
pub open spec fn road_kinds() -> Seq<(Seq<char>, u32, Color)> {
    seq![
        ("highway"@, 300, Color { r: 0xff, g: 0xff, b: 0xff, a: 255 }),
        ("major_road"@, 200, Color { r: 0xff, g: 0xff, b: 0xff, a: 255 }),
        ("minor_road"@, 100, Color { r: 0xeb, g: 0xeb, b: 0xeb, a: 255 }),
        ("other"@, 50, Color { r: 0xeb, g: 0xeb, b: 0xeb, a: 255 }),
        ("path"@, 50, Color { r: 0xeb, g: 0xeb, b: 0xeb, a: 255 }),
        ("rail"@, 100, Color { r: 0xa7, g: 0xb1, b: 0xb3, a: 255 }),
    ]
}

/// A rule filling features of `layer` whose `kind` is `kind`.
pub fn style_rule_kind(layer: &str, kind: &str, color: (u8, u8, u8, u8)) -> (r: StyleRule)
    ensures
        shaped(r, layer@, Some("kind"@)),
        r.properties@[0].1@ == kind@,
        r.symbol == (Symbol::Polygon { fill_color: Color { r: color.0, g: color.1, b: color.2, a: color.3 } }),
{
    let mut properties: Vec<(String, String)> = Vec::new();
    properties.push(("kind".to_string(), kind.to_string()));
    StyleRule {
        layer_name: Some(layer.to_string()),
        properties,
        symbol: Symbol::Polygon { fill_color: Color::rgba(color.0, color.1, color.2, color.3) },
    }
}

/// A rule filling every feature of `layer`.
pub fn style_rule(layer: &str, color: (u8, u8, u8, u8)) -> (r: StyleRule)
    ensures
        shaped(r, layer@, None),
        r.symbol == (Symbol::Polygon { fill_color: Color { r: color.0, g: color.1, b: color.2, a: color.3 } }),
{
    StyleRule {
        layer_name: Some(layer.to_string()),
        properties: Vec::new(),
        symbol: Symbol::Polygon { fill_color: Color::rgba(color.0, color.1, color.2, color.3) },
    }
}

/// A rule stroking the boundaries of administrative level `kind_detail`.
pub fn boundary_style(kind_detail: u8, width_hundredths: u32) -> (r: StyleRule)
    ensures
        shaped(r, "boundaries"@, Some("kind_detail"@)),
        r.properties@[0].1@ == decimal(kind_detail as nat),
        r.symbol == (Symbol::Line { width_hundredths, stroke_color: Color { r: 0xad, g: 0xad, b: 0xad, a: 255 } }),
{
    let mut properties: Vec<(String, String)> = Vec::new();
    properties.push(("kind_detail".to_string(), decimal_string(kind_detail)));
    StyleRule {
        layer_name: Some("boundaries".to_string()),
        properties,
        symbol: Symbol::Line { width_hundredths, stroke_color: Color::rgb(0xad, 0xad, 0xad) },
    }
}

/// A rule stroking roads whose `kind` is `kind`.
pub fn road_style(kind: &str, width_hundredths: u32, stroke_color: Color) -> (r: StyleRule)
    ensures
        shaped(r, "roads"@, Some("kind"@)),
        r.properties@[0].1@ == kind@,
        r.symbol == (Symbol::Line { width_hundredths, stroke_color }),
{
    let mut properties: Vec<(String, String)> = Vec::new();
    properties.push(("kind".to_string(), kind.to_string()));
    StyleRule { layer_name: Some("roads".to_string()), properties, symbol: Symbol::Line { width_hundredths, stroke_color } }
}

/// Appends, for each `(kind, color)` of `kinds` in order, a rule filling
/// features of `layer` whose `kind` is `kind`.
pub fn push_kind_rules(rules: &mut Vec<StyleRule>, layer: &str, kinds: &Vec<(&str, (u8, u8, u8, u8))>)
    ensures
        final(rules)@.len() == old(rules)@.len() + kinds@.len(),
        forall|i: int| 0 <= i < old(rules)@.len() ==> #[trigger] final(rules)@[i] == old(rules)@[i],
        forall|k: int|
            0 <= k < kinds@.len() ==> {
                let rule = #[trigger] final(rules)@[old(rules)@.len() + k];
                let (kind, c) = kinds@[k];
                &&& shaped(rule, layer@, Some("kind"@))
                &&& rule.properties@[0].1@ == kind@
                &&& rule.symbol == (Symbol::Polygon { fill_color: Color { r: c.0, g: c.1, b: c.2, a: c.3 } })
            },
{
    let ghost start = rules@.len();
    let mut k: usize = 0;
    while k < kinds.len()
        invariant
            k <= kinds@.len(),
            start == old(rules)@.len(),
            rules@.len() == start + k,
            forall|i: int| 0 <= i < start ==> #[trigger] rules@[i] == old(rules)@[i],
            forall|m: int|
                0 <= m < k ==> {
                    let rule = #[trigger] rules@[start + m];
                    let (kind, c) = kinds@[m];
                    &&& shaped(rule, layer@, Some("kind"@))
                    &&& rule.properties@[0].1@ == kind@
                    &&& rule.symbol == (Symbol::Polygon { fill_color: Color { r: c.0, g: c.1, b: c.2, a: c.3 } })
                },
        decreases kinds@.len() - k,
    {
        let (kind, color) = kinds[k];
        rules.push(style_rule_kind(layer, kind, color));
        k = k + 1;
    }
}

/// Appends the rules for administrative boundaries, finer levels with
/// thinner lines.
pub fn push_boundary_rules(rules: &mut Vec<StyleRule>)
    ensures
        final(rules)@.len() == old(rules)@.len() + 6,
        forall|i: int| 0 <= i < old(rules)@.len() ==> #[trigger] final(rules)@[i] == old(rules)@[i],
        forall|k: int|
            0 <= k < 6 ==> shaped(#[trigger] final(rules)@[old(rules)@.len() + k], "boundaries"@, Some("kind_detail"@)),
        forall|k: int|
            0 <= k < 6 ==> {
                let rule = #[trigger] final(rules)@[old(rules)@.len() + k];
                &&& rule.properties@[0].1@ == decimal(k as nat)
                &&& rule.symbol == (Symbol::Line { width_hundredths: boundary_widths()[k], stroke_color: boundary_gray() })
            },
{
    rules.push(boundary_style(0, 70)); // international boundaries
    rules.push(boundary_style(1, 70)); // states and provinces
    rules.push(boundary_style(2, 70)); // counties and districts
    rules.push(boundary_style(3, 40)); // municipalities and townships
    rules.push(boundary_style(4, 40)); // neighbourhoods and city districts
    rules.push(boundary_style(5, 40)); // finer levels
}

/// Appends the rules for roads, from the widest kind to the narrowest.
pub fn push_road_rules(rules: &mut Vec<StyleRule>)
    ensures
        final(rules)@.len() == old(rules)@.len() + 6,
        forall|i: int| 0 <= i < old(rules)@.len() ==> #[trigger] final(rules)@[i] == old(rules)@[i],
        forall|k: int| 0 <= k < 6 ==> shaped(#[trigger] final(rules)@[old(rules)@.len() + k], "roads"@, Some("kind"@)),
        forall|k: int|
            0 <= k < 6 ==> {
                let rule = #[trigger] final(rules)@[old(rules)@.len() + k];
                &&& rule.properties@[0].1@ == road_kinds()[k].0
                &&& rule.symbol == (Symbol::Line { width_hundredths: road_kinds()[k].1, stroke_color: road_kinds()[k].2 })
            },
{
    rules.push(road_style("highway", 300, Color::rgb(0xff, 0xff, 0xff)));
    rules.push(road_style("major_road", 200, Color::rgb(0xff, 0xff, 0xff)));
    rules.push(road_style("minor_road", 100, Color::rgb(0xeb, 0xeb, 0xeb)));
    rules.push(road_style("other", 50, Color::rgb(0xeb, 0xeb, 0xeb)));
    rules.push(road_style("path", 50, Color::rgb(0xeb, 0xeb, 0xeb)));
    rules.push(road_style("rail", 100, Color::rgb(0xa7, 0xb1, 0xb3)));
}

/// The map's style: water, land cover (specific kinds before the general
/// rule), land use, administrative boundaries and roads; features that no
/// rule covers are not drawn.
pub fn make_style() -> (r: VectorTileStyle)
    ensures
        r.rules@.len() == 48,
        shaped(r.rules@[0], "water"@, None),
        forall|i: int| 1 <= i < 7 ==> shaped(#[trigger] r.rules@[i], "landcover"@, Some("kind"@)),
        shaped(r.rules@[7], "landcover"@, None),
        forall|i: int| 8 <= i < 36 ==> shaped(#[trigger] r.rules@[i], "landuse"@, Some("kind"@)),
        forall|i: int| 36 <= i < 42 ==> shaped(#[trigger] r.rules@[i], "boundaries"@, Some("kind_detail"@)),
        forall|i: int| 42 <= i < 48 ==> shaped(#[trigger] r.rules@[i], "roads"@, Some("kind"@)),
        r.rules@[0].symbol == fill((0x80, 0xde, 0xea, 255)),
        forall|k: int|
            0 <= k < 6 ==> (#[trigger] r.rules@[1 + k]).properties@[0].1@ == landcover_kinds()[k].0
                && r.rules@[1 + k].symbol == fill(landcover_kinds()[k].1),
        r.rules@[7].symbol == fill((196, 231, 210, 255)),
        forall|k: int|
            0 <= k < 28 ==> (#[trigger] r.rules@[8 + k]).properties@[0].1@ == landuse_kinds()[k].0
                && r.rules@[8 + k].symbol == fill(landuse_kinds()[k].1),
        forall|k: int|
            0 <= k < 6 ==> (#[trigger] r.rules@[36 + k]).properties@[0].1@ == decimal(k as nat)
                && r.rules@[36 + k].symbol == (Symbol::Line {
                    width_hundredths: boundary_widths()[k],
                    stroke_color: boundary_gray(),
                }),
        forall|k: int|
            0 <= k < 6 ==> (#[trigger] r.rules@[42 + k]).properties@[0].1@ == road_kinds()[k].0
                && r.rules@[42 + k].symbol == (Symbol::Line {
                    width_hundredths: road_kinds()[k].1,
                    stroke_color: road_kinds()[k].2,
                }),
        forall|i: int| 0 <= i < r.rules@.len() ==> (#[trigger] r.rules@[i]).wf(),
        general_rules_last(r.rules@),
        r.default_symbol == Symbol::Empty,
        r.background == (Color { r: 0xcc, g: 0xcc, b: 0xcc, a: 255 }),
{
    let landcover: Vec<(&str, (u8, u8, u8, u8))> = vec![
        ("grassland", (210, 239, 207, 255)),
        ("barren", (255, 243, 215, 255)),
        ("urban_area", (230, 230, 230, 255)),
        ("farmland", (216, 239, 210, 255)),
        ("glacier", (255, 255, 255, 255)),
        ("scrub", (234, 239, 210, 255)),
    ];
    let landuse: Vec<(&str, (u8, u8, u8, u8))> = vec![
        ("cemetery", (156, 211, 180, 255)),
        ("forest", (156, 211, 180, 255)),
        ("golf_course", (156, 211, 180, 255)),
        ("wood", (160, 217, 160, 255)),
        ("scrub", (153, 210, 187, 255)),
        ("grassland", (153, 210, 187, 255)),
        ("grass", (153, 210, 187, 255)),
        ("glacier", (231, 231, 231, 255)),
        ("sand", (226, 224, 215, 255)),
        ("military", (198, 220, 220, 255)),
        ("naval_base", (198, 220, 220, 255)),
        ("airfield", (198, 220, 220, 255)),
        ("allotments", (156, 211, 180, 255)),
        ("village_green", (156, 211, 180, 255)),
        ("playground", (156, 211, 180, 255)),
        ("hospital", (228, 218, 217, 255)),
        ("industrial", (209, 221, 225, 255)),
        ("school", (228, 222, 215, 255)),
        ("university", (228, 222, 215, 255)),
        ("college", (228, 222, 215, 255)),
        ("beach", (232, 228, 208, 255)),
        ("zoo", (198, 220, 220, 255)),
        ("aerodrome", (218, 219, 223, 255)),
        ("runway", (233, 233, 237, 255)),
        ("taxiway", (233, 233, 237, 255)),
        ("pedestrian", (227, 224, 212, 255)),
        ("dam", (227, 224, 212, 255)),
        ("pier", (224, 224, 224, 255)),
    ];
    let mut rules: Vec<StyleRule> = Vec::new();
    rules.push(style_rule("water", (0x80, 0xde, 0xea, 255)));
    push_kind_rules(&mut rules, "landcover", &landcover);
    let ghost with_landcover = rules@;
    rules.push(style_rule("landcover", (196, 231, 210, 255)));
    push_kind_rules(&mut rules, "landuse", &landuse);
    let ghost with_landuse = rules@;
    push_boundary_rules(&mut rules);
    let ghost with_boundaries = rules@;
    push_road_rules(&mut rules);
    proof {
        assert(landcover@.len() == 6 && landuse@.len() == 28);
        assert forall|i: int| 0 <= i < 36 implies #[trigger] rules@[i] == with_landuse[i] by {
            assert(with_boundaries[i] == with_landuse[i]);
        }
        assert forall|i: int| 0 <= i < 7 implies #[trigger] with_landuse[i] == with_landcover[i] by {}
        assert forall|i: int| 1 <= i < 7 implies shaped(#[trigger] rules@[i], "landcover"@, Some("kind"@)) by {
            assert(rules@[i] == with_landuse[i]);
            assert(with_landuse[i] == with_landcover[i]);
            assert(with_landcover[1 + (i - 1)] == with_landcover[i]);
        }
        assert forall|i: int| 8 <= i < 36 implies shaped(#[trigger] rules@[i], "landuse"@, Some("kind"@)) by {
            assert(rules@[i] == with_landuse[i]);
            assert(with_landuse[8 + (i - 8)] == with_landuse[i]);
        }
        assert forall|i: int| 36 <= i < 42 implies shaped(#[trigger] rules@[i], "boundaries"@, Some("kind_detail"@)) by {
            assert(rules@[i] == with_boundaries[i]);
            assert(with_boundaries[36 + (i - 36)] == with_boundaries[i]);
        }
        assert forall|i: int| 42 <= i < 48 implies shaped(#[trigger] rules@[i], "roads"@, Some("kind"@)) by {
            assert(rules@[42 + (i - 42)] == rules@[i]);
        }
        lemma_general_rules_last(rules@);
        assert(kinds_view(landcover@) =~= landcover_kinds());
        assert(kinds_view(landuse@) =~= landuse_kinds());
        assert forall|k: int| 0 <= k < 6 implies (#[trigger] rules@[1 + k]).properties@[0].1@ == landcover_kinds()[k].0
            && rules@[1 + k].symbol == fill(landcover_kinds()[k].1) by {
            assert(rules@[1 + k] == with_landcover[1 + k]);
            assert(kinds_view(landcover@)[k] == landcover_kinds()[k]);
        }
        assert forall|k: int| 0 <= k < 28 implies (#[trigger] rules@[8 + k]).properties@[0].1@ == landuse_kinds()[k].0
            && rules@[8 + k].symbol == fill(landuse_kinds()[k].1) by {
            assert(rules@[8 + k] == with_landuse[8 + k]);
            assert(kinds_view(landuse@)[k] == landuse_kinds()[k]);
        }
        assert forall|k: int| 0 <= k < 6 implies (#[trigger] rules@[36 + k]).properties@[0].1@ == decimal(k as nat)
            && rules@[36 + k].symbol == (Symbol::Line {
                width_hundredths: boundary_widths()[k],
                stroke_color: boundary_gray(),
            }) by {
            assert(rules@[36 + k] == with_boundaries[36 + k]);
        }
        assert forall|i: int| 0 <= i < rules@.len() implies (#[trigger] rules@[i]).wf() by {
            if i == 0 || i == 7 {
            } else if 1 <= i < 7 {
                assert(shaped(rules@[i], "landcover"@, Some("kind"@)));
            } else if 8 <= i < 36 {
                assert(shaped(rules@[i], "landuse"@, Some("kind"@)));
            } else if 36 <= i < 42 {
                assert(shaped(rules@[i], "boundaries"@, Some("kind_detail"@)));
            } else {
                assert(shaped(rules@[i], "roads"@, Some("kind"@)));
            }
        }
    }
    VectorTileStyle { rules, default_symbol: Symbol::Empty, background: Color::rgb(0xcc, 0xcc, 0xcc) }
}

/// In the map's rule layout only the water rule and the general land-cover
/// rule ask for nothing, and no later rule has their layer.
proof fn lemma_general_rules_last(rules: Seq<StyleRule>)
    requires
        rules.len() == 48,
        shaped(rules[0], "water"@, None),
        forall|i: int| 1 <= i < 7 ==> shaped(#[trigger] rules[i], "landcover"@, Some("kind"@)),
        shaped(rules[7], "landcover"@, None),
        forall|i: int| 8 <= i < 36 ==> shaped(#[trigger] rules[i], "landuse"@, Some("kind"@)),
        forall|i: int| 36 <= i < 42 ==> shaped(#[trigger] rules[i], "boundaries"@, Some("kind_detail"@)),
        forall|i: int| 42 <= i < 48 ==> shaped(#[trigger] rules[i], "roads"@, Some("kind"@)),
    ensures
        general_rules_last(rules),
{
    reveal_strlit("water");
    reveal_strlit("landcover");
    reveal_strlit("landuse");
    reveal_strlit("boundaries");
    reveal_strlit("roads");
    assert("water"@.len() == 5 && "landcover"@.len() == 9 && "landuse"@.len() == 7);
    assert("water"@[0] == 'w' && "roads"@[0] == 'r');
    assert forall|i: int, j: int|
        0 <= i < j < rules.len() && (#[trigger] rules[i]).properties@.len() == 0
            implies rules[i].layer_name is Some && !same_layer((#[trigger] rules[j]).layer_name, rules[i].layer_name) by {
        if 1 <= i < 7 {
            assert(shaped(rules[i], "landcover"@, Some("kind"@)));
        } else if 8 <= i < 36 {
            assert(shaped(rules[i], "landuse"@, Some("kind"@)));
        } else if 36 <= i < 42 {
            assert(shaped(rules[i], "boundaries"@, Some("kind_detail"@)));
        } else if 42 <= i < 48 {
            assert(shaped(rules[i], "roads"@, Some("kind"@)));
        }
        let lj = rules[j].layer_name->Some_0@;
        if 1 <= j < 7 {
            assert(shaped(rules[j], "landcover"@, Some("kind"@)));
        } else if 8 <= j < 36 {
            assert(shaped(rules[j], "landuse"@, Some("kind"@)));
        } else if 36 <= j < 42 {
            assert(shaped(rules[j], "boundaries"@, Some("kind_detail"@)));
        } else if 42 <= j < 48 {
            assert(shaped(rules[j], "roads"@, Some("kind"@)));
        }
        assert(rules[i].layer_name->Some_0@ != lj);
    }
}

} // verus!
