//! Component builder dispatch: reads the integrator section of the document
//! and produces a fully defaulted integrator configuration.
//!
//! Every field of the section stands alone: a field that is absent, or whose
//! value has the wrong shape, takes its documented default, while a
//! well-formed field takes its parsed value. A missing section yields the
//! default configuration outright, and nothing in the section can make the
//! build fail.

use crate::integrators::IntegratorConfig;
use crate::integrators::LightSampleStrategy;
use crate::integrators::PathIntegrator;
use crate::integrators::PixelBounds;
use crate::integrators::default_light_sample_strategy;
use crate::integrators::default_max_depth;
use crate::integrators::default_rr_threshold;
use crate::integrators::default_rr_threshold_text;
use crate::integrators::is_default_path_integrator;
use crate::numeral::is_decimal;
use crate::numeral::is_decimal_numeral;
use crate::numeral::is_u32_numeral;
use crate::numeral::numeral_value;
use crate::numeral::parse_u32;
use crate::parser::Node;
use crate::parser::Parser;
use crate::parser::ParserNode;
use crate::parser::node_lookup;
use crate::parser::scalar_text;
use crate::parser::str_eq;
use vstd::prelude::*;

verus! {

/// The scalar text of the value under `key` in the section; a missing key
/// and a non-scalar value are both absences.
pub open spec fn scalar_field(sec: Node, key: Seq<char>) -> Option<Seq<char>> {
    match node_lookup(sec, key) {
        Some(n) => scalar_text(n),
        None => None,
    }
}

/// The items of the value under `key` in the section when it is a sequence;
/// a missing key and a value of another shape are both absences.
pub open spec fn sequence_field(sec: Node, key: Seq<char>) -> Option<Seq<Node>> {
    match node_lookup(sec, key) {
        Some(n) => match n {
            Node::Sequence(items) => Some(items@),
            _ => None,
        },
        None => None,
    }
}

/// The maximum path depth that the section prescribes: the value of its
/// `max_depth` scalar when that is an unsigned numeral in range, and the
/// default depth otherwise.
pub open spec fn max_depth_model(sec: Node) -> u32 {
    match scalar_field(sec, "max_depth"@) {
        Some(t) => if is_u32_numeral(t) {
            numeral_value(t) as u32
        } else {
            default_max_depth()
        },
        None => default_max_depth(),
    }
}

/// The Russian-roulette threshold numeral that the section prescribes: its
/// `rr_threshold` scalar when that is a non-negative decimal number, and the
/// default numeral otherwise.
pub open spec fn rr_threshold_model(sec: Node) -> Seq<char> {
    match scalar_field(sec, "rr_threshold"@) {
        Some(t) => if is_decimal_numeral(t) {
            t
        } else {
            default_rr_threshold()
        },
        None => default_rr_threshold(),
    }
}

/// The strategy that a scalar text selects; unrecognized text selects the
/// default strategy.
pub open spec fn strategy_of_text(t: Seq<char>) -> LightSampleStrategy {
    if t == "uniform"@ {
        LightSampleStrategy::Uniform
    } else if t == "power"@ {
        LightSampleStrategy::Power
    } else {
        LightSampleStrategy::Spatial
    }
}

/// The light sample strategy that the section prescribes.
pub open spec fn light_sample_strategy_model(sec: Node) -> LightSampleStrategy {
    match scalar_field(sec, "light_sample_strategy"@) {
        Some(t) => strategy_of_text(t),
        None => default_light_sample_strategy(),
    }
}

/// The value of one pixel-bounds item: the item must be a scalar unsigned
/// numeral in range.
pub open spec fn bounds_item_value(n: Node) -> Option<u32> {
    match scalar_text(n) {
        Some(t) => if is_u32_numeral(t) {
            Some(numeral_value(t) as u32)
        } else {
            None
        },
        None => None,
    }
}

/// The bounds that a sequence of items spells out: exactly four scalar
/// unsigned numerals, in the order starting x, ending x, starting y,
/// ending y.
pub open spec fn bounds_of_items(items: Seq<Node>) -> Option<PixelBounds> {
    if items.len() == 4 && (forall|i: int| 0 <= i < 4 ==> bounds_item_value(items[i]) is Some) {
        Some(
            PixelBounds {
                x_start: bounds_item_value(items[0])->Some_0,
                x_end: bounds_item_value(items[1])->Some_0,
                y_start: bounds_item_value(items[2])->Some_0,
                y_end: bounds_item_value(items[3])->Some_0,
            },
        )
    } else {
        None
    }
}

/// The pixel bounds that the section prescribes: its `pixel_bounds` value
/// when that is a well-formed four-item sequence, and the entire-image
/// sentinel otherwise.
pub open spec fn pixel_bounds_model(sec: Node) -> PixelBounds {
    match sequence_field(sec, "pixel_bounds"@) {
        Some(items) => match bounds_of_items(items) {
            Some(b) => b,
            None => PixelBounds::entire_image_spec(),
        },
        None => PixelBounds::entire_image_spec(),
    }
}

/// Whether a path-integrator configuration holds exactly the values that
/// the given integrator section (or its absence) prescribes: each field
/// independently takes its parsed value when present and well shaped, and
/// its documented default otherwise.
pub open spec fn path_matches_section(r: PathIntegrator, sec: Option<Node>) -> bool {
    match sec {
        Some(s) => {
            &&& r.max_depth == max_depth_model(s)
            &&& r.pixel_bounds == pixel_bounds_model(s)
            &&& r.rr_threshold@ == rr_threshold_model(s)
            &&& r.light_sample_strat == light_sample_strategy_model(s)
        },
        None => is_default_path_integrator(r),
    }
}

/// The integrator section of a document: the mapping under `integrator` at
/// the root of the first tree. An absent key, a non-mapping value, and a
/// document with no trees or a non-mapping root are all absences.
pub open spec fn docs_integrator_section(docs: Seq<Node>) -> Option<Node> {
    if docs.len() > 0 {
        match node_lookup(docs[0], "integrator"@) {
            Some(n) => if n is Mapping {
                Some(n)
            } else {
                None
            },
            None => None,
        }
    } else {
        None
    }
}

/// The integrator section of the parsed document.
pub open spec fn integrator_section(p: &Parser) -> Option<Node> {
    docs_integrator_section(p.docs())
}

/// Builds the configuration of the default integrator kind with every field
/// at its default value.
pub fn get_default_integrator() -> (r: PathIntegrator)
    ensures
        is_default_path_integrator(r),
{
    PathIntegrator::new()
}

/// Reads the maximum path depth out of the section.
fn build_max_depth(parser: &Parser, sec: &ParserNode) -> (r: u32)
    ensures
        r == max_depth_model(*sec),
{
    match parser.get_string("max_depth", Some(sec)) {
        Some(s) => match parse_u32(s.as_str()) {
            Some(v) => v,
            None => 5,
        },
        None => 5,
    }
}

/// Reads the Russian-roulette threshold numeral out of the section.
fn build_rr_threshold(parser: &Parser, sec: &ParserNode) -> (r: String)
    ensures
        r@ == rr_threshold_model(*sec),
{
    match parser.get_string("rr_threshold", Some(sec)) {
        Some(s) => {
            if is_decimal(s.as_str()) {
                s.clone()
            } else {
                default_rr_threshold_text()
            }
        },
        None => default_rr_threshold_text(),
    }
}

/// Reads the light sample strategy out of the section.
fn build_light_sample_strategy(parser: &Parser, sec: &ParserNode) -> (r: LightSampleStrategy)
    ensures
        r == light_sample_strategy_model(*sec),
{
    match parser.get_string("light_sample_strategy", Some(sec)) {
        Some(s) => {
            if str_eq(s.as_str(), "uniform") {
                LightSampleStrategy::Uniform
            } else if str_eq(s.as_str(), "power") {
                LightSampleStrategy::Power
            } else {
                LightSampleStrategy::Spatial
            }
        },
        None => LightSampleStrategy::Spatial,
    }
}

/// Reads one pixel-bounds item.
fn build_bounds_item(n: &Node) -> (r: Option<u32>)
    ensures
        r == bounds_item_value(*n),
{
    match n {
        Node::Scalar(s) => parse_u32(s.as_str()),
        _ => None,
    }
}

/// Reads the pixel bounds out of the section.
fn build_pixel_bounds(parser: &Parser, sec: &ParserNode) -> (r: PixelBounds)
    ensures
        r == pixel_bounds_model(*sec),
{
    match parser.get_sequence("pixel_bounds", Some(sec)) {
        Some(items) => {
            if items.len() != 4 {
                return PixelBounds::entire_image();
            }
            let x_start = build_bounds_item(&items[0]);
            let x_end = build_bounds_item(&items[1]);
            let y_start = build_bounds_item(&items[2]);
            let y_end = build_bounds_item(&items[3]);
            match (x_start, x_end, y_start, y_end) {
                (Some(a), Some(b), Some(c), Some(d)) => PixelBounds {
                    x_start: a,
                    x_end: b,
                    y_start: c,
                    y_end: d,
                },
                _ => PixelBounds::entire_image(),
            }
        },
        None => PixelBounds::entire_image(),
    }
}

/// Builds the path-integrator configuration that the section prescribes,
/// field by field.
fn build_path_integrator(parser: &Parser, sec: &ParserNode) -> (r: PathIntegrator)
    ensures
        path_matches_section(r, Some(*sec)),
{
    PathIntegrator {
        max_depth: build_max_depth(parser, sec),
        pixel_bounds: build_pixel_bounds(parser, sec),
        rr_threshold: build_rr_threshold(parser, sec),
        light_sample_strat: build_light_sample_strategy(parser, sec),
    }
}

/// Builds the integrator that the given section describes. The `type`
/// discriminator selects the concrete kind; an absent, non-scalar, or
/// unrecognized discriminator selects the default kind (path) rather than
/// erring, so the discriminator never changes the outcome today.
pub fn get_integrator(parser: &Parser, hash_node: &ParserNode) -> (r: PathIntegrator)
    ensures
        path_matches_section(r, Some(*hash_node)),
{
    let integ_type = parser.get_string("type", Some(hash_node));
    if let Some(t) = integ_type {
        if str_eq(t.as_str(), "path") {
            return build_path_integrator(parser, hash_node);
        }
    }
    build_path_integrator(parser, hash_node)
}

/// Builds the integrator configuration of the document: the configuration
/// that the integrator section prescribes, or the default configuration
/// when the section is absent.
pub fn lex_integrator(parser: &Parser) -> (r: IntegratorConfig)
    ensures
        r matches IntegratorConfig::Path(pi) && path_matches_section(
            pi,
            integrator_section(parser),
        ),
{
    let integrator_h = parser.get_hash("integrator", None);
    match integrator_h {
        Some(hash_node) => IntegratorConfig::Path(get_integrator(parser, hash_node)),
        None => IntegratorConfig::Path(get_default_integrator()),
    }
}

/// A document with no integrator section yields exactly the default path
/// configuration: depth five, entire-image bounds, a threshold of one, and
/// spatial light sampling.
pub proof fn lemma_missing_section_defaults(r: PathIntegrator)
    requires
        path_matches_section(r, None),
    ensures
        r.max_depth == 5,
        r.pixel_bounds == PixelBounds::entire_image_spec(),
        r.rr_threshold@ == "1.0"@,
        r.light_sample_strat == LightSampleStrategy::Spatial,
{
}

/// Each field of the integrator section stands alone: when the field is
/// unset its documented default is taken, and when it is set and well
/// formed its parsed value is taken, whatever the rest of the section
/// holds.
pub proof fn lemma_fields_independent(s: Node)
    ensures
        node_lookup(s, "max_depth"@) is None ==> max_depth_model(s) == default_max_depth(),
        scalar_field(s, "max_depth"@) matches Some(t) ==> (is_u32_numeral(t) ==> max_depth_model(
            s,
        ) == numeral_value(t)),
        node_lookup(s, "rr_threshold"@) is None ==> rr_threshold_model(s)
            == default_rr_threshold(),
        scalar_field(s, "rr_threshold"@) matches Some(t) ==> (is_decimal_numeral(t)
            ==> rr_threshold_model(s) == t),
        node_lookup(s, "light_sample_strategy"@) is None ==> light_sample_strategy_model(s)
            == default_light_sample_strategy(),
        scalar_field(s, "light_sample_strategy"@) matches Some(t)
            ==> light_sample_strategy_model(s) == strategy_of_text(t),
        node_lookup(s, "pixel_bounds"@) is None ==> pixel_bounds_model(s)
            == PixelBounds::entire_image_spec(),
        sequence_field(s, "pixel_bounds"@) matches Some(items) ==> (bounds_of_items(items) matches
            Some(b) ==> pixel_bounds_model(s) == b),
{
}

/// No coupling across fields: two sections that agree on what stands under
/// one field's key prescribe the same value for that field, whatever else
/// they hold.
pub proof fn lemma_field_decoupled(s1: Node, s2: Node)
    ensures
        node_lookup(s1, "max_depth"@) == node_lookup(s2, "max_depth"@) ==> max_depth_model(s1)
            == max_depth_model(s2),
        node_lookup(s1, "pixel_bounds"@) == node_lookup(s2, "pixel_bounds"@)
            ==> pixel_bounds_model(s1) == pixel_bounds_model(s2),
        node_lookup(s1, "rr_threshold"@) == node_lookup(s2, "rr_threshold"@)
            ==> rr_threshold_model(s1) == rr_threshold_model(s2),
        node_lookup(s1, "light_sample_strategy"@) == node_lookup(s2, "light_sample_strategy"@)
            ==> light_sample_strategy_model(s1) == light_sample_strategy_model(s2),
{
}

/// Whatever the document holds, a built configuration is well formed: in
/// particular its Russian-roulette threshold is always a non-negative
/// decimal numeral, parsed or defaulted.
pub proof fn lemma_built_config_wellformed(r: PathIntegrator, sec: Option<Node>)
    requires
        path_matches_section(r, sec),
    ensures
        r.wf(),
{
    crate::integrators::lemma_default_rr_threshold_wellformed();
}

/// The discriminator never decides the outcome: the configuration that a
/// section prescribes depends only on what stands under the four field
/// keys. In particular a `type` value of any shape — scalar, sequence, or
/// nested mapping — leaves every field as it would be with the
/// discriminator absent, and never raises an error.
pub proof fn lemma_discriminator_shape_irrelevant(s1: Node, s2: Node)
    requires
        node_lookup(s1, "max_depth"@) == node_lookup(s2, "max_depth"@),
        node_lookup(s1, "pixel_bounds"@) == node_lookup(s2, "pixel_bounds"@),
        node_lookup(s1, "rr_threshold"@) == node_lookup(s2, "rr_threshold"@),
        node_lookup(s1, "light_sample_strategy"@) == node_lookup(s2, "light_sample_strategy"@),
    ensures
        forall|r: PathIntegrator|
            path_matches_section(r, Some(s1)) <==> path_matches_section(r, Some(s2)),
{
    lemma_field_decoupled(s1, s2);
}

} // verus!
