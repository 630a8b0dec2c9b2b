//! Configuration objects for the light-transport integrator component.

use crate::numeral::all_digits;
use crate::numeral::is_decimal_numeral;
use vstd::prelude::*;

verus! {

/// The integrator implements the light transport algorithm that computes
/// radiance arriving at the film plane from surfaces and participating media
/// in the scene.
#[allow(non_snake_case)]
pub trait Integrator {
    fn Render(&mut self) {
    }

    fn Preprocess(&mut self) {
    }
}

/// The light sample strategy is the technique used for sampling light sources.
/// Options include:
/// - "uniform", which samples all light sources uniformly
/// - "power", which samples light sources according to their emitted power
/// - "spatial", which computes light contributions in regions of the scene and
///   samples from a related distribution.
#[derive(Clone, Copy, Debug, PartialEq, Eq, Structural)]
pub enum LightSampleStrategy {
    Uniform,
    Power,
    Spatial,
}

/// Subset of the image to sample during rendering; the values give the
/// starting and ending x coordinates and then the starting and ending y
/// coordinates. The all-zero value is a sentinel meaning "entire image".
#[derive(Clone, Copy, Debug, PartialEq, Eq, Structural)]
pub struct PixelBounds {
    pub x_start: u32,
    pub x_end: u32,
    pub y_start: u32,
    pub y_end: u32,
}

impl PixelBounds {
    /// The sentinel bounds that mean "process the entire image".
    pub open spec fn entire_image_spec() -> PixelBounds {
        PixelBounds { x_start: 0, x_end: 0, y_start: 0, y_end: 0 }
    }

    /// Builds the sentinel bounds that mean "process the entire image".
    pub fn entire_image() -> (r: PixelBounds)
        ensures
            r == PixelBounds::entire_image_spec(),
    {
        PixelBounds { x_start: 0, x_end: 0, y_start: 0, y_end: 0 }
    }
}

/// Parameters of a Path integrator:
/// - `max_depth`: maximum length of a light-carrying path sampled by the
///   integrator.
/// - `pixel_bounds`: subset of the image to sample during rendering
///   (primarily useful for narrowing down to a few pixels for debugging).
/// - `rr_threshold`: when the maximum spectral component of the path
///   contribution falls beneath this value, Russian roulette starts to be
///   used. Held as its non-negative decimal numeral, exactly as it stands in
///   the scene description.
/// - `light_sample_strat`: the technique used for sampling light sources.
pub struct PathIntegrator {
    pub max_depth: u32,
    pub pixel_bounds: PixelBounds,
    pub rr_threshold: String,
    pub light_sample_strat: LightSampleStrategy,
}

/// The default path-integrator depth: paths with at most five vertices.
pub open spec fn default_max_depth() -> u32 {
    5
}

/// The default Russian-roulette threshold, as its decimal numeral.
pub open spec fn default_rr_threshold() -> Seq<char> {
    "1.0"@
}

/// The default light sample strategy.
pub open spec fn default_light_sample_strategy() -> LightSampleStrategy {
    LightSampleStrategy::Spatial
}

/// Whether a path-integrator configuration holds exactly the default values.
pub open spec fn is_default_path_integrator(p: PathIntegrator) -> bool {
    &&& p.max_depth == default_max_depth()
    &&& p.pixel_bounds == PixelBounds::entire_image_spec()
    &&& p.rr_threshold@ == default_rr_threshold()
    &&& p.light_sample_strat == default_light_sample_strategy()
}

impl PathIntegrator {
    /// A configuration is well formed when its Russian-roulette threshold is
    /// a non-negative decimal numeral. Every constructor establishes this,
    /// whatever the document held.
    pub open spec fn wf(&self) -> bool {
        is_decimal_numeral(self.rr_threshold@)
    }

    /// Builds the default configuration; the values match the ones defined in
    /// the reference scene-description format.
    pub fn new() -> (r: PathIntegrator)
        ensures
            is_default_path_integrator(r),
            r.wf(),
    {
        proof {
            lemma_default_rr_threshold_wellformed();
        }
        PathIntegrator {
            max_depth: 5,
            pixel_bounds: PixelBounds::entire_image(),
            rr_threshold: default_rr_threshold_text(),
            light_sample_strat: LightSampleStrategy::Spatial,
        }
    }

    /// Replaces the maximum path depth, leaving every other field unchanged.
    pub fn with_max_depth(&mut self, max_depth: u32)
        ensures
            final(self).max_depth == max_depth,
            final(self).pixel_bounds == old(self).pixel_bounds,
            final(self).rr_threshold@ == old(self).rr_threshold@,
            final(self).light_sample_strat == old(self).light_sample_strat,
    {
        self.max_depth = max_depth;
    }
}

impl Integrator for PathIntegrator {
}

/// The integrator configuration of a scene: one of a closed set of
/// integrator kinds, each carrying its own parameter set.
pub enum IntegratorConfig {
    Path(PathIntegrator),
}

/// Builds the default Russian-roulette threshold numeral.
pub fn default_rr_threshold_text() -> (r: String)
    ensures
        r@ == default_rr_threshold(),
{
    String::from_str("1.0")
}

/// The default Russian-roulette threshold is itself a non-negative decimal
/// numeral.
pub proof fn lemma_default_rr_threshold_wellformed()
    ensures
        is_decimal_numeral(default_rr_threshold()),
{
    reveal_strlit("1.0");
    let t = "1.0"@;
    assert(t.len() == 3);
    assert(t[0] == '1' && t[1] == '.' && t[2] == '0');
    assert(all_digits(t.take(1)));
    assert(all_digits(t.skip(2)));
}

} // verus!
