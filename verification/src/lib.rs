//! Scene-description front end of a physically based renderer.
//!
//! A configuration document (mappings, sequences and scalars) is parsed into
//! an immutable tree, and the tree is walked to build fully defaulted,
//! strongly typed configuration objects for the renderer components.

pub mod integrators;
pub mod numeral;
pub mod parser;
pub mod types;

pub use parser::ParseError;

use crate::integrators::IntegratorConfig;
use crate::parser::Parser;
use crate::parser::lexer::docs_integrator_section;
use crate::parser::lexer::integrator_section;
use crate::parser::lexer::lex_integrator;
use crate::parser::lexer::path_matches_section;
use crate::parser::yaml_documents;
use crate::parser::yaml_scan_failure;
use vstd::prelude::*;

verus! {

/// The scene information extracted from a document, aggregated for the
/// rendering core. Holds one component today: the integrator configuration.
struct SceneData {
    pub integrator: IntegratorConfig,
}

/// The renderer: owns the assembled scene configuration.
pub struct Raytracer {
    scene: SceneData,
}

impl Raytracer {
    /// The integrator configuration of the assembled scene.
    pub closed spec fn integrator_config(&self) -> IntegratorConfig {
        self.scene.integrator
    }

    /// Assembles a renderer from the source text of a scene description.
    ///
    /// The text is parsed once; a syntax error propagates unchanged — the
    /// very failure the loader reported, with its position and message —
    /// and no partial scene is ever produced. On success every component
    /// configuration is fully defaulted from the document.
    pub fn from(source_text: &str) -> (r: Result<Raytracer, ParseError>)
        ensures
            r is Ok <==> yaml_documents(source_text@) is Some,
            r matches Ok(rt) ==> (rt.integrator_config() matches IntegratorConfig::Path(pi)
                && path_matches_section(
                pi,
                docs_integrator_section(yaml_documents(source_text@)->Some_0),
            )),
            r matches Err(e) ==> (e matches ParseError::YamlScanError(f) && (
            f.line as nat,
            f.col as nat,
            f.message@,
            ) == yaml_scan_failure(source_text@)),
    {
        let parser = match Parser::from(source_text) {
            Ok(p) => p,
            Err(e) => {
                return Err(e);
            },
        };
        let scene_data = Raytracer::build_scene_from(&parser);
        let rt = Raytracer { scene: scene_data };
        Ok(rt)
    }

    /// Using the given parser, extracts the scene information to build a
    /// scene data representation usable by the raytracer. This is the
    /// function responsible for setting all the default values.
    fn build_scene_from(parser: &Parser) -> (r: SceneData)
        ensures
            r.integrator matches IntegratorConfig::Path(pi) && path_matches_section(
                pi,
                integrator_section(parser),
            ),
    {
        let integrator = Raytracer::build_integrator(parser);
        SceneData { integrator }
    }

    /// Builds the integrator component from the document.
    fn build_integrator(parser: &Parser) -> (r: IntegratorConfig)
        ensures
            r matches IntegratorConfig::Path(pi) && path_matches_section(
                pi,
                integrator_section(parser),
            ),
    {
        lex_integrator(parser)
    }

    /// The assembled integrator configuration.
    pub fn integrator(&self) -> (r: &IntegratorConfig)
        ensures
            *r == self.integrator_config(),
    {
        &self.scene.integrator
    }

    /// Renders the scene. The light-transport algorithms are outside this
    /// configuration core, so rendering leaves the scene untouched.
    pub fn render_scene(&mut self)
        ensures
            *final(self) == *old(self),
    {
    }
}

} // verus!
