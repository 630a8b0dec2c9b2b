use rpbrt::Raytracer;
use rpbrt::ParseError;
use rpbrt::integrators::IntegratorConfig;
use rpbrt::integrators::LightSampleStrategy;
use rpbrt::integrators::PathIntegrator;
use rpbrt::integrators::PixelBounds;
use rpbrt::parser::Parser;
use rpbrt::parser::lexer::lex_integrator;

fn built_integrator(text: &str) -> PathIntegrator {
    let parser = Parser::from(text).expect("the scene text must parse");
    match lex_integrator(&parser) {
        IntegratorConfig::Path(pi) => pi,
    }
}

fn assert_default(pi: &PathIntegrator) {
    assert_eq!(pi.max_depth, 5);
    assert_eq!(pi.pixel_bounds, PixelBounds { x_start: 0, x_end: 0, y_start: 0, y_end: 0 });
    assert_eq!(pi.rr_threshold, "1.0");
    assert_eq!(pi.light_sample_strat, LightSampleStrategy::Spatial);
}

#[test]
fn raytracer_import_scene() {
    let scene_text = "integrator:\n  type: path\n";
    let rt = Raytracer::from(scene_text);
    match rt {
        Err(ParseError::IOError(ref err)) => println!("Unexpected IO error: {}", err.message),
        Err(ParseError::YamlScanError(ref err)) => println!("YAML parse error: {}", err.message),
        Err(ParseError::UnknownValueError(_)) => println!("Unknown error"),
        Ok(_) => println!("It works!"),
    }

    assert_eq!(2 + 2, 4);
}

#[test]
fn missing_section_yields_exact_defaults() {
    let pi = built_integrator("camera:\n  fov: 45\n");
    assert_default(&pi);
}

#[test]
fn empty_document_yields_exact_defaults() {
    let pi = built_integrator("");
    assert_default(&pi);
}

#[test]
fn non_mapping_root_yields_exact_defaults() {
    let pi = built_integrator("- one\n- two\n");
    assert_default(&pi);
}

#[test]
fn non_mapping_integrator_value_yields_exact_defaults() {
    let pi = built_integrator("integrator: 3\n");
    assert_default(&pi);
}

#[test]
fn subset_max_depth_only() {
    let pi = built_integrator("integrator:\n  max_depth: 12\n");
    assert_eq!(pi.max_depth, 12);
    assert_eq!(pi.pixel_bounds, PixelBounds { x_start: 0, x_end: 0, y_start: 0, y_end: 0 });
    assert_eq!(pi.rr_threshold, "1.0");
    assert_eq!(pi.light_sample_strat, LightSampleStrategy::Spatial);
}

#[test]
fn subset_threshold_and_strategy_only() {
    let pi = built_integrator("integrator:\n  rr_threshold: 0.25\n  light_sample_strategy: power\n");
    assert_eq!(pi.max_depth, 5);
    assert_eq!(pi.pixel_bounds, PixelBounds { x_start: 0, x_end: 0, y_start: 0, y_end: 0 });
    assert_eq!(pi.rr_threshold, "0.25");
    assert_eq!(pi.light_sample_strat, LightSampleStrategy::Power);
}

#[test]
fn subset_pixel_bounds_only() {
    let pi = built_integrator("integrator:\n  pixel_bounds: [1, 2, 3, 4]\n");
    assert_eq!(pi.max_depth, 5);
    assert_eq!(pi.pixel_bounds, PixelBounds { x_start: 1, x_end: 2, y_start: 3, y_end: 4 });
    assert_eq!(pi.rr_threshold, "1.0");
    assert_eq!(pi.light_sample_strat, LightSampleStrategy::Spatial);
}

#[test]
fn full_section_takes_every_value() {
    let text = "integrator:\n  type: path\n  max_depth: 5\n  pixel_bounds: [0, 0, 0, 0]\n  rr_threshold: 1.0\n  light_sample_strategy: spatial\n";
    let pi = built_integrator(text);
    assert_default(&pi);
}

#[test]
fn uniform_strategy_is_parsed() {
    let pi = built_integrator("integrator:\n  light_sample_strategy: uniform\n");
    assert_eq!(pi.light_sample_strat, LightSampleStrategy::Uniform);
}

#[test]
fn unknown_strategy_takes_default() {
    let pi = built_integrator("integrator:\n  light_sample_strategy: sideways\n");
    assert_eq!(pi.light_sample_strat, LightSampleStrategy::Spatial);
}

#[test]
fn malformed_fields_take_defaults_individually() {
    let text = "integrator:\n  max_depth: very deep\n  pixel_bounds: [1, 2, 3]\n  rr_threshold: -1.0\n";
    let pi = built_integrator(text);
    assert_default(&pi);
}

#[test]
fn out_of_range_max_depth_takes_default() {
    let pi = built_integrator("integrator:\n  max_depth: 4294967296\n");
    assert_eq!(pi.max_depth, 5);
}

#[test]
fn discriminator_sequence_is_treated_as_absent() {
    let pi = built_integrator("integrator:\n  type: [1, 2]\n  max_depth: 7\n");
    assert_eq!(pi.max_depth, 7);
    assert_eq!(pi.light_sample_strat, LightSampleStrategy::Spatial);
}

#[test]
fn discriminator_mapping_is_treated_as_absent() {
    let pi = built_integrator("integrator:\n  type:\n    kind: path\n  max_depth: 6\n");
    assert_eq!(pi.max_depth, 6);
}

#[test]
fn unrecognized_discriminator_takes_default_kind() {
    let pi = built_integrator("integrator:\n  type: whitted\n  max_depth: 9\n");
    assert_eq!(pi.max_depth, 9);
    assert_eq!(pi.light_sample_strat, LightSampleStrategy::Spatial);
}

#[test]
fn piped_scene_text_sets_max_depth() {
    let rt = Raytracer::from("integrator:\n  max_depth: 8\n").expect("the scene text must parse");
    match rt.integrator() {
        IntegratorConfig::Path(pi) => {
            assert_eq!(pi.max_depth, 8);
            assert_eq!(
                pi.pixel_bounds,
                PixelBounds { x_start: 0, x_end: 0, y_start: 0, y_end: 0 }
            );
            assert_eq!(pi.rr_threshold, "1.0");
            assert_eq!(pi.light_sample_strat, LightSampleStrategy::Spatial);
        },
    }
}

#[test]
fn first_document_is_consumed() {
    let pi = built_integrator("---\nintegrator:\n  max_depth: 3\n---\nintegrator:\n  max_depth: 9\n");
    assert_eq!(pi.max_depth, 3);
}

#[test]
fn spatial_strategy_is_parsed() {
    let pi = built_integrator("integrator:\n  light_sample_strategy: spatial\n");
    assert_eq!(pi.light_sample_strat, LightSampleStrategy::Spatial);
}

#[test]
fn integer_threshold_text_is_kept() {
    let pi = built_integrator("integrator:\n  rr_threshold: 2\n");
    assert_eq!(pi.rr_threshold, "2");
}

#[test]
fn bounds_with_a_non_scalar_item_take_the_default() {
    let pi = built_integrator("integrator:\n  pixel_bounds: [1, [2], 3, 4]\n");
    assert_eq!(pi.pixel_bounds, PixelBounds { x_start: 0, x_end: 0, y_start: 0, y_end: 0 });
}

#[test]
fn malformed_text_yields_syntax_error() {
    let r = Parser::from("integrator: {\n");
    match r {
        Err(ParseError::YamlScanError(detail)) => {
            // The failure carries the scanner's report and its position.
            assert!(!detail.message.is_empty());
            assert!(detail.message.contains("line"));
            assert!(detail.line >= 1);
        },
        _ => panic!("a malformed document must yield the syntax error"),
    }
}

#[test]
fn assembly_propagates_syntax_error_unchanged() {
    let r = Raytracer::from("integrator: {\n");
    match r {
        Err(ParseError::YamlScanError(detail)) => {
            assert!(!detail.message.is_empty());
        },
        Err(_) => panic!("only the syntax error may come out of a malformed document"),
        Ok(_) => panic!("no scene may be assembled from a malformed document"),
    }
}

#[test]
fn error_descriptions_carry_the_message() {
    let io = ParseError::IOError(rpbrt::parser::IoFailure {
        os_code: Some(2),
        message: String::from("No such file or directory"),
    });
    assert_eq!(io.description(), "No such file or directory");

    let unknown = ParseError::UnknownValueError(String::from("film.resolution"));
    assert_eq!(unknown.description(), "film.resolution");

    let scan = Parser::from("a: [1,\nb: 2\n");
    if let Err(e) = scan {
        assert!(!e.description().is_empty());
    } else {
        panic!("the unterminated sequence must yield the syntax error");
    }
}

#[test]
fn with_max_depth_replaces_only_the_depth() {
    let mut pi = PathIntegrator::new();
    pi.with_max_depth(11);
    assert_eq!(pi.max_depth, 11);
    assert_eq!(pi.pixel_bounds, PixelBounds { x_start: 0, x_end: 0, y_start: 0, y_end: 0 });
    assert_eq!(pi.rr_threshold, "1.0");
    assert_eq!(pi.light_sample_strat, LightSampleStrategy::Spatial);
}

#[test]
fn render_scene_runs_on_an_assembled_scene() {
    let mut rt = Raytracer::from("integrator:\n  max_depth: 2\n").expect("the scene text must parse");
    rt.render_scene();
    match rt.integrator() {
        IntegratorConfig::Path(pi) => assert_eq!(pi.max_depth, 2),
    }
}
