use cavif::endpoints::InputSource;
use cavif::endpoints::OutputTarget;
use cavif::outputs::needs_directory_creation;
use cavif::outputs::parse_output_token;
use cavif::outputs::resolve_output;
use cavif::outputs::use_directory;

fn path_of(t: &OutputTarget) -> &str {
    match t {
        OutputTarget::FilePath(p) => p.as_str(),
        OutputTarget::Stdio => panic!("expected a file destination"),
    }
}

#[test]
fn no_override_replaces_extension() {
    let input = InputSource::FilePath("photo.jpg".to_string());
    let r = resolve_output(&None, &input, false);
    assert_eq!(path_of(&r), "photo.avif");
}

#[test]
fn no_override_stdin_becomes_stdout() {
    let r = resolve_output(&None, &InputSource::Stdio, false);
    assert!(matches!(r, OutputTarget::Stdio));
}

#[test]
fn stdio_override_wins() {
    let g = Some(OutputTarget::Stdio);
    let input = InputSource::FilePath("photo.jpg".to_string());
    assert!(matches!(resolve_output(&g, &input, false), OutputTarget::Stdio));
    assert!(matches!(resolve_output(&g, &InputSource::Stdio, false), OutputTarget::Stdio));
}

#[test]
fn path_override_for_stdin_input() {
    let g = Some(OutputTarget::FilePath("dest.avif".to_string()));
    let r = resolve_output(&g, &InputSource::Stdio, false);
    assert_eq!(path_of(&r), "dest.avif");
}

#[test]
fn single_input_takes_override_as_file() {
    let g = Some(OutputTarget::FilePath("dest.avif".to_string()));
    let input = InputSource::FilePath("photo.jpg".to_string());
    let use_dir = use_directory(&g, 1, false);
    assert!(!use_dir);
    let r = resolve_output(&g, &input, use_dir);
    assert_eq!(path_of(&r), "dest.avif");
}

#[test]
fn multiple_inputs_go_under_directory_in_any_order() {
    let g = Some(OutputTarget::FilePath("out".to_string()));
    let a = InputSource::FilePath("a.png".to_string());
    let b = InputSource::FilePath("b.png".to_string());
    let use_dir = use_directory(&g, 2, false);
    assert!(use_dir);
    // one processing order
    let ra = resolve_output(&g, &a, use_dir);
    let rb = resolve_output(&g, &b, use_dir);
    assert_eq!(path_of(&ra), "out/a.avif");
    assert_eq!(path_of(&rb), "out/b.avif");
    // the opposite order resolves identically
    let rb2 = resolve_output(&g, &b, use_dir);
    let ra2 = resolve_output(&g, &a, use_dir);
    assert_eq!(path_of(&ra2), path_of(&ra));
    assert_eq!(path_of(&rb2), path_of(&rb));
}

#[test]
fn existing_directory_override_used_for_single_input() {
    let g = Some(OutputTarget::FilePath("out".to_string()));
    let input = InputSource::FilePath("sub/img.jpeg".to_string());
    let use_dir = use_directory(&g, 1, true);
    assert!(use_dir);
    let r = resolve_output(&g, &input, use_dir);
    assert_eq!(path_of(&r), "out/img.avif");
}

#[test]
fn resolution_is_repeatable() {
    let g = Some(OutputTarget::FilePath("out".to_string()));
    let input = InputSource::FilePath("a.png".to_string());
    let first = resolve_output(&g, &input, true);
    let second = resolve_output(&g, &input, true);
    assert_eq!(path_of(&first), path_of(&second));
}

#[test]
fn directory_creation_only_for_shared_explicit_output() {
    let g = Some(OutputTarget::FilePath("out".to_string()));
    assert!(needs_directory_creation(&g, 2));
    assert!(!needs_directory_creation(&g, 1));
    assert!(!needs_directory_creation(&None, 5));
    assert!(!needs_directory_creation(&Some(OutputTarget::Stdio), 5));
}

#[test]
fn output_flag_dash_is_standard_output() {
    assert!(matches!(parse_output_token(&"-".to_string()), OutputTarget::Stdio));
    match parse_output_token(&"out.avif".to_string()) {
        OutputTarget::FilePath(p) => assert_eq!(p.as_str(), "out.avif"),
        _ => panic!("a path token resolves to a file target"),
    }
}
