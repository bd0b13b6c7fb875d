use cavif::batch::aggregate;
use cavif::endpoints::InputSource;
use cavif::endpoints::OutputTarget;
use cavif::errors::ConfigError;
use cavif::job::ConversionOutcome;
use cavif::job::EncodeStats;
use cavif::job::JobError;

fn success(dest: &str) -> ConversionOutcome {
    ConversionOutcome::Success {
        target: OutputTarget::FilePath(dest.to_string()),
        stats: EncodeStats { total_bytes: 100, color_bytes: 60, alpha_bytes: 20 },
    }
}

fn failure(source: &str, message: &str) -> ConversionOutcome {
    ConversionOutcome::Failure {
        description: source.to_string(),
        error: JobError::Decode(message.to_string()),
    }
}

#[test]
fn failures_and_successes_are_partitioned() {
    let outcomes = vec![
        success("a.avif"),
        failure("b.png", "not a PNG"),
        success("c.avif"),
        failure("d.png", "truncated"),
        success("e.avif"),
    ];
    let summary = aggregate(&outcomes);
    assert_eq!(summary.failure_count, 2);
    assert_eq!(summary.success_count, 3);
    assert_eq!(summary.exit_code, 1);
    assert_eq!(summary.failure_lines.len(), 2);
    assert_eq!(summary.failure_lines[0].as_str(), "error: b.png: error: not a PNG");
    assert_eq!(summary.failure_lines[1].as_str(), "error: d.png: error: truncated");
}

#[test]
fn clean_batch_exits_zero() {
    let outcomes = vec![success("a.avif"), success("b.avif")];
    let summary = aggregate(&outcomes);
    assert_eq!(summary.failure_count, 0);
    assert_eq!(summary.success_count, 2);
    assert_eq!(summary.exit_code, 0);
    assert!(summary.failure_lines.is_empty());
}

#[test]
fn empty_batch_summary() {
    let summary = aggregate(&Vec::new());
    assert_eq!(summary.failure_count, 0);
    assert_eq!(summary.success_count, 0);
    assert_eq!(summary.exit_code, 0);
}

#[test]
fn error_chains_render_cause_by_cause() {
    let inner = ConfigError::new("invalid digit found in string".to_string());
    let outer = ConfigError::wrapping("bad quality value".to_string(), inner);
    let lines = outer.render_lines();
    assert_eq!(lines.len(), 2);
    assert_eq!(lines[0].as_str(), "error: bad quality value");
    assert_eq!(lines[1].as_str(), "  because: invalid digit found in string");
}

#[test]
fn source_descriptions() {
    assert_eq!(InputSource::Stdio.description().as_str(), "stdin");
    assert_eq!(
        InputSource::FilePath("img/a.png".to_string()).description().as_str(),
        "img/a.png"
    );
}
