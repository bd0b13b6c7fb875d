use cavif::endpoints::InputSource;
use cavif::endpoints::OutputTarget;
use cavif::job::ConversionOutcome;
use cavif::job::EncodeStats;
use cavif::job::Job;
use cavif::job::JobCommand;
use cavif::job::JobError;
use cavif::job::JobEvent;
use cavif::job::JobPhase;
use cavif::job::kilobytes_rounded_up;
use cavif::job::plan_batch;

fn file_job(input: &str, dest: &str, overwrite: bool) -> (Job, JobCommand) {
    Job::start(
        InputSource::FilePath(input.to_string()),
        OutputTarget::FilePath(dest.to_string()),
        overwrite,
    )
}

fn outcome_of(job: Job) -> ConversionOutcome {
    match job.phase {
        JobPhase::Done(o) => o,
        _ => panic!("job is settled"),
    }
}

#[test]
fn successful_run_reports_breakdown() {
    let (mut job, cmd) = file_job("photo.jpg", "photo.avif", false);
    assert_eq!(cmd, JobCommand::ReadSource);
    assert_eq!(job.advance(JobEvent::ReadFinished(Ok(()))), JobCommand::CheckDestination);
    assert_eq!(job.advance(JobEvent::DestinationChecked(false)), JobCommand::DecodePixels);
    assert_eq!(job.advance(JobEvent::DecodeFinished(Ok(()))), JobCommand::EncodePixels);
    let stats = EncodeStats { total_bytes: 12345, color_bytes: 9000, alpha_bytes: 2000 };
    assert_eq!(job.advance(JobEvent::EncodeFinished(Ok(stats))), JobCommand::WriteOutput);
    assert_eq!(job.advance(JobEvent::WriteFinished(Ok(()))), JobCommand::Finish);
    let outcome = outcome_of(job);
    let line = outcome.success_report(false).expect("a report line");
    assert_eq!(line.as_str(), "photo.avif: 13KB (9000B color, 2000B alpha, 1345B HEIF)");
    assert!(outcome.success_report(true).is_none());
    assert!(outcome.failure_text().is_none());
}

#[test]
fn stdio_destination_skips_existence_check_and_report() {
    let (mut job, _) = Job::start(InputSource::Stdio, OutputTarget::Stdio, false);
    assert_eq!(job.advance(JobEvent::ReadFinished(Ok(()))), JobCommand::DecodePixels);
    assert_eq!(job.advance(JobEvent::DecodeFinished(Ok(()))), JobCommand::EncodePixels);
    let stats = EncodeStats { total_bytes: 10, color_bytes: 5, alpha_bytes: 0 };
    assert_eq!(job.advance(JobEvent::EncodeFinished(Ok(stats))), JobCommand::WriteOutput);
    assert_eq!(job.advance(JobEvent::WriteFinished(Ok(()))), JobCommand::Finish);
    let outcome = outcome_of(job);
    assert!(outcome.success_report(false).is_none());
}

#[test]
fn existing_destination_fails_without_decode_or_encode() {
    let (mut job, cmd0) = file_job("photo.jpg", "photo.avif", false);
    let mut commands = vec![cmd0];
    commands.push(job.advance(JobEvent::ReadFinished(Ok(()))));
    commands.push(job.advance(JobEvent::DestinationChecked(true)));
    // the collaborators were never commanded
    let collaborator_calls = commands
        .iter()
        .filter(|c| **c == JobCommand::DecodePixels || **c == JobCommand::EncodePixels)
        .count();
    assert_eq!(collaborator_calls, 0);
    assert_eq!(commands[2], JobCommand::Finish);
    let outcome = outcome_of(job);
    let text = outcome.failure_text().expect("a failure");
    assert_eq!(text.as_str(), "photo.jpg: error: photo.avif already exists; skipping");
    match &outcome {
        ConversionOutcome::Failure { error: JobError::DestinationExists(_), .. } => {}
        _ => panic!("the failure is a destination-exists policy skip"),
    }
}

#[test]
fn existing_destination_with_overwrite_goes_on() {
    let (mut job, _) = file_job("photo.jpg", "photo.avif", true);
    assert_eq!(job.advance(JobEvent::ReadFinished(Ok(()))), JobCommand::CheckDestination);
    assert_eq!(job.advance(JobEvent::DestinationChecked(true)), JobCommand::DecodePixels);
}

#[test]
fn read_failure_names_the_file() {
    let (mut job, _) = file_job("missing.png", "missing.avif", false);
    let cmd = job.advance(JobEvent::ReadFinished(Err("No such file".to_string())));
    assert_eq!(cmd, JobCommand::Finish);
    let text = outcome_of(job).failure_text().expect("a failure");
    assert_eq!(
        text.as_str(),
        "missing.png: error: Unable to read input image missing.png: No such file"
    );
}

#[test]
fn stdin_read_failure_passes_message_through() {
    let (mut job, _) = Job::start(InputSource::Stdio, OutputTarget::Stdio, false);
    job.advance(JobEvent::ReadFinished(Err("broken pipe".to_string())));
    let text = outcome_of(job).failure_text().expect("a failure");
    assert_eq!(text.as_str(), "stdin: error: broken pipe");
}

#[test]
fn decode_and_encode_failures_are_tagged() {
    let (mut job, _) = file_job("bad.png", "bad.avif", false);
    job.advance(JobEvent::ReadFinished(Ok(())));
    job.advance(JobEvent::DestinationChecked(false));
    job.advance(JobEvent::DecodeFinished(Err("not a PNG".to_string())));
    let text = outcome_of(job).failure_text().expect("a failure");
    assert_eq!(text.as_str(), "bad.png: error: not a PNG");

    let (mut job2, _) = file_job("big.png", "big.avif", false);
    job2.advance(JobEvent::ReadFinished(Ok(())));
    job2.advance(JobEvent::DestinationChecked(false));
    job2.advance(JobEvent::DecodeFinished(Ok(())));
    job2.advance(JobEvent::EncodeFinished(Err("encoder gave up".to_string())));
    let text2 = outcome_of(job2).failure_text().expect("a failure");
    assert_eq!(text2.as_str(), "big.png: error: encoder gave up");
}

#[test]
fn write_failure_is_wrapped() {
    let (mut job, _) = file_job("a.png", "a.avif", false);
    job.advance(JobEvent::ReadFinished(Ok(())));
    job.advance(JobEvent::DestinationChecked(false));
    job.advance(JobEvent::DecodeFinished(Ok(())));
    let stats = EncodeStats { total_bytes: 10, color_bytes: 1, alpha_bytes: 1 };
    job.advance(JobEvent::EncodeFinished(Ok(stats)));
    job.advance(JobEvent::WriteFinished(Err("disk full".to_string())));
    let text = outcome_of(job).failure_text().expect("a failure");
    assert_eq!(text.as_str(), "a.png: error: Unable to write output image: disk full");
}

#[test]
fn batch_planning_maps_every_input_before_any_read() {
    let sources = vec![
        InputSource::FilePath("a.png".to_string()),
        InputSource::Stdio,
        InputSource::FilePath("b.png".to_string()),
    ];
    let output = Some(OutputTarget::FilePath("out".to_string()));
    let jobs = plan_batch(sources, &output, true, false);
    assert_eq!(jobs.len(), 3);
    match &jobs[0].dest {
        OutputTarget::FilePath(p) => assert_eq!(p.as_str(), "out/a.avif"),
        _ => panic!("a file destination"),
    }
    match &jobs[1].dest {
        OutputTarget::FilePath(p) => assert_eq!(p.as_str(), "out"),
        _ => panic!("stdin goes to the explicit path"),
    }
    match &jobs[2].dest {
        OutputTarget::FilePath(p) => assert_eq!(p.as_str(), "out/b.avif"),
        _ => panic!("a file destination"),
    }
    assert!(matches!(jobs[0].phase, JobPhase::AwaitingRead));
}

#[test]
fn kilobytes_round_upward() {
    assert_eq!(kilobytes_rounded_up(0), 0);
    assert_eq!(kilobytes_rounded_up(1), 1);
    assert_eq!(kilobytes_rounded_up(999), 1);
    assert_eq!(kilobytes_rounded_up(1000), 1);
    assert_eq!(kilobytes_rounded_up(1001), 2);
    assert_eq!(kilobytes_rounded_up(12345), 13);
}
