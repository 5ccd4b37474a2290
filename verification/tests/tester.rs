use qemu_test_runner::config::{Config, ScenarioConfig, StepConfig};
use qemu_test_runner::executor::{ActionReport, ExecutorConfig, ExecutorReport};
use qemu_test_runner::names::NameMap;
use qemu_test_runner::patch_validator::{Patch, PatchValidator};
use qemu_test_runner::qemu::{Image, ImageBuf, ImageBuilder};
use qemu_test_runner::ssh::SshAction;
use qemu_test_runner::tester::{
    attempt_image_path, PatchProcessor, RunConfig, RunReport, Scenario, ScenarioReport, Step,
};
use qemu_test_runner::{IoFailure, IoKind, Output};

fn patch(validator: &mut PatchValidator, path: &str) -> Patch {
    let name = path.rsplit('/').next().unwrap();
    validator
        .validate(path, Some(name), Ok(true))
        .expect("failed to validate patch")
}

fn action_report(exit_code: i32) -> ActionReport {
    ActionReport {
        action: SshAction::Exec {
            cmd: "./patch".into(),
        },
        timeout_ms: 1_000,
        elapsed_time_ms: 7,
        output: Output::Finished {
            exit_code,
            stdout: vec![],
            stderr: vec![],
        },
    }
}

fn phase_report(image: &str, exit_code: i32) -> ExecutorReport {
    ExecutorReport {
        image: image.into(),
        ssh_ok: true,
        action_reports: vec![action_report(exit_code)],
        exit_ok: true,
    }
}

fn processor() -> PatchProcessor {
    let mut tests = NameMap::new();
    tests.insert(
        "test".to_string(),
        Scenario {
            retries: 1,
            steps: vec![vec![Step::Action {
                action: SshAction::Exec {
                    cmd: "./patch".into(),
                },
                timeout: 1_000,
            }]],
        },
    );
    PatchProcessor {
        builder: ImageBuilder {
            cmd: "qemu-img".into(),
        },
        base_image: "/images/minix.img".into(),
        run_config: RunConfig {
            execution: ExecutorConfig::test(),
            build: Scenario {
                retries: 0,
                steps: vec![vec![Step::TransferPatch {
                    to: "patch".into(),
                    timeout: 1_000,
                }]],
            },
            tests,
        },
        artifacts_root: "/artifacts".into(),
    }
}

/// Runs one scenario as the program would, with a guest whose only command
/// exits with `exit_code`.
fn run_scenario(
    processor: &PatchProcessor,
    patch: &Patch,
    base: Image<'_>,
    artifacts: &str,
    scenario: &Scenario,
    exit_code: i32,
) -> ScenarioReport {
    let mut report = ScenarioReport::default();
    while let Some(plan) = processor.run_scenario(patch, base, artifacts, scenario, &report) {
        let mut attempt = Vec::new();
        for _phase in &plan.phases {
            let failed = exit_code != 0;
            attempt.push(phase_report(&plan.image, exit_code));
            if failed {
                break;
            }
        }
        report.push_attempt(attempt);
    }
    report
}

fn process(processor: &PatchProcessor, patch: &Patch, exit_code: i32) -> RunReport {
    let plan = processor.process(patch);
    let build = run_scenario(
        processor,
        patch,
        Image::Raw(&processor.base_image),
        &plan.build_root,
        &processor.run_config.build,
        0,
    );
    let tests = processor.tests(patch, &build);
    let mut report = RunReport::new(build);
    if let Some(tests) = tests {
        for (i, job) in tests.jobs.iter().enumerate() {
            let scenario = processor.run_config.tests.value_at(i);
            let outcome = run_scenario(
                processor,
                patch,
                tests.image.as_image(),
                &job.root,
                scenario,
                exit_code,
            );
            report = report
                .test_finished(job.name.clone(), Ok(outcome))
                .expect("testing failed");
        }
    }
    report
}

#[test]
fn concurrent_tests() {
    let mut validator = PatchValidator::default();
    let mut patches = vec![];
    for i in 0..3 {
        let name = format!("aa{}{}{}{}{}{}.patch", i, i, i, i, i, i);
        let path = format!("/tmp/base/{}", name);
        patches.push((patch(&mut validator, &path), i));
    }

    let processor = processor();

    let reports: Vec<(String, RunReport)> = patches
        .iter()
        .map(|(patch, i)| (patch.id().to_string(), process(&processor, patch, *i)))
        .collect();

    assert_eq!(reports.len(), 3);

    let find = |id: &str| {
        &reports
            .iter()
            .find(|(name, _)| name == id)
            .expect("missing report")
            .1
    };
    let report_0 = find("aa000000");
    let report_1 = find("aa111111");
    let report_2 = find("aa222222");

    for (_, report) in &reports {
        assert!(report.build().success());
        assert_eq!(report.tests().len(), 1);
        assert!(report.tests().get("test").is_some());
    }

    assert!(report_0.tests().get("test").unwrap().success());
    assert_eq!(report_0.tests().get("test").unwrap().0.len(), 1);

    assert!(!report_1.tests().get("test").unwrap().success());
    assert_eq!(report_1.tests().get("test").unwrap().0.len(), 2);

    assert!(!report_2.tests().get("test").unwrap().success());
    assert_eq!(report_2.tests().get("test").unwrap().0.len(), 2);
}

#[test]
fn zero_retries_give_one_attempt() {
    let processor = processor();
    let mut validator = PatchValidator::new();
    let patch = patch(&mut validator, "/p/aa000000.patch");
    let scenario = Scenario {
        retries: 0,
        steps: vec![vec![Step::Action {
            action: SshAction::Exec { cmd: "false".into() },
            timeout: 5,
        }]],
    };
    let report = run_scenario(&processor, &patch, Image::Raw("/base"), "/a", &scenario, 1);
    assert_eq!(report.attempts(), 1);
    assert!(!report.success());
}

#[test]
fn a_failing_scenario_is_tried_once_more_than_its_retries() {
    let processor = processor();
    let mut validator = PatchValidator::new();
    let patch = patch(&mut validator, "/p/aa000000.patch");
    let scenario = Scenario {
        retries: 3,
        steps: vec![vec![Step::Action {
            action: SshAction::Exec { cmd: "false".into() },
            timeout: 5,
        }]],
    };
    let report = run_scenario(&processor, &patch, Image::Raw("/base"), "/a", &scenario, 1);
    assert_eq!(report.attempts(), 4);
    assert!(!report.success());
    assert_eq!(report.last_image().unwrap(), "/a/attempt_4.qcow2");
}

#[test]
fn retries_stop_on_the_first_success() {
    let mut report = ScenarioReport::default();
    assert_eq!(report.next_attempt(5), Some(0));
    report.push_attempt(vec![phase_report("i", 1)]);
    assert_eq!(report.next_attempt(5), Some(1));
    report.push_attempt(vec![phase_report("i", 0), phase_report("i", 2)]);
    assert_eq!(report.next_attempt(5), Some(2));
    report.push_attempt(vec![phase_report("i", 0), phase_report("i", 0)]);
    assert_eq!(report.next_attempt(5), None);
    assert!(report.success());
}

#[test]
fn a_scenario_without_phases_is_one_empty_attempt() {
    let processor = processor();
    let mut validator = PatchValidator::new();
    let patch = patch(&mut validator, "/p/aa000000.patch");
    let scenario = Scenario {
        retries: 3,
        steps: vec![],
    };
    let report = run_scenario(&processor, &patch, Image::Raw("/base"), "/a", &scenario, 1);
    assert_eq!(report.0.len(), 1);
    assert!(report.0[0].is_empty());
    assert!(report.success());
    assert!(report.last_image().is_none());
}

#[test]
fn success_is_that_of_the_last_phase_of_the_last_attempt() {
    let report = ScenarioReport(vec![
        vec![phase_report("i", 0)],
        vec![phase_report("i", 1), phase_report("i", 0)],
    ]);
    assert!(report.success());
    let report = ScenarioReport(vec![
        vec![phase_report("i", 0)],
        vec![phase_report("i", 0), phase_report("i", 1)],
    ]);
    assert!(!report.success());
    assert!(ScenarioReport(vec![]).success());
    assert!(ScenarioReport(vec![vec![phase_report("i", 1)], vec![]]).success());
}

#[test]
fn attempt_plan_names_image_command_and_steps() {
    let processor = processor();
    let mut validator = PatchValidator::new();
    let patch = patch(&mut validator, "/p/aa000000.patch");
    let mut report = ScenarioReport::default();
    report.push_attempt(vec![phase_report("x", 1)]);
    let scenario = Scenario {
        retries: 2,
        steps: vec![
            vec![
                Step::TransferPatch {
                    to: "patch".into(),
                    timeout: 11,
                },
                Step::Action {
                    action: SshAction::Exec { cmd: "sh patch".into() },
                    timeout: 12,
                },
            ],
            vec![Step::Action {
                action: SshAction::Send {
                    from: "/host/file".into(),
                    to: "file".into(),
                },
                timeout: 13,
            }],
        ],
    };
    let plan = processor
        .run_scenario(
            &patch,
            Image::Raw("/images/minix.img"),
            "/artifacts/aa000000/build",
            &scenario,
            &report,
        )
        .expect("an attempt is left");
    assert_eq!(plan.attempt, 1);
    assert_eq!(plan.image, "/artifacts/aa000000/build/attempt_2.qcow2");
    assert_eq!(
        plan.create,
        vec![
            "create",
            "-f",
            "qcow2",
            "-b",
            "/images/minix.img",
            "-F",
            "raw",
            "/artifacts/aa000000/build/attempt_2.qcow2"
        ]
    );
    assert_eq!(plan.phases.len(), 2);
    assert_eq!(plan.phases[0].len(), 2);
    assert!(matches!(
        &plan.phases[0][0],
        (SshAction::Send { from, to }, 11) if from == "/p/aa000000.patch" && to == "patch"
    ));
    assert!(matches!(
        &plan.phases[0][1],
        (SshAction::Exec { cmd }, 12) if cmd == "sh patch"
    ));
    assert!(matches!(
        &plan.phases[1][0],
        (SshAction::Send { from, to }, 13) if from == "/host/file" && to == "file"
    ));
}

#[test]
fn attempt_images_are_numbered_from_one() {
    assert_eq!(attempt_image_path("/a/b", 0), "/a/b/attempt_1.qcow2");
    assert_eq!(attempt_image_path("/a/b/", 9), "/a/b/attempt_10.qcow2");
    assert_eq!(attempt_image_path("", 41), "attempt_42.qcow2");
}

#[test]
fn directories_of_a_patch() {
    let processor = processor();
    let mut validator = PatchValidator::new();
    let patch = patch(&mut validator, "/p/ab123456.patch");
    let plan = processor.process(&patch);
    assert_eq!(plan.root, "/artifacts/ab123456");
    assert_eq!(plan.build_root, "/artifacts/ab123456/build");
}

#[test]
fn tests_start_from_the_overlay_of_the_last_build_attempt() {
    let processor = processor();
    let mut validator = PatchValidator::new();
    let patch = patch(&mut validator, "/p/ab123456.patch");
    let build = ScenarioReport(vec![
        vec![phase_report("/artifacts/ab123456/build/attempt_1.qcow2", 1)],
        vec![phase_report("/artifacts/ab123456/build/attempt_2.qcow2", 0)],
    ]);
    let plan = processor.tests(&patch, &build).expect("the build passed");
    assert_eq!(plan.tests_root, "/artifacts/ab123456/tests");
    assert!(matches!(
        &plan.image,
        ImageBuf::Qcow2(path) if path == "/artifacts/ab123456/build/attempt_2.qcow2"
    ));
    assert_eq!(plan.jobs.len(), 1);
    assert_eq!(plan.jobs[0].name, "test");
    assert_eq!(plan.jobs[0].root, "/artifacts/ab123456/tests/test");

    let no_phases = ScenarioReport(vec![vec![]]);
    let plan = processor.tests(&patch, &no_phases).expect("the build passed");
    assert!(matches!(
        &plan.image,
        ImageBuf::Qcow2(path) if path == "/artifacts/ab123456/build/attempt_1.qcow2"
    ));

    let nothing = ScenarioReport(vec![]);
    let plan = processor.tests(&patch, &nothing).expect("the build passed");
    assert!(matches!(&plan.image, ImageBuf::Raw(path) if path == "/images/minix.img"));
}

#[test]
fn no_tests_after_a_failed_build() {
    let processor = processor();
    let mut validator = PatchValidator::new();
    let patch = patch(&mut validator, "/p/ab123456.patch");
    let build = ScenarioReport(vec![vec![phase_report("i", 1)]]);
    assert!(processor.tests(&patch, &build).is_none());

    let report = RunReport::new(ScenarioReport(vec![vec![phase_report("i", 1)]]));
    let report = report
        .test_finished(
            "test".into(),
            Ok(ScenarioReport(vec![vec![phase_report("i", 0)]])),
        )
        .unwrap();
    assert!(!report.build().success());
    assert!(report.tests().is_empty());
}

#[test]
fn an_error_of_the_harness_ends_the_process() {
    let report = RunReport::new(ScenarioReport(vec![vec![phase_report("i", 0)]]));
    let failure = IoFailure {
        kind: IoKind::Other,
        message: "cannot spawn".into(),
    };
    let result = report.test_finished("test".into(), Err(failure));
    assert!(matches!(result, Err(IoFailure { kind: IoKind::Other, message }) if message == "cannot spawn"));
}

#[test]
fn test_reports_are_kept_by_name() {
    let report = RunReport::new(ScenarioReport(vec![vec![phase_report("i", 0)]]));
    let report = report
        .test_finished("b".into(), Ok(ScenarioReport(vec![vec![phase_report("i", 1)]])))
        .unwrap();
    let report = report
        .test_finished("a".into(), Ok(ScenarioReport(vec![vec![phase_report("i", 0)]])))
        .unwrap();
    assert_eq!(report.tests().len(), 2);
    assert!(!report.tests().get("b").unwrap().success());
    assert!(report.tests().get("a").unwrap().success());
    assert!(report.tests().get("c").is_none());
}

#[test]
fn step_actions() {
    let patch = "/p/aa000000.patch".to_string();
    let step = Step::TransferPatch {
        to: "dst".into(),
        timeout: 9,
    };
    assert!(matches!(
        step.action(&patch),
        SshAction::Send { from, to } if from == "/p/aa000000.patch" && to == "dst"
    ));
    assert_eq!(step.timeout(), 9);
    let step = Step::Action {
        action: SshAction::Exec { cmd: "ls".into() },
        timeout: 4,
    };
    assert!(matches!(step.action(&patch), SshAction::Exec { cmd } if cmd == "ls"));
    assert_eq!(step.timeout(), 4);
}

#[test]
fn run_config_takes_defaults_from_the_suite() {
    let mut tests = NameMap::new();
    tests.insert(
        "one".to_string(),
        ScenarioConfig {
            retries: Some(7),
            steps: vec![vec![StepConfig::Command {
                command: "ls".into(),
                timeout_ms: None,
            }]],
        },
    );
    tests.insert(
        "two".to_string(),
        ScenarioConfig {
            retries: None,
            steps: vec![
                vec![],
                vec![StepConfig::FileTransfer {
                    from: "/a".into(),
                    to: "b".into(),
                    timeout_ms: Some(3),
                }],
            ],
        },
    );
    let config = Config {
        user: "u".into(),
        password: "p".into(),
        ssh_timeout_ms: 10,
        poweroff_timeout_ms: 20,
        poweroff_command: "halt".into(),
        retries: 2,
        step_timeout_ms: 30,
        build: None,
        tests,
        output_limit: Some(64),
    };
    let run = RunConfig::from(config);
    assert_eq!(run.execution.user, "u");
    assert_eq!(run.execution.password, "p");
    assert_eq!(run.execution.connection_timeout, 10);
    assert_eq!(run.execution.poweroff_timeout, 20);
    assert_eq!(run.execution.poweroff_command, "halt");
    assert_eq!(run.execution.output_limit, Some(64));
    assert_eq!(run.build.retries, 0);
    assert!(run.build.steps.is_empty());
    assert_eq!(run.tests.len(), 2);
    assert_eq!(run.tests.name_at(0), "one");
    assert_eq!(run.tests.name_at(1), "two");
    let one = run.tests.get("one").unwrap();
    assert_eq!(one.retries, 7);
    assert!(matches!(
        &one.steps[0][0],
        Step::Action { action: SshAction::Exec { cmd }, timeout: 30 } if cmd == "ls"
    ));
    let two = run.tests.get("two").unwrap();
    assert_eq!(two.retries, 2);
    assert_eq!(two.steps.len(), 2);
    assert!(two.steps[0].is_empty());
    assert!(matches!(
        &two.steps[1][0],
        Step::Action { action: SshAction::Send { from, to }, timeout: 3 } if from == "/a" && to == "b"
    ));
}

#[test]
fn sources_of_file_transfers_are_normalized() {
    let mut step = StepConfig::FileTransfer {
        from: "wow".into(),
        to: "wow".into(),
        timeout_ms: None,
    };
    assert_eq!(step.source("/tmp/dir").unwrap(), "/tmp/dir/wow");
    step.normalize_path("/tmp/dir/wow".into());
    assert!(matches!(&step, StepConfig::FileTransfer { from, to, timeout_ms: None } if from == "/tmp/dir/wow" && to == "wow"));

    let absolute = StepConfig::FileTransfer {
        from: "/tmp/dir".into(),
        to: "wow".into(),
        timeout_ms: None,
    };
    assert_eq!(absolute.source("/tmp/dir").unwrap(), "/tmp/dir");
    let upwards = StepConfig::FileTransfer {
        from: "../wow".into(),
        to: "../wow".into(),
        timeout_ms: None,
    };
    assert_eq!(upwards.source("/tmp/dir").unwrap(), "/tmp/dir/../wow");

    let mut command = StepConfig::Command {
        command: "ls".into(),
        timeout_ms: Some(1),
    };
    assert!(command.source("/tmp").is_none());
    command.normalize_path("/elsewhere".into());
    assert!(matches!(&command, StepConfig::Command { command, timeout_ms: Some(1) } if command == "ls"));
    let mut transfer = StepConfig::PatchTransfer {
        to: "p".into(),
        timeout_ms: None,
    };
    assert!(transfer.source("/tmp").is_none());
    transfer.normalize_path("/elsewhere".into());
    assert!(matches!(&transfer, StepConfig::PatchTransfer { to, timeout_ms: None } if to == "p"));
}
