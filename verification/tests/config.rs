use qemu_test_runner::config::defaults;
use qemu_test_runner::config::{Config, ScenarioConfig, StepConfig};
use qemu_test_runner::ssh::SshAction;
use qemu_test_runner::tester::{RunConfig, Step};

#[test]
fn defaults_propagation() {
    let config = Config {
        user: "".into(),
        password: "".into(),
        ssh_timeout_ms: 1,
        poweroff_timeout_ms: 0,
        poweroff_command: "".into(),
        retries: 1,
        step_timeout_ms: 1,
        build: Some(ScenarioConfig {
            retries: None,
            steps: vec![vec![StepConfig::PatchTransfer {
                to: "./wow".into(),
                timeout_ms: None,
            }]],
        }),
        tests: Default::default(),
        output_limit: None,
    };

    let run_config = RunConfig::from(config);

    assert_eq!(run_config.build.retries, 1);
    match &run_config.build.steps[0][0] {
        Step::TransferPatch { to, timeout } => {
            assert_eq!(to, "./wow");
            assert_eq!(*timeout, 1);
        }
        other => panic!("unexpected enum option: {:?}", other),
    }
}

#[test]
fn default_values() {
    assert_eq!(defaults::user(), "root");
    assert_eq!(defaults::password(), "password");
    assert_eq!(defaults::timeout_20_s(), 20_000);
    assert_eq!(defaults::poweroff_command(), "/sbin/poweroff");
    assert_eq!(defaults::retries(), 3);
    assert_eq!(defaults::timeout_5_s(), 5_000);
}

#[test]
fn step_keeps_its_own_timeout() {
    let step = StepConfig::Command {
        command: "make".into(),
        timeout_ms: Some(12),
    }
    .into_step(5_000);
    match step {
        Step::Action {
            action: SshAction::Exec { cmd },
            timeout,
        } => {
            assert_eq!(cmd, "make");
            assert_eq!(timeout, 12);
        }
        other => panic!("unexpected step: {:?}", other),
    }
}
