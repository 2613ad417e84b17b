use bubblewrap::config::{Config, FilesystemOperation, SandboxConfig};
use bubblewrap::process::{
    command_argv, forked_exit_code, init_launch, init_mounts, init_namespaces, intermediate_namespaces,
    reap_decision, wait_decision, ReapDecision, WaitDecision, WaitEvent, ECHILD,
    EXIT_SETUP_FAILURE,
};
use bubblewrap::rootfs::Step;
use bubblewrap::sandbox::Sandbox;
use bubblewrap::status::WaitOutcome;

fn bytes(text: &str) -> Vec<u8> {
    text.as_bytes().to_vec()
}

fn sandbox_config(filesystem: Vec<FilesystemOperation>) -> SandboxConfig {
    SandboxConfig {
        program: bytes("/bin/true"),
        args: vec![],
        current_dir: None,
        die_with_parent: false,
        new_session: true,
        unshare_pid: true,
        unshare_net: true,
        filesystem,
    }
}

#[test]
fn argv_is_program_then_arguments() {
    let argv = command_argv(&bytes("/bin/sh"), &vec![bytes("-c"), bytes("exit 42")]).unwrap();
    assert_eq!(argv, vec![bytes("/bin/sh"), bytes("-c"), bytes("exit 42")]);
}

#[test]
fn nul_bytes_cannot_be_executed() {
    assert!(command_argv(&bytes("/bin/s\0h"), &vec![]).is_none());
    assert!(command_argv(&bytes("/bin/sh"), &vec![bytes("ok"), bytes("b\0ad")]).is_none());
    let mut config = Config::new(bytes("/bin/sh"));
    config.args(vec![bytes("\0")]);
    assert!(Sandbox::new(config).argv().is_none());
}

#[test]
fn sandbox_argv() {
    let mut config = Config::new(bytes("/nonexistent/program"));
    config.args(vec![bytes("x")]);
    let sandbox = Sandbox::new(config);
    assert_eq!(sandbox.argv(), Some(vec![bytes("/nonexistent/program"), bytes("x")]));
    assert_eq!(sandbox.config().program, bytes("/nonexistent/program"));
}

#[test]
fn waiting_for_one_child() {
    match wait_decision(WaitEvent::Reported(WaitOutcome::Exited(42))) {
        WaitDecision::Ended(status) => assert_eq!(status.code(), Some(42)),
        other => panic!("{:?}", other),
    }
    assert_eq!(wait_decision(WaitEvent::Reported(WaitOutcome::Other)), WaitDecision::Retry);
    assert_eq!(wait_decision(WaitEvent::Interrupted), WaitDecision::Retry);
    assert_eq!(wait_decision(WaitEvent::NoChild), WaitDecision::Fail(ECHILD));
    assert_eq!(wait_decision(WaitEvent::Failed(22)), WaitDecision::Fail(22));
}

#[test]
fn reaping_until_no_child_is_left() {
    assert_eq!(reap_decision(WaitEvent::Reported(WaitOutcome::Exited(1))), ReapDecision::Continue);
    assert_eq!(reap_decision(WaitEvent::Reported(WaitOutcome::Other)), ReapDecision::Continue);
    assert_eq!(reap_decision(WaitEvent::Interrupted), ReapDecision::Continue);
    assert_eq!(reap_decision(WaitEvent::NoChild), ReapDecision::Finished);
    assert_eq!(reap_decision(WaitEvent::Failed(4)), ReapDecision::Fail(4));
}

#[test]
fn namespaces_of_each_process() {
    let config = sandbox_config(vec![]);
    let init = init_namespaces(&config);
    assert!(init.mount && init.net && !init.user && !init.pid);
    let intermediate = intermediate_namespaces(&config);
    assert!(intermediate.pid && !intermediate.mount && !intermediate.net && !intermediate.user);
}

#[test]
fn init_mounts_keep_host_root_without_operations() {
    let steps = init_mounts(&sandbox_config(vec![]));
    assert_eq!(steps.len(), 1);
    match &steps[0] {
        Step::Mount { source, target, flags, .. } => {
            assert!(source.is_none());
            assert_eq!(target, "/");
            assert!(flags.rec && flags.private && !flags.bind);
        }
        other => panic!("{:?}", other),
    }
    let with_root = init_mounts(&sandbox_config(vec![FilesystemOperation::Dir {
        destination: "/x".to_string(),
    }]));
    assert_eq!(with_root.len(), 1 + 5 + 2 + 1 + 2 + 6);
}

#[test]
fn forked_processes_exit_codes() {
    assert_eq!(forked_exit_code(Some(3)), 3);
    assert_eq!(forked_exit_code(None), EXIT_SETUP_FAILURE);
    assert_eq!(EXIT_SETUP_FAILURE, 125);
}

#[test]
fn init_launch_keeps_the_command_settings() {
    let mut config = sandbox_config(vec![]);
    config.args = vec![bytes("-c"), bytes("true")];
    config.current_dir = Some("/work".to_string());
    let launch = init_launch(&config);
    assert_eq!(launch.program, bytes("/bin/true"));
    assert_eq!(launch.args, vec![bytes("-c"), bytes("true")]);
    assert_eq!(launch.current_dir.as_deref(), Some("/work"));
    assert!(launch.new_session);
    assert!(!launch.die_with_parent);
}
