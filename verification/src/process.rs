//! The decisions of the sandbox processes: which namespaces each one enters,
//! what the init process runs, how long to wait for children, and with which
//! exit code each process ends.
use crate::config::{FilesystemOperation, SandboxConfig};
use crate::namespace::NamespaceSet;
use crate::rootfs;
use crate::rootfs::{is_absolute, operation_paths_absolute, plan_view, setup_steps, Step, StepView};
use crate::status::{ExitStatus, WaitOutcome, outcome_status};
use vstd::prelude::*;

verus! {

/// The exit code of a sandbox process whose setup failed after it was forked.
pub const EXIT_SETUP_FAILURE: i32 = 125;

/// The exit code of the init process when the command cannot be executed.
pub const EXIT_EXEC_FAILURE: i32 = 1;

/// What a call of `waitpid` (or `wait`) led to.
#[derive(Clone, Copy, Debug, PartialEq, Eq, Structural)]
pub enum WaitEvent {
    /// A child was reported.
    Reported(WaitOutcome),
    /// The call was interrupted by a signal (`EINTR`).
    Interrupted,
    /// There is no child to wait for (`ECHILD`).
    NoChild,
    /// The call failed with another error number.
    Failed(i32),
}

/// What to do after a call of `waitpid` for one child.
#[derive(Clone, Copy, Debug, PartialEq, Eq, Structural)]
pub enum WaitDecision {
    /// Call `waitpid` again.
    Retry,
    /// The child ended with this status.
    Ended(ExitStatus),
    /// Give up with this error number.
    Fail(i32),
}

/// What to do after a call of `wait` while reaping the orphans of a pid
/// namespace.
#[derive(Clone, Copy, Debug, PartialEq, Eq, Structural)]
pub enum ReapDecision {
    /// Call `wait` again.
    Continue,
    /// No child is left.
    Finished,
    /// Give up with this error number.
    Fail(i32),
}

/// The error number of `ECHILD`, by which a failed wait for a missing child is
/// reported.
pub const ECHILD: i32 = 10;

pub open spec fn reap_decision_spec(event: WaitEvent) -> ReapDecision {
    match event {
        WaitEvent::Reported(_) | WaitEvent::Interrupted => ReapDecision::Continue,
        WaitEvent::NoChild => ReapDecision::Finished,
        WaitEvent::Failed(code) => ReapDecision::Fail(code),
    }
}

/// What to do after waiting for one child: retry until it has ended (or the
/// wait fails with an error other than an interruption).
pub fn wait_decision(event: WaitEvent) -> (decision: WaitDecision)
    ensures
        match event {
            WaitEvent::Reported(outcome) => match outcome_status(outcome) {
                Some(raw) => decision matches WaitDecision::Ended(status) && status@ == raw,
                None => decision is Retry,
            },
            WaitEvent::Interrupted => decision is Retry,
            WaitEvent::NoChild => decision == WaitDecision::Fail(ECHILD),
            WaitEvent::Failed(code) => decision == WaitDecision::Fail(code),
        },
{
    match event {
        WaitEvent::Reported(outcome) => match crate::status::status_from_wait(outcome) {
            Some(status) => WaitDecision::Ended(status),
            None => WaitDecision::Retry,
        },
        WaitEvent::Interrupted => WaitDecision::Retry,
        WaitEvent::NoChild => WaitDecision::Fail(ECHILD),
        WaitEvent::Failed(code) => WaitDecision::Fail(code),
    }
}

/// What to do while the init process reaps the orphans of its pid namespace:
/// keep waiting until no child is left, so that none escapes the sandbox's
/// lifetime.
pub fn reap_decision(event: WaitEvent) -> (decision: ReapDecision)
    ensures
        decision == reap_decision_spec(event),
{
    match event {
        WaitEvent::Reported(_) => ReapDecision::Continue,
        WaitEvent::Interrupted => ReapDecision::Continue,
        WaitEvent::NoChild => ReapDecision::Finished,
        WaitEvent::Failed(code) => ReapDecision::Fail(code),
    }
}

/// The namespaces that the init process enters: always a new mount
/// namespace, and a new network namespace when asked.
pub open spec fn init_namespaces_spec(config: SandboxConfig) -> NamespaceSet {
    NamespaceSet { user: false, mount: true, pid: false, net: config.unshare_net }
}

/// The namespaces that the intermediate process enters after its user
/// namespace is mapped: a new pid namespace when asked, so that init is its
/// first process.
pub open spec fn intermediate_namespaces_spec(config: SandboxConfig) -> NamespaceSet {
    NamespaceSet { user: false, mount: false, pid: config.unshare_pid, net: false }
}

/// The namespaces that the init process enters.
pub fn init_namespaces(config: &SandboxConfig) -> (namespaces: NamespaceSet)
    ensures
        namespaces == init_namespaces_spec(*config),
{
    NamespaceSet { user: false, mount: true, pid: false, net: config.unshare_net }
}

/// The namespaces that the intermediate process enters before it forks init.
pub fn intermediate_namespaces(config: &SandboxConfig) -> (namespaces: NamespaceSet)
    ensures
        namespaces == intermediate_namespaces_spec(*config),
{
    NamespaceSet { user: false, mount: false, pid: config.unshare_pid, net: false }
}

/// Whether every path of the configured filesystem operations is absolute.
pub open spec fn filesystem_paths_absolute(config: SandboxConfig) -> bool {
    forall|i: int|
        0 <= i < config.filesystem@.len() ==> operation_paths_absolute(
            #[trigger] config.filesystem@[i],
        )
}

/// Whether every path of the configured filesystem operations is absolute,
/// as the mount plan needs.
pub fn has_absolute_paths(config: &SandboxConfig) -> (absolute: bool)
    ensures
        absolute == filesystem_paths_absolute(*config),
{
    let mut i: usize = 0;
    while i < config.filesystem.len()
        invariant
            0 <= i <= config.filesystem@.len(),
            forall|j: int| 0 <= j < i ==> operation_paths_absolute(#[trigger] config.filesystem@[j]),
        decreases config.filesystem@.len() - i,
    {
        let absolute = match &config.filesystem[i] {
            FilesystemOperation::Bind { source, destination, .. } => is_absolute(source)
                && is_absolute(destination),
            FilesystemOperation::Tmpfs { destination } => is_absolute(destination),
            FilesystemOperation::Proc { destination } => is_absolute(destination),
            FilesystemOperation::Dir { destination } => is_absolute(destination),
            FilesystemOperation::RemountReadonly { destination } => is_absolute(destination),
        };
        if !absolute {
            return false;
        }
        i = i + 1;
    }
    true
}

/// The mount steps of the init process: make every mount private to the
/// sandbox, then build the new root when filesystem operations are given
/// (with none, the host root stays).
pub open spec fn init_mount_steps(config: SandboxConfig) -> Seq<StepView> {
    seq![rootfs::mount(None, "/"@, None, rootfs::recursive_private(), None)] + if config.filesystem@.len()
        == 0 {
        seq![]
    } else {
        setup_steps(config.filesystem@, config.unshare_pid)
    }
}

/// The mount steps of the init process.
pub fn init_mounts(config: &SandboxConfig) -> (steps: Vec<Step>)
    requires
        filesystem_paths_absolute(*config),
    ensures
        plan_view(steps@) == init_mount_steps(*config),
{
    let mut steps = vec![rootfs::make_mounts_private()];
    if config.filesystem.len() > 0 {
        let mut root = rootfs::setup(&config.filesystem, config.unshare_pid);
        let ghost first = steps@;
        let ghost rest = root@;
        steps.append(&mut root);
        assert(plan_view(steps@) =~= plan_view(first) + plan_view(rest));
    } else {
        assert(plan_view(steps@) =~= init_mount_steps(*config));
    }
    steps
}

/// The exit code of a forked sandbox process: the code that its work gave, or
/// the setup failure code when the work failed.
pub fn forked_exit_code(code: Option<i32>) -> (exit: i32)
    ensures
        exit == match code {
            Some(c) => c,
            None => EXIT_SETUP_FAILURE,
        },
{
    match code {
        Some(c) => c,
        None => EXIT_SETUP_FAILURE,
    }
}

/// How the init process runs the command: with the parent-death signal set
/// (expecting the intermediate process as its parent) when asked, the program
/// and its arguments, the working directory if one is given, and in a new
/// session when asked. The command inherits the standard streams and the
/// environment.
pub struct InitLaunch {
    pub die_with_parent: bool,
    pub program: Vec<u8>,
    pub args: Vec<Vec<u8>>,
    pub current_dir: Option<String>,
    pub new_session: bool,
}

/// How the init process runs the command of `config`.
pub fn init_launch(config: &SandboxConfig) -> (launch: InitLaunch)
    ensures
        launch.die_with_parent == config.die_with_parent,
        launch.program@ == config.program@,
        launch.args@.len() == config.args@.len(),
        forall|i: int| 0 <= i < config.args@.len() ==> #[trigger] launch.args@[i]@ == config.args@[i]@,
        rootfs::text_of(launch.current_dir) == rootfs::text_of(config.current_dir),
        launch.new_session == config.new_session,
{
    let mut args: Vec<Vec<u8>> = Vec::new();
    let mut i: usize = 0;
    while i < config.args.len()
        invariant
            0 <= i <= config.args@.len(),
            args@.len() == i,
            forall|j: int| 0 <= j < i ==> #[trigger] args@[j]@ == config.args@[j]@,
        decreases config.args@.len() - i,
    {
        args.push(copy_bytes(&config.args[i]));
        i = i + 1;
    }
    let current_dir = match &config.current_dir {
        Some(directory) => Some(directory.clone()),
        None => None,
    };
    InitLaunch {
        die_with_parent: config.die_with_parent,
        program: copy_bytes(&config.program),
        args,
        current_dir,
        new_session: config.new_session,
    }
}

/// Whether a byte string holds a NUL byte, which no argument of `execve` can.
pub open spec fn has_nul(bytes: Seq<u8>) -> bool {
    exists|i: int| 0 <= i < bytes.len() && bytes[i] == 0
}

/// Whether every argument can be passed to `execve`.
pub open spec fn argv_valid(program: Seq<u8>, args: Seq<Vec<u8>>) -> bool {
    !has_nul(program) && forall|i: int| 0 <= i < args.len() ==> !has_nul(#[trigger] args[i]@)
}

fn find_nul(bytes: &Vec<u8>) -> (found: bool)
    ensures
        found == has_nul(bytes@),
{
    let mut i: usize = 0;
    while i < bytes.len()
        invariant
            0 <= i <= bytes@.len(),
            forall|j: int| 0 <= j < i ==> bytes@[j] != 0,
        decreases bytes@.len() - i,
    {
        if bytes[i] == 0 {
            return true;
        }
        i = i + 1;
    }
    false
}

fn copy_bytes(bytes: &Vec<u8>) -> (copy: Vec<u8>)
    ensures
        copy@ == bytes@,
{
    let mut copy: Vec<u8> = Vec::new();
    let mut i: usize = 0;
    while i < bytes.len()
        invariant
            0 <= i <= bytes@.len(),
            copy@ == bytes@.take(i as int),
        decreases bytes@.len() - i,
    {
        copy.push(bytes[i]);
        i = i + 1;
        assert(copy@ =~= bytes@.take(i as int));
    }
    assert(bytes@.take(bytes@.len() as int) =~= bytes@);
    copy
}

/// The argument vector with which the init process executes the command:
/// the program, then its arguments; `None` when one of them holds a NUL
/// byte. The command gets an empty environment.
pub fn command_argv(program: &Vec<u8>, args: &Vec<Vec<u8>>) -> (argv: Option<Vec<Vec<u8>>>)
    ensures
        argv is Some <==> argv_valid(program@, args@),
        argv matches Some(argv) ==> {
            &&& argv@.len() == args@.len() + 1
            &&& argv@[0]@ == program@
            &&& forall|i: int| 0 <= i < args@.len() ==> #[trigger] argv@[i + 1]@ == args@[i]@
        },
{
    if find_nul(program) {
        return None;
    }
    let mut argv: Vec<Vec<u8>> = Vec::new();
    argv.push(copy_bytes(program));
    let mut i: usize = 0;
    while i < args.len()
        invariant
            0 <= i <= args@.len(),
            !has_nul(program@),
            forall|j: int| 0 <= j < i ==> !has_nul(#[trigger] args@[j]@),
            argv@.len() == i + 1,
            argv@[0]@ == program@,
            forall|j: int| 0 <= j < i ==> #[trigger] argv@[j + 1]@ == args@[j]@,
        decreases args@.len() - i,
    {
        if find_nul(&args[i]) {
            return None;
        }
        argv.push(copy_bytes(&args[i]));
        i = i + 1;
    }
    Some(argv)
}

/// Each sandbox process enters exactly the namespaces it is asked for: init
/// always a new mount namespace and a new network namespace exactly when
/// `unshare_net` is set, never a user or pid namespace; the intermediate
/// process (after its user namespace) a new pid namespace exactly when
/// `unshare_pid` is set, and nothing else.
pub proof fn lemma_namespaces_as_asked(config: SandboxConfig)
    ensures
        init_namespaces_spec(config).mount,
        init_namespaces_spec(config).net == config.unshare_net,
        !init_namespaces_spec(config).user && !init_namespaces_spec(config).pid,
        intermediate_namespaces_spec(config).pid == config.unshare_pid,
        !intermediate_namespaces_spec(config).user && !intermediate_namespaces_spec(config).mount
            && !intermediate_namespaces_spec(config).net,
{
}

} // verus!
