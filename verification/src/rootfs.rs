//! The root filesystem of a sandbox, as a plan of mount steps.
//!
//! The new root is built on a tmpfs mounted on `/tmp`: the host root is moved
//! to `/oldroot` by a first `pivot_root`, the configured operations fill
//! `/newroot` (reading host paths below `/oldroot`), the host root is detached,
//! and a second `pivot_root` makes `/newroot` the root. The plan lists every
//! step in order; the caller carries them out and stops at the first failure.
use crate::config::FilesystemOperation;
use vstd::prelude::*;
use vstd::string::StringExecFns;
use vstd::string::StrSliceExecFns;

verus! {

/// The mode of a directory that a `Dir` operation creates, and of its missing
/// parents: `rwxr-xr-x`.
pub const DIRECTORY_MODE: u32 = 0o755;

/// The mode of every other directory created for a sandbox (staging
/// directories, mount points and their missing parents): `rwxrwxrwx`, the
/// default of `mkdir`, so that only the umask takes bits away.
pub const DEFAULT_DIRECTORY_MODE: u32 = 0o777;

/// The flags of a mount.
#[derive(Clone, Copy, Debug, PartialEq, Eq, Structural)]
pub struct MountFlags {
    pub bind: bool,
    pub rec: bool,
    pub private: bool,
    pub remount: bool,
    pub rdonly: bool,
    pub nosuid: bool,
    pub nodev: bool,
    pub noexec: bool,
}

/// One step of building the root filesystem.
#[derive(Clone, Debug)]
pub enum Step {
    /// `mount(source, target, fstype, flags, data)`.
    Mount {
        source: Option<String>,
        target: String,
        fstype: Option<String>,
        flags: MountFlags,
        data: Option<String>,
    },
    /// Detach the mount at the path (`umount2` with `MNT_DETACH`).
    Unmount(String),
    /// Change the working directory.
    ChangeDir(String),
    /// Create one directory with the mode (before the umask).
    CreateDir(String, u32),
    /// Create a directory and its missing parents, each new one with the
    /// mode (before the umask); existing directories keep theirs.
    CreateDirAll(String, u32),
    /// Create an empty file (mode 0644) and its missing parent directories,
    /// keeping a file that exists.
    CreateFileTarget(String),
    /// `pivot_root(new_root, put_old)`.
    PivotRoot(String, String),
    /// Create the mount point for a bind mount of the host path (first
    /// field) at the second field: a directory when the host path is one,
    /// else a file. See [`bind_target_step`].
    PrepareBindTarget(String, String),
    /// Open `/` as a directory and keep the descriptor.
    OpenStagingRoot,
    /// Change the working directory to the kept descriptor.
    ReturnToStagingRoot,
}

/// A step, as text.
pub enum StepView {
    Mount {
        source: Option<Seq<char>>,
        target: Seq<char>,
        fstype: Option<Seq<char>>,
        flags: MountFlags,
        data: Option<Seq<char>>,
    },
    Unmount(Seq<char>),
    ChangeDir(Seq<char>),
    CreateDir(Seq<char>, u32),
    CreateDirAll(Seq<char>, u32),
    CreateFileTarget(Seq<char>),
    PivotRoot(Seq<char>, Seq<char>),
    PrepareBindTarget(Seq<char>, Seq<char>),
    OpenStagingRoot,
    ReturnToStagingRoot,
}

pub open spec fn text_of(s: Option<String>) -> Option<Seq<char>> {
    match s {
        Some(s) => Some(s@),
        None => None,
    }
}

impl View for Step {
    type V = StepView;

    open spec fn view(&self) -> StepView {
        match self {
            Step::Mount { source, target, fstype, flags, data } => StepView::Mount {
                source: text_of(*source),
                target: target@,
                fstype: text_of(*fstype),
                flags: *flags,
                data: text_of(*data),
            },
            Step::Unmount(p) => StepView::Unmount(p@),
            Step::ChangeDir(p) => StepView::ChangeDir(p@),
            Step::CreateDir(p, mode) => StepView::CreateDir(p@, *mode),
            Step::CreateDirAll(p, mode) => StepView::CreateDirAll(p@, *mode),
            Step::CreateFileTarget(p) => StepView::CreateFileTarget(p@),
            Step::PivotRoot(a, b) => StepView::PivotRoot(a@, b@),
            Step::PrepareBindTarget(a, b) => StepView::PrepareBindTarget(a@, b@),
            Step::OpenStagingRoot => StepView::OpenStagingRoot,
            Step::ReturnToStagingRoot => StepView::ReturnToStagingRoot,
        }
    }
}

/// A plan, as text.
pub open spec fn plan_view(steps: Seq<Step>) -> Seq<StepView> {
    steps.map_values(|s: Step| s@)
}

pub open spec fn no_flags() -> MountFlags {
    MountFlags {
        bind: false,
        rec: false,
        private: false,
        remount: false,
        rdonly: false,
        nosuid: false,
        nodev: false,
        noexec: false,
    }
}

/// `MS_BIND | MS_REC`.
pub open spec fn recursive_bind() -> MountFlags {
    MountFlags { bind: true, rec: true, ..no_flags() }
}

/// `MS_REC | MS_PRIVATE`.
pub open spec fn recursive_private() -> MountFlags {
    MountFlags { rec: true, private: true, ..no_flags() }
}

/// `MS_BIND | MS_REMOUNT | MS_RDONLY`.
pub open spec fn readonly_remount() -> MountFlags {
    MountFlags { bind: true, remount: true, rdonly: true, ..no_flags() }
}

/// `MS_NODEV | MS_NOSUID`.
pub open spec fn tmpfs_flags() -> MountFlags {
    MountFlags { nodev: true, nosuid: true, ..no_flags() }
}

/// `MS_NOSUID | MS_NODEV | MS_NOEXEC`.
pub open spec fn proc_flags() -> MountFlags {
    MountFlags { nosuid: true, nodev: true, noexec: true, ..no_flags() }
}

/// Whether a path is absolute.
pub open spec fn absolute(path: Seq<char>) -> bool {
    path.len() > 0 && path[0] == '/'
}

/// The path without its leading slashes.
pub open spec fn strip_slashes(path: Seq<char>) -> Seq<char>
    decreases path.len(),
{
    if path.len() > 0 && path[0] == '/' {
        strip_slashes(path.drop_first())
    } else {
        path
    }
}

/// The absolute path `path`, placed below the directory `root`.
pub open spec fn join_under(root: Seq<char>, path: Seq<char>) -> Seq<char> {
    let relative = strip_slashes(path);
    if relative.len() == 0 {
        root
    } else {
        root + seq!['/'] + relative
    }
}

/// A host path, as seen between the two pivots.
pub open spec fn oldroot_path(path: Seq<char>) -> Seq<char> {
    join_under("/oldroot"@, path)
}

/// A path of the sandbox, as seen between the two pivots.
pub open spec fn newroot_path(path: Seq<char>) -> Seq<char> {
    join_under("/newroot"@, path)
}

/// A mount step.
pub open spec fn mount(
    source: Option<Seq<char>>,
    target: Seq<char>,
    fstype: Option<Seq<char>>,
    flags: MountFlags,
    data: Option<Seq<char>>,
) -> StepView {
    StepView::Mount { source, target, fstype, flags, data }
}

/// A read-only remount of the mount at `target`.
pub open spec fn remount_readonly(target: Seq<char>) -> StepView {
    mount(Some(target), target, None, readonly_remount(), None)
}

/// Mounting a tmpfs on `/tmp`, with the directories `newroot` (bind-mounted on
/// itself, to be a mount point) and `oldroot` in it.
pub open spec fn staging_root_steps() -> Seq<StepView> {
    seq![
        mount(Some("tmpfs"@), "/tmp"@, Some("tmpfs"@), tmpfs_flags(), Some("mode=0755"@)),
        StepView::ChangeDir("/tmp"@),
        StepView::CreateDir("newroot"@, DEFAULT_DIRECTORY_MODE),
        mount(Some("newroot"@), "newroot"@, None, recursive_bind(), None),
        StepView::CreateDir("oldroot"@, DEFAULT_DIRECTORY_MODE),
    ]
}

/// Making the staging tmpfs the root, with the host root at `/oldroot`.
pub open spec fn first_pivot_steps() -> Seq<StepView> {
    seq![StepView::PivotRoot("/tmp"@, "oldroot"@), StepView::ChangeDir("/"@)]
}

/// The steps of one filesystem operation. A procfs is mounted fresh in a new
/// pid namespace, and else bind-mounted from the host.
pub open spec fn operation_steps(operation: FilesystemOperation, unshare_pid: bool) -> Seq<
    StepView,
> {
    match operation {
        FilesystemOperation::Bind { source, destination, readonly } => {
            let source = oldroot_path(source@);
            let destination = newroot_path(destination@);
            seq![
                StepView::PrepareBindTarget(source, destination),
                mount(Some(source), destination, None, recursive_bind(), None),
            ] + if readonly {
                seq![remount_readonly(destination)]
            } else {
                seq![]
            }
        },
        FilesystemOperation::Tmpfs { destination } => {
            let destination = newroot_path(destination@);
            seq![
                StepView::CreateDirAll(destination, DEFAULT_DIRECTORY_MODE),
                mount(Some("tmpfs"@), destination, Some("tmpfs"@), tmpfs_flags(), Some("mode=0755"@)),
            ]
        },
        FilesystemOperation::Proc { destination } => {
            let destination = newroot_path(destination@);
            seq![
                StepView::CreateDirAll(destination, DEFAULT_DIRECTORY_MODE),
                if unshare_pid {
                    mount(Some("proc"@), destination, Some("proc"@), proc_flags(), None)
                } else {
                    mount(Some("/oldroot/proc"@), destination, None, recursive_bind(), None)
                },
            ]
        },
        FilesystemOperation::Dir { destination } => seq![
            StepView::CreateDirAll(newroot_path(destination@), DIRECTORY_MODE),
        ],
        FilesystemOperation::RemountReadonly { destination } => seq![
            remount_readonly(newroot_path(destination@)),
        ],
    }
}

/// The steps of the operations, in order.
pub open spec fn operations_steps(operations: Seq<FilesystemOperation>, unshare_pid: bool) -> Seq<
    StepView,
>
    decreases operations.len(),
{
    if operations.len() == 0 {
        seq![]
    } else {
        operations_steps(operations.drop_last(), unshare_pid) + operation_steps(
            operations.last(),
            unshare_pid,
        )
    }
}

/// Making the host root private to the sandbox and detaching it.
pub open spec fn detach_host_root_steps() -> Seq<StepView> {
    seq![
        mount(None, "/oldroot"@, None, recursive_private(), None),
        StepView::Unmount("/oldroot"@),
    ]
}

/// Making `/newroot` the root and detaching the staging tmpfs above it.
pub open spec fn second_pivot_steps() -> Seq<StepView> {
    seq![
        StepView::OpenStagingRoot,
        StepView::ChangeDir("/newroot"@),
        StepView::PivotRoot("."@, "."@),
        StepView::ReturnToStagingRoot,
        StepView::Unmount("."@),
        StepView::ChangeDir("/"@),
    ]
}

/// The whole plan.
pub open spec fn setup_steps(operations: Seq<FilesystemOperation>, unshare_pid: bool) -> Seq<
    StepView,
> {
    staging_root_steps() + first_pivot_steps() + operations_steps(operations, unshare_pid)
        + detach_host_root_steps() + second_pivot_steps()
}

/// Whether every path of an operation is absolute.
pub open spec fn operation_paths_absolute(operation: FilesystemOperation) -> bool {
    match operation {
        FilesystemOperation::Bind { source, destination, .. } => absolute(source@) && absolute(
            destination@,
        ),
        FilesystemOperation::Tmpfs { destination } => absolute(destination@),
        FilesystemOperation::Proc { destination } => absolute(destination@),
        FilesystemOperation::Dir { destination } => absolute(destination@),
        FilesystemOperation::RemountReadonly { destination } => absolute(destination@),
    }
}

fn flags_recursive_bind() -> (flags: MountFlags)
    ensures
        flags == recursive_bind(),
{
    MountFlags {
        bind: true,
        rec: true,
        private: false,
        remount: false,
        rdonly: false,
        nosuid: false,
        nodev: false,
        noexec: false,
    }
}

fn flags_recursive_private() -> (flags: MountFlags)
    ensures
        flags == recursive_private(),
{
    MountFlags {
        bind: false,
        rec: true,
        private: true,
        remount: false,
        rdonly: false,
        nosuid: false,
        nodev: false,
        noexec: false,
    }
}

fn flags_readonly_remount() -> (flags: MountFlags)
    ensures
        flags == readonly_remount(),
{
    MountFlags {
        bind: true,
        rec: false,
        private: false,
        remount: true,
        rdonly: true,
        nosuid: false,
        nodev: false,
        noexec: false,
    }
}

fn flags_tmpfs() -> (flags: MountFlags)
    ensures
        flags == tmpfs_flags(),
{
    MountFlags {
        bind: false,
        rec: false,
        private: false,
        remount: false,
        rdonly: false,
        nosuid: true,
        nodev: true,
        noexec: false,
    }
}

fn flags_proc() -> (flags: MountFlags)
    ensures
        flags == proc_flags(),
{
    MountFlags {
        bind: false,
        rec: false,
        private: false,
        remount: false,
        rdonly: false,
        nosuid: true,
        nodev: true,
        noexec: true,
    }
}

/// Whether a path is absolute.
pub fn is_absolute(path: &String) -> (absolute_path: bool)
    ensures
        absolute_path == absolute(path@),
{
    let length = path.as_str().unicode_len();
    length > 0 && path.as_str().get_char(0) == '/'
}

proof fn lemma_strip_slashes_skip(path: Seq<char>, k: int)
    requires
        0 <= k < path.len(),
        path[k] == '/',
    ensures
        strip_slashes(path.skip(k)) == strip_slashes(path.skip(k + 1)),
{
    assert(path.skip(k).drop_first() =~= path.skip(k + 1));
}

/// The absolute path `path`, placed below the directory `root`.
pub fn join_under_text(root: &str, path: &String) -> (joined: String)
    requires
        absolute(path@),
    ensures
        joined@ == join_under(root@, path@),
{
    let text = path.as_str();
    let length = text.unicode_len();
    let mut start: usize = 0;
    assert(path@.skip(0) =~= path@);
    while start < length && text.get_char(start) == '/'
        invariant
            length == path@.len(),
            text@ == path@,
            0 <= start <= length,
            strip_slashes(path@.skip(start as int)) == strip_slashes(path@),
        decreases length - start,
    {
        proof {
            lemma_strip_slashes_skip(path@, start as int);
        }
        start = start + 1;
    }
    let relative = text.substring_char(start, length);
    assert(relative@ =~= path@.skip(start as int));
    assert(strip_slashes(relative@) == relative@);
    if start == length {
        root.to_owned()
    } else {
        let mut joined = root.to_owned();
        proof {
            reveal_strlit("/");
        }
        joined.append("/");
        joined.append(relative);
        joined
    }
}

/// A host path, as seen between the two pivots (below `/oldroot`).
pub fn oldroot_path_text(path: &String) -> (joined: String)
    requires
        absolute(path@),
    ensures
        joined@ == oldroot_path(path@),
{
    join_under_text("/oldroot", path)
}

/// A path of the sandbox, as seen between the two pivots (below `/newroot`).
pub fn newroot_path_text(path: &String) -> (joined: String)
    requires
        absolute(path@),
    ensures
        joined@ == newroot_path(path@),
{
    join_under_text("/newroot", path)
}

fn mount_step(
    source: Option<String>,
    target: String,
    fstype: Option<String>,
    flags: MountFlags,
    data: Option<String>,
) -> (step: Step)
    ensures
        step@ == mount(text_of(source), target@, text_of(fstype), flags, text_of(data)),
{
    Step::Mount { source, target, fstype, flags, data }
}

fn remount_readonly_step(target: &String) -> (step: Step)
    ensures
        step@ == remount_readonly(target@),
{
    mount_step(Some(target.clone()), target.clone(), None, flags_readonly_remount(), None)
}

/// The mount point that a bind mount needs: a directory when the host path is
/// a directory, else a file.
pub fn bind_target_step(destination: &String, source_is_dir: bool) -> (step: Step)
    ensures
        step@ == if source_is_dir {
            StepView::CreateDirAll(destination@, DEFAULT_DIRECTORY_MODE)
        } else {
            StepView::CreateFileTarget(destination@)
        },
{
    if source_is_dir {
        Step::CreateDirAll(destination.clone(), DEFAULT_DIRECTORY_MODE)
    } else {
        Step::CreateFileTarget(destination.clone())
    }
}

/// Mounting the staging tmpfs on `/tmp`.
pub fn mount_staging_root() -> (steps: Vec<Step>)
    ensures
        plan_view(steps@) == staging_root_steps(),
{
    let steps = vec![
        mount_step(
            Some("tmpfs".to_owned()),
            "/tmp".to_owned(),
            Some("tmpfs".to_owned()),
            flags_tmpfs(),
            Some("mode=0755".to_owned()),
        ),
        Step::ChangeDir("/tmp".to_owned()),
        Step::CreateDir("newroot".to_owned(), DEFAULT_DIRECTORY_MODE),
        mount_step(Some("newroot".to_owned()), "newroot".to_owned(), None, flags_recursive_bind(), None),
        Step::CreateDir("oldroot".to_owned(), DEFAULT_DIRECTORY_MODE),
    ];
    assert(plan_view(steps@) =~= staging_root_steps());
    steps
}

/// The first pivot.
pub fn first_pivot() -> (steps: Vec<Step>)
    ensures
        plan_view(steps@) == first_pivot_steps(),
{
    let steps = vec![
        Step::PivotRoot("/tmp".to_owned(), "oldroot".to_owned()),
        Step::ChangeDir("/".to_owned()),
    ];
    assert(plan_view(steps@) =~= first_pivot_steps());
    steps
}

/// The steps of one filesystem operation.
pub fn operation(op: &FilesystemOperation, unshare_pid: bool) -> (steps: Vec<Step>)
    requires
        operation_paths_absolute(*op),
    ensures
        plan_view(steps@) == operation_steps(*op, unshare_pid),
{
    match op {
        FilesystemOperation::Bind { source, destination, readonly } => {
            let source = oldroot_path_text(source);
            let destination = newroot_path_text(destination);
            let mut steps = vec![
                Step::PrepareBindTarget(source.clone(), destination.clone()),
                mount_step(Some(source), destination.clone(), None, flags_recursive_bind(), None),
            ];
            if *readonly {
                steps.push(remount_readonly_step(&destination));
            }
            assert(plan_view(steps@) =~= operation_steps(*op, unshare_pid));
            steps
        },
        FilesystemOperation::Tmpfs { destination } => {
            let destination = newroot_path_text(destination);
            let steps = vec![
                Step::CreateDirAll(destination.clone(), DEFAULT_DIRECTORY_MODE),
                mount_step(
                    Some("tmpfs".to_owned()),
                    destination,
                    Some("tmpfs".to_owned()),
                    flags_tmpfs(),
                    Some("mode=0755".to_owned()),
                ),
            ];
            assert(plan_view(steps@) =~= operation_steps(*op, unshare_pid));
            steps
        },
        FilesystemOperation::Proc { destination } => {
            let destination = newroot_path_text(destination);
            let procfs = if unshare_pid {
                mount_step(
                    Some("proc".to_owned()),
                    destination.clone(),
                    Some("proc".to_owned()),
                    flags_proc(),
                    None,
                )
            } else {
                mount_step(
                    Some("/oldroot/proc".to_owned()),
                    destination.clone(),
                    None,
                    flags_recursive_bind(),
                    None,
                )
            };
            let steps = vec![Step::CreateDirAll(destination, DEFAULT_DIRECTORY_MODE), procfs];
            assert(plan_view(steps@) =~= operation_steps(*op, unshare_pid));
            steps
        },
        FilesystemOperation::Dir { destination } => {
            let steps = vec![Step::CreateDirAll(newroot_path_text(destination), DIRECTORY_MODE)];
            assert(plan_view(steps@) =~= operation_steps(*op, unshare_pid));
            steps
        },
        FilesystemOperation::RemountReadonly { destination } => {
            let steps = vec![remount_readonly_step(&newroot_path_text(destination))];
            assert(plan_view(steps@) =~= operation_steps(*op, unshare_pid));
            steps
        },
    }
}

/// The steps of all operations, in order.
pub fn apply_operations(operations: &Vec<FilesystemOperation>, unshare_pid: bool) -> (steps: Vec<
    Step,
>)
    requires
        forall|i: int| 0 <= i < operations@.len() ==> operation_paths_absolute(#[trigger] operations@[i]),
    ensures
        plan_view(steps@) == operations_steps(operations@, unshare_pid),
{
    let mut steps: Vec<Step> = Vec::new();
    let mut i: usize = 0;
    while i < operations.len()
        invariant
            0 <= i <= operations@.len(),
            forall|j: int|
                0 <= j < operations@.len() ==> operation_paths_absolute(#[trigger] operations@[j]),
            plan_view(steps@) == operations_steps(operations@.take(i as int), unshare_pid),
        decreases operations@.len() - i,
    {
        let mut next = operation(&operations[i], unshare_pid);
        proof {
            let taken = operations@.take(i as int + 1);
            assert(taken.drop_last() =~= operations@.take(i as int));
            assert(taken.last() == operations@[i as int]);
        }
        let ghost before = steps@;
        let ghost added = next@;
        steps.append(&mut next);
        assert(plan_view(steps@) =~= plan_view(before) + plan_view(added));
        i = i + 1;
    }
    assert(operations@.take(operations@.len() as int) =~= operations@);
    steps
}

/// Detaching the host root.
pub fn detach_host_root() -> (steps: Vec<Step>)
    ensures
        plan_view(steps@) == detach_host_root_steps(),
{
    let steps = vec![
        mount_step(None, "/oldroot".to_owned(), None, flags_recursive_private(), None),
        Step::Unmount("/oldroot".to_owned()),
    ];
    assert(plan_view(steps@) =~= detach_host_root_steps());
    steps
}

/// The second pivot.
pub fn second_pivot() -> (steps: Vec<Step>)
    ensures
        plan_view(steps@) == second_pivot_steps(),
{
    let steps = vec![
        Step::OpenStagingRoot,
        Step::ChangeDir("/newroot".to_owned()),
        Step::PivotRoot(".".to_owned(), ".".to_owned()),
        Step::ReturnToStagingRoot,
        Step::Unmount(".".to_owned()),
        Step::ChangeDir("/".to_owned()),
    ];
    assert(plan_view(steps@) =~= second_pivot_steps());
    steps
}

/// The whole plan for a root filesystem built from `operations`.
pub fn setup(operations: &Vec<FilesystemOperation>, unshare_pid: bool) -> (steps: Vec<Step>)
    requires
        forall|i: int| 0 <= i < operations@.len() ==> operation_paths_absolute(#[trigger] operations@[i]),
    ensures
        plan_view(steps@) == setup_steps(operations@, unshare_pid),
{
    let mut steps = mount_staging_root();
    let mut pivot = first_pivot();
    let mut filled = apply_operations(operations, unshare_pid);
    let mut detach = detach_host_root();
    let mut second = second_pivot();
    let ghost (a, b, c, d, e) = (steps@, pivot@, filled@, detach@, second@);
    steps.append(&mut pivot);
    steps.append(&mut filled);
    steps.append(&mut detach);
    steps.append(&mut second);
    assert(plan_view(steps@) =~= plan_view(a) + plan_view(b) + plan_view(c) + plan_view(d)
        + plan_view(e));
    steps
}

/// Making every mount below `/` private, so that no mount of the sandbox
/// propagates to the host.
pub fn make_mounts_private() -> (step: Step)
    ensures
        step@ == mount(None, "/"@, None, recursive_private(), None),
{
    mount_step(None, "/".to_owned(), None, flags_recursive_private(), None)
}

/// Whether a step of a filesystem operation stays in the new root: every
/// mount and every created path is below `/newroot`, and every bind mount
/// reads its host path below `/oldroot`.
pub open spec fn within_new_root(step: StepView) -> bool {
    match step {
        StepView::Mount { source, target, flags, .. } => {
            &&& "/newroot"@.is_prefix_of(target)
            &&& flags == recursive_bind() ==> (source matches Some(s) && "/oldroot"@.is_prefix_of(s))
        },
        StepView::CreateDirAll(path, _) => "/newroot"@.is_prefix_of(path),
        StepView::PrepareBindTarget(source, destination) => "/oldroot"@.is_prefix_of(source)
            && "/newroot"@.is_prefix_of(destination),
        _ => false,
    }
}

/// A path placed below a directory is below it.
pub proof fn lemma_join_under_below(root: Seq<char>, path: Seq<char>)
    ensures
        root.is_prefix_of(join_under(root, path)),
{
    let relative = strip_slashes(path);
    if relative.len() != 0 {
        assert((root + seq!['/'] + relative).subrange(0, root.len() as int) =~= root);
    }
}

proof fn lemma_operation_within_new_root(op: FilesystemOperation, unshare_pid: bool)
    ensures
        forall|i: int|
            0 <= i < operation_steps(op, unshare_pid).len() ==> within_new_root(
                #[trigger] operation_steps(op, unshare_pid)[i],
            ),
{
    reveal_strlit("/oldroot/proc");
    reveal_strlit("/oldroot");
    match op {
        FilesystemOperation::Bind { source, destination, .. } => {
            lemma_join_under_below("/oldroot"@, source@);
            lemma_join_under_below("/newroot"@, destination@);
        },
        FilesystemOperation::Tmpfs { destination } => {
            lemma_join_under_below("/newroot"@, destination@);
        },
        FilesystemOperation::Proc { destination } => {
            lemma_join_under_below("/newroot"@, destination@);
            assert("/oldroot"@.is_prefix_of("/oldroot/proc"@));
        },
        FilesystemOperation::Dir { destination } => {
            lemma_join_under_below("/newroot"@, destination@);
        },
        FilesystemOperation::RemountReadonly { destination } => {
            lemma_join_under_below("/newroot"@, destination@);
        },
    }
}

/// The filesystem operations act only inside the new root: each of their
/// steps mounts on, or creates, a path below `/newroot`, and reads host paths
/// only through `/oldroot`. Nothing they do reaches the host's own tree.
pub proof fn lemma_operations_within_new_root(operations: Seq<FilesystemOperation>, unshare_pid: bool)
    ensures
        forall|i: int|
            0 <= i < operations_steps(operations, unshare_pid).len() ==> within_new_root(
                #[trigger] operations_steps(operations, unshare_pid)[i],
            ),
    decreases operations.len(),
{
    if operations.len() > 0 {
        lemma_operations_within_new_root(operations.drop_last(), unshare_pid);
        lemma_operation_within_new_root(operations.last(), unshare_pid);
        let before = operations_steps(operations.drop_last(), unshare_pid);
        let last = operation_steps(operations.last(), unshare_pid);
        assert forall|i: int|
            0 <= i < operations_steps(operations, unshare_pid).len() implies within_new_root(
            #[trigger] operations_steps(operations, unshare_pid)[i],
        ) by {
            if i < before.len() {
                assert(operations_steps(operations, unshare_pid)[i] == before[i]);
            } else {
                assert(operations_steps(operations, unshare_pid)[i] == last[i - before.len()]);
            }
        }
    }
}

/// The host root is detached, and the sandbox root made the root, only after
/// every operation: the plan is the staging steps, the first pivot, the
/// operations, the detach and the second pivot, in this order.
pub proof fn lemma_setup_order(operations: Seq<FilesystemOperation>, unshare_pid: bool)
    ensures
        ({
            let plan = setup_steps(operations, unshare_pid);
            let n = operations_steps(operations, unshare_pid).len() as int;
            &&& plan.len() == 15 + n
            &&& plan.subrange(7, 7 + n) == operations_steps(operations, unshare_pid)
            &&& plan[7 + n] == mount(None, "/oldroot"@, None, recursive_private(), None)
            &&& plan[8 + n] == StepView::Unmount("/oldroot"@)
            &&& plan[11 + n] == StepView::PivotRoot("."@, "."@)
        }),
{
    let plan = setup_steps(operations, unshare_pid);
    let n = operations_steps(operations, unshare_pid).len() as int;
    assert(plan.subrange(7, 7 + n) =~= operations_steps(operations, unshare_pid));
}

/// The mode of a directory that a step creates, if it creates one.
pub open spec fn created_mode(step: StepView) -> Option<u32> {
    match step {
        StepView::CreateDir(_, mode) => Some(mode),
        StepView::CreateDirAll(_, mode) => Some(mode),
        _ => None,
    }
}

/// The mode of the directories that an operation creates: 0755 for a `Dir`
/// operation, the `mkdir` default for the mount points of the others.
pub open spec fn operation_directory_mode(operation: FilesystemOperation) -> u32 {
    match operation {
        FilesystemOperation::Dir { .. } => DIRECTORY_MODE,
        _ => DEFAULT_DIRECTORY_MODE,
    }
}

/// A `Dir` operation creates its directory, and the missing parents, with
/// mode 0755; every other operation, and the staging of the new root, creates
/// directories with the `mkdir` default, which only the umask narrows.
pub proof fn lemma_directory_modes(operation: FilesystemOperation, unshare_pid: bool)
    ensures
        forall|i: int|
            0 <= i < operation_steps(operation, unshare_pid).len() ==> (created_mode(
                #[trigger] operation_steps(operation, unshare_pid)[i],
            ) matches Some(mode) ==> mode == operation_directory_mode(operation)),
        forall|i: int|
            0 <= i < staging_root_steps().len() ==> (created_mode(
                #[trigger] staging_root_steps()[i],
            ) matches Some(mode) ==> mode == DEFAULT_DIRECTORY_MODE),
{
}

/// Whether a step makes something read-only.
pub open spec fn makes_readonly(step: StepView) -> bool {
    step matches StepView::Mount { flags, .. } && flags.rdonly
}

/// Whether an operation asks for something read-only: a read-only bind or a
/// read-only remount.
pub open spec fn asks_readonly(operation: FilesystemOperation) -> bool {
    match operation {
        FilesystemOperation::Bind { readonly, .. } => readonly,
        FilesystemOperation::RemountReadonly { .. } => true,
        _ => false,
    }
}

/// A bind mount is a bind of the host path onto the sandbox path, and it is
/// made read-only exactly when asked: a writable bind is the preparation of
/// the mount point and one recursive bind mount, with nothing read-only; a
/// read-only bind adds a read-only remount of the destination.
pub proof fn lemma_bind_readonly_exactly_when_asked(
    source: String,
    destination: String,
    readonly: bool,
    unshare_pid: bool,
)
    ensures
        ({
            let steps = operation_steps(
                FilesystemOperation::Bind { source, destination, readonly },
                unshare_pid,
            );
            let from = oldroot_path(source@);
            let to = newroot_path(destination@);
            &&& steps.len() == if readonly {
                3int
            } else {
                2int
            }
            &&& steps[0] == StepView::PrepareBindTarget(from, to)
            &&& steps[1] matches StepView::Mount { source: Some(s), target, flags, .. } && s == from
                && target == to && flags.bind && flags.rec && !flags.rdonly
            &&& !readonly ==> forall|i: int| 0 <= i < steps.len() ==> !makes_readonly(#[trigger] steps[i])
            &&& readonly ==> (steps[2] matches StepView::Mount { source: Some(s), target, flags, .. }
                && s == to && target == to && flags.bind && flags.remount && flags.rdonly)
        }),
{
    let steps = operation_steps(FilesystemOperation::Bind { source, destination, readonly }, unshare_pid);
    if !readonly {
        assert forall|i: int| 0 <= i < steps.len() implies !makes_readonly(#[trigger] steps[i]) by {
            assert(i == 0 || i == 1);
        }
    }
}

proof fn lemma_operation_readonly_only_when_asked(op: FilesystemOperation, unshare_pid: bool)
    ensures
        forall|i: int|
            0 <= i < operation_steps(op, unshare_pid).len() && makes_readonly(
                #[trigger] operation_steps(op, unshare_pid)[i],
            ) ==> asks_readonly(op),
{
}

proof fn lemma_operations_readonly_only_when_asked(operations: Seq<FilesystemOperation>, unshare_pid: bool)
    ensures
        forall|i: int|
            0 <= i < operations_steps(operations, unshare_pid).len() && makes_readonly(
                #[trigger] operations_steps(operations, unshare_pid)[i],
            ) ==> exists|j: int| 0 <= j < operations.len() && asks_readonly(#[trigger] operations[j]),
    decreases operations.len(),
{
    if operations.len() > 0 {
        let rest = operations.drop_last();
        lemma_operations_readonly_only_when_asked(rest, unshare_pid);
        lemma_operation_readonly_only_when_asked(operations.last(), unshare_pid);
        let before = operations_steps(rest, unshare_pid);
        let last = operation_steps(operations.last(), unshare_pid);
        assert forall|i: int|
            0 <= i < operations_steps(operations, unshare_pid).len() && makes_readonly(
                #[trigger] operations_steps(operations, unshare_pid)[i],
            ) implies exists|j: int| 0 <= j < operations.len() && asks_readonly(
            #[trigger] operations[j],
        ) by {
            if i < before.len() {
                assert(operations_steps(operations, unshare_pid)[i] == before[i]);
                let j = choose|j: int| 0 <= j < rest.len() && asks_readonly(#[trigger] rest[j]);
                assert(operations[j] == rest[j]);
            } else {
                assert(operations_steps(operations, unshare_pid)[i] == last[i - before.len()]);
                assert(operations[operations.len() - 1] == operations.last());
            }
        }
    }
}

/// Nothing of the sandbox is made read-only unless asked: a plan in which a
/// step makes something read-only comes from operations of which one is a
/// read-only bind or a read-only remount.
pub proof fn lemma_readonly_only_when_asked(operations: Seq<FilesystemOperation>, unshare_pid: bool)
    ensures
        forall|i: int|
            0 <= i < setup_steps(operations, unshare_pid).len() && makes_readonly(
                #[trigger] setup_steps(operations, unshare_pid)[i],
            ) ==> exists|j: int| 0 <= j < operations.len() && asks_readonly(#[trigger] operations[j]),
{
    lemma_operations_readonly_only_when_asked(operations, unshare_pid);
    let ops = operations_steps(operations, unshare_pid);
    let head = staging_root_steps() + first_pivot_steps();
    let tail = detach_host_root_steps() + second_pivot_steps();
    let plan = setup_steps(operations, unshare_pid);
    assert(plan =~= head + ops + tail);
    assert forall|i: int| 0 <= i < plan.len() && makes_readonly(#[trigger] plan[i]) implies exists|
        j: int,
    | 0 <= j < operations.len() && asks_readonly(#[trigger] operations[j]) by {
        if i < head.len() {
            assert(plan[i] == head[i]);
        } else if i < head.len() + ops.len() {
            assert(plan[i] == ops[i - head.len()]);
        } else {
            assert(plan[i] == tail[i - head.len() - ops.len()]);
        }
    }
}

} // verus!
