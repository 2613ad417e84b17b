use bubblewrap::config::FilesystemOperation;
use bubblewrap::rootfs::{
    bind_target_step, is_absolute, join_under_text, newroot_path_text, oldroot_path_text, setup,
    MountFlags, Step,
};

fn s(text: &str) -> String {
    text.to_string()
}

#[test]
fn paths_are_mapped_below_old_and_new_root() {
    assert_eq!(oldroot_path_text(&s("/usr/bin")), "/oldroot/usr/bin");
    assert_eq!(newroot_path_text(&s("/")), "/newroot");
}

#[test]
fn repeated_leading_slashes_are_stripped() {
    assert_eq!(join_under_text("/newroot", &s("//etc")), "/newroot/etc");
    assert_eq!(join_under_text("/newroot", &s("///")), "/newroot");
}

#[test]
fn absolute_paths() {
    assert!(is_absolute(&s("/")));
    assert!(is_absolute(&s("/usr")));
    assert!(!is_absolute(&s("usr")));
    assert!(!is_absolute(&s("")));
}

fn flags() -> MountFlags {
    MountFlags {
        bind: false,
        rec: false,
        private: false,
        remount: false,
        rdonly: false,
        nosuid: false,
        nodev: false,
        noexec: false,
    }
}

fn is_mount(step: &Step, source: Option<&str>, target: &str, fstype: Option<&str>, f: MountFlags) -> bool {
    match step {
        Step::Mount { source: s, target: t, fstype: ty, flags: fl, .. } => {
            s.as_deref() == source && t == target && ty.as_deref() == fstype && *fl == f
        }
        _ => false,
    }
}

#[test]
fn empty_setup_pivots_twice() {
    let steps = setup(&vec![], false);
    assert_eq!(steps.len(), 5 + 2 + 2 + 6);
    assert!(is_mount(
        &steps[0],
        Some("tmpfs"),
        "/tmp",
        Some("tmpfs"),
        MountFlags { nodev: true, nosuid: true, ..flags() }
    ));
    assert!(matches!(&steps[5], Step::PivotRoot(a, b) if a == "/tmp" && b == "oldroot"));
    assert!(is_mount(
        &steps[7],
        None,
        "/oldroot",
        None,
        MountFlags { rec: true, private: true, ..flags() }
    ));
    assert!(matches!(&steps[8], Step::Unmount(p) if p == "/oldroot"));
    assert!(matches!(&steps[9], Step::OpenStagingRoot));
    assert!(matches!(&steps[11], Step::PivotRoot(a, b) if a == "." && b == "."));
    assert!(matches!(&steps[14], Step::ChangeDir(p) if p == "/"));
}

#[test]
fn readonly_bind_is_bound_then_remounted() {
    let ops = vec![FilesystemOperation::Bind {
        source: s("/usr"),
        destination: s("/usr"),
        readonly: true,
    }];
    let steps = setup(&ops, false);
    assert_eq!(steps.len(), 5 + 2 + 3 + 2 + 6);
    assert!(matches!(&steps[7], Step::PrepareBindTarget(a, b) if a == "/oldroot/usr" && b == "/newroot/usr"));
    assert!(is_mount(
        &steps[8],
        Some("/oldroot/usr"),
        "/newroot/usr",
        None,
        MountFlags { bind: true, rec: true, ..flags() }
    ));
    assert!(is_mount(
        &steps[9],
        Some("/newroot/usr"),
        "/newroot/usr",
        None,
        MountFlags { bind: true, remount: true, rdonly: true, ..flags() }
    ));
}

#[test]
fn proc_depends_on_pid_namespace() {
    let ops = vec![FilesystemOperation::Proc { destination: s("/proc") }];
    let fresh = setup(&ops, true);
    assert!(matches!(&fresh[7], Step::CreateDirAll(p, 0o777) if p == "/newroot/proc"));
    assert!(is_mount(
        &fresh[8],
        Some("proc"),
        "/newroot/proc",
        Some("proc"),
        MountFlags { nosuid: true, nodev: true, noexec: true, ..flags() }
    ));
    let bound = setup(&ops, false);
    assert!(is_mount(
        &bound[8],
        Some("/oldroot/proc"),
        "/newroot/proc",
        None,
        MountFlags { bind: true, rec: true, ..flags() }
    ));
}

#[test]
fn tmpfs_dir_and_remount() {
    let ops = vec![
        FilesystemOperation::Tmpfs { destination: s("/tmp") },
        FilesystemOperation::Dir { destination: s("/data/x") },
        FilesystemOperation::RemountReadonly { destination: s("/") },
    ];
    let steps = setup(&ops, false);
    assert_eq!(steps.len(), 5 + 2 + 2 + 1 + 1 + 2 + 6);
    assert!(matches!(&steps[7], Step::CreateDirAll(p, 0o777) if p == "/newroot/tmp"));
    match &steps[8] {
        Step::Mount { data, .. } => assert_eq!(data.as_deref(), Some("mode=0755")),
        other => panic!("{:?}", other),
    }
    assert!(matches!(&steps[9], Step::CreateDirAll(p, 0o755) if p == "/newroot/data/x"));
    assert!(is_mount(
        &steps[10],
        Some("/newroot"),
        "/newroot",
        None,
        MountFlags { bind: true, remount: true, rdonly: true, ..flags() }
    ));
}

#[test]
fn bind_target_follows_the_source_kind() {
    assert!(matches!(bind_target_step(&s("/newroot/a"), true), Step::CreateDirAll(p, 0o777) if p == "/newroot/a"));
    assert!(matches!(bind_target_step(&s("/newroot/a"), false), Step::CreateFileTarget(p) if p == "/newroot/a"));
}

#[test]
fn staging_directories_get_the_default_mode() {
    let steps = setup(&vec![], false);
    assert!(matches!(&steps[2], Step::CreateDir(p, 0o777) if p == "newroot"));
    assert!(matches!(&steps[4], Step::CreateDir(p, 0o777) if p == "oldroot"));
}

#[test]
fn dir_operation_gets_mode_0755() {
    let steps = setup(&vec![FilesystemOperation::Dir { destination: s("/a/b") }], false);
    assert!(matches!(&steps[7], Step::CreateDirAll(p, 0o755) if p == "/newroot/a/b"));
}
