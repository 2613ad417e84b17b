use bubblewrap::namespace::{
    child_id_maps, own_id_maps,
    decimal_text, id_map_line_text, proc_dir_text, self_id_maps, signed_decimal_text,
    write_id_maps,
};

#[test]
fn decimal_notation() {
    assert_eq!(decimal_text(0), "0");
    assert_eq!(decimal_text(7), "7");
    assert_eq!(decimal_text(1234), "1234");
    assert_eq!(decimal_text(u32::MAX), "4294967295");
    assert_eq!(signed_decimal_text(-42), "-42");
    assert_eq!(signed_decimal_text(i32::MIN), "-2147483648");
    assert_eq!(proc_dir_text(4321), "/proc/4321");
}

#[test]
fn id_map_lines() {
    assert_eq!(id_map_line_text(0, 1000), "0 1000 1");
    assert_eq!(id_map_line_text(1234, 1000), "1234 1000 1");
}

#[test]
fn parent_writes_child_maps() {
    let writes = write_id_maps(4321, 1000, 100);
    assert_eq!(writes.len(), 3);
    assert_eq!(writes[0].path, "/proc/4321/uid_map");
    assert_eq!(writes[0].contents, "0 1000 1\n");
    assert!(writes[0].failure_is_fatal(true));
    assert_eq!(writes[1].path, "/proc/4321/setgroups");
    assert_eq!(writes[1].contents, "deny\n");
    assert!(!writes[1].failure_is_fatal(true));
    assert!(writes[1].failure_is_fatal(false));
    assert_eq!(writes[2].path, "/proc/4321/gid_map");
    assert_eq!(writes[2].contents, "0 100 1\n");
}

#[test]
fn process_writes_own_maps() {
    let writes = self_id_maps(1234, 5678, 1000, 100);
    assert_eq!(writes.len(), 3);
    assert_eq!(writes[0].path, "/proc/self/uid_map");
    assert_eq!(writes[0].contents, "1234 1000 1");
    assert_eq!(writes[1].path, "/proc/self/setgroups");
    assert_eq!(writes[1].contents, "deny");
    assert!(writes[1].failure_is_fatal(true));
    assert_eq!(writes[2].path, "/proc/self/gid_map");
    assert_eq!(writes[2].contents, "5678 100 1");
}

#[test]
fn own_maps_use_the_chosen_ids() {
    let writes = own_id_maps(1234, 5678);
    assert_eq!(writes[0].path, "/proc/self/uid_map");
    assert!(writes[0].contents.starts_with("1234 "));
    assert!(writes[0].contents.ends_with(" 1"));
    assert_eq!(writes[2].path, "/proc/self/gid_map");
    assert!(writes[2].contents.starts_with("5678 "));
}

#[test]
fn child_maps_map_root() {
    let writes = child_id_maps(99);
    assert_eq!(writes[0].path, "/proc/99/uid_map");
    assert!(writes[0].contents.starts_with("0 "));
    assert!(writes[0].contents.ends_with(" 1\n"));
    assert_eq!(writes[1].contents, "deny\n");
}
