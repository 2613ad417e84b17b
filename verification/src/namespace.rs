//! Namespaces: which ones a sandbox process enters, and the id maps of a new
//! user namespace.
//!
//! A new user namespace has no user or group ids until `uid_map` and
//! `gid_map` are written under `/proc`. Two ways of writing them are used:
//! the parent writes the maps of its child, mapping root in the namespace to
//! its own effective ids; or a process writes its own maps, mapping chosen ids
//! in the namespace to its real ids. In both, `setgroups` is denied first, as
//! Linux requires of an unprivileged writer of `gid_map`.
use nix::unistd::{getegid, geteuid, getgid, getuid};
use vstd::prelude::*;
use vstd::string::StringExecFns;

verus! {

/// The decimal digit `d` as a character.
pub open spec fn digit_char(d: nat) -> char {
    (48 + d) as char
}

/// The decimal notation of `n`, without leading zeros.
pub open spec fn decimal(n: nat) -> Seq<char>
    decreases n,
{
    if n < 10 {
        seq![digit_char(n)]
    } else {
        decimal(n / 10) + seq![digit_char(n % 10)]
    }
}

/// The decimal notation of `n`, with a minus sign when it is negative.
pub open spec fn signed_decimal(n: int) -> Seq<char> {
    if n < 0 {
        seq!['-'] + decimal((-n) as nat)
    } else {
        decimal(n as nat)
    }
}

/// The text of the line of an id map that maps one id, `inside` in the
/// namespace, to `outside` in its parent.
pub open spec fn id_map_line(inside: nat, outside: nat) -> Seq<char> {
    decimal(inside) + " "@ + decimal(outside) + " 1"@
}

/// The directory under `/proc` of the process `pid`.
pub open spec fn proc_dir(pid: int) -> Seq<char> {
    "/proc/"@ + signed_decimal(pid)
}

/// One file write of an id-map setup.
pub struct IdMapWrite {
    /// The file to write.
    pub path: String,
    /// The text to write; the file is truncated first.
    pub contents: String,
    /// Whether a missing file is no error (older kernels have no `setgroups`).
    pub missing_ok: bool,
}

/// The writes, in order, with which a parent maps root in the user namespace
/// of its child `pid` to its own effective user and group ids.
pub open spec fn child_id_map_writes(pid: int, euid: nat, egid: nat) -> Seq<
    (Seq<char>, Seq<char>, bool),
> {
    seq![
        (proc_dir(pid) + "/uid_map"@, "0 "@ + decimal(euid) + " 1\n"@, false),
        (proc_dir(pid) + "/setgroups"@, "deny\n"@, true),
        (proc_dir(pid) + "/gid_map"@, "0 "@ + decimal(egid) + " 1\n"@, false),
    ]
}

/// The writes, in order, with which a process that has just entered a new user
/// namespace maps `uid` and `gid` in it to its real ids `real_uid` and
/// `real_gid` outside.
pub open spec fn self_id_map_writes(uid: nat, gid: nat, real_uid: nat, real_gid: nat) -> Seq<
    (Seq<char>, Seq<char>, bool),
> {
    seq![
        ("/proc/self/uid_map"@, id_map_line(uid, real_uid), false),
        ("/proc/self/setgroups"@, "deny"@, false),
        ("/proc/self/gid_map"@, id_map_line(gid, real_gid), false),
    ]
}

/// What a plan of writes is, as text.
pub open spec fn writes_view(writes: Seq<IdMapWrite>) -> Seq<(Seq<char>, Seq<char>, bool)> {
    writes.map_values(|w: IdMapWrite| (w.path@, w.contents@, w.missing_ok))
}

/// The namespaces that a process leaves for new ones.
#[derive(Clone, Copy, Debug, PartialEq, Eq, Structural)]
pub struct NamespaceSet {
    pub user: bool,
    pub mount: bool,
    pub pid: bool,
    pub net: bool,
}

/// The text of a decimal digit.
fn digit_text(d: u32) -> (text: &'static str)
    requires
        d < 10,
    ensures
        text@ == seq![digit_char(d as nat)],
{
    proof {
        reveal_strlit("0");
        reveal_strlit("1");
        reveal_strlit("2");
        reveal_strlit("3");
        reveal_strlit("4");
        reveal_strlit("5");
        reveal_strlit("6");
        reveal_strlit("7");
        reveal_strlit("8");
        reveal_strlit("9");
    }
    match d {
        0 => "0",
        1 => "1",
        2 => "2",
        3 => "3",
        4 => "4",
        5 => "5",
        6 => "6",
        7 => "7",
        8 => "8",
        _ => "9",
    }
}

/// The decimal notation of `n`.
pub fn decimal_text(n: u32) -> (text: String)
    ensures
        text@ == decimal(n as nat),
    decreases n,
{
    if n < 10 {
        digit_text(n).to_owned()
    } else {
        let mut text = decimal_text(n / 10);
        text.append(digit_text(n % 10));
        text
    }
}

/// The decimal notation of `n`, with a minus sign when it is negative.
pub fn signed_decimal_text(n: i32) -> (text: String)
    ensures
        text@ == signed_decimal(n as int),
{
    if n < 0 {
        let magnitude = (-(n as i64)) as u32;
        let mut text = "-".to_owned();
        proof {
            reveal_strlit("-");
        }
        text.append(decimal_text(magnitude).as_str());
        text
    } else {
        decimal_text(n as u32)
    }
}

/// The text of the line of an id map that maps one id, `inside` in the
/// namespace, to `outside` in its parent.
pub fn id_map_line_text(inside: u32, outside: u32) -> (text: String)
    ensures
        text@ == id_map_line(inside as nat, outside as nat),
{
    let mut text = decimal_text(inside);
    text.append(" ");
    text.append(decimal_text(outside).as_str());
    text.append(" 1");
    text
}

/// The directory under `/proc` of the process `pid`.
pub fn proc_dir_text(pid: i32) -> (text: String)
    ensures
        text@ == proc_dir(pid as int),
{
    let mut text = "/proc/".to_owned();
    text.append(signed_decimal_text(pid).as_str());
    text
}

/// The writes with which a parent maps root in the user namespace of its child
/// `pid` to the parent's effective ids `euid` and `egid`.
pub fn write_id_maps(pid: i32, euid: u32, egid: u32) -> (writes: Vec<IdMapWrite>)
    ensures
        writes_view(writes@) == child_id_map_writes(pid as int, euid as nat, egid as nat),
{
    let dir = proc_dir_text(pid);

    let mut uid_path = dir.clone();
    uid_path.append("/uid_map");
    let mut uid_map = "0 ".to_owned();
    uid_map.append(decimal_text(euid).as_str());
    uid_map.append(" 1\n");

    let mut setgroups_path = dir.clone();
    setgroups_path.append("/setgroups");

    let mut gid_path = dir;
    gid_path.append("/gid_map");
    let mut gid_map = "0 ".to_owned();
    gid_map.append(decimal_text(egid).as_str());
    gid_map.append(" 1\n");

    let writes = vec![
        IdMapWrite { path: uid_path, contents: uid_map, missing_ok: false },
        IdMapWrite { path: setgroups_path, contents: "deny\n".to_owned(), missing_ok: true },
        IdMapWrite { path: gid_path, contents: gid_map, missing_ok: false },
    ];
    assert(writes_view(writes@) =~= child_id_map_writes(pid as int, euid as nat, egid as nat));
    writes
}

/// The writes with which a process that has just entered a new user namespace
/// maps `uid` and `gid` in it to its real ids `real_uid` and `real_gid`.
pub fn self_id_maps(uid: u32, gid: u32, real_uid: u32, real_gid: u32) -> (writes: Vec<IdMapWrite>)
    ensures
        writes_view(writes@) == self_id_map_writes(
            uid as nat,
            gid as nat,
            real_uid as nat,
            real_gid as nat,
        ),
{
    let writes = vec![
        IdMapWrite {
            path: "/proc/self/uid_map".to_owned(),
            contents: id_map_line_text(uid, real_uid),
            missing_ok: false,
        },
        IdMapWrite {
            path: "/proc/self/setgroups".to_owned(),
            contents: "deny".to_owned(),
            missing_ok: false,
        },
        IdMapWrite {
            path: "/proc/self/gid_map".to_owned(),
            contents: id_map_line_text(gid, real_gid),
            missing_ok: false,
        },
    ];
    assert(writes_view(writes@) =~= self_id_map_writes(
        uid as nat,
        gid as nat,
        real_uid as nat,
        real_gid as nat,
    ));
    writes
}

/// Calls `nix::unistd::getuid`: the real user id of the calling process,
/// which depends on the machine, so nothing is claimed about it.
#[verifier::external_body]
fn real_user_id() -> (uid: u32) {
    getuid().as_raw()
}

/// Calls `nix::unistd::getgid`: the real group id of the calling process,
/// which depends on the machine, so nothing is claimed about it.
#[verifier::external_body]
fn real_group_id() -> (gid: u32) {
    getgid().as_raw()
}

/// Calls `nix::unistd::geteuid`: the effective user id of the calling
/// process, which depends on the machine, so nothing is claimed about it.
#[verifier::external_body]
fn effective_user_id() -> (uid: u32) {
    geteuid().as_raw()
}

/// Calls `nix::unistd::getegid`: the effective group id of the calling
/// process, which depends on the machine, so nothing is claimed about it.
#[verifier::external_body]
fn effective_group_id() -> (gid: u32) {
    getegid().as_raw()
}

/// The writes with which the calling process will map `uid` and `gid` in the
/// user namespace that it is about to enter to its current real ids. The ids
/// are read now: they must be read before the namespace is entered, where
/// they are no longer mapped.
pub fn own_id_maps(uid: u32, gid: u32) -> (writes: Vec<IdMapWrite>)
    ensures
        exists|real_uid: u32, real_gid: u32|
            writes_view(writes@) == self_id_map_writes(
                uid as nat,
                gid as nat,
                real_uid as nat,
                real_gid as nat,
            ),
{
    let real_uid = real_user_id();
    let real_gid = real_group_id();
    self_id_maps(uid, gid, real_uid, real_gid)
}

/// The writes with which the calling process maps root in the user namespace
/// of its child `pid` to its own effective ids.
pub fn child_id_maps(pid: i32) -> (writes: Vec<IdMapWrite>)
    ensures
        exists|euid: u32, egid: u32|
            writes_view(writes@) == child_id_map_writes(pid as int, euid as nat, egid as nat),
{
    let euid = effective_user_id();
    let egid = effective_group_id();
    write_id_maps(pid, euid, egid)
}

impl IdMapWrite {
    /// Whether a failed write ends the setup: always, but for a missing file
    /// that may be missing.
    pub fn failure_is_fatal(&self, file_missing: bool) -> (fatal: bool)
        ensures
            fatal == !(file_missing && self.missing_ok),
    {
        !(file_missing && self.missing_ok)
    }
}

/// Whether a character is a decimal digit.
pub open spec fn is_digit(c: char) -> bool {
    48 <= (c as u32) <= 57
}

/// The number that a string of decimal digits denotes.
pub open spec fn digits_value(digits: Seq<char>) -> nat
    decreases digits.len(),
{
    if digits.len() == 0 {
        0
    } else {
        digits_value(digits.drop_last()) * 10 + ((digits.last() as u32) - 48) as nat
    }
}

/// The decimal notation of a number is a non-empty string of digits that
/// denotes that number.
pub proof fn lemma_decimal(n: nat)
    ensures
        decimal(n).len() > 0,
        forall|i: int| 0 <= i < decimal(n).len() ==> is_digit(#[trigger] decimal(n)[i]),
        digits_value(decimal(n)) == n,
    decreases n,
{
    assert((digit_char(n % 10) as u32) == 48 + n % 10);
    if n < 10 {
        assert(decimal(n).drop_last() =~= Seq::<char>::empty());
        assert(decimal(n).last() == digit_char(n));
        assert(digits_value(decimal(n)) == digits_value(Seq::<char>::empty()) * 10 + ((digit_char(n) as u32) - 48) as nat);
    } else {
        lemma_decimal(n / 10);
        let d = decimal(n);
        assert(d.drop_last() =~= decimal(n / 10));
        assert(d.last() == digit_char(n % 10));
        assert((n / 10) * 10 + n % 10 == n) by (nonlinear_arith);
        assert forall|i: int| 0 <= i < d.len() implies is_digit(#[trigger] d[i]) by {
            if i < d.len() - 1 {
                assert(d[i] == decimal(n / 10)[i]);
            }
        }
    }
}

/// Numbers with the same decimal notation are equal.
pub proof fn lemma_decimal_injective(a: nat, b: nat)
    requires
        decimal(a) == decimal(b),
    ensures
        a == b,
{
    lemma_decimal(a);
    lemma_decimal(b);
}

/// Two strings that start with a digit string and then a space split at the
/// same place.
proof fn lemma_split_at_space(a: Seq<char>, b: Seq<char>, rest_a: Seq<char>, rest_b: Seq<char>)
    requires
        forall|i: int| 0 <= i < a.len() ==> is_digit(#[trigger] a[i]),
        forall|i: int| 0 <= i < b.len() ==> is_digit(#[trigger] b[i]),
        a + seq![' '] + rest_a == b + seq![' '] + rest_b,
    ensures
        a == b,
        rest_a == rest_b,
{
    let la = a + seq![' '] + rest_a;
    let lb = b + seq![' '] + rest_b;
    if a.len() < b.len() {
        assert(la[a.len() as int] == ' ');
        assert(lb[a.len() as int] == b[a.len() as int]);
        assert(is_digit(b[a.len() as int]));
        assert(false);
    } else if b.len() < a.len() {
        assert(lb[b.len() as int] == ' ');
        assert(la[b.len() as int] == a[b.len() as int]);
        assert(is_digit(a[b.len() as int]));
        assert(false);
    }
    assert(a =~= la.subrange(0, a.len() as int));
    assert(b =~= lb.subrange(0, b.len() as int));
    assert(rest_a =~= la.subrange(a.len() as int + 1, la.len() as int));
    assert(rest_b =~= lb.subrange(b.len() as int + 1, lb.len() as int));
}

/// The line of an id map names its two ids unambiguously: lines that are
/// equal map the same id inside to the same id outside. So the uid map and
/// gid map written for a sandbox give it exactly the ids it was configured
/// with.
pub proof fn lemma_id_map_line_injective(inside_a: nat, outside_a: nat, inside_b: nat, outside_b: nat)
    requires
        id_map_line(inside_a, outside_a) == id_map_line(inside_b, outside_b),
    ensures
        inside_a == inside_b,
        outside_a == outside_b,
{
    reveal_strlit(" ");
    reveal_strlit(" 1");
    lemma_decimal(inside_a);
    lemma_decimal(inside_b);
    lemma_decimal(outside_a);
    lemma_decimal(outside_b);
    let rest_a = decimal(outside_a) + " 1"@;
    let rest_b = decimal(outside_b) + " 1"@;
    assert(id_map_line(inside_a, outside_a) =~= decimal(inside_a) + seq![' '] + rest_a);
    assert(id_map_line(inside_b, outside_b) =~= decimal(inside_b) + seq![' '] + rest_b);
    lemma_split_at_space(decimal(inside_a), decimal(inside_b), rest_a, rest_b);
    lemma_decimal_injective(inside_a, inside_b);
    assert(decimal(outside_a) =~= rest_a.subrange(0, rest_a.len() - 2));
    assert(decimal(outside_b) =~= rest_b.subrange(0, rest_b.len() - 2));
    lemma_decimal_injective(outside_a, outside_b);
}

/// The maps that a parent writes for its child map root to its ids, each in
/// its own file: the uid map names the effective user id and no group id, the
/// gid map names the effective group id and no user id (changing one id
/// changes only its own map, and different ids give different maps), and
/// `setgroups` is denied in between.
pub proof fn lemma_child_maps_keep_ids_apart(pid: int, euid: nat, egid: nat, other_euid: nat, other_egid: nat)
    ensures
        child_id_map_writes(pid, euid, egid)[0] == child_id_map_writes(pid, euid, other_egid)[0],
        child_id_map_writes(pid, euid, egid)[2] == child_id_map_writes(pid, other_euid, egid)[2],
        child_id_map_writes(pid, euid, egid)[1] == (proc_dir(pid) + "/setgroups"@, "deny\n"@, true),
        child_id_map_writes(pid, euid, egid)[2].1 == child_id_map_writes(pid, euid, other_egid)[2].1
            ==> egid == other_egid,
        child_id_map_writes(pid, euid, egid)[0].1 == child_id_map_writes(pid, other_euid, egid)[0].1
            ==> euid == other_euid,
{
    reveal_strlit("0 ");
    reveal_strlit(" 1\n");
    let gid_a = child_id_map_writes(pid, euid, egid)[2].1;
    let gid_b = child_id_map_writes(pid, euid, other_egid)[2].1;
    if gid_a == gid_b {
        assert(decimal(egid) =~= gid_a.subrange(2, gid_a.len() - 3));
        assert(decimal(other_egid) =~= gid_b.subrange(2, gid_b.len() - 3));
        lemma_decimal_injective(egid, other_egid);
    }
    let uid_a = child_id_map_writes(pid, euid, egid)[0].1;
    let uid_b = child_id_map_writes(pid, other_euid, egid)[0].1;
    if uid_a == uid_b {
        assert(decimal(euid) =~= uid_a.subrange(2, uid_a.len() - 3));
        assert(decimal(other_euid) =~= uid_b.subrange(2, uid_b.len() - 3));
        lemma_decimal_injective(euid, other_euid);
    }
}

} // verus!
