//! What a sandbox is asked to be.
use vstd::prelude::*;

verus! {

/// The configuration of a sandboxed command.
///
/// By default the command runs in a new user namespace, as root in it (user
/// and group id 0). `internal_uid` and `internal_gid` choose other ids in the
/// new namespace; `share_user` keeps the caller's user namespace instead, and
/// cannot be combined with them.
#[derive(Clone, Debug)]
pub struct Config {
    /// The program to run.
    pub program: Vec<u8>,
    /// Its arguments, without the program itself.
    pub args: Vec<Vec<u8>>,
    /// The user id in the new user namespace, if one is chosen.
    pub internal_uid: Option<u32>,
    /// The group id in the new user namespace, if one is chosen.
    pub internal_gid: Option<u32>,
    /// Whether the command stays in the caller's user namespace.
    pub share_user: bool,
}

/// The ids that the command gets in its new user namespace, or `None` when it
/// keeps the caller's: root unless other ids were chosen.
pub open spec fn user_mapping(config: Config) -> Option<(u32, u32)> {
    if config.share_user {
        None
    } else {
        Some(
            (
                match config.internal_uid {
                    Some(uid) => uid,
                    None => 0,
                },
                match config.internal_gid {
                    Some(gid) => gid,
                    None => 0,
                },
            ),
        )
    }
}

impl Config {
    /// The configuration that runs `program` with no arguments and defaults
    /// for the rest.
    pub fn new(program: Vec<u8>) -> (config: Self)
        ensures
            config.program@ == program@,
            config.args@.len() == 0,
            config.internal_uid is None,
            config.internal_gid is None,
            !config.share_user,
    {
        Config {
            program,
            args: Vec::new(),
            internal_uid: None,
            internal_gid: None,
            share_user: false,
        }
    }

    /// Sets the arguments, replacing any earlier ones.
    pub fn args(&mut self, args: Vec<Vec<u8>>) -> (config: &mut Self)
        ensures
            config.args@ == args@,
            config.program == old(self).program,
            config.internal_uid == old(self).internal_uid,
            config.internal_gid == old(self).internal_gid,
            config.share_user == old(self).share_user,
            *final(self) == *final(config),
    {
        self.args = args;
        self
    }

    /// Chooses the user id in the new user namespace.
    pub fn internal_uid(&mut self, uid: u32)
        ensures
            final(self).internal_uid == Some(uid),
            final(self).program == old(self).program,
            final(self).args == old(self).args,
            final(self).internal_gid == old(self).internal_gid,
            final(self).share_user == old(self).share_user,
    {
        self.internal_uid = Some(uid);
    }

    /// Chooses the group id in the new user namespace.
    pub fn internal_gid(&mut self, gid: u32)
        ensures
            final(self).internal_gid == Some(gid),
            final(self).program == old(self).program,
            final(self).args == old(self).args,
            final(self).internal_uid == old(self).internal_uid,
            final(self).share_user == old(self).share_user,
    {
        self.internal_gid = Some(gid);
    }

    /// Keeps the caller's user namespace.
    pub fn share_user(&mut self)
        ensures
            final(self).share_user,
            final(self).program == old(self).program,
            final(self).args == old(self).args,
            final(self).internal_uid == old(self).internal_uid,
            final(self).internal_gid == old(self).internal_gid,
    {
        self.share_user = true;
    }

    /// The ids that the command gets in its new user namespace, or `None` when
    /// it keeps the caller's.
    pub fn user_mapping(&self) -> (mapping: Option<(u32, u32)>)
        ensures
            mapping == user_mapping(*self),
    {
        if self.share_user {
            None
        } else {
            let uid = match self.internal_uid {
                Some(uid) => uid,
                None => 0,
            };
            let gid = match self.internal_gid {
                Some(gid) => gid,
                None => 0,
            };
            Some((uid, gid))
        }
    }
}

/// One operation that fills the root filesystem of a sandbox. Every path is
/// absolute; a source is a host path, a destination a path in the sandbox.
#[derive(Clone, Debug)]
pub enum FilesystemOperation {
    /// Bind-mount the host path `source` on `destination`, read-only or not.
    Bind { source: String, destination: String, readonly: bool },
    /// Mount a new tmpfs on `destination`.
    Tmpfs { destination: String },
    /// Mount a procfs on `destination`.
    Proc { destination: String },
    /// Create the directory `destination`.
    Dir { destination: String },
    /// Remount the mount at `destination` read-only.
    RemountReadonly { destination: String },
}

/// The configuration of the processes of a sandbox.
#[derive(Clone, Debug)]
pub struct SandboxConfig {
    /// The program to run.
    pub program: Vec<u8>,
    /// Its arguments, without the program itself.
    pub args: Vec<Vec<u8>>,
    /// The working directory of the program, if not the inherited one.
    pub current_dir: Option<String>,
    /// Whether the sandbox processes die with their parent.
    pub die_with_parent: bool,
    /// Whether the program starts a new session.
    pub new_session: bool,
    /// Whether the sandbox gets a new pid namespace.
    pub unshare_pid: bool,
    /// Whether the sandbox gets a new network namespace.
    pub unshare_net: bool,
    /// The operations that build the root filesystem; none keeps the host's.
    pub filesystem: Vec<FilesystemOperation>,
}

} // verus!
