//! The builder with which a caller describes a sandboxed command.
use crate::config::{user_mapping, Config};
use crate::error::Error;
use vstd::prelude::*;

verus! {

/// A command to run in a sandbox.
pub struct Command {
    config: Config,
}

impl View for Command {
    type V = Config;

    closed spec fn view(&self) -> Config {
        self.config
    }
}

/// Whether a configuration asks both to keep the caller's user namespace and
/// to choose ids in a new one.
pub open spec fn conflicting(config: Config) -> bool {
    config.share_user && (config.internal_uid is Some || config.internal_gid is Some)
}

/// The text of the error for such a configuration.
pub open spec fn conflict_text() -> Seq<char> {
    "internal_uid/internal_gid cannot be set with share_user"@
}

impl Command {
    /// The command that runs `program` with no arguments.
    pub fn new(program: Vec<u8>) -> (command: Self)
        ensures
            command@.program@ == program@,
            command@.args@.len() == 0,
            command@.internal_uid is None,
            command@.internal_gid is None,
            !command@.share_user,
    {
        Command { config: Config::new(program) }
    }

    /// Sets the arguments, replacing any earlier ones.
    pub fn args(&mut self, args: Vec<Vec<u8>>) -> (command: &mut Self)
        ensures
            command@.args@ == args@,
            command@.program == old(self)@.program,
            command@.internal_uid == old(self)@.internal_uid,
            command@.internal_gid == old(self)@.internal_gid,
            command@.share_user == old(self)@.share_user,
            *final(self) == *final(command),
    {
        self.config.args(args);
        self
    }

    /// Chooses the user id in the new user namespace.
    pub fn internal_uid(&mut self, uid: u32) -> (command: &mut Self)
        ensures
            command@.internal_uid == Some(uid),
            command@.program == old(self)@.program,
            command@.args == old(self)@.args,
            command@.internal_gid == old(self)@.internal_gid,
            command@.share_user == old(self)@.share_user,
            *final(self) == *final(command),
    {
        self.config.internal_uid(uid);
        self
    }

    /// Chooses the group id in the new user namespace.
    pub fn internal_gid(&mut self, gid: u32) -> (command: &mut Self)
        ensures
            command@.internal_gid == Some(gid),
            command@.program == old(self)@.program,
            command@.args == old(self)@.args,
            command@.internal_uid == old(self)@.internal_uid,
            command@.share_user == old(self)@.share_user,
            *final(self) == *final(command),
    {
        self.config.internal_gid(gid);
        self
    }

    /// Keeps the caller's user namespace.
    pub fn share_user(&mut self) -> (command: &mut Self)
        ensures
            command@.share_user,
            command@.program == old(self)@.program,
            command@.args == old(self)@.args,
            command@.internal_uid == old(self)@.internal_uid,
            command@.internal_gid == old(self)@.internal_gid,
            *final(self) == *final(command),
    {
        self.config.share_user();
        self
    }

    /// The configuration.
    pub fn config(&self) -> (config: &Config)
        ensures
            *config == self@,
    {
        &self.config
    }

    /// Checks that the settings fit together, whatever the order in which
    /// they were made: ids in a new user namespace cannot be chosen when the
    /// caller's user namespace is kept.
    pub fn config_validate(&self) -> (result: Result<(), Error>)
        ensures
            result is Ok <==> !conflicting(self@),
            result matches Err(e) ==> e matches Error::InvalidConfig(text) && text@
                == conflict_text(),
    {
        if self.config.share_user && (self.config.internal_uid.is_some()
            || self.config.internal_gid.is_some()) {
            return Err(Error::InvalidConfig("internal_uid/internal_gid cannot be set with share_user"));
        }
        Ok(())
    }
}

/// The order of the settings does not matter: choosing a user id, a group id
/// and sharing the user namespace, in any order, leads to the same
/// configuration, and so to the same verdict of `config_validate`.
pub proof fn lemma_settings_commute(config: Config, uid: u32, gid: u32)
    ensures
        ({
            let a = Config { internal_uid: Some(uid), ..config };
            let b = Config { internal_gid: Some(gid), ..config };
            let s = Config { share_user: true, ..config };
            &&& Config { internal_gid: Some(gid), ..a } == Config { internal_uid: Some(uid), ..b }
            &&& Config { share_user: true, ..a } == Config { internal_uid: Some(uid), ..s }
            &&& Config { share_user: true, ..b } == Config { internal_gid: Some(gid), ..s }
        }),
{
}

/// Sharing the caller's user namespace together with a chosen user or group id
/// is always refused, and a configuration that passes `config_validate` runs
/// as the chosen ids (root by default) in a new user namespace, or in the
/// caller's namespace when it is shared.
pub proof fn lemma_validated_mapping(config: Config)
    ensures
        config.share_user && (config.internal_uid is Some || config.internal_gid is Some)
            ==> conflicting(config),
        !conflicting(config) && config.share_user ==> user_mapping(config) is None
            && config.internal_uid is None && config.internal_gid is None,
        !config.share_user ==> user_mapping(config) == Some(
            (config.internal_uid.unwrap_or(0), config.internal_gid.unwrap_or(0)),
        ),
{
}

/// Only sharing the caller's user namespace together with a chosen id is
/// refused: without `share_user` every choice of ids, one, both or none, is
/// accepted; with it, exactly those that choose no id are.
pub proof fn lemma_only_shared_ids_refused(config: Config)
    ensures
        !config.share_user ==> !conflicting(config),
        config.share_user ==> (conflicting(config) <==> (config.internal_uid is Some
            || config.internal_gid is Some)),
        config.internal_uid is Some && config.internal_gid is None && !config.share_user
            ==> !conflicting(config),
{
}

} // verus!
