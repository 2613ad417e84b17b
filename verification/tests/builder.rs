use bubblewrap::config::Config;
use bubblewrap::Command;
use bubblewrap::Error;

fn bytes(text: &str) -> Vec<u8> {
    text.as_bytes().to_vec()
}

#[test]
fn builder_keeps_every_setting() {
    let mut command = Command::new(bytes("/bin/sh"));
    command
        .args(vec![bytes("-c"), bytes("exit 0")])
        .internal_uid(1234)
        .internal_gid(5678);
    let config = command.config();
    assert_eq!(config.program, bytes("/bin/sh"));
    assert_eq!(config.args, vec![bytes("-c"), bytes("exit 0")]);
    assert_eq!(config.internal_uid, Some(1234));
    assert_eq!(config.internal_gid, Some(5678));
    assert!(!config.share_user);
    assert!(command.config_validate().is_ok());
    assert_eq!(config.user_mapping(), Some((1234, 5678)));
}

#[test]
fn default_is_root_in_a_new_user_namespace() {
    let command = Command::new(bytes("/bin/true"));
    assert!(command.config_validate().is_ok());
    assert_eq!(command.config().user_mapping(), Some((0, 0)));
}

#[test]
fn share_user_keeps_the_namespace() {
    let mut command = Command::new(bytes("/bin/true"));
    command.share_user();
    assert!(command.config_validate().is_ok());
    assert_eq!(command.config().user_mapping(), None);
}

#[test]
fn share_user_with_ids_is_refused_in_any_order() {
    let mut first = Command::new(bytes("/bin/true"));
    first.share_user().internal_uid(1);
    let mut second = Command::new(bytes("/bin/true"));
    second.internal_gid(1).share_user();
    for command in [first, second] {
        match command.config_validate() {
            Err(Error::InvalidConfig(text)) => {
                assert_eq!(text, "internal_uid/internal_gid cannot be set with share_user")
            }
            other => panic!("{:?}", other),
        }
    }
}

#[test]
fn config_setters() {
    let mut config = Config::new(bytes("prog"));
    assert!(config.args.is_empty());
    config.args(vec![bytes("a")]);
    config.internal_uid(7);
    config.internal_gid(8);
    assert_eq!(config.args, vec![bytes("a")]);
    assert_eq!((config.internal_uid, config.internal_gid), (Some(7), Some(8)));
    config.share_user();
    assert!(config.share_user);
    assert_eq!(config.user_mapping(), None);
}
