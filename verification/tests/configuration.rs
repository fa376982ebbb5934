use std::path::{Path, PathBuf};

use microvm_builder::config::{
    daemon_socket_in, gvproxy_args_for, load_config, validate_file, Config, ConfigLoad, DaemonArgs,
    DAEMON_SOCKET_NAME, DEFAULT_IDLE_TIMEOUT_SECS, DEFAULT_RUNTIME_DIR, DEFAULT_SSH_PORT,
    DEFAULT_START_TIMEOUT_SECS, DEFAULT_STOP_TIMEOUT_SECS,
};
use microvm_builder::decimal::to_decimal;
use microvm_builder::error::{Error, Program};
use microvm_builder::path::join;
use microvm_builder::time::Duration;

fn args(runtime_dir: &[u8]) -> DaemonArgs {
    DaemonArgs {
        runtime_dir: runtime_dir.to_vec(),
        gvproxy: b"/bin/gvproxy".to_vec(),
        vfkit: b"/bin/vfkit".to_vec(),
        runner: b"/bin/runner".to_vec(),
        ssh_port: 2222,
        idle_timeout: 120,
        start_timeout: 60,
        stop_timeout: 10,
    }
}

fn config(runtime_dir: &[u8]) -> Config {
    let step = load_config::<u8>(args(runtime_dir))
        .advance(Ok(true))
        .advance(Ok(true))
        .advance(Ok(true));
    match step {
        ConfigLoad::Finished { result: Ok(config) } => config,
        step => panic!("{:?}", step),
    }
}

fn lossy(bytes: &[u8]) -> String {
    String::from_utf8_lossy(bytes).into_owned()
}

#[test]
fn the_configuration_follows_the_arguments() {
    assert_eq!(
        config(b"/run/mvm"),
        Config {
            runtime_dir: b"/run/mvm".to_vec(),
            daemon_socket: b"/run/mvm/daemon.sock".to_vec(),
            vfkit_socket: b"/run/mvm/vfkit.sock".to_vec(),
            gvproxy: b"/bin/gvproxy".to_vec(),
            vfkit: b"/bin/vfkit".to_vec(),
            runner: b"/bin/runner".to_vec(),
            ssh_port: 2222,
            idle_timeout: Duration { secs: 120, nanos: 0 },
            start_timeout: Duration { secs: 60, nanos: 0 },
            stop_timeout: Duration { secs: 10, nanos: 0 },
        }
    );
}

#[test]
fn the_programs_are_looked_at_in_order() {
    let step = load_config::<u8>(args(b"/r"));
    assert!(matches!(step, ConfigLoad::ReadMetadata { program: Program::Gvproxy, .. }));
    let step = step.advance(Ok(true));
    assert!(matches!(step, ConfigLoad::ReadMetadata { program: Program::Vfkit, .. }));
    let step = step.advance(Ok(true));
    assert!(matches!(step, ConfigLoad::ReadMetadata { program: Program::Runner, .. }));
}

#[test]
fn the_first_program_that_is_no_file_is_named() {
    assert_eq!(
        load_config::<u8>(args(b"/r")).advance(Err(2)).advance(Ok(false)),
        ConfigLoad::Finished {
            result: Err(Error::ReadMetadata {
                program: Program::Gvproxy,
                path: b"/bin/gvproxy".to_vec(),
                source: 2,
            })
        }
    );
    assert_eq!(
        load_config::<u8>(args(b"/r")).advance(Ok(true)).advance(Ok(false)),
        ConfigLoad::Finished {
            result: Err(Error::NotAFile {
                program: Program::Vfkit,
                path: b"/bin/vfkit".to_vec(),
            })
        }
    );
    assert_eq!(
        load_config::<u8>(args(b"/r")).advance(Ok(true)).advance(Ok(true)).advance(Ok(false)),
        ConfigLoad::Finished {
            result: Err(Error::NotAFile {
                program: Program::Runner,
                path: b"/bin/runner".to_vec(),
            })
        }
    );
}

#[test]
fn a_file_is_valid_if_it_is_regular() {
    assert_eq!(validate_file::<u8>(b"/x".to_vec(), Program::Vfkit, Ok(true)), Ok(()));
    assert_eq!(
        validate_file::<u8>(b"/x".to_vec(), Program::Vfkit, Ok(false)),
        Err(Error::NotAFile { program: Program::Vfkit, path: b"/x".to_vec() })
    );
    assert_eq!(
        validate_file::<u8>(b"/x".to_vec(), Program::Vfkit, Err(1)),
        Err(Error::ReadMetadata { program: Program::Vfkit, path: b"/x".to_vec(), source: 1 })
    );
}

#[test]
fn client_and_daemon_agree_on_the_socket() {
    for dir in [&b"/run/mvm"[..], b"/run/mvm/", b"", b"/", b"rel"] {
        let config = config(dir);
        assert_eq!(daemon_socket_in(&dir.to_vec()), config.daemon_socket);
        assert_ne!(config.daemon_socket, config.vfkit_socket);
        assert!(config.daemon_socket.starts_with(dir));
        assert!(config.vfkit_socket.starts_with(dir));
    }
}

#[test]
fn paths_join_as_the_standard_library_joins_them() {
    for dir in ["", "/", "a", "a/", "/a/b", "/a/b//", "."] {
        for name in ["daemon.sock", "/abs", "x/y", ""] {
            let expected: PathBuf = Path::new(dir).join(name);
            assert_eq!(
                join(&dir.as_bytes().to_vec(), name.as_bytes()),
                expected.to_str().unwrap().as_bytes(),
                "{:?} {:?}",
                dir,
                name
            );
        }
    }
}

#[test]
fn gvproxy_is_told_the_port_and_the_socket() {
    assert_eq!(
        config(b"/run/mvm").gvproxy_args(),
        vec![
            "--ssh-port".to_string(),
            "2222".to_string(),
            "--listen-vfkit".to_string(),
            "unixgram:///run/mvm/vfkit.sock".to_string(),
        ]
    );
    assert_eq!(
        gvproxy_args_for(7, "s"),
        vec![
            "--ssh-port".to_string(),
            "7".to_string(),
            "--listen-vfkit".to_string(),
            "unixgram://s".to_string(),
        ]
    );
}

#[test]
fn a_path_is_shown_as_the_standard_library_shows_it() {
    for dir in [&b"/run/\xff\xfe"[..], b"/r\xc3\xa9", b"\xe2\x82", b"a\xf0\x9f\x98x"] {
        let socket = config(dir).vfkit_socket;
        let shown = config(dir).gvproxy_args().pop().unwrap();
        assert_eq!(shown, format!("unixgram://{}", lossy(&socket)));
    }
    assert_eq!(
        config(b"/\xff").gvproxy_args()[3],
        "unixgram:///\u{fffd}/vfkit.sock"
    );
    let text = "/r\u{e9}";
    assert_eq!(
        config(text.as_bytes()).gvproxy_args()[3],
        format!("unixgram://{}", Path::new(text).join("vfkit.sock").display())
    );
}

#[test]
fn decimal_notation_is_the_usual_one() {
    for n in 0..=u16::MAX {
        assert_eq!(to_decimal(n), n.to_string());
    }
}

#[test]
fn the_defaults_are_those_of_the_command_line() {
    assert_eq!(DEFAULT_RUNTIME_DIR, "/var/run/microvm-builder");
    assert_eq!(DAEMON_SOCKET_NAME, "daemon.sock");
    assert_eq!(DEFAULT_SSH_PORT, 2222);
    assert_eq!(DEFAULT_IDLE_TIMEOUT_SECS, 120);
    assert_eq!(DEFAULT_START_TIMEOUT_SECS, 120);
    assert_eq!(DEFAULT_STOP_TIMEOUT_SECS, 10);
}

#[test]
fn durations_count_nanoseconds() {
    assert_eq!(Duration::from_secs(3).total_nanos(), 3_000_000_000);
    assert_eq!(Duration { secs: 1, nanos: 5 }.total_nanos(), 1_000_000_005);
    assert_eq!(Program::Gvproxy.name(), "gvproxy");
    assert_eq!(Program::Vfkit.name(), "vfkit");
    assert_eq!(Program::Runner.name(), "runner");
}
