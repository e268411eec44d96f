use sutra::cards::port_for;
use sutra::registry::{
    StatusFile, environment, is_meta_file_name, parse_meta, parse_status, status_file_unit,
};
use sutra::state::State;

#[test]
fn status_lines() {
    assert_eq!(parse_status("ready\n"), (State::Ready, None));
    assert_eq!(parse_status("building: cargo\n"), (State::Building, Some("cargo".to_string())));
    assert_eq!(parse_status("  failed:exit code 1  "), (State::Failed, Some("exit code 1".to_string())));
    assert_eq!(parse_status("starting:"), (State::Starting, None));
    assert_eq!(parse_status(""), (State::Unset, None));
    assert_eq!(parse_status("running"), (State::Running, None));
    assert_eq!(parse_status("stopped"), (State::Stopped, None));
    assert_eq!(parse_status("paused: a: b"), (State::Other("paused".to_string()), Some("a: b".to_string())));
}

#[test]
fn meta_files() {
    let m = parse_meta("DIR=/home/me/app\nPID=4242\nSTARTED=1700000000\nSERVER_PORT=3000\nFRONTEND_PORT = 5173\n");
    assert_eq!(m.pid, Some(4242));
    assert_eq!(m.dir, Some("/home/me/app".to_string()));
    assert_eq!(m.started, Some(1700000000));
    assert_eq!(m.ports, vec![("SERVER".to_string(), 3000), ("FRONTEND".to_string(), 5173)]);
    let m = parse_meta("PID=abc\nX_PORT=70000\n_PORT=1\nPID=+7");
    assert_eq!(m.pid, Some(7));
    assert!(m.ports.is_empty());
    let m = parse_meta("PID=4294967296\n");
    assert_eq!(m.pid, None);
    let m = parse_meta("PID=4294967295");
    assert_eq!(m.pid, Some(4294967295));
}

#[test]
fn file_names() {
    assert!(is_meta_file_name("a0a0a0a0a0a00001"));
    assert!(!is_meta_file_name("a0a0.tmp"));
    assert!(!is_meta_file_name("myproject"));
    assert!(!is_meta_file_name(""));
    assert_eq!(
        status_file_unit("a0a0.server.status"),
        Some(("a0a0".to_string(), "server".to_string()))
    );
    assert_eq!(status_file_unit("a0a0.server.status.tmp"), None);
    assert_eq!(status_file_unit(".server.status"), None);
    assert_eq!(
        status_file_unit(".a0a0.server.status"),
        Some(("a0a0".to_string(), "server".to_string()))
    );
    assert_eq!(status_file_unit("a0a0..status"), None);
    assert_eq!(status_file_unit("a0a0.status"), None);
}

#[test]
fn environment_from_files() {
    let files = vec![
        StatusFile { env_id: "ab".to_string(), unit_name: "server".to_string(), content: "ready".to_string() },
        StatusFile { env_id: "cd".to_string(), unit_name: "vite".to_string(), content: "starting".to_string() },
        StatusFile { env_id: "ab".to_string(), unit_name: "wasm".to_string(), content: "building: wasm-pack".to_string() },
    ];
    let env = environment("ab".to_string(), parse_meta("DIR=/x/y\nPID=12\nSERVER_PORT=3000\n"), true, &files).unwrap();
    assert_eq!(env.pid, 12);
    assert!(env.alive);
    assert_eq!(env.units.len(), 2);
    assert_eq!(env.units[0].name, "server");
    assert_eq!(env.units[1].detail, Some("wasm-pack".to_string()));
    assert_eq!(port_for(&env, &"server".to_string()), Some(3000));
    assert_eq!(env.dir, "/x/y");
    assert!(environment("ab".to_string(), parse_meta("DIR=/x\n"), true, &files).is_none());
    assert!(environment("ab".to_string(), parse_meta("PID=12\n"), true, &files).is_none());
}
