use athena::errors::AppError;
use athena::numfmt::i16_decimal;
use athena::requests::{require_found, NewServerBody, UpdateServerBody};
use athena::server::{NewServer, Server};
use athena::text::str_concat;

fn sample_server(id: &str) -> Server {
    Server {
        id: id.to_string(),
        name: String::from("main"),
        port: 2302,
        limit_fps: 60,
        extra_flags: vec![String::from("-mod=@cba")],
        world: String::from("altis"),
        modpack: None,
    }
}

#[test]
fn paths_are_rooted_and_contain_id() {
    let s = sample_server("s1");
    assert_eq!(s.install_path(), "/var/lib/athena/servers/s1");
    assert_eq!(s.profiles_path(), "/var/lib/athena/profiles/s1");
    assert_eq!(s.logs_path(), "/var/log/athena/s1");
    assert!(s.install_path().contains("s1"));
    assert!(s.profiles_path().contains("s1"));
    assert!(s.logs_path().contains("s1"));
}

#[test]
fn paths_are_pairwise_distinct_and_deterministic() {
    let s = sample_server("s1");
    let (a, b, c) = (s.install_path(), s.profiles_path(), s.logs_path());
    assert_ne!(a, b);
    assert_ne!(a, c);
    assert_ne!(b, c);
    assert_eq!(a, s.install_path());
    assert_eq!(b, s.profiles_path());
    assert_eq!(c, s.logs_path());
}

#[test]
fn paths_for_empty_identifier() {
    let s = sample_server("");
    assert_eq!(s.install_path(), "/var/lib/athena/servers/");
    assert_eq!(s.logs_path(), "/var/log/athena/");
}

#[test]
fn log_file_paths() {
    let s = sample_server("s1");
    assert_eq!(s.steamcmd_log_path(), "/var/log/athena/s1/steamcmd.log");
    assert_eq!(s.server_log_path(), "/var/log/athena/s1/server.log");
}

#[test]
fn launch_args_end_to_end_scenario() {
    let s = sample_server("s1");
    let args = s.launch_args();
    assert_eq!(
        args,
        vec![
            "-name=main".to_string(),
            "-port=2302".to_string(),
            "-limitFPS=60".to_string(),
            "-world=altis".to_string(),
            "-profiles=/var/lib/athena/profiles/s1".to_string(),
            "-mod=@cba".to_string(),
        ]
    );
}

#[test]
fn launch_args_length_and_flag_order() {
    let mut s = sample_server("x");
    s.extra_flags = vec![
        String::from("-b"),
        String::from("-a"),
        String::from("-b"),
    ];
    let args = s.launch_args();
    assert_eq!(args.len(), 5 + 3);
    assert_eq!(&args[5..], ["-b", "-a", "-b"]);
    s.extra_flags.clear();
    assert_eq!(s.launch_args().len(), 5);
}

#[test]
fn install_args_fixed_shape() {
    let s = sample_server("s1");
    let args = s.install_args("user", "hunter2");
    assert_eq!(
        args,
        vec![
            "+force_install_dir".to_string(),
            "/var/lib/athena/servers/s1".to_string(),
            "+login".to_string(),
            "user".to_string(),
            "hunter2".to_string(),
            "+app_update".to_string(),
            "233780".to_string(),
            "validate".to_string(),
            "+quit".to_string(),
        ]
    );
}

#[test]
fn install_plan_targets_logs_dir_and_transcript() {
    let s = sample_server("s1");
    let p = s.install_update_plan("user", "pw");
    assert_eq!(p.executable, "/home/hayden/Steam/steamcmd.sh");
    assert!(p.working_dir.is_none());
    assert_eq!(p.dirs, vec!["/var/log/athena/s1".to_string()]);
    assert_eq!(p.log_path, "/var/log/athena/s1/steamcmd.log");
    assert_eq!(p.args, s.install_args("user", "pw"));
}

#[test]
fn launch_plan_runs_in_install_dir() {
    let s = sample_server("s1");
    let p = s.launch_plan();
    assert_eq!(p.executable, "./arma3server_x64");
    assert_eq!(p.working_dir.as_deref(), Some("/var/lib/athena/servers/s1"));
    assert_eq!(
        p.dirs,
        vec![
            "/var/lib/athena/servers/s1".to_string(),
            "/var/lib/athena/profiles/s1".to_string(),
            "/var/log/athena/s1".to_string(),
        ]
    );
    assert_eq!(p.log_path, "/var/log/athena/s1/server.log");
    assert_eq!(p.args, s.launch_args());
}

#[test]
fn decimal_rendering() {
    assert_eq!(i16_decimal(0), "0");
    assert_eq!(i16_decimal(7), "7");
    assert_eq!(i16_decimal(60), "60");
    assert_eq!(i16_decimal(2302), "2302");
    assert_eq!(i16_decimal(-5), "-5");
    assert_eq!(i16_decimal(i16::MAX), "32767");
    assert_eq!(i16_decimal(i16::MIN), "-32768");
}

#[test]
fn concat_helper() {
    assert_eq!(str_concat("", ""), "");
    assert_eq!(str_concat("ab", "cd"), "abcd");
}

#[test]
fn error_responses() {
    let (code, body) = AppError::NotFound.response_parts();
    assert_eq!(code, 404);
    assert_eq!(body.message, "Resource not found.");
    let (code, body) = AppError::IoError(String::from("denied")).response_parts();
    assert_eq!(code, 500);
    assert_eq!(body.message, "I/O Error: denied");
    let (code, body) = AppError::Error(String::from("boom")).response_parts();
    assert_eq!(code, 500);
    assert_eq!(body.message, "Unexpected error: boom");
}

#[test]
fn creation_request_defaults() {
    let body = NewServerBody {
        name: String::from("main"),
        port: 2302,
        limit_fps: 60,
        extra_flags: vec![String::from("-x")],
    };
    let ns: NewServer = body.into_new_server();
    assert_eq!(ns.name, "main");
    assert_eq!(ns.port, 2302);
    assert_eq!(ns.limit_fps, 60);
    assert_eq!(ns.extra_flags, vec!["-x".to_string()]);
    assert_eq!(ns.world, "empty");
    assert!(ns.modpack.is_none());
}

#[test]
fn update_request_merging() {
    let s = sample_server("s1");
    let kept = s.clone().apply_update(UpdateServerBody { name: None });
    assert_eq!(kept.name, "main");
    let renamed = s.apply_update(UpdateServerBody {
        name: Some(String::from("alt")),
    });
    assert_eq!(renamed.name, "alt");
    assert_eq!(renamed.id, "s1");
    assert_eq!(renamed.port, 2302);
}

#[test]
fn lookup_decision() {
    let s = sample_server("s1");
    match require_found(Some(s)) {
        Ok(v) => assert_eq!(v.id, "s1"),
        Err(_) => panic!("a found record must pass through"),
    }
    match require_found(None) {
        Ok(_) => panic!("a missing record must be rejected"),
        Err(e) => assert!(matches!(e, AppError::NotFound)),
    }
}
