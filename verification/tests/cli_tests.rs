use tull::cli::{
    banner, exit_code, plan, setup_and_start_server, Command, Options, Setup, DEFAULT_HOST,
    DEFAULT_PORT, STOP_MESSAGE,
};
use tull::launch::{parse_host, HostAddress};

fn options() -> Options {
    Options {
        start: false,
        stop: false,
        status: false,
        ls: false,
        follow: None,
        reopen: None,
        host: DEFAULT_HOST.to_string(),
        port: DEFAULT_PORT,
    }
}

#[test]
fn defaults() {
    assert_eq!(DEFAULT_HOST, "127.0.0.1");
    assert_eq!(DEFAULT_PORT, 17171);
    assert_eq!(parse_host(DEFAULT_HOST), Some(HostAddress { a: 127, b: 0, c: 0, d: 1 }));
    assert_eq!(STOP_MESSAGE, "stop server");
}

#[test]
fn no_option_asks_for_nothing() {
    assert_eq!(plan(&options()), vec![]);
}

#[test]
fn start_captures_a_new_session() {
    let mut o = options();
    o.start = true;
    assert_eq!(plan(&o), vec![Command::Capture(None)]);
}

#[test]
fn reopen_captures_into_the_named_session() {
    let mut o = options();
    o.reopen = Some("notes".to_string());
    assert_eq!(plan(&o), vec![Command::Capture(Some("notes".to_string()))]);
}

#[test]
fn follow_asks_for_nothing() {
    let mut o = options();
    o.follow = Some("notes".to_string());
    assert_eq!(plan(&o), vec![]);
}

#[test]
fn commands_run_in_fixed_order() {
    let o = Options {
        start: true,
        stop: true,
        status: true,
        ls: true,
        follow: Some("x".to_string()),
        reopen: Some("again".to_string()),
        host: "10.1.1.1".to_string(),
        port: 8000,
    };
    assert_eq!(
        plan(&o),
        vec![
            Command::Status,
            Command::Capture(None),
            Command::Stop,
            Command::List,
            Command::Capture(Some("again".to_string())),
        ]
    );
}

#[test]
fn single_options() {
    let mut status = options();
    status.status = true;
    assert_eq!(plan(&status), vec![Command::Status]);
    let mut ls = options();
    ls.ls = true;
    assert_eq!(plan(&ls), vec![Command::List]);
    let mut stop = options();
    stop.stop = true;
    assert_eq!(plan(&stop), vec![Command::Stop]);
}

#[test]
fn banner_names_the_three_listings() {
    assert_eq!(
        banner("127.0.0.1", 17171),
        vec![
            "API: http://127.0.0.1:17171/tull/api",
            "Web: http://127.0.0.1:17171/tull/web",
            "Raw: http://127.0.0.1:17171/tull/raw",
        ]
    );
}

#[test]
fn setup_goes_on_when_directories_are_there() {
    assert_eq!(
        setup_and_start_server(true, "127.0.0.1", 17171),
        Setup::Proceed(banner("127.0.0.1", 17171))
    );
}

#[test]
fn setup_is_given_up_without_directories() {
    assert_eq!(
        setup_and_start_server(false, "127.0.0.1", 17171),
        Setup::Abort("Failed to create the data directories.".to_string())
    );
}

#[test]
fn exit_codes() {
    assert_eq!(exit_code(false), 0);
    assert_ne!(exit_code(true), 0);
}
