use fritzctl::cli::{Action, Cli, Command, Expect, Reply, Run, Stage};
use fritzctl::model::{ConnectionInfo, Device, DeviceData, Devices, OsInfo, Overview, OverviewData};
use fritzctl::session::{AuthError, ClientError, Config, Session};
use fritzctl::wire::Request;

fn config() -> Config {
    Config::new("http://fritz.box", "admin", "testpw")
}

fn start(command: Command) -> Run {
    let (run, action) = Cli { command: Some(command) }.run(config());
    match action {
        Action::Send { request: Request::Get { url, query }, expect } => {
            assert_eq!(url, "http://fritz.box/login_sid.lua");
            assert!(query.is_empty());
            assert_eq!(expect, Expect::Session);
        }
        _ => panic!("the challenge request was expected"),
    }
    assert_eq!(run.stage(), Stage::Challenge);
    run
}

fn challenge(text: &str) -> Reply {
    Reply::Session(Session::new("0000000000000000", text, 0))
}

fn granted() -> Reply {
    Reply::Session(Session::new("9c4a1b0f33d2e871", "abc", 0))
}

fn sent_post(action: Action) -> (String, String, Expect) {
    match action {
        Action::Send { request: Request::PostForm { url, body }, expect } => (url, body, expect),
        _ => panic!("a POST was expected"),
    }
}

fn sent_get(action: Action) -> (String, Vec<(String, String)>, Expect) {
    match action {
        Action::Send { request: Request::Get { url, query }, expect } => (url, query, expect),
        _ => panic!("a GET was expected"),
    }
}

fn printed(action: Action) -> String {
    match action {
        Action::Print(text) => text,
        _ => panic!("a text to print was expected"),
    }
}

fn logged_in(command: Command) -> (Run, Action) {
    let mut run = start(command);
    let (url, body, expect) = sent_post(run.step(challenge("abc")));
    assert_eq!(url, "http://fritz.box/login_sid.lua");
    assert_eq!(body, "username=admin&response=abc-14b27298212f8092760f9e9306a618e5");
    assert_eq!(expect, Expect::Session);
    assert_eq!(run.stage(), Stage::Login);
    let action = run.step(granted());
    (run, action)
}

fn overview() -> Overview {
    Overview {
        pid: "overview".to_string(),
        data: OverviewData {
            os: OsInfo {
                product_name: "Box".to_string(),
                is_update_available: true,
                version: "7".to_string(),
                name: "b".to_string(),
            },
            internet: ConnectionInfo { state: "s".to_string(), up: "1".to_string(), down: "2".to_string() },
            dsl: ConnectionInfo { state: "t".to_string(), up: "3".to_string(), down: "4".to_string() },
        },
    }
}

fn device(uid: &str, name: &str) -> Device {
    Device {
        uid: uid.to_string(),
        classes: None,
        ipv4: None,
        is_trusted: None,
        mac: None,
        model: None,
        name: Some(name.to_string()),
        state: None,
        typ: None,
    }
}

#[test]
fn no_command_means_nothing_to_do() {
    let (mut run, action) = Cli { command: None }.run(config());
    assert!(matches!(action, Action::Nothing));
    assert!(run.finished());
    assert!(matches!(run.step(granted()), Action::Nothing));
}

#[test]
fn rejected_login_surfaces_and_ends_the_run() {
    let mut run = start(Command::Info);
    let (_, body, _) = sent_post(run.step(challenge("abc")));
    assert_eq!(body, "username=admin&response=abc-14b27298212f8092760f9e9306a618e5");
    let action = run.step(Reply::Session(Session::new("0000000000000000", "abc", 8)));
    assert!(matches!(action, Action::Fail(ClientError::Auth(AuthError::Rejected))));
    assert!(run.finished());
    assert!(matches!(run.step(Reply::Overview(overview())), Action::Nothing));
    assert!(matches!(run.step(granted()), Action::Nothing));
    assert!(matches!(run.step(Reply::Done), Action::Nothing));
    assert!(run.finished());
}

#[test]
fn info_prints_the_overview_table() {
    let (mut run, action) = logged_in(Command::Info);
    let (url, body, expect) = sent_post(action);
    assert_eq!(url, "http://fritz.box/data.lua");
    assert_eq!(body, "sid=9c4a1b0f33d2e871&page=overview");
    assert_eq!(expect, Expect::Overview);
    assert_eq!(run.stage(), Stage::Overview);
    let text = printed(run.step(Reply::Overview(overview())));
    assert_eq!(
        text,
        "MODEL    VERSION    NAME    UPDATE_AVAILABLE    DSL_STATUS    INET_STATUS    \n\
         Box      7          b       Yes                 3 / 4 (t)     1 / 2 (s)      \n"
    );
    assert!(run.finished());
}

#[test]
fn devices_prints_one_row_per_device() {
    let (mut run, action) = logged_in(Command::Devices);
    let (url, body, expect) = sent_post(action);
    assert_eq!(url, "http://fritz.box/data.lua");
    assert_eq!(body, "sid=9c4a1b0f33d2e871&page=netDev&xhrId=all");
    assert_eq!(expect, Expect::Devices);
    let devices = Devices {
        pid: "netDev".to_string(),
        data: Some(DeviceData {
            passive: Some(vec![device("u3", "old")]),
            active: Some(vec![device("u1", "pc"), device("u2", "phone")]),
        }),
    };
    let text = printed(run.step(Reply::Devices(devices)));
    assert_eq!(
        text,
        "NAME     IP    LASTUSED    CONNECTION    MODEL    UID    TRUSTED    STATE    \n\
         pc                                                u1                         \n\
         phone                                             u2                         \n\
         old                                               u3                         \n"
    );
    assert!(run.finished());
}

#[test]
fn devices_without_data_print_nothing() {
    let (mut run, _) = logged_in(Command::Devices);
    let text = printed(run.step(Reply::Devices(Devices { pid: String::new(), data: None })));
    assert_eq!(text, "");
}

#[test]
fn granted_reboot_is_confirmed() {
    let (mut run, action) = logged_in(Command::Reboot);
    let (url, body, expect) = sent_post(action);
    assert_eq!(url, "http://fritz.box/data.lua");
    assert_eq!(body, "sid=9c4a1b0f33d2e871&page=reboot&reboot=0");
    assert_eq!(expect, Expect::Body);
    let action = run.step(Reply::Body(br#"{"data":{"reboot":"ok"}}"#.to_vec()));
    let (url, body, expect) = sent_post(action);
    assert_eq!(url, "http://fritz.box/reboot.lua");
    assert_eq!(body, "sid=9c4a1b0f33d2e871&ajax=1");
    assert_eq!(expect, Expect::Nothing);
    assert_eq!(run.stage(), Stage::RebootConfirmation);
    let text = printed(run.step(Reply::Done));
    assert_eq!(text, "Reboot status: Rebooting... This can take some time!! (5-10m)");
    assert!(run.finished());
}

#[test]
fn refused_reboot_sends_no_confirmation() {
    let mut sent = 0;
    let (mut run, action) = logged_in(Command::Reboot);
    if let Action::Send { .. } = action {
        sent += 1;
    }
    let mut action = run.step(Reply::Body(br#"{"data":{"reboot":"failed"}}"#.to_vec()));
    loop {
        match action {
            Action::Send { .. } => {
                sent += 1;
                action = run.step(Reply::Done);
            }
            Action::Print(text) => {
                assert_eq!(text, "Reboot status: No Reboot!");
                break;
            }
            _ => panic!("the run should end with a text"),
        }
    }
    assert_eq!(sent, 1);
    assert!(run.finished());
    assert!(matches!(run.step(Reply::Done), Action::Nothing));
}

#[test]
fn reboot_answer_without_the_field_is_a_refusal() {
    let (mut run, _) = logged_in(Command::Reboot);
    let text = printed(run.step(Reply::Body(br#"{"data":{}}"#.to_vec())));
    assert_eq!(text, "Reboot status: No Reboot!");
}

#[test]
fn malformed_reboot_answer_fails_without_confirmation() {
    let (mut run, _) = logged_in(Command::Reboot);
    let action = run.step(Reply::Body(b"not json".to_vec()));
    assert!(matches!(action, Action::Fail(ClientError::Decode(_))));
    assert!(run.finished());
    assert!(matches!(run.step(Reply::Done), Action::Nothing));
}

#[test]
fn reconnect_disconnects_then_connects() {
    let (mut run, action) = logged_in(Command::Reconnect);
    let (url, query, expect) = sent_get(action);
    assert_eq!(url, "http://fritz.box/internet/inetstat_monitor.lua");
    assert_eq!(query[2], ("action".to_string(), "disconnect".to_string()));
    assert_eq!(expect, Expect::Nothing);
    assert_eq!(run.stage(), Stage::Disconnect);
    let (url, query, expect) = sent_get(run.step(Reply::Done));
    assert_eq!(url, "http://fritz.box/internet/inetstat_monitor.lua");
    assert_eq!(
        query,
        vec![
            ("sid".to_string(), "9c4a1b0f33d2e871".to_string()),
            ("myXhr".to_string(), "1".to_string()),
            ("action".to_string(), "connect".to_string())
        ]
    );
    assert_eq!(expect, Expect::Nothing);
    assert_eq!(run.stage(), Stage::Connect);
    let text = printed(run.step(Reply::Done));
    assert_eq!(text, "Heads up! This can take up to 30s to take full effect..");
    assert!(run.finished());
}

#[test]
fn failed_reply_ends_the_run_with_its_error() {
    let mut run = start(Command::Devices);
    let action = run.step(Reply::Failed(ClientError::Transport("connection refused".to_string())));
    match action {
        Action::Fail(ClientError::Transport(text)) => assert_eq!(text, "connection refused"),
        _ => panic!("the transport error was expected"),
    }
    assert!(run.finished());

    let (mut run, _) = logged_in(Command::Info);
    let action = run.step(Reply::Failed(ClientError::Decode("missing field".to_string())));
    match action {
        Action::Fail(ClientError::Decode(text)) => assert_eq!(text, "missing field"),
        _ => panic!("the decode error was expected"),
    }
    assert!(run.finished());
}

#[test]
fn reply_of_the_wrong_kind_ends_the_run() {
    let mut run = start(Command::Info);
    assert!(matches!(run.step(Reply::Done), Action::Fail(ClientError::UnexpectedReply)));
    assert!(run.finished());

    let (mut run, _) = logged_in(Command::Info);
    let action = run.step(Reply::Body(b"{}".to_vec()));
    assert!(matches!(action, Action::Fail(ClientError::UnexpectedReply)));
    assert!(run.finished());
}
