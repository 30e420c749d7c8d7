use user_service::startup::Outcome::{Failed, Succeeded};
use user_service::startup::{
    begin, step, Action, Outcome, Phase, CONNECTION_URI, DATABASE_NAME, LISTEN_IP, LISTEN_PORT,
};

fn actions_for(outcomes: &[Outcome]) -> Vec<Action> {
    let (mut phase, _) = begin();
    outcomes.iter().map(|o| step(&mut phase, *o)).collect()
}

#[test]
fn begin_parses_first() {
    assert_eq!(begin(), (Phase::ParsingUri, Action::ParseUri));
}

#[test]
fn successful_startup_serves_after_ping() {
    assert_eq!(
        actions_for(&[Succeeded, Succeeded, Succeeded]),
        vec![Action::CreateClient, Action::PingDatabase, Action::Serve]
    );
}

#[test]
fn failed_ping_exits_without_serving() {
    let actions = actions_for(&[Succeeded, Succeeded, Failed, Succeeded, Succeeded]);
    assert_eq!(
        actions,
        vec![
            Action::CreateClient,
            Action::PingDatabase,
            Action::Exit { failed: true },
            Action::Exit { failed: true },
            Action::Exit { failed: true },
        ]
    );
    assert!(!actions.contains(&Action::Serve));
}

#[test]
fn failed_parse_exits_at_once() {
    assert_eq!(
        actions_for(&[Failed, Succeeded]),
        vec![Action::Exit { failed: true }, Action::Exit { failed: true }]
    );
}

#[test]
fn failed_client_exits_at_once() {
    assert_eq!(
        actions_for(&[Succeeded, Failed]),
        vec![Action::CreateClient, Action::Exit { failed: true }]
    );
}

#[test]
fn server_error_exits_with_failure() {
    let mut phase = Phase::Serving;
    assert_eq!(step(&mut phase, Outcome::Failed), Action::Exit { failed: true });
    assert_eq!(phase, Phase::Stopped { failed: true });
}

#[test]
fn server_end_exits_cleanly() {
    let mut phase = Phase::Serving;
    assert_eq!(step(&mut phase, Outcome::Succeeded), Action::Exit { failed: false });
    assert_eq!(phase, Phase::Stopped { failed: false });
    assert_eq!(step(&mut phase, Outcome::Failed), Action::Exit { failed: false });
    assert_eq!(phase, Phase::Stopped { failed: false });
}

#[test]
fn startup_settings() {
    assert_eq!(CONNECTION_URI, "mongodb://localhost:27017");
    assert_eq!(DATABASE_NAME, "pos_mobile");
    assert_eq!(LISTEN_IP, [127, 0, 0, 1]);
    assert_eq!(LISTEN_PORT, 3000);
}
