use freee_timecard::actions::{label, Command};
use freee_timecard::config::Settings;
use freee_timecard::sequencer::{Event, PageAction, RunError, Session, Stage};

const BUTTON_LABELS: [&str; 4] = ["休憩開始", "休憩終了", "出勤", "退勤"];

fn settings() -> Settings {
    Settings::new("user@example.com".to_string(), "pw".to_string())
}

fn elements(labels: &[&str]) -> Event {
    Event::Elements(labels.iter().map(|s| Some(s.to_string())).collect())
}

/// Drives a session against a fixed page fixture up to the point where the
/// navigation buttons are presented, checking every operation on the way.
fn drive_to_buttons(cmd: Command) -> Session {
    let mut s = Session::new(settings(), cmd);
    assert!(matches!(s.stage, Stage::Init));
    let a = s.start();
    assert_eq!(a, PageAction::Navigate("https://www.freee.co.jp/hr/"));

    let a = s.step(Event::Done).unwrap();
    assert_eq!(
        a,
        PageAction::FindElements(
            "#gatsby-focus-wrapper > header > div.g-header_inner > div > div.g-headerBtn > a"
        )
    );
    let a = s.step(elements(&["製品情報", "ログインする", "無料で始める"])).unwrap();
    assert_eq!(a, PageAction::Click(1));
    let a = s.step(Event::Done).unwrap();
    assert_eq!(a, PageAction::WaitForElements("input"));
    let a = s.step(elements(&["", ""])).unwrap();
    assert_eq!(a, PageAction::Click(0));
    let a = s.step(Event::Done).unwrap();
    assert_eq!(a, PageAction::TypeText("user@example.com".to_string()));
    let a = s.step(Event::Done).unwrap();
    assert_eq!(a, PageAction::Click(1));
    let a = s.step(Event::Done).unwrap();
    assert_eq!(a, PageAction::TypeText("pw".to_string()));
    let a = s.step(Event::Done).unwrap();
    assert_eq!(a, PageAction::PressKey("Enter"));
    let a = s.step(Event::Done).unwrap();
    assert_eq!(a, PageAction::WaitForElements("#global-navigation-body-block button"));
    s
}

/// Completes a run against the four-button fixture and returns the index the
/// sequencer asked to click.
fn clicked_index(cmd: Command) -> usize {
    let mut s = drive_to_buttons(cmd);
    let a = s.step(elements(&BUTTON_LABELS)).unwrap();
    let i = match a {
        PageAction::Click(i) => i,
        other => panic!("expected a click, got {:?}", other),
    };
    let a = s.step(Event::Done).unwrap();
    assert_eq!(a, PageAction::WaitNavigated);
    let a = s.step(Event::Done).unwrap();
    assert_eq!(a, PageAction::Finish);
    assert!(matches!(s.stage, Stage::Finished));
    i
}

#[test]
fn break_start_clicks_its_button() {
    assert_eq!(clicked_index(Command::BreakStart), 0);
}

#[test]
fn break_end_clicks_its_button() {
    assert_eq!(clicked_index(Command::BreakEnd), 1);
}

#[test]
fn clock_in_clicks_its_button() {
    assert_eq!(clicked_index(Command::ClockIn), 2);
}

#[test]
fn clock_out_clicks_its_button() {
    assert_eq!(clicked_index(Command::ClockOut), 3);
}

#[test]
fn label_table_is_fixed() {
    assert_eq!(label(Command::BreakStart), "休憩開始");
    assert_eq!(label(Command::BreakEnd), "休憩終了");
    assert_eq!(label(Command::ClockIn), "出勤");
    assert_eq!(label(Command::ClockOut), "退勤");
}

#[test]
fn missing_login_link_is_fatal() {
    let mut s = Session::new(settings(), Command::ClockIn);
    s.start();
    s.step(Event::Done).unwrap();
    let r = s.step(elements(&["製品情報", "無料で始める"]));
    assert_eq!(r, Err(RunError::LoginLinkNotFound));
    assert!(matches!(s.stage, Stage::AwaitLoginAnchors));
    assert_eq!(
        RunError::LoginLinkNotFound.message(),
        "failed to find the login link"
    );
}

#[test]
fn fewer_than_two_inputs_is_fatal() {
    let mut s = Session::new(settings(), Command::ClockIn);
    s.start();
    s.step(Event::Done).unwrap();
    s.step(elements(&["ログインする"])).unwrap();
    s.step(Event::Done).unwrap();
    let r = s.step(elements(&[""]));
    assert_eq!(r, Err(RunError::MissingLoginInputs));
    assert_eq!(
        RunError::MissingLoginInputs.message(),
        "fewer than two login input fields were present"
    );
}

#[test]
fn missing_action_button_is_fatal() {
    let mut s = drive_to_buttons(Command::ClockOut);
    let r = s.step(elements(&["休憩開始", "休憩終了", "出勤"]));
    assert_eq!(r, Err(RunError::ActionButtonNotFound));
    assert!(matches!(s.stage, Stage::AwaitButtons));
    assert_eq!(
        RunError::ActionButtonNotFound.message(),
        "failed to find the requested action's button"
    );
}

#[test]
fn failed_extraction_among_buttons_is_skipped() {
    let mut s = drive_to_buttons(Command::ClockIn);
    let texts = vec![
        None,
        Some("休憩開始".to_string()),
        Some("休憩終了".to_string()),
        Some("出勤".to_string()),
        Some("退勤".to_string()),
    ];
    let a = s.step(Event::Elements(texts)).unwrap();
    assert_eq!(a, PageAction::Click(3));
}

#[test]
fn mismatched_event_is_fatal() {
    let mut s = Session::new(settings(), Command::BreakStart);
    let r = s.step(Event::Done);
    assert_eq!(r, Err(RunError::UnexpectedEvent));
    assert!(matches!(s.stage, Stage::Init));

    let mut s = Session::new(settings(), Command::BreakStart);
    s.start();
    let r = s.step(elements(&["ログインする"]));
    assert_eq!(r, Err(RunError::UnexpectedEvent));
    assert_eq!(
        RunError::UnexpectedEvent.message(),
        "the page event did not match the awaited operation"
    );
}

#[test]
fn default_settings_are_empty() {
    let s = Settings::default();
    assert_eq!(s.email, "");
    assert_eq!(s.password, "");
}
