use camctrl::command::{
    camera_uri, credential_file_error, exit_status, failure_message, find_user, login_of,
    reboot_message, user_list_report, user_not_found_message, Command, UserRow, FAILURE_STATUS,
    USER_NOT_FOUND_STATUS,
};
use camctrl::command::{Action, CommandRun, Phase};
use camctrl::error::DeviceError;

#[test]
fn uri_is_required() {
    match camera_uri(&None) {
        Err(DeviceError::Unknown(Some(m))) => assert_eq!(m, "No URI specified"),
        other => panic!("unexpected {:?}", other),
    }
}

#[test]
fn uri_must_parse() {
    match camera_uri(&Some("::nonsense".to_string())) {
        Err(DeviceError::Unknown(Some(m))) => assert_eq!(m, "Could not parse URI"),
        other => panic!("unexpected {:?}", other),
    }
}

#[test]
fn uri_is_normalized() {
    assert_eq!(camera_uri(&Some("http://Cam.Local".to_string())).unwrap(), "http://cam.local/");
    assert_eq!(
        camera_uri(&Some("http://10.0.0.5/onvif/device_service".to_string())).unwrap(),
        "http://10.0.0.5/onvif/device_service"
    );
}

#[test]
fn credential_file_error_message() {
    let e = credential_file_error("No such file or directory (os error 2)");
    assert_eq!(e.message(), "Unknown error: Could not load credential file: No such file or directory (os error 2)");
}

#[test]
fn login_from_credentials() {
    assert_eq!(
        login_of(Some(("u".to_string(), "p".to_string()))),
        (Some("u".to_string()), Some("p".to_string()))
    );
    assert_eq!(login_of(None), (None, None));
}

fn row(name: &str) -> UserRow {
    UserRow { username: name.to_string(), level: "User".to_string(), extension: "None".to_string() }
}

#[test]
fn first_matching_user_is_found() {
    let names: Vec<UserRow> = ["root", "admin", "guest", "admin"].iter().map(|s| row(s)).collect();
    assert_eq!(find_user(&names, "admin"), Some(1));
    assert_eq!(find_user(&names, "root"), Some(0));
    assert_eq!(find_user(&names, "nobody"), None);
    assert_eq!(find_user(&Vec::new(), "admin"), None);
}

#[test]
fn messages() {
    assert_eq!(user_not_found_message("bob"), "User bob not found.\n");
    assert_eq!(reboot_message("Rebooting in 30 seconds"), "Reboot: Rebooting in 30 seconds\n");
    assert_eq!(
        failure_message(&DeviceError::Unauthorized("denied".to_string())),
        "Error: Unauthorized: denied"
    );
}

#[test]
fn user_listing_repeats_heading() {
    let rows = vec![
        UserRow { username: "a".to_string(), level: "Administrator".to_string(), extension: "None".to_string() },
        UserRow { username: "b".to_string(), level: "User".to_string(), extension: "None".to_string() },
    ];
    assert_eq!(
        user_list_report(&rows),
        "Users:\n    a\tAdministrator\tNone\nUsers:\n    b\tUser\tNone\n"
    );
    assert_eq!(user_list_report(&vec![]), "");
}

#[test]
fn exit_statuses() {
    assert_eq!(exit_status(&Ok(0)), 0);
    assert_eq!(exit_status(&Ok(USER_NOT_FOUND_STATUS)), -1);
    assert_eq!(exit_status(&Err(DeviceError::default())), -2);
    assert_eq!(FAILURE_STATUS, -2);
}

#[test]
fn only_probe_works_without_a_camera() {
    assert!(!Command::Probe.needs_camera());
    assert!(Command::Info.needs_camera());
    assert!(Command::GetUsers.needs_camera());
    assert!(Command::Reboot.needs_camera());
    assert!(Command::SetUser { username: "a".to_string(), password: "b".to_string() }.needs_camera());
}

fn finish(action: Action) -> (String, Result<i32, DeviceError>) {
    match action {
        Action::Finish { output, outcome } => (output, outcome),
        other => panic!("expected the run to finish, got {:?}", other),
    }
}

#[test]
fn run_without_uri_ends_at_once() {
    let (run, action) = CommandRun::start(&None, &Some("creds.json".to_string()), Command::Info);
    assert!(matches!(run.phase, Phase::Finished));
    let (output, outcome) = finish(action);
    assert_eq!(output, "");
    assert!(matches!(outcome, Err(DeviceError::Unknown(Some(m))) if m == "No URI specified"));
}

#[test]
fn run_loads_credentials_then_connects() {
    let (mut run, action) = CommandRun::start(
        &Some("http://10.0.0.5/onvif/device_service".to_string()),
        &Some("creds.json".to_string()),
        Command::Reboot,
    );
    assert!(matches!(action, Action::LoadCredentials { ref path } if path == "creds.json"));
    let action = run.credentials_loaded(Ok(Some(("admin".to_string(), "pw".to_string()))));
    match action {
        Action::Connect { uri, user, pass } => {
            assert_eq!(uri, "http://10.0.0.5/onvif/device_service");
            assert_eq!(user.as_deref(), Some("admin"));
            assert_eq!(pass.as_deref(), Some("pw"));
        }
        other => panic!("unexpected {:?}", other),
    }
    assert!(matches!(run.connected(Ok(())), Action::Reboot));
    let (output, outcome) = finish(run.rebooted(Ok("Rebooting".to_string())));
    assert_eq!(output, "Reboot: Rebooting\n");
    assert_eq!(outcome.unwrap(), 0);
}

#[test]
fn run_without_credential_file_connects_anonymously() {
    let (run, action) = CommandRun::start(&Some("http://cam/".to_string()), &None, Command::Info);
    assert!(matches!(run.phase, Phase::AwaitDevice));
    assert!(matches!(action, Action::Connect { user: None, pass: None, .. }));
}

#[test]
fn unreadable_credential_file_ends_the_run() {
    let (mut run, _) = CommandRun::start(&Some("http://cam/".to_string()), &Some("x".to_string()), Command::Info);
    let (_, outcome) = finish(run.credentials_loaded(Err("denied".to_string())));
    assert_eq!(outcome.unwrap_err().message(), "Unknown error: Could not load credential file: denied");
}

#[test]
fn failed_connection_ends_the_run() {
    let (mut run, _) = CommandRun::start(&Some("http://cam/".to_string()), &None, Command::GetUsers);
    let (_, outcome) = finish(run.connected(Err(DeviceError::Unauthorized("no".to_string()))));
    assert!(matches!(outcome, Err(DeviceError::Unauthorized(_))));
}

#[test]
fn set_user_updates_first_account_with_the_name() {
    let cmd = Command::SetUser { username: "admin".to_string(), password: "new".to_string() };
    let (mut run, _) = CommandRun::start(&Some("http://cam/".to_string()), &None, cmd);
    assert!(matches!(run.connected(Ok(())), Action::ListUsers));
    let action = run.users_listed(Ok(vec![row("root"), row("admin"), row("admin")]));
    match action {
        Action::UpdateUser { index, username, password } => {
            assert_eq!(index, 1);
            assert_eq!(username, "admin");
            assert_eq!(password, "new");
        }
        other => panic!("unexpected {:?}", other),
    }
    let (output, outcome) = finish(run.user_updated(Ok(())));
    assert_eq!(output, "");
    assert_eq!(outcome.unwrap(), 0);
}

#[test]
fn set_user_of_unknown_account_ends_with_minus_one() {
    let cmd = Command::SetUser { username: "bob".to_string(), password: "new".to_string() };
    let (mut run, _) = CommandRun::start(&Some("http://cam/".to_string()), &None, cmd);
    run.connected(Ok(()));
    let (output, outcome) = finish(run.users_listed(Ok(vec![row("root")])));
    assert_eq!(output, "User bob not found.\n");
    assert_eq!(outcome.unwrap(), USER_NOT_FOUND_STATUS);
}

#[test]
fn get_users_prints_the_listing() {
    let (mut run, _) = CommandRun::start(&Some("http://cam/".to_string()), &None, Command::GetUsers);
    run.connected(Ok(()));
    let (output, outcome) = finish(run.users_listed(Ok(vec![row("a")])));
    assert_eq!(output, "Users:\n    a\tUser\tNone\n");
    assert_eq!(outcome.unwrap(), 0);
}

#[test]
fn info_ends_with_the_report_status() {
    let (mut run, _) = CommandRun::start(&Some("http://cam/".to_string()), &None, Command::Info);
    assert!(matches!(run.connected(Ok(())), Action::ShowInfo));
    let (_, outcome) = finish(run.info_shown(Ok(0)));
    assert_eq!(outcome.unwrap(), 0);
}
