//! The decisions of the command line tool: which camera to reach, with which
//! credentials, what a command does with the answers, and the exit status.

use vstd::prelude::*;
use crate::error::{DeviceError, DeviceErrorView};
use crate::text::{joined, equals};
use crate::uri::{parse_url, url_parse_outcome};

verus! {

/// A command of the tool.
#[derive(Debug)]
pub enum Command {
    /// Query the network for all online ONVIF compatible devices.
    Probe,
    /// Show configuration for an ONVIF camera.
    Info,
    /// Get a list of users from a camera.
    GetUsers,
    /// Set a user's password.
    SetUser { username: String, password: String },
    /// Reboot a camera.
    Reboot,
}

impl Command {
    /// Whether the command talks to one camera (every command but `Probe`,
    /// which searches the network instead).
    pub open spec fn needs_camera_spec(&self) -> bool {
        !(self is Probe)
    }

    /// Tests `needs_camera_spec`.
    pub fn needs_camera(&self) -> (res: bool)
        ensures
            res == self.needs_camera_spec(),
    {
        match self {
            Command::Probe => false,
            _ => true,
        }
    }
}

/// The address of the camera: the serialization of the given URI when it
/// parses, an error when no URI is given or it does not parse.
pub open spec fn camera_uri_spec(uri: Option<Seq<char>>) -> Result<Seq<char>, DeviceErrorView> {
    match uri {
        None => Err(DeviceErrorView::Unknown(Some("No URI specified"@))),
        Some(text) => match url_parse_outcome(text) {
            Ok(url) => Ok(url),
            Err(_) => Err(DeviceErrorView::Unknown(Some("Could not parse URI"@))),
        },
    }
}

/// Resolves the camera URI given on the command line.
pub fn camera_uri(uri: &Option<String>) -> (res: Result<String, DeviceError>)
    ensures
        match res {
            Ok(url) => camera_uri_spec(uri.deep_view()) == Ok::<Seq<char>, DeviceErrorView>(url@),
            Err(e) => camera_uri_spec(uri.deep_view()) == Err::<Seq<char>, DeviceErrorView>(e@),
        },
{
    match uri {
        Some(text) => match parse_url(text.as_str()) {
            Ok(url) => Ok(url),
            Err(_) => Err(DeviceError::from(String::from_str("Could not parse URI"))),
        },
        None => Err(DeviceError::from(String::from_str("No URI specified"))),
    }
}

/// The error when the credential file cannot be loaded, given the reason.
pub fn credential_file_error(reason: &str) -> (res: DeviceError)
    ensures
        res@ == DeviceErrorView::Unknown(Some("Could not load credential file: "@ + reason@)),
{
    DeviceError::from(joined("Could not load credential file: ", reason))
}

/// The user name and password to connect with, from the credentials found
/// (both absent when none were found).
pub fn login_of(creds: Option<(String, String)>) -> (res: (Option<String>, Option<String>))
    ensures
        match creds {
            Some((user, pass)) => res == (Some(user), Some(pass)),
            None => res == (None::<String>, None::<String>),
        },
{
    match creds {
        Some((user, pass)) => (Some(user), Some(pass)),
        None => (None, None),
    }
}

/// A user as the `GetUsers` command lists it: name, level and extension as
/// their debug texts.
#[derive(Debug)]
pub struct UserRow {
    pub username: String,
    pub level: String,
    pub extension: String,
}

/// Finds the account whose password a `SetUser` command changes: the first
/// user (in the order the camera lists them) named `username`.
pub fn find_user(users: &Vec<UserRow>, username: &str) -> (res: Option<usize>)
    ensures
        match res {
            Some(i) => i < users@.len() && users@[i as int].username@ == username@ && forall|j: int|
                0 <= j < i ==> #[trigger] users@[j].username@ != username@,
            None => forall|j: int|
                0 <= j < users@.len() ==> #[trigger] users@[j].username@ != username@,
        },
{
    let n = users.len();
    let mut i: usize = 0;
    while i < n
        invariant
            n == users@.len(),
            i <= n,
            forall|j: int| 0 <= j < i ==> #[trigger] users@[j].username@ != username@,
        decreases n - i,
    {
        if equals(users[i].username.as_str(), username) {
            return Some(i);
        }
        i = i + 1;
    }
    None
}

/// The message when `SetUser` names an account that the camera lacks.
pub fn user_not_found_message(username: &str) -> (res: String)
    ensures
        res@ == "User "@ + username@ + " not found.\n"@,
{
    let mut out = joined("User ", username);
    out.append(" not found.\n");
    out
}

/// The exit status of a `SetUser` command that found no such account.
pub const USER_NOT_FOUND_STATUS: i32 = -1;

/// The exit status of a command that ran to its end.
pub const SUCCESS_STATUS: i32 = 0;

/// The exit status of a command that failed.
pub const FAILURE_STATUS: i32 = -2;

/// The listing of the `GetUsers` command: a heading before each user's line.
pub open spec fn user_rows_text(users: Seq<UserRow>) -> Seq<char>
    decreases users.len(),
{
    if users.len() == 0 {
        Seq::empty()
    } else {
        user_rows_text(users.drop_last()) + "Users:\n    "@ + users.last().username@ + "\t"@
            + users.last().level@ + "\t"@ + users.last().extension@ + "\n"@
    }
}

/// Renders the listing of the `GetUsers` command.
pub fn user_list_report(users: &Vec<UserRow>) -> (res: String)
    ensures
        res@ == user_rows_text(users@),
{
    let mut out = String::new();
    let n = users.len();
    let mut i: usize = 0;
    while i < n
        invariant
            n == users@.len(),
            i <= n,
            out@ == user_rows_text(users@.take(i as int)),
        decreases n - i,
    {
        out.append("Users:\n    ");
        out.append(users[i].username.as_str());
        out.append("\t");
        out.append(users[i].level.as_str());
        out.append("\t");
        out.append(users[i].extension.as_str());
        out.append("\n");
        proof {
            let t = users@.take(i + 1);
            assert(t.drop_last() =~= users@.take(i as int));
            assert(t.last() == users@[i as int]);
        }
        i = i + 1;
    }
    proof {
        assert(users@.take(n as int) =~= users@);
    }
    out
}

/// The line printed after a reboot request, with the camera's message.
pub fn reboot_message(message: &str) -> (res: String)
    ensures
        res@ == "Reboot: "@ + message@ + "\n"@,
{
    let mut out = joined("Reboot: ", message);
    out.append("\n");
    out
}

/// The line printed when a command fails.
pub fn failure_message(err: &DeviceError) -> (res: String)
    ensures
        res@ == "Error: "@ + err.message_spec(),
{
    let msg = err.message();
    joined("Error: ", msg.as_str())
}

/// The exit status of the tool: the status of a command that ran, -2 for a
/// command that failed.
pub fn exit_status(outcome: &Result<i32, DeviceError>) -> (res: i32)
    ensures
        match outcome {
            Ok(status) => res == *status,
            Err(_) => res == FAILURE_STATUS,
        },
{
    match outcome {
        Ok(status) => *status,
        Err(_) => FAILURE_STATUS,
    }
}

/// Where a run of a camera command stands: which answer it waits for.
#[derive(Debug)]
pub enum Phase {
    AwaitCredentials,
    AwaitDevice,
    AwaitUsers,
    AwaitUpdate,
    AwaitReboot,
    AwaitInfo,
    Finished,
}

/// What the program does next for a run of a camera command.
#[derive(Debug)]
pub enum Action {
    /// Read the credential file at `path`, and report with `credentials_loaded`.
    LoadCredentials { path: String },
    /// Connect to the camera, and report with `connected`.
    Connect { uri: String, user: Option<String>, pass: Option<String> },
    /// Fetch the camera's users, and report with `users_listed`.
    ListUsers,
    /// Set the password of the listed user at `index`, and report with `user_updated`.
    UpdateUser { index: usize, username: String, password: String },
    /// Ask the camera to reboot, and report with `rebooted`.
    Reboot,
    /// Show the device report, and report with `info_shown`.
    ShowInfo,
    /// Print `output`; the run ends with `outcome`.
    Finish { output: String, outcome: Result<i32, DeviceError> },
}

/// A run of a command against one camera.
#[derive(Debug)]
pub struct CommandRun {
    pub phase: Phase,
    pub command: Command,
    pub uri: String,
}

/// Whether `action` ends the run with no output and the outcome `outcome`.
pub open spec fn finishes_with(action: Action, outcome: Result<i32, DeviceError>) -> bool {
    match action {
        Action::Finish { output, outcome: o } => output@ == Seq::<char>::empty() && o == outcome,
        _ => false,
    }
}

/// Whether `action` ends the run with no output and an error of value `e`.
pub open spec fn finishes_with_error(action: Action, e: DeviceErrorView) -> bool {
    match action {
        Action::Finish { output, outcome } => output@ == Seq::<char>::empty() && match outcome {
            Err(err) => err@ == e,
            Ok(_) => false,
        },
        _ => false,
    }
}

/// Whether `action` ends the run printing `text`, with the status `status`.
pub open spec fn finishes_printing(action: Action, text: Seq<char>, status: i32) -> bool {
    match action {
        Action::Finish { output, outcome } => output@ == text && outcome == Ok::<i32, DeviceError>(
            status,
        ),
        _ => false,
    }
}

/// Whether `action` connects to `uri` with the given user name and password.
pub open spec fn connects(
    action: Action,
    uri: Seq<char>,
    user: Option<String>,
    pass: Option<String>,
) -> bool {
    match action {
        Action::Connect { uri: u, user: name, pass: secret } => u@ == uri && name == user && secret
            == pass,
        _ => false,
    }
}

impl CommandRun {
    /// Starts a run of `command` against the camera at `uri`, with the
    /// credential file at `creds` if one is given: the URI must be given and
    /// parse; then the credentials are loaded, or, without a file, the camera
    /// is reached without credentials.
    pub fn start(uri: &Option<String>, creds: &Option<String>, command: Command) -> (res: (
        CommandRun,
        Action,
    ))
        requires
            command.needs_camera_spec(),
        ensures
            res.0.command == command,
            match camera_uri_spec(uri.deep_view()) {
                Err(e) => res.0.phase is Finished && finishes_with_error(res.1, e),
                Ok(url) => res.0.uri@ == url && match creds {
                    Some(path) => res.0.phase is AwaitCredentials && res.1 == Action::LoadCredentials {
                        path: *path,
                    },
                    None => res.0.phase is AwaitDevice && connects(res.1, url, None, None),
                },
            },
    {
        match camera_uri(uri) {
            Err(e) => (
                CommandRun { phase: Phase::Finished, command, uri: String::new() },
                Action::Finish { output: String::new(), outcome: Err(e) },
            ),
            Ok(url) => match creds {
                Some(path) => (
                    CommandRun { phase: Phase::AwaitCredentials, command, uri: url },
                    Action::LoadCredentials { path: path.clone() },
                ),
                None => {
                    let target = url.clone();
                    (
                        CommandRun { phase: Phase::AwaitDevice, command, uri: url },
                        Action::Connect { uri: target, user: None, pass: None },
                    )
                },
            },
        }
    }

    /// The credential file was read: `Ok` with the credentials found (if
    /// any), or `Err` with the reason it could not be loaded. The camera is
    /// reached with the credentials found.
    pub fn credentials_loaded(&mut self, loaded: Result<Option<(String, String)>, String>) -> (res:
        Action)
        requires
            old(self).phase is AwaitCredentials,
        ensures
            final(self).command == old(self).command,
            final(self).uri == old(self).uri,
            match loaded {
                Err(reason) => final(self).phase is Finished && finishes_with_error(
                    res,
                    DeviceErrorView::Unknown(Some("Could not load credential file: "@ + reason@)),
                ),
                Ok(Some((u, p))) => final(self).phase is AwaitDevice && connects(
                    res,
                    old(self).uri@,
                    Some(u),
                    Some(p),
                ),
                Ok(None) => final(self).phase is AwaitDevice && connects(
                    res,
                    old(self).uri@,
                    None,
                    None,
                ),
            },
    {
        match loaded {
            Err(reason) => {
                self.phase = Phase::Finished;
                Action::Finish {
                    output: String::new(),
                    outcome: Err(credential_file_error(reason.as_str())),
                }
            },
            Ok(creds) => {
                let (user, pass) = login_of(creds);
                self.phase = Phase::AwaitDevice;
                Action::Connect { uri: self.uri.clone(), user, pass }
            },
        }
    }

    /// The camera was reached (or not). Then `Info` shows the report,
    /// `GetUsers` and `SetUser` list the users, `Reboot` reboots.
    pub fn connected(&mut self, reached: Result<(), DeviceError>) -> (res: Action)
        requires
            old(self).phase is AwaitDevice,
            old(self).command.needs_camera_spec(),
        ensures
            final(self).command == old(self).command,
            final(self).uri == old(self).uri,
            match reached {
                Err(e) => final(self).phase is Finished && finishes_with(
                    res,
                    Err::<i32, DeviceError>(e),
                ),
                Ok(()) => match old(self).command {
                    Command::Info => final(self).phase is AwaitInfo && res is ShowInfo,
                    Command::GetUsers => final(self).phase is AwaitUsers && res is ListUsers,
                    Command::SetUser { .. } => final(self).phase is AwaitUsers && res is ListUsers,
                    Command::Reboot => final(self).phase is AwaitReboot && res is Reboot,
                    Command::Probe => false,
                },
            },
    {
        match reached {
            Err(e) => {
                self.phase = Phase::Finished;
                Action::Finish { output: String::new(), outcome: Err(e) }
            },
            Ok(()) => match &self.command {
                Command::Info => {
                    self.phase = Phase::AwaitInfo;
                    Action::ShowInfo
                },
                Command::Reboot => {
                    self.phase = Phase::AwaitReboot;
                    Action::Reboot
                },
                _ => {
                    self.phase = Phase::AwaitUsers;
                    Action::ListUsers
                },
            },
        }
    }

    /// The users were listed (or not). `GetUsers` prints them; `SetUser`
    /// updates the first user with the requested name, or ends with status
    /// -1 when the camera has no such user.
    pub fn users_listed(&mut self, listed: Result<Vec<UserRow>, DeviceError>) -> (res: Action)
        requires
            old(self).phase is AwaitUsers,
            old(self).command is GetUsers || old(self).command is SetUser,
        ensures
            final(self).command == old(self).command,
            final(self).uri == old(self).uri,
            match listed {
                Err(e) => final(self).phase is Finished && finishes_with(
                    res,
                    Err::<i32, DeviceError>(e),
                ),
                Ok(users) => match old(self).command {
                    Command::SetUser { username, password } => match res {
                        Action::UpdateUser { index, username: name, password: pass } => {
                            &&& final(self).phase is AwaitUpdate
                            &&& index < users@.len()
                            &&& users@[index as int].username@ == username@
                            &&& forall|j: int|
                                0 <= j < index ==> #[trigger] users@[j].username@ != username@
                            &&& name == username
                            &&& pass == password
                        },
                        Action::Finish { output, outcome } => {
                            &&& final(self).phase is Finished
                            &&& forall|j: int|
                                0 <= j < users@.len() ==> #[trigger] users@[j].username@
                                    != username@
                            &&& output@ == "User "@ + username@ + " not found.\n"@
                            &&& outcome == Ok::<i32, DeviceError>(USER_NOT_FOUND_STATUS)
                        },
                        _ => false,
                    },
                    _ => final(self).phase is Finished && finishes_printing(
                        res,
                        user_rows_text(users@),
                        SUCCESS_STATUS,
                    ),
                },
            },
    {
        match listed {
            Err(e) => {
                self.phase = Phase::Finished;
                Action::Finish { output: String::new(), outcome: Err(e) }
            },
            Ok(users) => match &self.command {
                Command::SetUser { username, password } => match find_user(
                    &users,
                    username.as_str(),
                ) {
                    Some(index) => {
                        self.phase = Phase::AwaitUpdate;
                        Action::UpdateUser {
                            index,
                            username: username.clone(),
                            password: password.clone(),
                        }
                    },
                    None => {
                        self.phase = Phase::Finished;
                        Action::Finish {
                            output: user_not_found_message(username.as_str()),
                            outcome: Ok(USER_NOT_FOUND_STATUS),
                        }
                    },
                },
                _ => {
                    self.phase = Phase::Finished;
                    Action::Finish { output: user_list_report(&users), outcome: Ok(SUCCESS_STATUS) }
                },
            },
        }
    }

    /// The user's password was set (or not).
    pub fn user_updated(&mut self, updated: Result<(), DeviceError>) -> (res: Action)
        requires
            old(self).phase is AwaitUpdate,
        ensures
            final(self).command == old(self).command,
            final(self).uri == old(self).uri,
            final(self).phase is Finished,
            match updated {
                Err(e) => finishes_with(res, Err::<i32, DeviceError>(e)),
                Ok(()) => finishes_with(res, Ok::<i32, DeviceError>(SUCCESS_STATUS)),
            },
    {
        self.phase = Phase::Finished;
        match updated {
            Err(e) => Action::Finish { output: String::new(), outcome: Err(e) },
            Ok(()) => Action::Finish { output: String::new(), outcome: Ok(SUCCESS_STATUS) },
        }
    }

    /// The camera answered the reboot request with a message (or failed).
    pub fn rebooted(&mut self, answer: Result<String, DeviceError>) -> (res: Action)
        requires
            old(self).phase is AwaitReboot,
        ensures
            final(self).command == old(self).command,
            final(self).uri == old(self).uri,
            final(self).phase is Finished,
            match answer {
                Err(e) => finishes_with(res, Err::<i32, DeviceError>(e)),
                Ok(message) => finishes_printing(
                    res,
                    "Reboot: "@ + message@ + "\n"@,
                    SUCCESS_STATUS,
                ),
            },
    {
        self.phase = Phase::Finished;
        match answer {
            Err(e) => Action::Finish { output: String::new(), outcome: Err(e) },
            Ok(message) => Action::Finish {
                output: reboot_message(message.as_str()),
                outcome: Ok(SUCCESS_STATUS),
            },
        }
    }

    /// The device report was shown, with its status (or failed).
    pub fn info_shown(&mut self, shown: Result<i32, DeviceError>) -> (res: Action)
        requires
            old(self).phase is AwaitInfo,
        ensures
            final(self).command == old(self).command,
            final(self).uri == old(self).uri,
            final(self).phase is Finished,
            finishes_with(res, shown),
    {
        self.phase = Phase::Finished;
        Action::Finish { output: String::new(), outcome: shown }
    }
}

} // verus!
