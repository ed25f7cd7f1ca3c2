//! The run of one command against the router, as a state machine.
//!
//! A run says what to send and how to read the response. Whoever drives it
//! sends the request, reads the response accordingly and hands the reply
//! back, until the run ends with a text to print or with a failure. A run
//! that has ended asks for nothing more.

use crate::client::{
    challenge_request_view, devices_request_view, login_request_view, monitor_request_view,
    overview_request_view, reboot_confirmation_view, reboot_granted, reboot_permitted,
    reboot_request_view, ClientView, FritzClient,
};
use crate::json::{json_document, string_at};
use crate::model::{Devices, Overview};
use crate::rows::{device_rows, device_table, overview_fields, OverviewRow};
use crate::session::{AuthError, ClientError, Config, Failure, Session, SessionView};
use crate::table::{render, table_of, Renderer};
use crate::wire::{Request, RequestView};
use vstd::prelude::*;
use vstd::string::*;

verus! {

/// What the user asks of the router.
#[derive(Clone, Copy, PartialEq, Eq, Structural, Debug)]
pub enum Command {
    /// Show what the router says of itself and of its links.
    Info,
    /// Reboot the router.
    Reboot,
    /// Drop the internet connection and take it up again.
    Reconnect,
    /// List the devices that the router knows of.
    Devices,
}

/// The command line: one command, or none.
pub struct Cli {
    pub command: Option<Command>,
}

/// The response that a run waits for.
#[derive(Clone, Copy, PartialEq, Eq, Structural, Debug)]
pub enum Stage {
    Challenge,
    Login,
    Overview,
    DeviceList,
    RebootPermission,
    RebootConfirmation,
    Disconnect,
    Connect,
    /// The run has ended.
    Finished,
}

/// How the response to a request is to be read.
#[derive(Clone, Copy, PartialEq, Eq, Structural, Debug)]
pub enum Expect {
    /// As the XML of a session record.
    Session,
    /// As the JSON of an overview.
    Overview,
    /// As the JSON of a device list.
    Devices,
    /// Not at all: the bytes of the body are handed back.
    Body,
    /// Not at all: the response means nothing.
    Nothing,
}

/// What came back for a request.
pub enum Reply {
    /// The request could not be sent, or the response could not be read as
    /// what was expected.
    Failed(ClientError),
    Session(Session),
    Overview(Overview),
    Devices(Devices),
    Body(Vec<u8>),
    /// A response that means nothing came back.
    Done,
}

/// What a run asks of its driver.
pub enum Action {
    /// Send the request, read the response as `expect` says, hand it back.
    Send { request: Request, expect: Expect },
    /// The command is done: print the text as one line.
    Print(String),
    /// The command has failed.
    Fail(ClientError),
    /// There is nothing to do.
    Nothing,
}

pub ghost enum ActionView {
    Send { request: RequestView, expect: Expect },
    Print(Seq<char>),
    Fail(Failure),
    Nothing,
}

impl View for Action {
    type V = ActionView;

    open spec fn view(&self) -> ActionView {
        match self {
            Action::Send { request, expect } => ActionView::Send {
                request: request@,
                expect: *expect,
            },
            Action::Print(text) => ActionView::Print(text@),
            Action::Fail(error) => ActionView::Fail(error@),
            Action::Nothing => ActionView::Nothing,
        }
    }
}

/// One command under way.
pub struct Run {
    client: FritzClient,
    command: Option<Command>,
    stage: Stage,
}

pub ghost struct RunView {
    pub client: ClientView,
    pub command: Option<Command>,
    pub stage: Stage,
}

impl View for Run {
    type V = RunView;

    closed spec fn view(&self) -> RunView {
        RunView { client: self.client@, command: self.command, stage: self.stage }
    }
}

/// The spacing of the tables that commands print.
pub open spec fn table_spacing() -> nat {
    4
}

pub open spec fn reboot_started_text() -> Seq<char> {
    "Reboot status: Rebooting... This can take some time!! (5-10m)"@
}

pub open spec fn reboot_refused_text() -> Seq<char> {
    "Reboot status: No Reboot!"@
}

pub open spec fn reconnected_text() -> Seq<char> {
    "Heads up! This can take up to 30s to take full effect.."@
}

/// A run that has ended in the given way.
pub open spec fn ended(run: RunView, action: ActionView) -> (RunView, ActionView) {
    (RunView { stage: Stage::Finished, ..run }, action)
}

/// A run that sends a request under its session and goes on to `stage`, or
/// fails for want of a session.
pub open spec fn asked(run: RunView, request: RequestView, expect: Expect, stage: Stage) -> (
    RunView,
    ActionView,
) {
    if run.client.session.valid() {
        (RunView { stage, ..run }, ActionView::Send { request, expect })
    } else {
        ended(run, ActionView::Fail(Failure::NotLoggedIn))
    }
}

/// The first request of a command, once the login has succeeded.
pub open spec fn begun(run: RunView) -> (RunView, ActionView) {
    match run.command {
        Some(Command::Info) => asked(
            run,
            overview_request_view(run.client),
            Expect::Overview,
            Stage::Overview,
        ),
        Some(Command::Devices) => asked(
            run,
            devices_request_view(run.client),
            Expect::Devices,
            Stage::DeviceList,
        ),
        Some(Command::Reboot) => asked(
            run,
            reboot_request_view(run.client),
            Expect::Body,
            Stage::RebootPermission,
        ),
        Some(Command::Reconnect) => asked(
            run,
            monitor_request_view(run.client, "disconnect"@),
            Expect::Nothing,
            Stage::Disconnect,
        ),
        None => ended(run, ActionView::Nothing),
    }
}

/// Whether the body of the router's answer grants the reboot; `None` where
/// the body is no JSON document.
pub open spec fn permission(body: Seq<u8>) -> Option<bool> {
    match json_document(body) {
        Some(strings) => Some(reboot_granted(string_at(strings, "/data/reboot"@))),
        None => None,
    }
}

/// What a run does with a reply: the run after it, and what it asks next.
///
/// A run that has ended stays as it is and asks for nothing. A failed
/// reply ends the run with that failure. A challenge is answered with the
/// login request. A refused login ends the run; a granted one becomes the
/// client's session and the command's first request goes out. An overview
/// or a device list is printed as a table. The reboot is confirmed only
/// if the router's answer grants it. Where the response means nothing
/// (after the reboot confirmation, the disconnect and the connect), any
/// reply but a failed one counts. Elsewhere a reply of another kind than
/// the run waits for ends it as unexpected.
pub open spec fn step_view(run: RunView, reply: Reply) -> (RunView, ActionView) {
    if run.stage is Finished {
        (run, ActionView::Nothing)
    } else if reply is Failed {
        ended(run, ActionView::Fail(reply->Failed_0@))
    } else {
        match (run.stage, reply) {
            (Stage::Challenge, Reply::Session(challenge)) => (
                RunView { stage: Stage::Login, ..run },
                ActionView::Send {
                    request: login_request_view(run.client.config, challenge@.challenge),
                    expect: Expect::Session,
                },
            ),
            (Stage::Login, Reply::Session(answer)) => if answer@.valid() {
                begun(
                    RunView {
                        client: ClientView { session: answer@, ..run.client },
                        ..run
                    },
                )
            } else {
                ended(run, ActionView::Fail(Failure::Rejected))
            },
            (Stage::Overview, Reply::Overview(overview)) => ended(
                run,
                ActionView::Print(render(seq![overview_fields(overview)], table_spacing())),
            ),
            (Stage::DeviceList, Reply::Devices(devices)) => ended(
                run,
                ActionView::Print(render(device_table(devices), table_spacing())),
            ),
            (Stage::RebootPermission, Reply::Body(body)) => match permission(body@) {
                None => ended(run, ActionView::Fail(Failure::Decode)),
                Some(false) => ended(run, ActionView::Print(reboot_refused_text())),
                Some(true) => asked(
                    run,
                    reboot_confirmation_view(run.client),
                    Expect::Nothing,
                    Stage::RebootConfirmation,
                ),
            },
            (Stage::RebootConfirmation, _) => ended(
                run,
                ActionView::Print(reboot_started_text()),
            ),
            (Stage::Disconnect, _) => asked(
                run,
                monitor_request_view(run.client, "connect"@),
                Expect::Nothing,
                Stage::Connect,
            ),
            (Stage::Connect, _) => ended(run, ActionView::Print(reconnected_text())),
            _ => ended(run, ActionView::Fail(Failure::UnexpectedReply)),
        }
    }
}

/// The run after it has taken the replies in order.
pub open spec fn run_after(run: RunView, replies: Seq<Reply>) -> RunView
    decreases replies.len(),
{
    if replies.len() == 0 {
        run
    } else {
        step_view(run_after(run, replies.drop_last()), replies.last()).0
    }
}

/// What the run asks for when it has taken the last of the replies.
pub open spec fn last_action(run: RunView, replies: Seq<Reply>) -> ActionView
    recommends
        replies.len() > 0,
{
    step_view(run_after(run, replies.drop_last()), replies.last()).1
}

/// A run that has ended stays ended and asks for nothing, whatever
/// replies it is handed.
pub proof fn lemma_ended_run_is_quiet(run: RunView, replies: Seq<Reply>)
    requires
        run.stage is Finished,
    ensures
        run_after(run, replies) == run,
        replies.len() > 0 ==> last_action(run, replies) is Nothing,
    decreases replies.len(),
{
    if replies.len() > 0 {
        lemma_ended_run_is_quiet(run, replies.drop_last());
    }
}

/// A login that the router answers with the sentinel id fails as rejected,
/// leaves the client without a session, and no request follows it.
pub proof fn lemma_rejected_login_ends_run(run: RunView, answer: Session, later: Seq<Reply>)
    requires
        run.stage is Login,
        !answer@.valid(),
    ensures
        step_view(run, Reply::Session(answer)).1 == ActionView::Fail(Failure::Rejected),
        step_view(run, Reply::Session(answer)).0.client == run.client,
        later.len() > 0 ==> last_action(
            step_view(run, Reply::Session(answer)).0,
            later,
        ) is Nothing,
{
    lemma_ended_run_is_quiet(step_view(run, Reply::Session(answer)).0, later);
}

/// The run waits for the response to the reboot confirmation only after
/// the router has granted the reboot: only then was the confirmation sent.
pub proof fn lemma_confirmation_needs_grant(run: RunView, reply: Reply)
    requires
        step_view(run, reply).0.stage is RebootConfirmation,
    ensures
        run.stage is RebootPermission,
        reply matches Reply::Body(body) && permission(body@) == Some(true),
        run.client.session.valid(),
        step_view(run, reply).1 == (ActionView::Send {
            request: reboot_confirmation_view(run.client),
            expect: Expect::Nothing,
        }),
{
}

/// Where the router's answer to the reboot request does not grant the
/// reboot, the run ends without another request: with a decode failure
/// for an answer that is no JSON, else with the text that says so.
pub proof fn lemma_refused_reboot_ends_run(run: RunView, body: Vec<u8>, later: Seq<Reply>)
    requires
        run.stage is RebootPermission,
        permission(body@) != Some(true),
    ensures
        step_view(run, Reply::Body(body)).0.stage is Finished,
        permission(body@) is None ==> step_view(run, Reply::Body(body)).1 == ActionView::Fail(
            Failure::Decode,
        ),
        permission(body@) == Some(false) ==> step_view(run, Reply::Body(body)).1
            == ActionView::Print(reboot_refused_text()),
        later.len() > 0 ==> last_action(step_view(run, Reply::Body(body)).0, later) is Nothing,
{
    lemma_ended_run_is_quiet(step_view(run, Reply::Body(body)).0, later);
}

/// The credentials never change, and the session changes only when a
/// login is granted: then it becomes the router's answer.
pub proof fn lemma_session_set_by_login_only(run: RunView, reply: Reply)
    ensures
        step_view(run, reply).0.client.config == run.client.config,
        step_view(run, reply).0.command == run.command,
        step_view(run, reply).0.client.session != run.client.session ==> run.stage is Login
            && (reply matches Reply::Session(answer) && answer@.valid() && step_view(
            run,
            reply,
        ).0.client.session == answer@),
{
}

/// Every request but the two of the login goes out under a valid session.
pub proof fn lemma_requests_need_session(run: RunView, reply: Reply)
    requires
        step_view(run, reply).1 is Send,
        !(run.stage is Challenge),
    ensures
        step_view(run, reply).0.client.session.valid(),
{
}

impl Cli {
    /// Starts the run of the command for the given router and user.
    ///
    /// With a command, the run begins with the request for a challenge.
    /// Without one, there is nothing to do and the run has ended.
    pub fn run(&self, config: Config) -> (r: (Run, Action))
        ensures
            r.0@.client.config == config@,
            r.0@.client.session == SessionView::empty(),
            r.0@.command == self.command,
            self.command is Some ==> r.0@.stage is Challenge && r.1@ == (ActionView::Send {
                request: challenge_request_view(config@),
                expect: Expect::Session,
            }),
            self.command is None ==> r.0@.stage is Finished && r.1@ is Nothing,
    {
        let client = FritzClient::new_with_config(config);
        match self.command {
            Some(command) => {
                let request = client.challenge_request();
                (
                    Run { client, command: Some(command), stage: Stage::Challenge },
                    Action::Send { request, expect: Expect::Session },
                )
            },
            None => (Run { client, command: None, stage: Stage::Finished }, Action::Nothing),
        }
    }
}

impl Run {
    /// The response that the run waits for.
    pub fn stage(&self) -> (stage: Stage)
        ensures
            stage == self@.stage,
    {
        self.stage
    }

    /// Whether the run has ended.
    pub fn finished(&self) -> (r: bool)
        ensures
            r == (self@.stage is Finished),
    {
        match self.stage {
            Stage::Finished => true,
            _ => false,
        }
    }

    fn end(&mut self, action: Action) -> (r: Action)
        ensures
            (final(self)@, r@) == ended(old(self)@, action@),
            r == action,
    {
        self.stage = Stage::Finished;
        action
    }

    fn ask(&mut self, request: Result<Request, AuthError>, expect: Expect, stage: Stage) -> (r:
        Action)
        requires
            old(self)@.client.session.valid() ==> request is Ok,
            !old(self)@.client.session.valid() ==> request == Err::<Request, AuthError>(
                AuthError::NotLoggedIn,
            ),
        ensures
            request matches Ok(wanted) ==> (final(self)@, r@) == asked(
                old(self)@,
                wanted@,
                expect,
                stage,
            ),
            request is Err ==> (final(self)@, r@) == ended(
                old(self)@,
                ActionView::Fail(Failure::NotLoggedIn),
            ),
    {
        match request {
            Ok(request) => {
                self.stage = stage;
                Action::Send { request, expect }
            },
            Err(error) => self.end(Action::Fail(ClientError::Auth(error))),
        }
    }

    fn begin(&mut self) -> (r: Action)
        ensures
            (final(self)@, r@) == begun(old(self)@),
    {
        match self.command {
            Some(Command::Info) => {
                let request = self.client.overview_request();
                self.ask(request, Expect::Overview, Stage::Overview)
            },
            Some(Command::Devices) => {
                let request = self.client.devices_request();
                self.ask(request, Expect::Devices, Stage::DeviceList)
            },
            Some(Command::Reboot) => {
                let request = self.client.reboot_request();
                self.ask(request, Expect::Body, Stage::RebootPermission)
            },
            Some(Command::Reconnect) => {
                let request = self.client.disconnect();
                self.ask(request, Expect::Nothing, Stage::Disconnect)
            },
            None => self.end(Action::Nothing),
        }
    }

    /// Takes the reply to the request that the run asked for last, and says
    /// what to do next.
    pub fn step(&mut self, reply: Reply) -> (action: Action)
        ensures
            (final(self)@, action@) == step_view(old(self)@, reply),
            !(old(self)@.stage is Finished) ==> (reply matches Reply::Failed(error) ==> action
                == Action::Fail(error)),
    {
        if self.finished() {
            return Action::Nothing;
        }
        match (self.stage, reply) {
            (_, Reply::Failed(error)) => self.end(Action::Fail(error)),
            (Stage::Challenge, Reply::Session(challenge)) => {
                let request = self.client.login_request(&challenge);
                self.stage = Stage::Login;
                Action::Send { request, expect: Expect::Session }
            },
            (Stage::Login, Reply::Session(answer)) => {
                match self.client.complete_login(answer) {
                    Ok(()) => self.begin(),
                    Err(_) => self.end(Action::Fail(ClientError::Auth(AuthError::Rejected))),
                }
            },
            (Stage::Overview, Reply::Overview(overview)) => {
                let mut rows: Vec<OverviewRow> = Vec::new();
                rows.push(OverviewRow::from_overview(overview));
                assert(table_of(rows@) =~= seq![overview_fields(overview)]);
                let text = Renderer::default().to_string(rows.as_slice());
                self.end(Action::Print(text))
            },
            (Stage::DeviceList, Reply::Devices(devices)) => {
                let rows = device_rows(devices);
                assert(table_of(rows@) =~= device_table(devices));
                let text = Renderer::default().to_string(rows.as_slice());
                self.end(Action::Print(text))
            },
            (Stage::RebootPermission, Reply::Body(body)) => {
                match reboot_permitted(body.as_slice()) {
                    Err(error) => self.end(Action::Fail(error)),
                    Ok(false) => self.end(Action::Print("Reboot status: No Reboot!".to_owned())),
                    Ok(true) => {
                        let request = self.client.reboot_confirmation();
                        self.ask(request, Expect::Nothing, Stage::RebootConfirmation)
                    },
                }
            },
            (Stage::RebootConfirmation, _) => self.end(
                Action::Print(
                    "Reboot status: Rebooting... This can take some time!! (5-10m)".to_owned(),
                ),
            ),
            (Stage::Disconnect, _) => {
                let request = self.client.connect();
                self.ask(request, Expect::Nothing, Stage::Connect)
            },
            (Stage::Connect, _) => self.end(
                Action::Print("Heads up! This can take up to 30s to take full effect..".to_owned()),
            ),
            _ => self.end(Action::Fail(ClientError::UnexpectedReply)),
        }
    }
}

} // verus!
