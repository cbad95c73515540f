//! The four service procedures (create, create protected, delete, delete
//! protected) as a state machine: given the reply to the last action, it
//! says which Windows call to make next, what to print, and when it is
//! done. The loop that performs the calls, waits and prints stands outside.

use vstd::prelude::*;

use crate::error::{ErrorView, WinapiError};
use crate::text::{dec_digits, decimal};
use crate::winapi::{
    FILE_ATTRIBUTE_NORMAL, FILE_READ_DATA, FILE_SHARE_READ, OPEN_EXISTING, SC_MANAGER_ALL_ACCESS,
    SERVICE_ALL_ACCESS, SERVICE_CONFIG_LAUNCH_PROTECTED, SERVICE_DEMAND_START,
    SERVICE_ERROR_NORMAL, SERVICE_LAUNCH_PROTECTED_ANTIMALWARE_LIGHT, SERVICE_RUNNING,
    SERVICE_STOPPED, SERVICE_WIN32_OWN_PROCESS, UNPROTECT_SELF,
};

verus! {

/// How many times a service is asked to start, or to stop, before the
/// procedure gives up.
pub const ATTEMPTS: u32 = 10;

/// What the user asked for.
#[derive(PartialEq, Eq, Structural, Clone, Copy)]
pub enum Command {
    /// Install a service.
    Create,
    /// Install the ELAM certificate, then a service that runs as a
    /// protected anti-malware process.
    CreateProtected,
    /// Stop and delete a service.
    Delete,
    /// Install the ELAM certificate, start the protected service, ask it to
    /// drop its protection, then stop and delete it.
    DeleteProtected,
}

/// Where a procedure stands: which reply it waits for. `round` counts the
/// start or stop attempts made before the current one; `state` is the
/// service state last reported.
#[derive(PartialEq, Eq, Structural, Clone, Copy)]
pub enum Phase {
    UnpackingElam,
    OpeningElamFile,
    InstallingElam,
    OpeningManager,
    ResolvingExecutable,
    CreatingService,
    Protecting,
    OpeningService,
    QueryingStatus,
    Stopping { round: u32 },
    PausingAfterStop { round: u32, state: u32 },
    Starting { round: u32 },
    QueryingAfterStart { round: u32 },
    PausingAfterStart { round: u32, state: u32 },
    Unprotecting { state: u32 },
    QueryingBeforeStop { round: u32 },
    StoppingProtected { round: u32, state: u32 },
    PausingProtected { round: u32, state: u32 },
    Deleting,
    Finished,
}

/// The reply to the last action.
pub enum Event {
    /// The action succeeded and gave nothing back.
    Done,
    /// A file was written or found; the payload is its full path.
    Resolved(String),
    /// The service status was read; the payload is its current state.
    Status(u32),
    /// The action failed.
    Failed(WinapiError),
}

pub enum EventView {
    Done,
    Resolved(Seq<char>),
    Status(u32),
    Failed(ErrorView),
}

impl View for Event {
    type V = EventView;

    open spec fn view(&self) -> EventView {
        match self {
            Event::Done => EventView::Done,
            Event::Resolved(p) => EventView::Resolved(p@),
            Event::Status(s) => EventView::Status(*s),
            Event::Failed(e) => EventView::Failed(e@),
        }
    }
}

/// What to do next.
pub enum Action {
    /// Write out the ELAM driver image; reply `Resolved` with its path.
    UnpackElam,
    /// Open the ELAM driver file with the given access, sharing, creation
    /// disposition and attributes (no security attributes, no template).
    OpenElamFile {
        path: String,
        desired_access: u32,
        share_mode: u32,
        creation_disposition: u32,
        flags_and_attributes: u32,
    },
    /// Install the ELAM certificate of the opened driver file, then close
    /// the file.
    InstallElamCertificate,
    /// Open the service control manager with the given access.
    OpenManager { access: u32 },
    /// Find the full path of the service executable; reply `Resolved`.
    ResolveExecutable { path: String },
    /// Create the service with the given names, access, type, start type,
    /// error control and command line (no load order group, tag,
    /// dependencies, account or password).
    CreateService {
        name: String,
        display_name: String,
        access: u32,
        service_type: u32,
        start_type: u32,
        error_control: u32,
        command_line: String,
    },
    /// Set the service's launch protection.
    ProtectService { info_level: u32, launch_protected: u32 },
    /// Open the service with the given access.
    OpenService { name: String, access: u32 },
    /// Read the service status; reply `Status`.
    QueryStatus,
    /// Ask the service to start.
    StartService,
    /// Ask the service to stop; reply `Status` with the state it reports.
    StopService,
    /// Send the service a control code.
    SendControl { code: u32 },
    /// Delete the service.
    DeleteService,
    /// Wait.
    Sleep { seconds: u64 },
    /// The procedure is over, with this result.
    Finish(Result<(), WinapiError>),
    /// The procedure cannot go on: stop the program with this message.
    Abort(String),
}

pub enum ActionView {
    UnpackElam,
    OpenElamFile {
        path: Seq<char>,
        desired_access: u32,
        share_mode: u32,
        creation_disposition: u32,
        flags_and_attributes: u32,
    },
    InstallElamCertificate,
    OpenManager { access: u32 },
    ResolveExecutable { path: Seq<char> },
    CreateService {
        name: Seq<char>,
        display_name: Seq<char>,
        access: u32,
        service_type: u32,
        start_type: u32,
        error_control: u32,
        command_line: Seq<char>,
    },
    ProtectService { info_level: u32, launch_protected: u32 },
    OpenService { name: Seq<char>, access: u32 },
    QueryStatus,
    StartService,
    StopService,
    SendControl { code: u32 },
    DeleteService,
    Sleep { seconds: u64 },
    Finish(Result<(), ErrorView>),
    Abort(Seq<char>),
}

impl View for Action {
    type V = ActionView;

    open spec fn view(&self) -> ActionView {
        match self {
            Action::UnpackElam => ActionView::UnpackElam,
            Action::OpenElamFile {
                path,
                desired_access,
                share_mode,
                creation_disposition,
                flags_and_attributes,
            } => ActionView::OpenElamFile {
                path: path@,
                desired_access: *desired_access,
                share_mode: *share_mode,
                creation_disposition: *creation_disposition,
                flags_and_attributes: *flags_and_attributes,
            },
            Action::InstallElamCertificate => ActionView::InstallElamCertificate,
            Action::OpenManager { access } => ActionView::OpenManager { access: *access },
            Action::ResolveExecutable { path } => ActionView::ResolveExecutable { path: path@ },
            Action::CreateService {
                name,
                display_name,
                access,
                service_type,
                start_type,
                error_control,
                command_line,
            } => ActionView::CreateService {
                name: name@,
                display_name: display_name@,
                access: *access,
                service_type: *service_type,
                start_type: *start_type,
                error_control: *error_control,
                command_line: command_line@,
            },
            Action::ProtectService { info_level, launch_protected } => ActionView::ProtectService {
                info_level: *info_level,
                launch_protected: *launch_protected,
            },
            Action::OpenService { name, access } => ActionView::OpenService {
                name: name@,
                access: *access,
            },
            Action::QueryStatus => ActionView::QueryStatus,
            Action::StartService => ActionView::StartService,
            Action::StopService => ActionView::StopService,
            Action::SendControl { code } => ActionView::SendControl { code: *code },
            Action::DeleteService => ActionView::DeleteService,
            Action::Sleep { seconds } => ActionView::Sleep { seconds: *seconds },
            Action::Finish(r) => ActionView::Finish(
                match r {
                    Ok(()) => Ok(()),
                    Err(e) => Err(e@),
                },
            ),
            Action::Abort(m) => ActionView::Abort(m@),
        }
    }
}

/// One move of a procedure: a failed call to report (only when a refused
/// start or stop is retried), lines to print, then the action to perform.
pub struct Step {
    pub warning: Option<WinapiError>,
    pub lines: Vec<String>,
    pub action: Action,
}

pub struct StepView {
    pub warning: Option<ErrorView>,
    pub lines: Seq<Seq<char>>,
    pub action: ActionView,
}

impl View for Step {
    type V = StepView;

    open spec fn view(&self) -> StepView {
        StepView {
            warning: match self.warning {
                Some(e) => Some(e@),
                None => None,
            },
            lines: self.lines.deep_view(),
            action: self.action@,
        }
    }
}

/// A procedure under way.
pub struct Procedure {
    command: Command,
    service_name: String,
    exe_file: String,
    phase: Phase,
}

pub struct ProcedureView {
    pub command: Command,
    pub service_name: Seq<char>,
    pub exe_file: Seq<char>,
    pub phase: Phase,
}

impl View for Procedure {
    type V = ProcedureView;

    closed spec fn view(&self) -> ProcedureView {
        ProcedureView {
            command: self.command,
            service_name: self.service_name@,
            exe_file: self.exe_file@,
            phase: self.phase,
        }
    }
}

// ----- the transition relation -----

pub open spec fn plain(action: ActionView) -> StepView {
    StepView { warning: None, lines: Seq::empty(), action }
}

pub open spec fn at(p: ProcedureView, phase: Phase) -> ProcedureView {
    ProcedureView { phase, ..p }
}

/// The first move of a procedure: the protected ones write out the ELAM
/// driver first (to install its certificate), the others open the service
/// control manager.
pub open spec fn initial(command: Command, service_name: Seq<char>, exe_file: Seq<char>) -> (ProcedureView, StepView) {
    let p = ProcedureView { command, service_name, exe_file, phase: Phase::Finished };
    match command {
        Command::CreateProtected | Command::DeleteProtected => (
            at(p, Phase::UnpackingElam),
            plain(ActionView::UnpackElam),
        ),
        _ => (
            at(p, Phase::OpeningManager),
            plain(ActionView::OpenManager { access: SC_MANAGER_ALL_ACCESS }),
        ),
    }
}

/// A refused call ends the procedure with its error.
pub open spec fn failed(p: ProcedureView, e: ErrorView) -> (ProcedureView, StepView) {
    (at(p, Phase::Finished), plain(ActionView::Finish(Err(e))))
}

/// A reply that the procedure does not wait for.
pub open spec fn unexpected(p: ProcedureView) -> (ProcedureView, StepView) {
    (at(p, Phase::Finished), plain(ActionView::Abort("unexpected reply"@)))
}

pub open spec fn created_line(name: Seq<char>) -> Seq<char> {
    "Success to create service: "@ + name
}

pub open spec fn removed_line(name: Seq<char>) -> Seq<char> {
    "Success to remove service: "@ + name
}

pub open spec fn state_line(state: u32) -> Seq<char> {
    "dwCurrentState: "@ + dec_digits(state as nat)
}

pub open spec fn wont_start_line() -> Seq<char> {
    "FAILURE: service won't start"@
}

pub open spec fn wont_stop_line() -> Seq<char> {
    "FAILURE: service won't stop"@
}

pub open spec fn wont_stop_panic() -> Seq<char> {
    "service won't stop"@
}

/// After the manager is open: creation finds the executable, removal opens
/// the service.
pub open spec fn after_manager(p: ProcedureView) -> (ProcedureView, StepView) {
    match p.command {
        Command::Create | Command::CreateProtected => (
            at(p, Phase::ResolvingExecutable),
            plain(ActionView::ResolveExecutable { path: p.exe_file }),
        ),
        _ => (
            at(p, Phase::OpeningService),
            plain(ActionView::OpenService { name: p.service_name, access: SERVICE_ALL_ACCESS }),
        ),
    }
}

/// After the service is created: report it, then protect it or finish.
pub open spec fn after_create(p: ProcedureView) -> (ProcedureView, StepView) {
    let lines = seq![created_line(p.service_name)];
    if p.command == Command::CreateProtected {
        (
            at(p, Phase::Protecting),
            StepView {
                warning: None,
                lines,
                action: ActionView::ProtectService {
                    info_level: SERVICE_CONFIG_LAUNCH_PROTECTED,
                    launch_protected: SERVICE_LAUNCH_PROTECTED_ANTIMALWARE_LIGHT,
                },
            },
        )
    } else {
        (at(p, Phase::Finished), StepView { warning: None, lines, action: ActionView::Finish(Ok(())) })
    }
}

/// The service did not reach the wanted state: report its state and end
/// without error.
pub open spec fn gave_up(p: ProcedureView, state: u32, line: Seq<char>) -> (ProcedureView, StepView) {
    (
        at(p, Phase::Finished),
        StepView {
            warning: None,
            lines: seq![state_line(state), line],
            action: ActionView::Finish(Ok(())),
        },
    )
}

/// The top of the stop loop of a plain removal, after `done` attempts, the
/// service last reported in `state`.
pub open spec fn stop_loop(p: ProcedureView, done: int, state: u32) -> (ProcedureView, StepView) {
    if state == SERVICE_STOPPED {
        (at(p, Phase::Deleting), plain(ActionView::DeleteService))
    } else if done < ATTEMPTS {
        (at(p, Phase::Stopping { round: done as u32 }), plain(ActionView::StopService))
    } else {
        (at(p, Phase::Finished), plain(ActionView::Abort(wont_stop_panic())))
    }
}

/// The top of the start loop of a protected removal.
pub open spec fn start_loop(p: ProcedureView, done: int, state: u32) -> (ProcedureView, StepView) {
    if state == SERVICE_RUNNING {
        (at(p, Phase::Unprotecting { state }), plain(ActionView::SendControl { code: UNPROTECT_SELF }))
    } else if done < ATTEMPTS {
        (at(p, Phase::Starting { round: done as u32 }), plain(ActionView::StartService))
    } else {
        gave_up(p, state, wont_start_line())
    }
}

/// The top of the stop loop of a protected removal, which reads the status
/// at the start of each attempt.
pub open spec fn protected_stop_loop(p: ProcedureView, done: int, state: u32) -> (ProcedureView, StepView) {
    if done < ATTEMPTS {
        (at(p, Phase::QueryingBeforeStop { round: done as u32 }), plain(ActionView::QueryStatus))
    } else if state == SERVICE_STOPPED {
        (at(p, Phase::Deleting), plain(ActionView::DeleteService))
    } else {
        gave_up(p, state, wont_stop_line())
    }
}

pub open spec fn pause(p: ProcedureView, phase: Phase, warning: Option<ErrorView>) -> (ProcedureView, StepView) {
    (at(p, phase), StepView { warning, lines: Seq::empty(), action: ActionView::Sleep { seconds: 1 } })
}

/// The move of procedure `p` on the reply `e`.
pub open spec fn transition(p: ProcedureView, e: EventView) -> (ProcedureView, StepView) {
    match (p.phase, e) {
        (Phase::Finished, _) => unexpected(p),
        (Phase::Starting { round }, EventView::Failed(err)) => (
            at(p, Phase::QueryingAfterStart { round }),
            StepView { warning: Some(err), lines: Seq::empty(), action: ActionView::QueryStatus },
        ),
        (Phase::StoppingProtected { round, state }, EventView::Failed(err)) => pause(
            p,
            Phase::PausingProtected { round, state },
            Some(err),
        ),
        (_, EventView::Failed(err)) => failed(p, err),
        (Phase::UnpackingElam, EventView::Resolved(path)) => (
            at(p, Phase::OpeningElamFile),
            plain(
                ActionView::OpenElamFile {
                    path,
                    desired_access: FILE_READ_DATA,
                    share_mode: FILE_SHARE_READ,
                    creation_disposition: OPEN_EXISTING,
                    flags_and_attributes: FILE_ATTRIBUTE_NORMAL,
                },
            ),
        ),
        (Phase::OpeningElamFile, EventView::Done) => (
            at(p, Phase::InstallingElam),
            plain(ActionView::InstallElamCertificate),
        ),
        (Phase::InstallingElam, EventView::Done) => (
            at(p, Phase::OpeningManager),
            plain(ActionView::OpenManager { access: SC_MANAGER_ALL_ACCESS }),
        ),
        (Phase::OpeningManager, EventView::Done) => after_manager(p),
        (Phase::ResolvingExecutable, EventView::Resolved(command_line)) => (
            at(p, Phase::CreatingService),
            plain(
                ActionView::CreateService {
                    name: p.service_name,
                    display_name: p.service_name,
                    access: SC_MANAGER_ALL_ACCESS,
                    service_type: SERVICE_WIN32_OWN_PROCESS,
                    start_type: SERVICE_DEMAND_START,
                    error_control: SERVICE_ERROR_NORMAL,
                    command_line,
                },
            ),
        ),
        (Phase::CreatingService, EventView::Done) => after_create(p),
        (Phase::Protecting, EventView::Done) => (
            at(p, Phase::Finished),
            plain(ActionView::Finish(Ok(()))),
        ),
        (Phase::OpeningService, EventView::Done) => (
            at(p, Phase::QueryingStatus),
            plain(ActionView::QueryStatus),
        ),
        (Phase::QueryingStatus, EventView::Status(state)) => if p.command == Command::DeleteProtected {
            start_loop(p, 0, state)
        } else {
            stop_loop(p, 0, state)
        },
        (Phase::Stopping { round }, EventView::Status(state)) => pause(
            p,
            Phase::PausingAfterStop { round, state },
            None,
        ),
        (Phase::PausingAfterStop { round, state }, EventView::Done) => stop_loop(p, round + 1, state),
        (Phase::Starting { round }, EventView::Done) => (
            at(p, Phase::QueryingAfterStart { round }),
            plain(ActionView::QueryStatus),
        ),
        (Phase::QueryingAfterStart { round }, EventView::Status(state)) => pause(
            p,
            Phase::PausingAfterStart { round, state },
            None,
        ),
        (Phase::PausingAfterStart { round, state }, EventView::Done) => start_loop(p, round + 1, state),
        (Phase::Unprotecting { state }, EventView::Done) => protected_stop_loop(p, 0, state),
        (Phase::QueryingBeforeStop { round }, EventView::Status(state)) => if state
            == SERVICE_STOPPED {
            (at(p, Phase::Deleting), plain(ActionView::DeleteService))
        } else {
            (at(p, Phase::StoppingProtected { round, state }), plain(ActionView::StopService))
        },
        (Phase::StoppingProtected { round, state: _ }, EventView::Status(state)) => pause(
            p,
            Phase::PausingProtected { round, state },
            None,
        ),
        (Phase::PausingProtected { round, state }, EventView::Done) => protected_stop_loop(
            p,
            round + 1,
            state,
        ),
        (Phase::Deleting, EventView::Done) => (
            at(p, Phase::Finished),
            StepView {
                warning: None,
                lines: seq![removed_line(p.service_name)],
                action: ActionView::Finish(Ok(())),
            },
        ),
        _ => unexpected(p),
    }
}

// ----- the executable procedure -----

fn plain_step(action: Action) -> (s: Step)
    ensures
        s@ == plain(action@),
{
    let s = Step { warning: None, lines: Vec::new(), action };
    assert(s.lines.deep_view() =~= Seq::<Seq<char>>::empty());
    s
}

fn warned_step(warning: WinapiError, action: Action) -> (s: Step)
    ensures
        s@ == (StepView { warning: Some(warning@), lines: Seq::empty(), action: action@ }),
{
    let s = Step { warning: Some(warning), lines: Vec::new(), action };
    assert(s.lines.deep_view() =~= Seq::<Seq<char>>::empty());
    s
}

fn one_line(line: String) -> (v: Vec<String>)
    ensures
        v.deep_view() == seq![line@],
{
    let v = vec![line];
    assert(v.deep_view() =~= seq![line@]);
    v
}

fn state_text(state: u32) -> (s: String)
    ensures
        s@ == state_line(state),
{
    let mut s = String::from_str("dwCurrentState: ");
    let digits = decimal(state as u64);
    s.append(digits.as_str());
    s
}

/// Starts the procedure `command` for the service `service_name`, whose
/// executable (for creation) is `exe_file`; gives the procedure and its
/// first move.
pub fn begin(command: Command, service_name: String, exe_file: String) -> (r: (Procedure, Step))
    ensures
        (r.0@, r.1@) == initial(command, service_name@, exe_file@),
{
    match command {
        Command::CreateProtected | Command::DeleteProtected => {
            let p = Procedure { command, service_name, exe_file, phase: Phase::UnpackingElam };
            (p, plain_step(Action::UnpackElam))
        },
        _ => {
            let p = Procedure { command, service_name, exe_file, phase: Phase::OpeningManager };
            (p, plain_step(Action::OpenManager { access: SC_MANAGER_ALL_ACCESS }))
        },
    }
}

/// Creates the service `service_name` running `exe_file`.
pub fn create_normal_service(exe_file: String, service_name: String) -> (r: (Procedure, Step))
    ensures
        (r.0@, r.1@) == initial(Command::Create, service_name@, exe_file@),
{
    begin(Command::Create, service_name, exe_file)
}

/// Installs the ELAM certificate, then creates the service `service_name`
/// running `exe_file` as a protected anti-malware light process.
pub fn create_protected_service(exe_file: String, service_name: String) -> (r: (Procedure, Step))
    ensures
        (r.0@, r.1@) == initial(Command::CreateProtected, service_name@, exe_file@),
{
    begin(Command::CreateProtected, service_name, exe_file)
}

/// Stops the service `service_name` and deletes it.
pub fn remove_service(service_name: String) -> (r: (Procedure, Step))
    ensures
        (r.0@, r.1@) == initial(Command::Delete, service_name@, Seq::empty()),
{
    begin(Command::Delete, service_name, String::new())
}

/// Installs the ELAM certificate, starts the protected service
/// `service_name`, asks it to drop its protection, stops it and deletes it.
pub fn remove_protected_service(service_name: String) -> (r: (Procedure, Step))
    ensures
        (r.0@, r.1@) == initial(Command::DeleteProtected, service_name@, Seq::empty()),
{
    begin(Command::DeleteProtected, service_name, String::new())
}

impl Procedure {
    pub fn command(&self) -> (c: Command)
        ensures
            c == self@.command,
    {
        self.command
    }

    pub fn phase(&self) -> (ph: Phase)
        ensures
            ph == self@.phase,
    {
        self.phase
    }

    pub fn service_name(&self) -> (s: &str)
        ensures
            s@ == self@.service_name,
    {
        self.service_name.as_str()
    }

    pub fn is_finished(&self) -> (b: bool)
        ensures
            b == (self@.phase == Phase::Finished),
    {
        self.phase == Phase::Finished
    }

    fn after_manager_exec(&self) -> (r: (Phase, Step))
        ensures
            (at(self@, r.0), r.1@) == after_manager(self@),
    {
        match self.command {
            Command::Create | Command::CreateProtected => (
                Phase::ResolvingExecutable,
                plain_step(Action::ResolveExecutable { path: self.exe_file.clone() }),
            ),
            _ => (
                Phase::OpeningService,
                plain_step(
                    Action::OpenService { name: self.service_name.clone(), access: SERVICE_ALL_ACCESS },
                ),
            ),
        }
    }

    fn after_create_exec(&self) -> (r: (Phase, Step))
        ensures
            (at(self@, r.0), r.1@) == after_create(self@),
    {
        let mut line = String::from_str("Success to create service: ");
        line.append(self.service_name.as_str());
        let lines = one_line(line);
        if self.command == Command::CreateProtected {
            (
                Phase::Protecting,
                Step {
                    warning: None,
                    lines,
                    action: Action::ProtectService {
                        info_level: SERVICE_CONFIG_LAUNCH_PROTECTED,
                        launch_protected: SERVICE_LAUNCH_PROTECTED_ANTIMALWARE_LIGHT,
                    },
                },
            )
        } else {
            (Phase::Finished, Step { warning: None, lines, action: Action::Finish(Ok(())) })
        }
    }

    fn gave_up_exec(&self, state: u32, last: &str) -> (r: (Phase, Step))
        ensures
            (at(self@, r.0), r.1@) == gave_up(self@, state, last@),
    {
        let first = state_text(state);
        let second = String::from_str(last);
        let lines = vec![first, second];
        assert(lines.deep_view() =~= seq![state_line(state), last@]);
        (Phase::Finished, Step { warning: None, lines, action: Action::Finish(Ok(())) })
    }

    fn stop_loop_exec(&self, done: u64, state: u32) -> (r: (Phase, Step))
        ensures
            (at(self@, r.0), r.1@) == stop_loop(self@, done as int, state),
    {
        if state == SERVICE_STOPPED {
            (Phase::Deleting, plain_step(Action::DeleteService))
        } else if done < ATTEMPTS as u64 {
            (Phase::Stopping { round: done as u32 }, plain_step(Action::StopService))
        } else {
            (Phase::Finished, plain_step(Action::Abort(String::from_str("service won't stop"))))
        }
    }

    fn start_loop_exec(&self, done: u64, state: u32) -> (r: (Phase, Step))
        ensures
            (at(self@, r.0), r.1@) == start_loop(self@, done as int, state),
    {
        if state == SERVICE_RUNNING {
            (
                Phase::Unprotecting { state },
                plain_step(Action::SendControl { code: UNPROTECT_SELF }),
            )
        } else if done < ATTEMPTS as u64 {
            (Phase::Starting { round: done as u32 }, plain_step(Action::StartService))
        } else {
            self.gave_up_exec(state, "FAILURE: service won't start")
        }
    }

    fn protected_stop_loop_exec(&self, done: u64, state: u32) -> (r: (Phase, Step))
        ensures
            (at(self@, r.0), r.1@) == protected_stop_loop(self@, done as int, state),
    {
        if done < ATTEMPTS as u64 {
            (Phase::QueryingBeforeStop { round: done as u32 }, plain_step(Action::QueryStatus))
        } else if state == SERVICE_STOPPED {
            (Phase::Deleting, plain_step(Action::DeleteService))
        } else {
            self.gave_up_exec(state, "FAILURE: service won't stop")
        }
    }

    /// Moves the procedure on the reply to its last action; gives what to
    /// report and what to do next.
    pub fn step(&mut self, event: Event) -> (s: Step)
        ensures
            (final(self)@, s@) == transition(old(self)@, event@),
    {
        let (phase, s) = self.next(event);
        self.phase = phase;
        s
    }

    fn next(&self, event: Event) -> (r: (Phase, Step))
        ensures
            (at(self@, r.0), r.1@) == transition(self@, event@),
    {
        match (self.phase, event) {
            (Phase::Finished, _) => (
                Phase::Finished,
                plain_step(Action::Abort(String::from_str("unexpected reply"))),
            ),
            (Phase::Starting { round }, Event::Failed(err)) => (
                Phase::QueryingAfterStart { round },
                warned_step(err, Action::QueryStatus),
            ),
            (Phase::StoppingProtected { round, state }, Event::Failed(err)) => (
                Phase::PausingProtected { round, state },
                warned_step(err, Action::Sleep { seconds: 1 }),
            ),
            (_, Event::Failed(err)) => (Phase::Finished, plain_step(Action::Finish(Err(err)))),
            (Phase::UnpackingElam, Event::Resolved(path)) => (
                Phase::OpeningElamFile,
                plain_step(
                    Action::OpenElamFile {
                        path,
                        desired_access: FILE_READ_DATA,
                        share_mode: FILE_SHARE_READ,
                        creation_disposition: OPEN_EXISTING,
                        flags_and_attributes: FILE_ATTRIBUTE_NORMAL,
                    },
                ),
            ),
            (Phase::OpeningElamFile, Event::Done) => (
                Phase::InstallingElam,
                plain_step(Action::InstallElamCertificate),
            ),
            (Phase::InstallingElam, Event::Done) => (
                Phase::OpeningManager,
                plain_step(Action::OpenManager { access: SC_MANAGER_ALL_ACCESS }),
            ),
            (Phase::OpeningManager, Event::Done) => self.after_manager_exec(),
            (Phase::ResolvingExecutable, Event::Resolved(command_line)) => (
                Phase::CreatingService,
                plain_step(
                    Action::CreateService {
                        name: self.service_name.clone(),
                        display_name: self.service_name.clone(),
                        access: SC_MANAGER_ALL_ACCESS,
                        service_type: SERVICE_WIN32_OWN_PROCESS,
                        start_type: SERVICE_DEMAND_START,
                        error_control: SERVICE_ERROR_NORMAL,
                        command_line,
                    },
                ),
            ),
            (Phase::CreatingService, Event::Done) => self.after_create_exec(),
            (Phase::Protecting, Event::Done) => (
                Phase::Finished,
                plain_step(Action::Finish(Ok(()))),
            ),
            (Phase::OpeningService, Event::Done) => (
                Phase::QueryingStatus,
                plain_step(Action::QueryStatus),
            ),
            (Phase::QueryingStatus, Event::Status(state)) => {
                if self.command == Command::DeleteProtected {
                    self.start_loop_exec(0, state)
                } else {
                    self.stop_loop_exec(0, state)
                }
            },
            (Phase::Stopping { round }, Event::Status(state)) => (
                Phase::PausingAfterStop { round, state },
                plain_step(Action::Sleep { seconds: 1 }),
            ),
            (Phase::PausingAfterStop { round, state }, Event::Done) => self.stop_loop_exec(
                round as u64 + 1,
                state,
            ),
            (Phase::Starting { round }, Event::Done) => (
                Phase::QueryingAfterStart { round },
                plain_step(Action::QueryStatus),
            ),
            (Phase::QueryingAfterStart { round }, Event::Status(state)) => (
                Phase::PausingAfterStart { round, state },
                plain_step(Action::Sleep { seconds: 1 }),
            ),
            (Phase::PausingAfterStart { round, state }, Event::Done) => self.start_loop_exec(
                round as u64 + 1,
                state,
            ),
            (Phase::Unprotecting { state }, Event::Done) => self.protected_stop_loop_exec(0, state),
            (Phase::QueryingBeforeStop { round }, Event::Status(state)) => {
                if state == SERVICE_STOPPED {
                    (Phase::Deleting, plain_step(Action::DeleteService))
                } else {
                    (Phase::StoppingProtected { round, state }, plain_step(Action::StopService))
                }
            },
            (Phase::StoppingProtected { round, state: _ }, Event::Status(state)) => (
                Phase::PausingProtected { round, state },
                plain_step(Action::Sleep { seconds: 1 }),
            ),
            (Phase::PausingProtected { round, state }, Event::Done) => self.protected_stop_loop_exec(
                round as u64 + 1,
                state,
            ),
            (Phase::Deleting, Event::Done) => {
                let mut line = String::from_str("Success to remove service: ");
                line.append(self.service_name.as_str());
                (
                    Phase::Finished,
                    Step { warning: None, lines: one_line(line), action: Action::Finish(Ok(())) },
                )
            },
            _ => (
                Phase::Finished,
                plain_step(Action::Abort(String::from_str("unexpected reply"))),
            ),
        }
    }
}

} // verus!
