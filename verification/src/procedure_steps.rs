//! What each reply leads to, case by case: the stop and start loops keep
//! going until the service reaches the wanted state or the attempts run
//! out, a creation installs what was resolved, and so on.

use vstd::prelude::*;

use crate::error::ErrorView;
use crate::procedure::{transition, ActionView, Command, EventView, Phase, ProcedureView, StepView, ATTEMPTS};
use crate::text::dec_digits;
use crate::winapi::{
    FILE_ATTRIBUTE_NORMAL, FILE_READ_DATA, FILE_SHARE_READ, OPEN_EXISTING, SC_MANAGER_ALL_ACCESS,
    SERVICE_ALL_ACCESS, SERVICE_CONFIG_LAUNCH_PROTECTED, SERVICE_DEMAND_START,
    SERVICE_ERROR_NORMAL, SERVICE_LAUNCH_PROTECTED_ANTIMALWARE_LIGHT, SERVICE_RUNNING,
    SERVICE_STOPPED, SERVICE_WIN32_OWN_PROCESS, UNPROTECT_SELF,
};

verus! {

/// On the reply `e`, procedure `p` moves to `phase` (keeping its command
/// and names) and performs `action`, with nothing to report or print.
pub open spec fn goes(p: ProcedureView, e: EventView, phase: Phase, action: ActionView) -> bool {
    &&& transition(p, e).0 == ProcedureView { phase, ..p }
    &&& transition(p, e).1 == StepView { warning: None, lines: Seq::empty(), action }
}

/// On the reply `e`, procedure `p` ends without error after printing the
/// state `state` that the service was left in and the line `why`.
pub open spec fn gives_up(p: ProcedureView, e: EventView, state: u32, why: Seq<char>) -> bool {
    &&& transition(p, e).0 == ProcedureView { phase: Phase::Finished, ..p }
    &&& transition(p, e).1 == StepView {
        warning: None,
        lines: seq!["dwCurrentState: "@ + dec_digits(state as nat), why],
        action: ActionView::Finish(Ok(())),
    }
}

/// Plain removal: once the first status is in, a stopped service is
/// deleted at once, any other is asked to stop.
pub proof fn removal_first_status(p: ProcedureView, s: u32)
    requires
        p.command == Command::Delete,
        p.phase == Phase::QueryingStatus,
    ensures
        s == SERVICE_STOPPED ==> goes(p, EventView::Status(s), Phase::Deleting, ActionView::DeleteService),
        s != SERVICE_STOPPED ==> goes(
            p,
            EventView::Status(s),
            (Phase::Stopping { round: 0 }),
            ActionView::StopService,
        ),
{
}

/// Plain removal: the state that a stop request reports is kept, and the
/// procedure pauses one second; a refused stop request ends it with its
/// error.
pub proof fn removal_stop_reply(p: ProcedureView, round: u32, s: u32, err: ErrorView)
    requires
        p.phase == (Phase::Stopping { round }),
    ensures
        goes(
            p,
            EventView::Status(s),
            (Phase::PausingAfterStop { round, state: s }),
            (ActionView::Sleep { seconds: 1 }),
        ),
        goes(p, EventView::Failed(err), Phase::Finished, ActionView::Finish(Err(err))),
{
}

/// Plain removal, after a pause: a service last reported stopped is
/// deleted, whatever number of stop requests came before; any other is
/// asked to stop again while fewer than ten requests were made, and the
/// program stops with "service won't stop" after the tenth.
pub proof fn removal_after_pause(p: ProcedureView, round: u32, s: u32)
    requires
        p.phase == (Phase::PausingAfterStop { round, state: s }),
        round < ATTEMPTS,
    ensures
        s == SERVICE_STOPPED ==> goes(p, EventView::Done, Phase::Deleting, ActionView::DeleteService),
        s != SERVICE_STOPPED && round + 1 < ATTEMPTS ==> goes(
            p,
            EventView::Done,
            (Phase::Stopping { round: (round + 1) as u32 }),
            ActionView::StopService,
        ),
        s != SERVICE_STOPPED && round + 1 == ATTEMPTS ==> goes(
            p,
            EventView::Done,
            Phase::Finished,
            ActionView::Abort("service won't stop"@),
        ),
{
}

/// Protected removal: once the first status is in, a running service is
/// told to drop its protection at once, any other is asked to start.
pub proof fn protected_first_status(p: ProcedureView, s: u32)
    requires
        p.command == Command::DeleteProtected,
        p.phase == Phase::QueryingStatus,
    ensures
        s == SERVICE_RUNNING ==> goes(
            p,
            EventView::Status(s),
            (Phase::Unprotecting { state: s }),
            (ActionView::SendControl { code: UNPROTECT_SELF }),
        ),
        s != SERVICE_RUNNING ==> goes(
            p,
            EventView::Status(s),
            (Phase::Starting { round: 0 }),
            ActionView::StartService,
        ),
{
}

/// Protected removal: after a start request, granted or refused, the
/// status is read; a refusal is reported, not fatal. The state read is
/// kept, and the procedure pauses one second.
pub proof fn protected_start_replies(p: ProcedureView, round: u32, s: u32, err: ErrorView)
    ensures
        p.phase == (Phase::Starting { round }) ==> goes(
            p,
            EventView::Done,
            (Phase::QueryingAfterStart { round }),
            ActionView::QueryStatus,
        ),
        p.phase == (Phase::Starting { round }) ==> transition(p, EventView::Failed(err)) == (
        ProcedureView { phase: (Phase::QueryingAfterStart { round }), ..p },
        StepView { warning: Some(err), lines: Seq::empty(), action: ActionView::QueryStatus }),
        p.phase == (Phase::QueryingAfterStart { round }) ==> goes(
            p,
            EventView::Status(s),
            (Phase::PausingAfterStart { round, state: s }),
            (ActionView::Sleep { seconds: 1 }),
        ),
{
}

/// Protected removal, after a pause in the start loop: a running service
/// is told to drop its protection; any other is asked to start again while
/// fewer than ten requests were made; after the tenth the procedure gives
/// up, without error, printing the state and "FAILURE: service won't
/// start".
pub proof fn protected_start_after_pause(p: ProcedureView, round: u32, s: u32)
    requires
        p.phase == (Phase::PausingAfterStart { round, state: s }),
        round < ATTEMPTS,
    ensures
        s == SERVICE_RUNNING ==> goes(
            p,
            EventView::Done,
            (Phase::Unprotecting { state: s }),
            (ActionView::SendControl { code: UNPROTECT_SELF }),
        ),
        s != SERVICE_RUNNING && round + 1 < ATTEMPTS ==> goes(
            p,
            EventView::Done,
            (Phase::Starting { round: (round + 1) as u32 }),
            ActionView::StartService,
        ),
        s != SERVICE_RUNNING && round + 1 == ATTEMPTS ==> gives_up(
            p,
            EventView::Done,
            s,
            "FAILURE: service won't start"@,
        ),
{
}

/// Protected removal: once the control code is sent, the stop loop begins
/// by reading the status.
pub proof fn protected_after_unprotect(p: ProcedureView, state: u32)
    requires
        p.phase == (Phase::Unprotecting { state }),
    ensures
        goes(p, EventView::Done, (Phase::QueryingBeforeStop { round: 0 }), ActionView::QueryStatus),
{
}

/// Protected removal, status read before a stop attempt: a stopped
/// service is deleted; in any other state (running, stop pending, ...) the
/// service is asked to stop.
pub proof fn protected_status_before_stop(p: ProcedureView, round: u32, s: u32)
    requires
        p.phase == (Phase::QueryingBeforeStop { round }),
    ensures
        s == SERVICE_STOPPED ==> goes(p, EventView::Status(s), Phase::Deleting, ActionView::DeleteService),
        s != SERVICE_STOPPED ==> goes(
            p,
            EventView::Status(s),
            (Phase::StoppingProtected { round, state: s }),
            ActionView::StopService,
        ),
{
}

/// Protected removal: the state a stop request reports is kept; a refused
/// stop request is reported and the state read before it is kept; either
/// way the procedure pauses one second.
pub proof fn protected_stop_reply(p: ProcedureView, round: u32, before: u32, s: u32, err: ErrorView)
    requires
        p.phase == (Phase::StoppingProtected { round, state: before }),
    ensures
        goes(
            p,
            EventView::Status(s),
            (Phase::PausingProtected { round, state: s }),
            (ActionView::Sleep { seconds: 1 }),
        ),
        transition(p, EventView::Failed(err)) == (
        ProcedureView { phase: (Phase::PausingProtected { round, state: before }), ..p },
        StepView { warning: Some(err), lines: Seq::empty(), action: (ActionView::Sleep { seconds: 1 }) }),
{
}

/// Protected removal, after a pause in the stop loop: while fewer than ten
/// stop attempts were made, the status is read again for the next attempt;
/// after the tenth, a service last reported stopped is deleted, and the
/// procedure gives up on any other, without error, printing the state and
/// "FAILURE: service won't stop".
pub proof fn protected_stop_after_pause(p: ProcedureView, round: u32, s: u32)
    requires
        p.phase == (Phase::PausingProtected { round, state: s }),
        round < ATTEMPTS,
    ensures
        round + 1 < ATTEMPTS ==> goes(
            p,
            EventView::Done,
            (Phase::QueryingBeforeStop { round: (round + 1) as u32 }),
            ActionView::QueryStatus,
        ),
        round + 1 == ATTEMPTS && s == SERVICE_STOPPED ==> goes(
            p,
            EventView::Done,
            Phase::Deleting,
            ActionView::DeleteService,
        ),
        round + 1 == ATTEMPTS && s != SERVICE_STOPPED ==> gives_up(
            p,
            EventView::Done,
            s,
            "FAILURE: service won't stop"@,
        ),
{
}

/// Both removals: a granted deletion is reported with the service's name
/// and ends the procedure without error; a refused one ends it with its
/// error.
pub proof fn deletion_reply(p: ProcedureView, err: ErrorView)
    requires
        p.phase == Phase::Deleting,
    ensures
        transition(p, EventView::Done) == (
        ProcedureView { phase: Phase::Finished, ..p },
        StepView {
            warning: None,
            lines: seq!["Success to remove service: "@ + p.service_name],
            action: ActionView::Finish(Ok(())),
        }),
        goes(p, EventView::Failed(err), Phase::Finished, ActionView::Finish(Err(err))),
{
}

/// Creation: the executable given is resolved once the manager is open,
/// and the service is created with exactly the resolved path as its
/// command line, its own name as both name and display name, full access,
/// its own process, started on demand, with normal error control.
pub proof fn creation_uses_resolved_path(p: ProcedureView, path: Seq<char>)
    ensures
        (p.command == Command::Create || p.command == Command::CreateProtected) && p.phase
            == Phase::OpeningManager ==> goes(
            p,
            EventView::Done,
            Phase::ResolvingExecutable,
            (ActionView::ResolveExecutable { path: p.exe_file }),
        ),
        p.phase == Phase::ResolvingExecutable ==> goes(
            p,
            EventView::Resolved(path),
            Phase::CreatingService,
            (ActionView::CreateService {
                name: p.service_name,
                display_name: p.service_name,
                access: SC_MANAGER_ALL_ACCESS,
                service_type: SERVICE_WIN32_OWN_PROCESS,
                start_type: SERVICE_DEMAND_START,
                error_control: SERVICE_ERROR_NORMAL,
                command_line: path,
            }),
        ),
{
}

/// Every procedure but the protected ones begins by opening the service
/// control manager with full access; the protected ones begin by writing
/// out the ELAM driver, open the written file for reading (shared for
/// reading, only if it exists, with normal attributes), install its
/// certificate, and only then open the manager with full access.
pub proof fn elam_then_manager(
    command: Command,
    name: Seq<char>,
    exe: Seq<char>,
    p: ProcedureView,
    path: Seq<char>,
)
    ensures
        (command == Command::Create || command == Command::Delete) ==> crate::procedure::initial(
            command,
            name,
            exe,
        ).1.action == (ActionView::OpenManager { access: SC_MANAGER_ALL_ACCESS }),
        (command == Command::CreateProtected || command == Command::DeleteProtected)
            ==> crate::procedure::initial(command, name, exe).1.action == ActionView::UnpackElam
            && crate::procedure::initial(command, name, exe).0.phase == Phase::UnpackingElam,
        crate::procedure::initial(command, name, exe).0.command == command,
        crate::procedure::initial(command, name, exe).0.service_name == name,
        crate::procedure::initial(command, name, exe).0.exe_file == exe,
        p.phase == Phase::UnpackingElam ==> goes(
            p,
            EventView::Resolved(path),
            Phase::OpeningElamFile,
            (ActionView::OpenElamFile {
                path,
                desired_access: FILE_READ_DATA,
                share_mode: FILE_SHARE_READ,
                creation_disposition: OPEN_EXISTING,
                flags_and_attributes: FILE_ATTRIBUTE_NORMAL,
            }),
        ),
        p.phase == Phase::OpeningElamFile ==> goes(
            p,
            EventView::Done,
            Phase::InstallingElam,
            ActionView::InstallElamCertificate,
        ),
        p.phase == Phase::InstallingElam ==> goes(
            p,
            EventView::Done,
            Phase::OpeningManager,
            (ActionView::OpenManager { access: SC_MANAGER_ALL_ACCESS }),
        ),
{
}

/// Removal: once the manager is open, the named service is opened with
/// full access, and then its status is read.
pub proof fn removal_opens_service(p: ProcedureView)
    requires
        p.command == Command::Delete || p.command == Command::DeleteProtected,
    ensures
        p.phase == Phase::OpeningManager ==> goes(
            p,
            EventView::Done,
            Phase::OpeningService,
            (ActionView::OpenService { name: p.service_name, access: SERVICE_ALL_ACCESS }),
        ),
        p.phase == Phase::OpeningService ==> goes(
            p,
            EventView::Done,
            Phase::QueryingStatus,
            ActionView::QueryStatus,
        ),
{
}

/// Creation: a created service is reported with its name; a plain
/// creation then ends without error, a protected one sets the launch
/// protection to anti-malware light and ends without error once that is
/// granted.
pub proof fn creation_after_create(p: ProcedureView)
    ensures
        p.phase == Phase::CreatingService && p.command == Command::Create ==> transition(
            p,
            EventView::Done,
        ) == (
        ProcedureView { phase: Phase::Finished, ..p },
        StepView {
            warning: None,
            lines: seq!["Success to create service: "@ + p.service_name],
            action: ActionView::Finish(Ok(())),
        }),
        p.phase == Phase::CreatingService && p.command == Command::CreateProtected ==> transition(
            p,
            EventView::Done,
        ) == (
        ProcedureView { phase: Phase::Protecting, ..p },
        StepView {
            warning: None,
            lines: seq!["Success to create service: "@ + p.service_name],
            action: ActionView::ProtectService {
                info_level: SERVICE_CONFIG_LAUNCH_PROTECTED,
                launch_protected: SERVICE_LAUNCH_PROTECTED_ANTIMALWARE_LIGHT,
            },
        }),
        p.phase == Phase::Protecting ==> goes(
            p,
            EventView::Done,
            Phase::Finished,
            ActionView::Finish(Ok(())),
        ),
{
}

/// A finished procedure stays finished and answers any reply with an
/// abort.
pub proof fn finished_stays(p: ProcedureView, e: EventView)
    requires
        p.phase == Phase::Finished,
    ensures
        goes(p, e, Phase::Finished, ActionView::Abort("unexpected reply"@)),
{
}

} // verus!
