//! What holds of every run of a procedure, whatever the replies.

use vstd::prelude::*;

use crate::error::ErrorView;
use crate::procedure::{initial, transition, ActionView, Command, EventView, Phase, ProcedureView, StepView, ATTEMPTS};
use crate::winapi::{SERVICE_RUNNING, SERVICE_STOPPED, UNPROTECT_SELF};

verus! {

/// Every attempt counter stays below the number of attempts allowed.
pub open spec fn wf(p: ProcedureView) -> bool {
    match p.phase {
        Phase::Stopping { round } => round < ATTEMPTS,
        Phase::PausingAfterStop { round, .. } => round < ATTEMPTS,
        Phase::Starting { round } => round < ATTEMPTS,
        Phase::QueryingAfterStart { round } => round < ATTEMPTS,
        Phase::PausingAfterStart { round, .. } => round < ATTEMPTS,
        Phase::QueryingBeforeStop { round } => round < ATTEMPTS,
        Phase::StoppingProtected { round, .. } => round < ATTEMPTS,
        Phase::PausingProtected { round, .. } => round < ATTEMPTS,
        _ => true,
    }
}

/// A bound on the number of further replies before the procedure ends.
pub open spec fn rank(ph: Phase) -> int {
    match ph {
        Phase::Finished => 0,
        Phase::Deleting => 1,
        Phase::Protecting => 1,
        Phase::CreatingService => 2,
        Phase::ResolvingExecutable => 3,
        Phase::StoppingProtected { round, .. } => 3 * (10 - round),
        Phase::PausingProtected { round, .. } => 3 * (10 - round) - 1,
        Phase::QueryingBeforeStop { round } => 3 * (10 - round) + 1,
        Phase::Unprotecting { .. } => 32,
        Phase::Starting { round } => 32 + 3 * (10 - round),
        Phase::QueryingAfterStart { round } => 31 + 3 * (10 - round),
        Phase::PausingAfterStart { round, .. } => 30 + 3 * (10 - round),
        Phase::Stopping { round } => 2 + 2 * (10 - round),
        Phase::PausingAfterStop { round, .. } => 1 + 2 * (10 - round),
        Phase::QueryingStatus => 63,
        Phase::OpeningService => 64,
        Phase::OpeningManager => 65,
        Phase::InstallingElam => 66,
        Phase::OpeningElamFile => 67,
        Phase::UnpackingElam => 68,
    }
}

/// Whether an action ends the procedure.
pub open spec fn ends(a: ActionView) -> bool {
    a is Finish || a is Abort
}

/// The moves of procedure `p` on the replies `es`, and where it stands
/// after them.
pub open spec fn run(p: ProcedureView, es: Seq<EventView>) -> (ProcedureView, Seq<StepView>)
    decreases es.len(),
{
    if es.len() == 0 {
        (p, Seq::empty())
    } else {
        let (q, s) = transition(p, es[0]);
        let (r, ss) = run(q, es.subrange(1, es.len() as int));
        (r, seq![s] + ss)
    }
}

/// A run gives one move per reply.
pub proof fn run_length(p: ProcedureView, es: Seq<EventView>)
    ensures
        run(p, es).1.len() == es.len(),
    decreases es.len(),
{
    if es.len() > 0 {
        let (q, s) = transition(p, es[0]);
        run_length(q, es.subrange(1, es.len() as int));
    }
}

/// A procedure starts well formed, and ends within 68 replies at most.
pub proof fn initial_bound(command: Command, service_name: Seq<char>, exe_file: Seq<char>)
    ensures
        wf(initial(command, service_name, exe_file).0),
        rank(initial(command, service_name, exe_file).0.phase) <= 68,
        !ends(initial(command, service_name, exe_file).1.action),
        consistent(initial(command, service_name, exe_file).0, None),
{
}

/// Each move keeps the attempt counters in bounds, and either ends the
/// procedure (with `Finish` or `Abort`) or brings it strictly closer to
/// its end.
pub proof fn transition_progress(p: ProcedureView, e: EventView)
    requires
        wf(p),
        p.phase != Phase::Finished,
    ensures
        wf(transition(p, e).0),
        transition(p, e).0.phase == Phase::Finished <==> ends(transition(p, e).1.action),
        transition(p, e).0.phase == Phase::Finished || 0 < rank(transition(p, e).0.phase) < rank(p.phase),
{
}

/// Whatever the replies, a procedure that has not ended gives its final
/// action (`Finish` or `Abort`) within `rank` replies.
pub proof fn ends_within_rank(p: ProcedureView, es: Seq<EventView>)
    requires
        wf(p),
        p.phase != Phase::Finished,
        es.len() >= rank(p.phase),
    ensures
        exists|i: int| 0 <= i < rank(p.phase) && #[trigger] ends(run(p, es).1[i].action),
    decreases es.len(),
{
    transition_progress(p, es[0]);
    let (q, s) = transition(p, es[0]);
    let rest = es.subrange(1, es.len() as int);
    let ss = run(p, es).1;
    assert(ss == seq![s] + run(q, rest).1);
    run_length(q, rest);
    assert(ss[0] == s);
    if !ends(s.action) {
        ends_within_rank(q, rest);
        let i = choose|i: int| 0 <= i < rank(q.phase) && #[trigger] ends(run(q, rest).1[i].action);
        assert(ss[i + 1] == run(q, rest).1[i]);
        assert(ends(ss[i + 1].action));
    } else {
        assert(ends(ss[0].action));
    }
}

/// The kinds of action whose number the laws below bound.
pub enum Tally {
    Starts,
    Stops,
    Queries,
    Sleeps,
    Unprotects,
    Deletes,
}

/// Whether an action is of the kind counted.
pub open spec fn counted(kind: Tally, a: ActionView) -> bool {
    match kind {
        Tally::Starts => a is StartService,
        Tally::Stops => a is StopService,
        Tally::Queries => a is QueryStatus,
        Tally::Sleeps => a is Sleep,
        Tally::Unprotects => a is SendControl,
        Tally::Deletes => a is DeleteService,
    }
}

/// The most actions of a kind that any procedure makes: ten start and ten
/// stop requests, twenty-one status queries, twenty pauses, one request to
/// drop the protection and one deletion.
pub open spec fn most(kind: Tally) -> int {
    match kind {
        Tally::Starts => ATTEMPTS as int,
        Tally::Stops => ATTEMPTS as int,
        Tally::Queries => 2 * ATTEMPTS + 1,
        Tally::Sleeps => 2 * ATTEMPTS as int,
        Tally::Unprotects => 1,
        Tally::Deletes => 1,
    }
}

/// How many more actions of a kind a procedure may make from this phase
/// on.
pub open spec fn left(kind: Tally, ph: Phase) -> int {
    match kind {
        Tally::Starts => match ph {
            Phase::UnpackingElam | Phase::OpeningElamFile | Phase::InstallingElam
            | Phase::OpeningManager | Phase::OpeningService
            | Phase::QueryingStatus => 10,
            Phase::Starting { round } => 9 - round,
            Phase::QueryingAfterStart { round } => 9 - round,
            Phase::PausingAfterStart { round, .. } => 9 - round,
            _ => 0,
        },
        Tally::Stops => match ph {
            Phase::UnpackingElam | Phase::OpeningElamFile | Phase::InstallingElam
            | Phase::OpeningManager | Phase::OpeningService
            | Phase::QueryingStatus | Phase::Unprotecting { .. } | Phase::Starting { .. }
            | Phase::QueryingAfterStart { .. } | Phase::PausingAfterStart { .. } => 10,
            Phase::Stopping { round } => 9 - round,
            Phase::PausingAfterStop { round, .. } => 9 - round,
            Phase::QueryingBeforeStop { round } => 10 - round,
            Phase::StoppingProtected { round, .. } => 9 - round,
            Phase::PausingProtected { round, .. } => 9 - round,
            _ => 0,
        },
        Tally::Queries => match ph {
            Phase::UnpackingElam | Phase::OpeningElamFile | Phase::InstallingElam
            | Phase::OpeningManager | Phase::OpeningService => 21,
            Phase::QueryingStatus => 20,
            Phase::Starting { round } => 20 - round,
            Phase::QueryingAfterStart { round } => 19 - round,
            Phase::PausingAfterStart { round, .. } => 19 - round,
            Phase::Unprotecting { .. } => 10,
            Phase::QueryingBeforeStop { round } => 9 - round,
            Phase::StoppingProtected { round, .. } => 9 - round,
            Phase::PausingProtected { round, .. } => 9 - round,
            _ => 0,
        },
        Tally::Sleeps => match ph {
            Phase::UnpackingElam | Phase::OpeningElamFile | Phase::InstallingElam
            | Phase::OpeningManager | Phase::OpeningService
            | Phase::QueryingStatus => 20,
            Phase::Starting { round } => 20 - round,
            Phase::QueryingAfterStart { round } => 20 - round,
            Phase::PausingAfterStart { round, .. } => 19 - round,
            Phase::Unprotecting { .. } => 10,
            Phase::QueryingBeforeStop { round } => 10 - round,
            Phase::StoppingProtected { round, .. } => 10 - round,
            Phase::PausingProtected { round, .. } => 9 - round,
            Phase::Stopping { round } => 10 - round,
            Phase::PausingAfterStop { round, .. } => 9 - round,
            _ => 0,
        },
        Tally::Unprotects => match ph {
            Phase::UnpackingElam | Phase::OpeningElamFile | Phase::InstallingElam
            | Phase::OpeningManager | Phase::OpeningService
            | Phase::QueryingStatus | Phase::Starting { .. } | Phase::QueryingAfterStart { .. }
            | Phase::PausingAfterStart { .. } => 1,
            _ => 0,
        },
        Tally::Deletes => match ph {
            Phase::Deleting | Phase::Finished => 0,
            _ => 1,
        },
    }
}

/// The number of moves whose action is of the kind counted.
pub open spec fn tally(kind: Tally, ss: Seq<StepView>) -> int
    decreases ss.len(),
{
    if ss.len() == 0 {
        0
    } else {
        (if counted(kind, ss[0].action) { 1int } else { 0int }) + tally(
            kind,
            ss.subrange(1, ss.len() as int),
        )
    }
}

proof fn tally_step(kind: Tally, p: ProcedureView, e: EventView)
    requires
        wf(p),
    ensures
        (if counted(kind, transition(p, e).1.action) { 1int } else { 0int }) + left(
            kind,
            transition(p, e).0.phase,
        ) <= left(kind, p.phase),
        0 <= left(kind, transition(p, e).0.phase),
        left(kind, p.phase) <= most(kind),
{
}

/// Whatever the replies, a procedure makes no more actions of a kind than
/// its phase leaves it: at most ten start and ten stop requests, twenty-one
/// status queries, twenty pauses, one request to drop the protection and
/// one deletion.
pub proof fn bounded_actions(kind: Tally, p: ProcedureView, es: Seq<EventView>)
    requires
        wf(p),
    ensures
        tally(kind, run(p, es).1) <= left(kind, p.phase) <= most(kind),
    decreases es.len(),
{
    tally_step(kind, p, es[0]);
    if es.len() > 0 {
        let (q, s) = transition(p, es[0]);
        let rest = es.subrange(1, es.len() as int);
        if p.phase != Phase::Finished {
            transition_progress(p, es[0]);
        }
        bounded_actions(kind, q, rest);
        let ss = run(p, es).1;
        assert(ss == seq![s] + run(q, rest).1);
        assert(ss.subrange(1, ss.len() as int) =~= run(q, rest).1);
    }
}

/// The procedure starts by writing out the ELAM driver (whose certificate
/// it then installs) when it is a protected one, and with the service control manager opened
/// first otherwise; whatever the replies, it makes at most ten start and
/// ten stop requests, twenty-one status queries, twenty pauses, one
/// request to drop the protection and one deletion.
pub proof fn initial_attempts(
    command: Command,
    service_name: Seq<char>,
    exe_file: Seq<char>,
    es: Seq<EventView>,
)
    ensures
        (command == Command::CreateProtected || command == Command::DeleteProtected) ==> initial(
            command,
            service_name,
            exe_file,
        ).1.action is UnpackElam,
        (command == Command::Create || command == Command::Delete) ==> initial(
            command,
            service_name,
            exe_file,
        ).1.action is OpenManager,
        tally(Tally::Starts, run(initial(command, service_name, exe_file).0, es).1) <= ATTEMPTS,
        tally(Tally::Stops, run(initial(command, service_name, exe_file).0, es).1) <= ATTEMPTS,
        tally(Tally::Queries, run(initial(command, service_name, exe_file).0, es).1) <= 21,
        tally(Tally::Sleeps, run(initial(command, service_name, exe_file).0, es).1) <= 20,
        tally(Tally::Unprotects, run(initial(command, service_name, exe_file).0, es).1) <= 1,
        tally(Tally::Deletes, run(initial(command, service_name, exe_file).0, es).1) <= 1,
{
    let p = initial(command, service_name, exe_file).0;
    bounded_actions(Tally::Starts, p, es);
    bounded_actions(Tally::Stops, p, es);
    bounded_actions(Tally::Queries, p, es);
    bounded_actions(Tally::Sleeps, p, es);
    bounded_actions(Tally::Unprotects, p, es);
    bounded_actions(Tally::Deletes, p, es);
}

// ----- what the service was last seen doing -----

/// The service state that a phase remembers.
pub open spec fn remembered(ph: Phase) -> Option<u32> {
    match ph {
        Phase::PausingAfterStop { state, .. } => Some(state),
        Phase::PausingAfterStart { state, .. } => Some(state),
        Phase::Unprotecting { state } => Some(state),
        Phase::StoppingProtected { state, .. } => Some(state),
        Phase::PausingProtected { state, .. } => Some(state),
        _ => None,
    }
}

/// The state last reported, once the reply `e` is in.
pub open spec fn last_after(last: Option<u32>, e: EventView) -> Option<u32> {
    match e {
        EventView::Status(s) => Some(s),
        _ => last,
    }
}

/// The state last reported over a sequence of replies.
pub open spec fn last_reported(last: Option<u32>, es: Seq<EventView>) -> Option<u32>
    decreases es.len(),
{
    if es.len() == 0 {
        last
    } else {
        last_reported(last_after(last, es[0]), es.subrange(1, es.len() as int))
    }
}

pub open spec fn consistent(p: ProcedureView, last: Option<u32>) -> bool {
    remembered(p.phase) is Some ==> last == remembered(p.phase)
}

/// One move: what the phase remembers is the state last reported; the
/// service is deleted only when it was last reported stopped, and told to
/// drop its protection only when it was last reported running.
pub proof fn observed_step(p: ProcedureView, e: EventView, last: Option<u32>)
    requires
        consistent(p, last),
    ensures
        consistent(transition(p, e).0, last_after(last, e)),
        transition(p, e).1.action is DeleteService ==> last_after(last, e) == Some(SERVICE_STOPPED),
        transition(p, e).1.action is SendControl ==> last_after(last, e) == Some(SERVICE_RUNNING)
            && transition(p, e).1.action == (ActionView::SendControl { code: UNPROTECT_SELF }),
{
}

/// Whatever the replies, a procedure asks to delete the service only right
/// after the service was last reported stopped, and tells it to drop its
/// protection only right after it was last reported running.
pub proof fn deletes_only_stopped(p: ProcedureView, es: Seq<EventView>, last: Option<u32>, i: int)
    requires
        consistent(p, last),
        0 <= i < es.len(),
    ensures
        run(p, es).1[i].action is DeleteService ==> last_reported(last, es.subrange(0, i + 1))
            == Some(SERVICE_STOPPED),
        run(p, es).1[i].action is SendControl ==> last_reported(last, es.subrange(0, i + 1))
            == Some(SERVICE_RUNNING),
    decreases es.len(),
{
    let (q, s) = transition(p, es[0]);
    let rest = es.subrange(1, es.len() as int);
    observed_step(p, es[0], last);
    let ss = run(p, es).1;
    assert(ss == seq![s] + run(q, rest).1);
    run_length(q, rest);
    let pre = es.subrange(0, i + 1);
    assert(pre[0] == es[0]);
    if i == 0 {
        assert(pre.subrange(1, pre.len() as int) =~= Seq::<EventView>::empty());
        assert(last_reported(last_after(last, es[0]), Seq::<EventView>::empty()) == last_after(last, es[0]));
    } else {
        deletes_only_stopped(q, rest, last_after(last, es[0]), i - 1);
        assert(pre.subrange(1, pre.len() as int) =~= rest.subrange(0, i));
        assert(ss[i] == run(q, rest).1[i - 1]);
    }
}

/// A refused call ends the procedure with that call's error; the only
/// refusals that do not are those of a start or a stop request while a
/// protected service is removed, which are reported and retried.
pub proof fn refusal_ends(p: ProcedureView, err: ErrorView)
    requires
        p.phase != Phase::Finished,
        !(p.phase is Starting),
        !(p.phase is StoppingProtected),
    ensures
        transition(p, EventView::Failed(err)).0.phase == Phase::Finished,
        transition(p, EventView::Failed(err)).1.action == ActionView::Finish(Err(err)),
        transition(p, EventView::Failed(err)).1.lines.len() == 0,
{
}

// ----- what each command does and does not do -----

/// The phases that a procedure for `command` passes through.
pub open spec fn fits(command: Command, ph: Phase) -> bool {
    match command {
        Command::Create => ph is OpeningManager || ph is ResolvingExecutable || ph is CreatingService
            || ph is Finished,
        Command::CreateProtected => ph is UnpackingElam || ph is OpeningElamFile
            || ph is InstallingElam || ph is OpeningManager
            || ph is ResolvingExecutable || ph is CreatingService || ph is Protecting
            || ph is Finished,
        Command::Delete => ph is OpeningManager || ph is OpeningService || ph is QueryingStatus
            || ph is Stopping || ph is PausingAfterStop || ph is Deleting || ph is Finished,
        Command::DeleteProtected => !(ph is ResolvingExecutable || ph is CreatingService
            || ph is Protecting || ph is Stopping || ph is PausingAfterStop),
    }
}

/// The phases of a protected removal that come after the service was
/// told to drop its protection.
pub open spec fn past_unprotect(ph: Phase) -> bool {
    ph is QueryingBeforeStop || ph is StoppingProtected || ph is PausingProtected || ph is Deleting
}

/// Whether any of the moves tells the service to drop its protection.
pub open spec fn sends_unprotect(ss: Seq<StepView>) -> bool {
    exists|j: int| 0 <= j < ss.len() && #[trigger] ss[j].action is SendControl
}

/// One move keeps a procedure within the phases of its command, a creation
/// never touches an existing service, a plain removal never starts the
/// service nor sends it a control code, and a protected removal deletes
/// the service only once it was told to drop its protection.
pub proof fn command_step(p: ProcedureView, e: EventView)
    requires
        fits(p.command, p.phase),
    ensures
        transition(p, e).0.command == p.command,
        fits(p.command, transition(p, e).0.phase),
        (p.command == Command::Create || p.command == Command::CreateProtected) ==> {
            let a = transition(p, e).1.action;
            !(a is OpenService || a is QueryStatus || a is StartService || a is StopService
                || a is SendControl || a is DeleteService)
        },
        p.command == Command::Create ==> {
            let a = transition(p, e).1.action;
            !(a is UnpackElam || a is OpenElamFile || a is InstallElamCertificate
                || a is ProtectService)
        },
        p.command == Command::Delete ==> {
            let a = transition(p, e).1.action;
            !(a is UnpackElam || a is OpenElamFile || a is InstallElamCertificate || a is StartService || a is SendControl || a is CreateService
                || a is ProtectService || a is ResolveExecutable)
        },
        p.command == Command::DeleteProtected ==> {
            let a = transition(p, e).1.action;
            !(a is CreateService || a is ProtectService || a is ResolveExecutable)
        },
        p.command == Command::DeleteProtected && past_unprotect(transition(p, e).0.phase) ==> (
        past_unprotect(p.phase) || transition(p, e).1.action is SendControl || p.phase is Unprotecting),
        p.command == Command::DeleteProtected && transition(p, e).1.action is DeleteService
            ==> past_unprotect(p.phase),
{
}

/// What a protected removal has done so far: it has told the service to
/// drop its protection whenever it is in the phases after that.
pub open spec fn unprotect_recorded(p: ProcedureView, sent: bool) -> bool {
    p.command == Command::DeleteProtected && (past_unprotect(p.phase) || p.phase is Unprotecting)
        ==> sent
}

/// Whatever the replies, a protected removal asks to delete the service
/// only after it told the service to drop its protection.
pub proof fn deletes_only_unprotected(p: ProcedureView, es: Seq<EventView>, sent: bool, i: int)
    requires
        fits(p.command, p.phase),
        unprotect_recorded(p, sent),
        p.command == Command::DeleteProtected,
        0 <= i < es.len(),
        run(p, es).1[i].action is DeleteService,
    ensures
        sent || sends_unprotect(run(p, es).1.subrange(0, i)),
    decreases es.len(),
{
    let (q, s) = transition(p, es[0]);
    let rest = es.subrange(1, es.len() as int);
    command_step(p, es[0]);
    let ss = run(p, es).1;
    assert(ss == seq![s] + run(q, rest).1);
    run_length(q, rest);
    if i == 0 {
        assert(ss[0] == s);
    } else {
        let sent2 = sent || s.action is SendControl;
        assert(unprotect_recorded(q, sent2));
        assert(ss[i] == run(q, rest).1[i - 1]);
        deletes_only_unprotected(q, rest, sent2, i - 1);
        if !sent {
            if s.action is SendControl {
                assert(ss.subrange(0, i)[0] == s);
            } else {
                let j = choose|j: int|
                    0 <= j < i - 1 && #[trigger] run(q, rest).1.subrange(0, i - 1)[j].action is SendControl;
                assert(ss.subrange(0, i)[j + 1] == run(q, rest).1.subrange(0, i - 1)[j]);
            }
        }
    }
}

/// A procedure starts within the phases of its command, with nothing sent.
pub proof fn initial_fits(command: Command, service_name: Seq<char>, exe_file: Seq<char>)
    ensures
        fits(command, initial(command, service_name, exe_file).0.phase),
        unprotect_recorded(initial(command, service_name, exe_file).0, false),
        initial(command, service_name, exe_file).0.command == command,
{
}

} // verus!
