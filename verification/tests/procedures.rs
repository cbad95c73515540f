use ppl_service::error::{WinapiCallError, WinapiError};
use ppl_service::procedure::{
    begin, create_normal_service, create_protected_service, remove_protected_service,
    remove_service, Action, Command, Event, Phase, Procedure, Step,
};

const STOPPED: u32 = 1;
const START_PENDING: u32 = 2;
const STOP_PENDING: u32 = 3;
const RUNNING: u32 = 4;

fn fail(api: &str, code: u32) -> Event {
    Event::Failed(WinapiCallError::new(api, code).into())
}

/// A short name for an action, with its parameters.
fn label(a: &Action) -> String {
    match a {
        Action::UnpackElam => "unpack_elam".to_string(),
        Action::OpenElamFile { path, desired_access, share_mode, creation_disposition, flags_and_attributes } => {
            format!(
                "open_elam {} {:x} {:x} {:x} {:x}",
                path, desired_access, share_mode, creation_disposition, flags_and_attributes
            )
        }
        Action::InstallElamCertificate => "install_certificate".to_string(),
        Action::OpenManager { access } => format!("open_manager {:x}", access),
        Action::ResolveExecutable { path } => format!("resolve {}", path),
        Action::CreateService {
            name,
            display_name,
            access,
            service_type,
            start_type,
            error_control,
            command_line,
        } => format!(
            "create {} {} {:x} {:x} {} {} {}",
            name, display_name, access, service_type, start_type, error_control, command_line
        ),
        Action::ProtectService { info_level, launch_protected } => {
            format!("protect {} {}", info_level, launch_protected)
        }
        Action::OpenService { name, access } => format!("open_service {} {:x}", name, access),
        Action::QueryStatus => "query".to_string(),
        Action::StartService => "start".to_string(),
        Action::StopService => "stop".to_string(),
        Action::SendControl { code } => format!("control {:x}", code),
        Action::DeleteService => "delete".to_string(),
        Action::Sleep { seconds } => format!("sleep {}", seconds),
        Action::Finish(Ok(())) => "ok".to_string(),
        Action::Finish(Err(e)) => format!("err {}", e.to_message(None)),
        Action::Abort(m) => format!("abort {}", m),
    }
}

/// Everything a step asks: the warning, the lines, then the action.
fn record(step: &Step, out: &mut Vec<String>) {
    if let Some(w) = &step.warning {
        out.push(format!("warn {}", w.to_message(None)));
    }
    for l in &step.lines {
        out.push(format!("print {}", l));
    }
    out.push(label(&step.action));
}

fn drive(start: (Procedure, Step), replies: Vec<Event>) -> (Procedure, Vec<String>) {
    let (mut p, first) = start;
    let mut out = Vec::new();
    record(&first, &mut out);
    for e in replies {
        let s = p.step(e);
        record(&s, &mut out);
    }
    (p, out)
}

fn strs(v: &[&str]) -> Vec<String> {
    v.iter().map(|s| s.to_string()).collect()
}

#[test]
fn create_opens_manager_resolves_and_creates() {
    let (p, out) = drive(
        create_normal_service("win-service.exe".to_string(), "svc".to_string()),
        vec![Event::Done, Event::Resolved("C:\\bin\\win-service.exe".to_string()), Event::Done],
    );
    assert_eq!(
        out,
        strs(&[
            "open_manager f003f",
            "resolve win-service.exe",
            "create svc svc f003f 10 3 1 C:\\bin\\win-service.exe",
            "print Success to create service: svc",
            "ok",
        ])
    );
    assert!(p.is_finished());
    assert!(p.command() == Command::Create);
    assert_eq!(p.service_name(), "svc");
}

#[test]
fn create_protected_installs_elam_first_and_protects_last() {
    let (_, out) = drive(
        create_protected_service("s.exe".to_string(), "svc".to_string()),
        vec![Event::Resolved("C:\\p\\elam_rs.sys".to_string()), Event::Done, Event::Done, Event::Done, Event::Resolved("C:\\s.exe".to_string()), Event::Done, Event::Done],
    );
    assert_eq!(
        out,
        strs(&[
            "unpack_elam",
            "open_elam C:\\p\\elam_rs.sys 1 1 3 80",
            "install_certificate",
            "open_manager f003f",
            "resolve s.exe",
            "create svc svc f003f 10 3 1 C:\\s.exe",
            "print Success to create service: svc",
            "protect 12 3",
            "ok",
        ])
    );
}

#[test]
fn failed_protection_is_reported_after_creation() {
    let (_, out) = drive(
        create_protected_service("s.exe".to_string(), "svc".to_string()),
        vec![
            Event::Resolved("C:\\p\\elam_rs.sys".to_string()),
            Event::Done,
            Event::Done,
            Event::Done,
            Event::Resolved("C:\\s.exe".to_string()),
            Event::Done,
            fail("ChangeServiceConfig2", 5),
        ],
    );
    assert_eq!(out[out.len() - 1], "err ChangeServiceConfig2 error. Code: 0x00000005, msg: ");
}

#[test]
fn missing_executable_ends_creation_with_the_io_error() {
    let (p, out) = drive(
        create_normal_service("nope.exe".to_string(), "svc".to_string()),
        vec![Event::Done, Event::Failed(WinapiError::IoError("not found".to_string()))],
    );
    assert_eq!(out, strs(&["open_manager f003f", "resolve nope.exe", "err not found"]));
    assert!(p.phase() == Phase::Finished);
}

#[test]
fn remove_stops_a_running_service_then_deletes() {
    let (_, out) = drive(
        remove_service("svc".to_string()),
        vec![
            Event::Done,
            Event::Done,
            Event::Status(RUNNING),
            Event::Status(STOP_PENDING),
            Event::Done,
            Event::Status(STOPPED),
            Event::Done,
            Event::Done,
        ],
    );
    assert_eq!(
        out,
        strs(&[
            "open_manager f003f",
            "open_service svc f01ff",
            "query",
            "stop",
            "sleep 1",
            "stop",
            "sleep 1",
            "delete",
            "print Success to remove service: svc",
            "ok",
        ])
    );
}

#[test]
fn remove_deletes_a_stopped_service_at_once() {
    let (_, out) = drive(
        remove_service("svc".to_string()),
        vec![Event::Done, Event::Done, Event::Status(STOPPED), Event::Done],
    );
    assert_eq!(
        out,
        strs(&[
            "open_manager f003f",
            "open_service svc f01ff",
            "query",
            "delete",
            "print Success to remove service: svc",
            "ok",
        ])
    );
}

#[test]
fn remove_aborts_after_ten_stop_attempts() {
    let mut replies = vec![Event::Done, Event::Done, Event::Status(RUNNING)];
    for _ in 0..10 {
        replies.push(Event::Status(STOP_PENDING));
        replies.push(Event::Done);
    }
    let (p, out) = drive(remove_service("svc".to_string()), replies);
    assert_eq!(out.iter().filter(|a| *a == "stop").count(), 10);
    assert_eq!(out[out.len() - 1], "abort service won't stop");
    assert!(p.is_finished());
}

#[test]
fn remove_ends_with_the_error_of_a_refused_stop() {
    let (_, out) = drive(
        remove_service("svc".to_string()),
        vec![Event::Done, Event::Done, Event::Status(RUNNING), fail("ControlService", 1052)],
    );
    assert_eq!(out[out.len() - 1], "err ControlService error. Code: 0x0000041c, msg: ");
}

#[test]
fn remove_ends_with_the_error_of_a_refused_open() {
    let (_, out) = drive(remove_service("svc".to_string()), vec![fail("OpenSCManagerA", 5)]);
    assert_eq!(out, strs(&["open_manager f003f", "err OpenSCManagerA error. Code: 0x00000005, msg: "]));
}

#[test]
fn remove_protected_starts_unprotects_stops_and_deletes() {
    let (_, out) = drive(
        remove_protected_service("svc".to_string()),
        vec![
            Event::Resolved("C:\\p\\elam_rs.sys".to_string()),
            Event::Done,
            Event::Done,
            Event::Done,
            Event::Done,
            Event::Status(STOPPED),
            fail("StartServiceA", 1053),
            Event::Status(START_PENDING),
            Event::Done,
            Event::Done,
            Event::Status(RUNNING),
            Event::Done,
            Event::Done,
            Event::Status(RUNNING),
            Event::Status(STOP_PENDING),
            Event::Done,
            Event::Status(STOPPED),
            Event::Done,
        ],
    );
    assert_eq!(
        out,
        strs(&[
            "unpack_elam",
            "open_elam C:\\p\\elam_rs.sys 1 1 3 80",
            "install_certificate",
            "open_manager f003f",
            "open_service svc f01ff",
            "query",
            "start",
            "warn StartServiceA error. Code: 0x0000041d, msg: ",
            "query",
            "sleep 1",
            "start",
            "query",
            "sleep 1",
            "control 80",
            "query",
            "stop",
            "sleep 1",
            "query",
            "delete",
            "print Success to remove service: svc",
            "ok",
        ])
    );
}

#[test]
fn remove_protected_gives_up_when_the_service_never_runs() {
    let mut replies = vec![Event::Resolved("C:\\p\\elam_rs.sys".to_string()), Event::Done, Event::Done, Event::Done, Event::Done, Event::Status(STOPPED)];
    for _ in 0..10 {
        replies.push(Event::Done);
        replies.push(Event::Status(STOPPED));
        replies.push(Event::Done);
    }
    let (p, out) = drive(remove_protected_service("svc".to_string()), replies);
    assert_eq!(out.iter().filter(|a| *a == "start").count(), 10);
    let n = out.len();
    assert_eq!(
        out[n - 3..].to_vec(),
        strs(&["print dwCurrentState: 1", "print FAILURE: service won't start", "ok"])
    );
    assert!(p.is_finished());
}

#[test]
fn remove_protected_gives_up_when_the_service_never_stops() {
    let mut replies = vec![Event::Resolved("C:\\p\\elam_rs.sys".to_string()), Event::Done, Event::Done, Event::Done, Event::Done, Event::Status(RUNNING), Event::Done];
    for i in 0..10 {
        replies.push(Event::Status(RUNNING));
        if i % 2 == 0 {
            replies.push(Event::Status(STOP_PENDING));
        } else {
            replies.push(fail("ControlService", 1061));
        }
        replies.push(Event::Done);
    }
    let (_, out) = drive(remove_protected_service("svc".to_string()), replies);
    assert_eq!(out.iter().filter(|a| *a == "stop").count(), 10);
    assert_eq!(out.iter().filter(|a| a.starts_with("warn ControlService")).count(), 5);
    let n = out.len();
    assert_eq!(
        out[n - 3..].to_vec(),
        strs(&["print dwCurrentState: 4", "print FAILURE: service won't stop", "ok"])
    );
    assert!(!out.contains(&"delete".to_string()));
}

#[test]
fn remove_protected_deletes_when_last_stop_reports_stopped() {
    let mut replies = vec![Event::Resolved("C:\\p\\elam_rs.sys".to_string()), Event::Done, Event::Done, Event::Done, Event::Done, Event::Status(RUNNING), Event::Done];
    for i in 0..10 {
        replies.push(Event::Status(RUNNING));
        replies.push(Event::Status(if i == 9 { STOPPED } else { STOP_PENDING }));
        replies.push(Event::Done);
    }
    replies.push(Event::Done);
    let (_, out) = drive(remove_protected_service("svc".to_string()), replies);
    let n = out.len();
    assert_eq!(out[n - 4..].to_vec(), strs(&["sleep 1", "delete", "print Success to remove service: svc", "ok"]));
}

#[test]
fn refused_elam_install_ends_protected_procedures() {
    let (_, out) = drive(
        remove_protected_service("svc".to_string()),
        vec![
            Event::Resolved("C:\\p\\elam_rs.sys".to_string()),
            Event::Done,
            fail("InstallELAMCertificateInfo", 0x32),
        ],
    );
    assert_eq!(
        out,
        strs(&[
            "unpack_elam",
            "open_elam C:\\p\\elam_rs.sys 1 1 3 80",
            "install_certificate",
            "err InstallELAMCertificateInfo error. Code: 0x00000032, msg: ",
        ])
    );
    let (_, out) = drive(
        create_protected_service("s.exe".to_string(), "svc".to_string()),
        vec![Event::Resolved("C:\\p\\elam_rs.sys".to_string()), fail("CreateFileA", 2)],
    );
    assert_eq!(out[out.len() - 1], "err CreateFileA error. Code: 0x00000002, msg: ");
    let (_, out) = drive(
        create_protected_service("s.exe".to_string(), "svc".to_string()),
        vec![Event::Failed(WinapiError::IoError("cannot write".to_string()))],
    );
    assert_eq!(out, strs(&["unpack_elam", "err cannot write"]));
}

#[test]
fn unexpected_reply_aborts_and_finished_procedure_stays_finished() {
    let (mut p, out) = drive(remove_service("svc".to_string()), vec![Event::Status(RUNNING)]);
    assert_eq!(out, strs(&["open_manager f003f", "abort unexpected reply"]));
    assert!(p.is_finished());
    let s = p.step(Event::Done);
    assert!(matches!(s.action, Action::Abort(_)));
    assert!(p.is_finished());
}

#[test]
fn begin_matches_the_named_procedures() {
    let (p, s) = begin(Command::DeleteProtected, "a".to_string(), String::new());
    assert!(p.phase() == Phase::UnpackingElam);
    assert!(matches!(s.action, Action::UnpackElam));
    let (p, s) = begin(Command::Delete, "a".to_string(), String::new());
    assert!(p.phase() == Phase::OpeningManager);
    assert!(matches!(s.action, Action::OpenManager { access: 0xF003F }));
}

#[test]
fn any_replies_end_the_procedure_within_sixty_eight_steps() {
    // Replies chosen to keep every loop going as long as it can.
    for command in [Command::Create, Command::CreateProtected, Command::Delete, Command::DeleteProtected] {
        let (mut p, mut s) = begin(command, "svc".to_string(), "x".to_string());
        let mut steps = 0;
        loop {
            let reply = match &s.action {
                Action::Finish(_) | Action::Abort(_) => break,
                Action::ResolveExecutable { .. } | Action::UnpackElam => Event::Resolved("C:\\x".to_string()),
                Action::QueryStatus => Event::Status(if matches!(p.phase(), Phase::QueryingBeforeStop { .. }) { RUNNING } else { STOPPED }),
                Action::StopService => Event::Status(STOP_PENDING),
                Action::StartService => fail("StartServiceA", 1053),
                _ => Event::Done,
            };
            s = p.step(reply);
            steps += 1;
            assert!(steps <= 68);
        }
    }
}

#[test]
fn longest_protected_removal_queries_twenty_one_times() {
    let mut replies = vec![Event::Resolved("C:\\p\\elam_rs.sys".to_string()), Event::Done, Event::Done, Event::Done, Event::Done, Event::Status(STOPPED)];
    for i in 0..10 {
        replies.push(Event::Done);
        replies.push(Event::Status(if i == 9 { RUNNING } else { START_PENDING }));
        replies.push(Event::Done);
    }
    replies.push(Event::Done);
    for _ in 0..10 {
        replies.push(Event::Status(RUNNING));
        replies.push(Event::Status(STOP_PENDING));
        replies.push(Event::Done);
    }
    let (p, out) = drive(remove_protected_service("svc".to_string()), replies);
    assert!(p.is_finished());
    assert_eq!(out.iter().filter(|a| *a == "query").count(), 21);
    assert_eq!(out.iter().filter(|a| *a == "sleep 1").count(), 20);
    assert_eq!(out.iter().filter(|a| *a == "control 80").count(), 1);
    assert_eq!(out.iter().filter(|a| *a == "start").count(), 10);
    assert_eq!(out.iter().filter(|a| *a == "stop").count(), 10);
    assert_eq!(out.iter().filter(|a| *a == "delete").count(), 0);
    assert_eq!(out[out.len() - 2], "print FAILURE: service won't stop");
}
