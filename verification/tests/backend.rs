use pi400_admin::allow::AllowList;
use pi400_admin::command::{run_cmd, CommandRequest, ExecOutcome, TIMEOUT_SECS};
use pi400_admin::envelope::{err, ok, Reply, TextOut};
use pi400_admin::error::{ApiError, Guarded};
use pi400_admin::handlers::{
    finish, health, nat_toggle, net_report, respond, service_action, status_net, status_services,
    tail_logs, target_ip, usb_ensure, Run, Verdict,
};

fn exited(success: bool, stdout: &str, stderr: &str) -> ExecOutcome {
    ExecOutcome::Exited {
        success,
        stdout: stdout.as_bytes().to_vec(),
        stderr: stderr.as_bytes().to_vec(),
    }
}

fn expect_run(verdict: Verdict) -> CommandRequest {
    match verdict {
        Verdict::Run(request) => request,
        Verdict::Reject(reply) => panic!("rejected: {:?}", reply),
    }
}

fn expect_reject(verdict: Verdict) -> Reply<TextOut> {
    match verdict {
        Verdict::Reject(reply) => reply,
        Verdict::Run(request) => panic!("cleared to run: {:?}", request),
    }
}

fn text_of(reply: &Reply<TextOut>) -> Option<String> {
    reply.body.data.as_ref().map(|d| d.text.clone())
}

#[test]
fn start_of_listed_service_succeeds() {
    let allowed = AllowList::services();
    let request = expect_run(service_action(&allowed, "start", "target-ssh"));
    assert_eq!(request.program, "/bin/systemctl");
    assert_eq!(request.args, vec!["start".to_string(), "target-ssh".to_string()]);
    assert_eq!(request.timeout_secs, 8);
    let reply = finish(&request, &exited(true, "started\n", ""));
    assert_eq!(reply.status, 200);
    assert!(reply.body.ok);
    assert_eq!(text_of(&reply), Some("started\n".to_string()));
    assert_eq!(reply.body.error, None);
}

#[test]
fn start_of_unlisted_service_is_forbidden() {
    let allowed = AllowList::services();
    let reply = expect_reject(service_action(&allowed, "start", "rm-rf"));
    assert_eq!(reply.status, 403);
    assert!(!reply.body.ok);
    assert!(reply.body.data.is_none());
    assert_eq!(reply.body.error, Some("service 'rm-rf' not allowed".to_string()));
}

#[test]
fn unlisted_service_is_forbidden_for_every_action() {
    let allowed = AllowList::services();
    for action in ["start", "stop", "restart"] {
        for name in ["", "sshd", "target-ssh ", "Kiosk", "../kiosk"] {
            let reply = expect_reject(service_action(&allowed, action, name));
            assert_eq!(reply.status, 403);
            assert_eq!(reply.body.error, Some(format!("service '{}' not allowed", name)));
        }
    }
}

#[test]
fn invalid_service_action_is_malformed() {
    let allowed = AllowList::services();
    let reply = expect_reject(service_action(&allowed, "launch", "target-ssh"));
    assert_eq!(reply.status, 400);
    assert!(!reply.body.ok);
    assert!(reply.body.data.is_none());
    assert_eq!(reply.body.error, Some("invalid action".to_string()));
}

#[test]
fn invalid_service_action_is_judged_before_the_name() {
    let allowed = AllowList::services();
    for action in ["", "Start", "start ", "reload", "status"] {
        for name in ["target-ssh", "rm-rf"] {
            let reply = expect_reject(service_action(&allowed, action, name));
            assert_eq!(reply.status, 400);
            assert_eq!(reply.body.error, Some("invalid action".to_string()));
        }
    }
}

#[test]
fn every_listed_service_passes_every_action() {
    let allowed = AllowList::services();
    for action in ["start", "stop", "restart"] {
        for name in ["pi400-hid", "target-ssh", "target-serial-tcp", "kiosk", "admin-backend"] {
            let request = expect_run(service_action(&allowed, action, name));
            assert_eq!(request.program, "/bin/systemctl");
            assert_eq!(request.args, vec![action.to_string(), name.to_string()]);
            for outcome in [
                exited(false, "", "failed\n"),
                ExecOutcome::TimedOut,
                ExecOutcome::LaunchFailed { reason: "denied".to_string() },
            ] {
                let reply = finish(&request, &outcome);
                assert_eq!(reply.status, 500);
                assert!(!reply.body.ok && reply.body.data.is_none() && reply.body.error.is_some());
            }
        }
    }
}

#[test]
fn nat_off_without_uplink_uses_default() {
    let uplinks = AllowList::uplinks();
    let request = expect_run(nat_toggle(&uplinks, "off", None));
    assert_eq!(request.program, "/usr/local/sbin/nat-toggle.sh");
    assert_eq!(request.args, vec!["off".to_string(), "eth0".to_string()]);
    let reply = finish(&request, &exited(false, "", "iptables: denied\n"));
    assert_eq!(reply.status, 500);
    assert_eq!(reply.body.error, Some("iptables: denied\n".to_string()));
}

#[test]
fn nat_on_with_listed_uplink() {
    let uplinks = AllowList::uplinks();
    let request = expect_run(nat_toggle(&uplinks, "on", Some("wlan0")));
    assert_eq!(request.args, vec!["on".to_string(), "wlan0".to_string()]);
}

#[test]
fn nat_invalid_action_is_malformed() {
    let uplinks = AllowList::uplinks();
    for action in ["", "toggle", "ON", "start"] {
        for uplink in [None, Some("eth0"), Some("tun0")] {
            let reply = expect_reject(nat_toggle(&uplinks, action, uplink));
            assert_eq!(reply.status, 400);
            assert_eq!(reply.body.error, Some("use on|off".to_string()));
        }
    }
}

#[test]
fn nat_unlisted_uplink_is_forbidden() {
    let uplinks = AllowList::uplinks();
    let reply = expect_reject(nat_toggle(&uplinks, "on", Some("tun0")));
    assert_eq!(reply.status, 403);
    assert_eq!(reply.body.error, Some("uplink 'tun0' not allowed".to_string()));
}

#[test]
fn zero_exit_gives_stdout() {
    let request = CommandRequest::new("/bin/true", vec![]);
    let result = run_cmd(&request, &exited(true, "all good\n", "noise"));
    assert_eq!(result.unwrap(), "all good\n");
}

#[test]
fn non_zero_exit_gives_stderr() {
    let request = CommandRequest::new("/bin/false", vec![]);
    let result = run_cmd(&request, &exited(false, "partial", "boom\n"));
    match result {
        Err(ApiError::ExecutionFailure { detail }) => assert_eq!(detail, "boom\n"),
        other => panic!("unexpected {:?}", other),
    }
}

#[test]
fn timeout_names_the_command_line() {
    let request =
        CommandRequest::new("/bin/systemctl", vec!["start".to_string(), "kiosk".to_string()]);
    match run_cmd(&request, &ExecOutcome::TimedOut) {
        Err(ApiError::ExecutionTimeout { command }) => {
            assert_eq!(command, "/bin/systemctl start kiosk")
        }
        other => panic!("unexpected {:?}", other),
    }
    let reply = finish(&request, &ExecOutcome::TimedOut);
    assert_eq!(reply.status, 500);
    assert!(!reply.body.ok && reply.body.data.is_none());
    assert_eq!(reply.body.error, Some("timeout running /bin/systemctl start kiosk".to_string()));
}

#[test]
fn launch_failure_gives_reason() {
    let request = CommandRequest::new("/no/such", vec![]);
    let outcome = ExecOutcome::LaunchFailed { reason: "No such file or directory".to_string() };
    match run_cmd(&request, &outcome) {
        Err(ApiError::ExecutionFailure { detail }) => {
            assert_eq!(detail, "No such file or directory")
        }
        other => panic!("unexpected {:?}", other),
    }
}

#[test]
fn invalid_output_bytes_are_replaced() {
    let request = CommandRequest::new("/bin/true", vec![]);
    let outcome = ExecOutcome::Exited { success: true, stdout: vec![b'a', 0xff, b'b'], stderr: vec![] };
    assert_eq!(run_cmd(&request, &outcome).unwrap(), "a\u{fffd}b");
}

#[test]
fn valid_output_is_kept_byte_for_byte() {
    let request = CommandRequest::new("/bin/true", vec![]);
    let bytes = "caf\u{e9} \u{2713}\n".as_bytes().to_vec();
    let outcome = ExecOutcome::Exited { success: true, stdout: bytes.clone(), stderr: vec![] };
    assert_eq!(run_cmd(&request, &outcome).unwrap().into_bytes(), bytes);
}

#[test]
fn command_line_joins_with_spaces() {
    assert_eq!(CommandRequest::new("/bin/x", vec![]).command_line(), "/bin/x");
    let request = CommandRequest::new("/sbin/ip", vec!["-br".to_string(), "a".to_string()]);
    assert_eq!(request.command_line(), "/sbin/ip -br a");
    assert_eq!(TIMEOUT_SECS, 8);
}

#[test]
fn error_messages_and_statuses() {
    let e = ApiError::MalformedRequest { message: "invalid action".to_string() };
    assert_eq!(e.message(), "invalid action");
    assert_eq!(e.status(), 400);
    let e = ApiError::Forbidden { kind: Guarded::Service, name: "x".to_string() };
    assert_eq!(e.message(), "service 'x' not allowed");
    assert_eq!(e.status(), 403);
    let e = ApiError::ExecutionTimeout { command: "/bin/x y".to_string() };
    assert_eq!(e.message(), "timeout running /bin/x y");
    assert_eq!(e.status(), 500);
    let e = ApiError::ExecutionFailure { detail: "bad".to_string() };
    assert_eq!(e.message(), "bad");
    assert_eq!(e.status(), 500);
}

#[test]
fn envelope_holds_payload_or_error() {
    let r: Reply<TextOut> = ok(TextOut { text: "x".to_string() });
    assert_eq!(r.status, 200);
    assert!(r.body.ok && r.body.data.is_some() && r.body.error.is_none());
    let r: Reply<TextOut> = err(403, "no".to_string());
    assert_eq!(r.status, 403);
    assert!(!r.body.ok && r.body.data.is_none());
    assert_eq!(r.body.error, Some("no".to_string()));
    let r = respond(Ok("out".to_string()));
    assert_eq!((r.status, text_of(&r)), (200, Some("out".to_string())));
    let r = respond(Err(ApiError::ExecutionFailure { detail: "bad".to_string() }));
    assert_eq!((r.status, r.body.error), (500, Some("bad".to_string())));
    let r = respond(Err(ApiError::MalformedRequest { message: "m".to_string() }));
    assert_eq!((r.status, r.body.error), (400, Some("m".to_string())));
}

#[test]
fn health_says_ok() {
    let r = health();
    assert_eq!(r.status, 200);
    assert!(r.body.ok);
    assert_eq!(text_of(&r), Some("ok".to_string()));
    assert_eq!(r.body.error, None);
}

#[test]
fn status_lists_every_allowed_service_once() {
    let request = status_services(&AllowList::services());
    assert_eq!(request.program, "/bin/systemctl");
    assert_eq!(
        request.args,
        vec![
            "status",
            "--no-pager",
            "pi400-hid",
            "target-ssh",
            "target-serial-tcp",
            "kiosk",
            "admin-backend"
        ]
    );
    let reply = finish(&request, &exited(false, "", "unit not found\n"));
    assert_eq!(reply.status, 500);
    assert_eq!(reply.body.error, Some("unit not found\n".to_string()));
}

#[test]
fn fixed_commands() {
    let request = tail_logs();
    assert_eq!(request.program, "/bin/journalctl");
    assert_eq!(
        request.args,
        vec![
            "-u",
            "pi400-hid",
            "-u",
            "target-ssh",
            "-u",
            "target-serial-tcp",
            "--no-pager",
            "-n",
            "200"
        ]
    );
    assert_eq!(finish(&request, &exited(false, "", "no journal")).status, 500);
    let request = target_ip();
    assert_eq!(request.program, "/usr/local/sbin/target-ip");
    assert!(request.args.is_empty());
    let reply = finish(&request, &exited(false, "", "no lease\n"));
    assert_eq!(reply.status, 500);
    assert!(!reply.body.ok && reply.body.data.is_none());
    assert_eq!(reply.body.error, Some("no lease\n".to_string()));
    assert_eq!(finish(&request, &ExecOutcome::TimedOut).status, 500);
    let reply = finish(&request, &exited(true, "10.0.0.2\n", ""));
    assert_eq!((reply.status, text_of(&reply)), (200, Some("10.0.0.2\n".to_string())));
    let request = usb_ensure();
    assert_eq!(request.program, "/usr/local/sbin/pi400-composite.sh");
    assert!(request.args.is_empty());
    assert_eq!(finish(&request, &exited(false, "", "busy")).status, 500);
}

fn net_runs(mut outcomes: Vec<ExecOutcome>) -> Vec<Run> {
    let mut runs = Vec::new();
    for request in status_net() {
        runs.push(Run { request, outcome: outcomes.remove(0) });
    }
    runs
}

#[test]
fn network_status_report() {
    let requests = status_net();
    let lines: Vec<String> = requests.iter().map(|r| r.command_line()).collect();
    assert_eq!(lines, vec!["/sbin/ip -br a", "/sbin/ip r", "/usr/bin/networkctl status usb0"]);
    let runs = net_runs(vec![
        exited(true, "lo UNKNOWN\n", ""),
        exited(true, "default via 10.0.0.1\n", "warning"),
        exited(true, "", ""),
    ]);
    let reply = net_report(&runs);
    assert_eq!(reply.status, 200);
    assert!(reply.body.ok);
    assert_eq!(reply.body.error, None);
    assert_eq!(
        text_of(&reply),
        Some(
            "$ /sbin/ip -br a\nlo UNKNOWN\n\n$ /sbin/ip r\ndefault via 10.0.0.1\n\n$ /usr/bin/networkctl status usb0\n\n"
                .to_string()
        )
    );
    let reply = net_report(&Vec::new());
    assert_eq!((reply.status, text_of(&reply)), (200, Some(String::new())));
}

#[test]
fn network_status_fails_with_first_failed_command() {
    let runs = net_runs(vec![
        exited(true, "lo UNKNOWN\n", ""),
        exited(false, "partial", "no routes"),
        ExecOutcome::TimedOut,
    ]);
    let reply = net_report(&runs);
    assert_eq!(reply.status, 500);
    assert!(!reply.body.ok);
    assert!(reply.body.data.is_none());
    assert_eq!(reply.body.error, Some("no routes".to_string()));
    let runs = net_runs(vec![
        ExecOutcome::TimedOut,
        exited(true, "", ""),
        ExecOutcome::LaunchFailed { reason: "missing".to_string() },
    ]);
    let reply = net_report(&runs);
    assert_eq!(reply.status, 500);
    assert_eq!(reply.body.error, Some("timeout running /sbin/ip -br a".to_string()));
    let runs = net_runs(vec![
        exited(true, "", ""),
        exited(true, "", ""),
        ExecOutcome::LaunchFailed { reason: "missing".to_string() },
    ]);
    let reply = net_report(&runs);
    assert_eq!((reply.status, reply.body.error), (500, Some("missing".to_string())));
}

#[test]
fn allow_list_keeps_first_occurrences() {
    let list = AllowList::from_names(vec!["b".to_string(), "a".to_string(), "b".to_string()]);
    assert_eq!(list.len(), 2);
    assert_eq!(list.names(), vec!["b", "a"]);
    assert!(list.contains("a") && list.contains("b") && !list.contains("c"));
    assert!(!AllowList::from_names(vec![]).contains(""));
    assert_eq!(AllowList::services().len(), 5);
    assert_eq!(AllowList::uplinks().names(), vec!["eth0", "wlan0"]);
}
