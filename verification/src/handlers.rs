//! The request handlers: each decides from its inputs whether a command may
//! run and which, and turns what the executor observed into the reply.

use vstd::prelude::*;
use vstd::string::*;
use crate::action::{NatAction, ServiceAction};
use crate::allow::AllowList;
use crate::command::{
    result_view, run_cmd, run_result, CommandRequest, CommandView, ExecOutcome, OutcomeView,
    TIMEOUT_SECS,
};
use crate::envelope::{err, ok, Reply, ReplyView, TextOut};
use crate::error::{
    ApiError, ApiErrorView, Guarded, STATUS_BAD_REQUEST, STATUS_FORBIDDEN, STATUS_INTERNAL,
};
use crate::text::{is_absolute, slice_text, texts};

verus! {

/// The service manager.
pub const SYSTEMCTL: &'static str = "/bin/systemctl";

/// The network-interface inspection tool.
pub const IP: &'static str = "/sbin/ip";

/// The network manager's status tool.
pub const NETWORKCTL: &'static str = "/usr/bin/networkctl";

/// The log reader.
pub const JOURNALCTL: &'static str = "/bin/journalctl";

/// The script that finds the target's address.
pub const TARGET_IP: &'static str = "/usr/local/sbin/target-ip";

/// The script that switches NAT.
pub const NAT_TOGGLE: &'static str = "/usr/local/sbin/nat-toggle.sh";

/// The script that sets up the composite USB gadget.
pub const USB_COMPOSITE: &'static str = "/usr/local/sbin/pi400-composite.sh";

/// The uplink that NAT uses when a request names none.
pub const DEFAULT_UPLINK: &'static str = "eth0";

/// What a handler decides before anything runs: to answer at once, or to
/// have one command run.
#[derive(Debug)]
pub enum Verdict {
    /// The request is refused with this reply; no command is to run.
    Reject(Reply<TextOut>),
    /// The request passed; this command is to run.
    Run(CommandRequest),
}

/// Mathematical value of a [`Verdict`].
pub enum VerdictView {
    Reject(ReplyView),
    Run(CommandView),
}

impl View for Verdict {
    type V = VerdictView;

    open spec fn view(&self) -> VerdictView {
        match self {
            Verdict::Reject(reply) => VerdictView::Reject(reply@),
            Verdict::Run(request) => VerdictView::Run(request@),
        }
    }
}

/// The refusal that reports `error`.
pub open spec fn refusal(error: ApiErrorView) -> VerdictView {
    VerdictView::Reject(ReplyView::of_error(error))
}

/// The verdict on a request to start, stop or restart a service. The
/// sub-action is judged first; only then is the name held against the
/// allow-list.
pub open spec fn service_verdict(
    allowed: Set<Seq<char>>,
    action: Seq<char>,
    name: Seq<char>,
) -> VerdictView {
    match ServiceAction::parse_spec(action) {
        None => refusal(ApiErrorView::MalformedRequest { message: "invalid action"@ }),
        Some(verb) => if allowed.contains(name) {
            VerdictView::Run(CommandView::of(SYSTEMCTL@, seq![verb.word(), name]))
        } else {
            refusal(ApiErrorView::Forbidden { kind: Guarded::Service, name })
        },
    }
}

/// The interface that a request to switch NAT means.
pub open spec fn chosen_uplink(uplink: Option<Seq<char>>) -> Seq<char> {
    match uplink {
        Some(name) => name,
        None => DEFAULT_UPLINK@,
    }
}

/// The verdict on a request to switch NAT. The sub-action
/// is judged first; an uplink that the request names must be allow-listed,
/// and where it names none the default is taken.
pub open spec fn nat_verdict(
    uplinks: Set<Seq<char>>,
    action: Seq<char>,
    uplink: Option<Seq<char>>,
) -> VerdictView {
    match NatAction::parse_spec(action) {
        None => refusal(ApiErrorView::MalformedRequest { message: "use on|off"@ }),
        Some(switch) => if uplink is Some && !uplinks.contains(uplink->0) {
            refusal(ApiErrorView::Forbidden { kind: Guarded::Uplink, name: uplink->0 })
        } else {
            VerdictView::Run(
                CommandView::of(NAT_TOGGLE@, seq![switch.word(), chosen_uplink(uplink)]),
            )
        },
    }
}

/// The arguments with which the log reader is asked for the last lines of
/// the managed units.
pub open spec fn log_args() -> Seq<Seq<char>> {
    seq![
        "-u"@,
        "pi400-hid"@,
        "-u"@,
        "target-ssh"@,
        "-u"@,
        "target-serial-tcp"@,
        "--no-pager"@,
        "-n"@,
        "200"@,
    ]
}

/// The three diagnostic commands whose output makes up the network status.
pub open spec fn net_commands() -> Seq<CommandView> {
    seq![
        CommandView { program: IP@, args: seq!["-br"@, "a"@], timeout_secs: TIMEOUT_SECS },
        CommandView { program: IP@, args: seq!["r"@], timeout_secs: TIMEOUT_SECS },
        CommandView {
            program: NETWORKCTL@,
            args: seq!["status"@, "usb0"@],
            timeout_secs: TIMEOUT_SECS,
        },
    ]
}

/// One diagnostic command together with what the executor observed of it.
#[derive(Debug)]
pub struct Run {
    pub request: CommandRequest,
    pub outcome: ExecOutcome,
}

/// Mathematical value of a [`Run`].
pub struct RunView {
    pub request: CommandView,
    pub outcome: OutcomeView,
}

impl View for Run {
    type V = RunView;

    open spec fn view(&self) -> RunView {
        RunView { request: self.request@, outcome: self.outcome@ }
    }
}

/// The mathematical values of a sequence of runs, in order.
pub open spec fn run_views(runs: Seq<Run>) -> Seq<RunView> {
    runs.map_values(|run: Run| run@)
}

/// The part of the network status that one command contributes: its
/// command line behind a prompt, then its output.
pub open spec fn net_section(request: CommandView, output: Seq<char>) -> Seq<char> {
    "$ "@ + request.command_line() + "\n"@ + output + "\n"@
}

/// The sections of the runs that succeeded, in order.
pub open spec fn net_text(runs: Seq<RunView>) -> Seq<char>
    decreases runs.len(),
{
    if runs.len() == 0 {
        Seq::empty()
    } else {
        net_text(runs.drop_last()) + match run_result(runs.last().request, runs.last().outcome) {
            Ok(output) => net_section(runs.last().request, output),
            Err(_) => Seq::empty(),
        }
    }
}

/// The error of the first run, in order, that did not succeed.
pub open spec fn first_failure(runs: Seq<RunView>) -> Option<ApiErrorView>
    decreases runs.len(),
{
    if runs.len() == 0 {
        None
    } else {
        match first_failure(runs.drop_last()) {
            Some(error) => Some(error),
            None => match run_result(runs.last().request, runs.last().outcome) {
                Ok(_) => None,
                Err(error) => Some(error),
            },
        }
    }
}

/// The reply that reports the network status: where every run succeeded,
/// the sections of all runs; else the error of the first run that did not.
pub open spec fn net_reply(runs: Seq<RunView>) -> ReplyView {
    match first_failure(runs) {
        Some(error) => ReplyView::of_error(error),
        None => ReplyView::success(net_text(runs)),
    }
}

/// Every program that a handler can ask for is named by an absolute path.
pub proof fn lemma_programs_absolute()
    ensures
        is_absolute(SYSTEMCTL@),
        is_absolute(IP@),
        is_absolute(NETWORKCTL@),
        is_absolute(JOURNALCTL@),
        is_absolute(TARGET_IP@),
        is_absolute(NAT_TOGGLE@),
        is_absolute(USB_COMPOSITE@),
{
    reveal_strlit("/bin/systemctl");
    reveal_strlit("/sbin/ip");
    reveal_strlit("/usr/bin/networkctl");
    reveal_strlit("/bin/journalctl");
    reveal_strlit("/usr/local/sbin/target-ip");
    reveal_strlit("/usr/local/sbin/nat-toggle.sh");
    reveal_strlit("/usr/local/sbin/pi400-composite.sh");
}

/// The reply to a liveness probe.
pub fn health() -> (r: Reply<TextOut>)
    ensures
        r@ == ReplyView::success("ok"@),
        r.body.well_formed(),
{
    ok(TextOut { text: "ok".to_owned() })
}

/// The reply that stands for the result of a command: the captured text
/// as payload under status 200, or the error under the status of its kind.
pub fn respond(result: Result<String, ApiError>) -> (r: Reply<TextOut>)
    ensures
        r@ == ReplyView::of_result(result_view(result)),
        r.body.well_formed(),
{
    match result {
        Ok(text) => ok(TextOut { text }),
        Err(error) => {
            let status = error.status();
            err(status, error.message())
        },
    }
}

/// The verdict that refuses a request because of `error`.
fn reject(error: ApiError) -> (r: Verdict)
    ensures
        r@ == refusal(error@),
{
    Verdict::Reject(respond(Err(error)))
}

/// The request that runs `program` with the two arguments `first` and
/// `second`.
fn request_of_two(program: &str, first: &str, second: &str) -> (r: CommandRequest)
    ensures
        r@ == CommandView::of(program@, seq![first@, second@]),
{
    let mut args: Vec<String> = Vec::new();
    args.push(first.to_owned());
    args.push(second.to_owned());
    assert(texts(args@) =~= seq![first@, second@]);
    CommandRequest::new(program, args)
}

/// Adds `word` at the end of `args`.
fn push_word(args: &mut Vec<String>, word: &str)
    ensures
        texts(final(args)@) == texts(old(args)@).push(word@),
{
    args.push(word.to_owned());
    assert(texts(args@) =~= texts(old(args)@).push(word@));
}

/// Judges a request to start, stop or restart the service `name`.
///
/// A sub-action other than `start`, `stop` and `restart` is malformed,
/// whatever the name. A name outside the allow-list is forbidden. In both
/// cases the verdict holds no command, so none can run.
pub fn service_action(allowed: &AllowList, action: &str, name: &str) -> (r: Verdict)
    ensures
        r@ == service_verdict(allowed@, action@, name@),
        ServiceAction::parse_spec(action@) is None ==> r@ == VerdictView::Reject(
            ReplyView::failure(STATUS_BAD_REQUEST, "invalid action"@),
        ),
        ServiceAction::parse_spec(action@) is Some && !allowed@.contains(name@) ==> r@
            == VerdictView::Reject(
            ReplyView::failure(STATUS_FORBIDDEN, "service '"@ + name@ + "' not allowed"@),
        ),
        r@ is Run <==> ServiceAction::parse_spec(action@) is Some && allowed@.contains(name@),
        r@ is Run ==> r@->Run_0.argv() == seq![
            SYSTEMCTL@,
            ServiceAction::parse_spec(action@)->0.word(),
            name@,
        ],
{
    match ServiceAction::parse(action) {
        None => reject(ApiError::MalformedRequest { message: "invalid action".to_owned() }),
        Some(verb) => {
            if allowed.contains(name) {
                let request = request_of_two(SYSTEMCTL, verb.as_str(), name);
                assert(request@.argv() =~= seq![SYSTEMCTL@, verb.word(), name@]);
                Verdict::Run(request)
            } else {
                proof {
                    reveal_strlit("service");
                    reveal_strlit(" '");
                    reveal_strlit("service '");
                    assert("service"@ + " '"@ =~= "service '"@);
                }
                reject(ApiError::Forbidden { kind: Guarded::Service, name: name.to_owned() })
            }
        },
    }
}

/// Judges a request to switch NAT on or off.
///
/// A sub-action other than `on` and `off` is malformed, whatever the
/// uplink. An uplink that the request names must be in the allow-list of
/// interfaces; where it names none, the default uplink is used.
pub fn nat_toggle(uplinks: &AllowList, action: &str, uplink: Option<&str>) -> (r: Verdict)
    ensures
        r@ == nat_verdict(uplinks@, action@, slice_text(uplink)),
        NatAction::parse_spec(action@) is None ==> r@ == VerdictView::Reject(
            ReplyView::failure(STATUS_BAD_REQUEST, "use on|off"@),
        ),
        NatAction::parse_spec(action@) is Some && uplink is Some && !uplinks@.contains(uplink->0@)
            ==> r@ == VerdictView::Reject(
            ReplyView::failure(STATUS_FORBIDDEN, "uplink '"@ + uplink->0@ + "' not allowed"@),
        ),
        r@ is Run <==> NatAction::parse_spec(action@) is Some && (uplink is Some
            ==> uplinks@.contains(uplink->0@)),
        r@ is Run ==> r@->Run_0.argv() == seq![
            NAT_TOGGLE@,
            NatAction::parse_spec(action@)->0.word(),
            chosen_uplink(slice_text(uplink)),
        ],
{
    match NatAction::parse(action) {
        None => reject(ApiError::MalformedRequest { message: "use on|off".to_owned() }),
        Some(switch) => {
            let interface = match uplink {
                Some(name) => {
                    if !uplinks.contains(name) {
                        proof {
                            reveal_strlit("uplink");
                            reveal_strlit(" '");
                            reveal_strlit("uplink '");
                            assert("uplink"@ + " '"@ =~= "uplink '"@);
                        }
                        return reject(
                            ApiError::Forbidden { kind: Guarded::Uplink, name: name.to_owned() },
                        );
                    }
                    name
                },
                None => DEFAULT_UPLINK,
            };
            let request = request_of_two(NAT_TOGGLE, switch.as_str(), interface);
            assert(request@.argv() =~= seq![
                NAT_TOGGLE@,
                switch.word(),
                chosen_uplink(slice_text(uplink)),
            ]);
            Verdict::Run(request)
        },
    }
}

/// The command that asks the service manager for the status of every
/// allow-listed service at once. Its arguments come from the allow-list
/// alone, each name once.
pub fn status_services(allowed: &AllowList) -> (r: CommandRequest)
    ensures
        r@ == CommandView::of(SYSTEMCTL@, seq!["status"@, "--no-pager"@] + allowed.entries()),
        allowed.entries().no_duplicates(),
        allowed.entries().to_set() == allowed@,
{
    let names = allowed.names();
    let mut args: Vec<String> = Vec::new();
    push_word(&mut args, "status");
    push_word(&mut args, "--no-pager");
    let ghost fixed = texts(args@);
    assert(fixed =~= seq!["status"@, "--no-pager"@]);
    let mut i: usize = 0;
    while i < names.len()
        invariant
            i <= names.len(),
            texts(args@) =~= fixed + texts(names@).take(i as int),
        decreases names.len() - i,
    {
        push_word(&mut args, names[i].as_str());
        i += 1;
    }
    assert(texts(names@).take(i as int) =~= texts(names@));
    CommandRequest::new(SYSTEMCTL, args)
}

/// The three diagnostic commands whose output makes up the network status,
/// in the order in which they are to run.
pub fn status_net() -> (r: Vec<CommandRequest>)
    ensures
        r@.map_values(|request: CommandRequest| request@) == net_commands(),
{
    let mut brief: Vec<String> = Vec::new();
    push_word(&mut brief, "-br");
    push_word(&mut brief, "a");
    assert(texts(brief@) =~= seq!["-br"@, "a"@]);
    let mut routes: Vec<String> = Vec::new();
    push_word(&mut routes, "r");
    assert(texts(routes@) =~= seq!["r"@]);
    let mut link: Vec<String> = Vec::new();
    push_word(&mut link, "status");
    push_word(&mut link, "usb0");
    assert(texts(link@) =~= seq!["status"@, "usb0"@]);
    let mut commands: Vec<CommandRequest> = Vec::new();
    commands.push(CommandRequest::new(IP, brief));
    commands.push(CommandRequest::new(IP, routes));
    commands.push(CommandRequest::new(NETWORKCTL, link));
    assert(commands@.map_values(|request: CommandRequest| request@) =~= net_commands());
    commands
}

/// The reply that reports the network status from the runs of the
/// diagnostic commands. Where every run succeeded it carries the sections
/// of all runs; where one timed out, could not be started or exited with a
/// non-zero status, it is a failure under status 500 with the error of the
/// first such run, and no payload.
pub fn net_report(runs: &Vec<Run>) -> (r: Reply<TextOut>)
    ensures
        r@ == net_reply(run_views(runs@)),
        r.body.well_formed(),
        r.body.ok <==> first_failure(run_views(runs@)) is None,
        !r.body.ok ==> r.status == STATUS_INTERNAL,
{
    let mut out = String::new();
    let mut failure: Option<ApiError> = None;
    let ghost all = run_views(runs@);
    let mut i: usize = 0;
    assert(all.take(0) =~= Seq::<RunView>::empty());
    while i < runs.len()
        invariant
            i <= runs.len(),
            all == run_views(runs@),
            failure is Some <==> first_failure(all.take(i as int)) is Some,
            failure is Some ==> first_failure(all.take(i as int)) == Some(failure->0@),
            failure is Some ==> failure->0@.status() == STATUS_INTERNAL,
            failure is None ==> out@ == net_text(all.take(i as int)),
        decreases runs.len() - i,
    {
        let run = &runs[i];
        proof {
            assert(all.take(i + 1).drop_last() =~= all.take(i as int));
            assert(all.take(i + 1).last() == run@);
        }
        if failure.is_none() {
            let ghost before = out@;
            match run_cmd(&run.request, &run.outcome) {
                Ok(output) => {
                    out.append("$ ");
                    out.append(run.request.command_line().as_str());
                    out.append("\n");
                    out.append(output.as_str());
                    out.append("\n");
                    assert(out@ =~= before + net_section(run@.request, output@));
                },
                Err(error) => {
                    failure = Some(error);
                },
            }
        }
        i += 1;
    }
    assert(all.take(i as int) =~= all);
    match failure {
        Some(error) => respond(Err(error)),
        None => ok(TextOut { text: out }),
    }
}

/// The command that reads the last 200 log lines of the managed units.
pub fn tail_logs() -> (r: CommandRequest)
    ensures
        r@ == CommandView::of(JOURNALCTL@, log_args()),
{
    let mut args: Vec<String> = Vec::new();
    push_word(&mut args, "-u");
    push_word(&mut args, "pi400-hid");
    push_word(&mut args, "-u");
    push_word(&mut args, "target-ssh");
    push_word(&mut args, "-u");
    push_word(&mut args, "target-serial-tcp");
    push_word(&mut args, "--no-pager");
    push_word(&mut args, "-n");
    push_word(&mut args, "200");
    assert(texts(args@) =~= log_args());
    CommandRequest::new(JOURNALCTL, args)
}

/// The command that finds the target's address.
pub fn target_ip() -> (r: CommandRequest)
    ensures
        r@ == CommandView::of(TARGET_IP@, Seq::empty()),
{
    let args: Vec<String> = Vec::new();
    assert(texts(args@) =~= Seq::<Seq<char>>::empty());
    CommandRequest::new(TARGET_IP, args)
}

/// The command that sets up the composite USB gadget anew.
pub fn usb_ensure() -> (r: CommandRequest)
    ensures
        r@ == CommandView::of(USB_COMPOSITE@, Seq::empty()),
{
    let args: Vec<String> = Vec::new();
    assert(texts(args@) =~= Seq::<Seq<char>>::empty());
    CommandRequest::new(USB_COMPOSITE, args)
}

/// Turns what the executor observed of a cleared command into the reply:
/// a zero exit status gives a success with the captured output; a
/// timeout, a launch failure and a non-zero exit status give a failure
/// under status 500.
pub fn finish(request: &CommandRequest, outcome: &ExecOutcome) -> (r: Reply<TextOut>)
    ensures
        r@ == ReplyView::of_result(run_result(request@, outcome@)),
        r.body.well_formed(),
        r.body.ok <==> outcome@ is Exited && outcome@->success,
        !r.body.ok ==> r.status == STATUS_INTERNAL,
{
    respond(run_cmd(request, outcome))
}

} // verus!
