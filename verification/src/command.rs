//! One-shot invocations of external programs: what is asked of the executor,
//! what it hands back, and how that is turned into a result.

use vstd::prelude::*;
use vstd::string::*;
use vstd::utf8::*;
use crate::error::{ApiError, ApiErrorView};
use crate::text::{joined, lossy_text, lossy_utf8, texts};

verus! {

/// Seconds a command may run before it is given up.
pub const TIMEOUT_SECS: u64 = 8;

/// A pending invocation: the program by its absolute path, its arguments in
/// order, each handed over as one discrete argument, and the time bound.
#[derive(Debug)]
pub struct CommandRequest {
    pub program: String,
    pub args: Vec<String>,
    pub timeout_secs: u64,
}

/// Mathematical value of a [`CommandRequest`].
pub struct CommandView {
    pub program: Seq<char>,
    pub args: Seq<Seq<char>>,
    pub timeout_secs: u64,
}

impl CommandView {
    /// The invocation of `program` with `args` under the usual time bound.
    pub open spec fn of(program: Seq<char>, args: Seq<Seq<char>>) -> CommandView {
        CommandView { program, args, timeout_secs: TIMEOUT_SECS }
    }

    /// The program followed by its arguments.
    pub open spec fn argv(self) -> Seq<Seq<char>> {
        seq![self.program] + self.args
    }

    /// The invocation as one line, its words separated by single spaces.
    pub open spec fn command_line(self) -> Seq<char> {
        joined(self.argv(), seq![' '])
    }
}

impl View for CommandRequest {
    type V = CommandView;

    open spec fn view(&self) -> CommandView {
        CommandView {
            program: self.program@,
            args: texts(self.args@),
            timeout_secs: self.timeout_secs,
        }
    }
}

impl CommandRequest {
    /// A request for `program` with `args`, bounded by [`TIMEOUT_SECS`].
    pub fn new(program: &str, args: Vec<String>) -> (r: CommandRequest)
        ensures
            r@ == CommandView::of(program@, texts(args@)),
    {
        CommandRequest { program: program.to_owned(), args, timeout_secs: TIMEOUT_SECS }
    }

    /// The invocation as one line, its words separated by single spaces.
    pub fn command_line(&self) -> (r: String)
        ensures
            r@ == self@.command_line(),
    {
        let mut line = self.program.clone();
        let ghost argv = self@.argv();
        proof {
            reveal_strlit(" ");
            assert(argv.take(1) =~= seq![self.program@]);
            assert(joined(argv.take(1), seq![' ']) == self.program@);
        }
        let mut i: usize = 0;
        while i < self.args.len()
            invariant
                i <= self.args.len(),
                argv == self@.argv(),
                argv.len() == self.args.len() + 1,
                line@ == joined(argv.take(i + 1), seq![' ']),
            decreases self.args.len() - i,
        {
            line.append(" ");
            line.append(self.args[i].as_str());
            proof {
                reveal_strlit(" ");
                assert(" "@ =~= seq![' ']);
                let upto = argv.take(i + 2);
                assert(upto.drop_last() =~= argv.take(i + 1));
                assert(upto.last() == self.args[i as int]@);
            }
            i += 1;
        }
        proof {
            assert(argv.take(i + 1) =~= argv);
        }
        line
    }
}

/// What the executor observed of one invocation.
#[derive(Debug)]
pub enum ExecOutcome {
    /// The program had not exited when the time bound elapsed.
    TimedOut,
    /// The program could not be started; `reason` is the system's wording.
    LaunchFailed { reason: String },
    /// The program exited; `success` tells whether its status was zero.
    Exited { success: bool, stdout: Vec<u8>, stderr: Vec<u8> },
}

/// Mathematical value of an [`ExecOutcome`].
pub enum OutcomeView {
    TimedOut,
    LaunchFailed { reason: Seq<char> },
    Exited { success: bool, stdout: Seq<u8>, stderr: Seq<u8> },
}

impl View for ExecOutcome {
    type V = OutcomeView;

    open spec fn view(&self) -> OutcomeView {
        match self {
            ExecOutcome::TimedOut => OutcomeView::TimedOut,
            ExecOutcome::LaunchFailed { reason } => OutcomeView::LaunchFailed { reason: reason@ },
            ExecOutcome::Exited { success, stdout, stderr } => OutcomeView::Exited {
                success: *success,
                stdout: stdout@,
                stderr: stderr@,
            },
        }
    }
}

/// Mathematical value of a command's result: the captured text, or the
/// error.
pub open spec fn result_view(result: Result<String, ApiError>) -> Result<Seq<char>, ApiErrorView> {
    match result {
        Ok(text) => Ok(text@),
        Err(error) => Err(error@),
    }
}

/// The result that an outcome of `request` stands for. A zero exit status
/// yields the captured standard output; a non-zero one fails with the
/// captured standard error; a launch failure fails with the system's
/// wording; a timeout names the command line that was attempted.
pub open spec fn run_result(request: CommandView, outcome: OutcomeView) -> Result<
    Seq<char>,
    ApiErrorView,
> {
    match outcome {
        OutcomeView::TimedOut => Err(
            ApiErrorView::ExecutionTimeout { command: request.command_line() },
        ),
        OutcomeView::LaunchFailed { reason } => Err(
            ApiErrorView::ExecutionFailure { detail: reason },
        ),
        OutcomeView::Exited { success, stdout, stderr } => if success {
            Ok(lossy_utf8(stdout))
        } else {
            Err(ApiErrorView::ExecutionFailure { detail: lossy_utf8(stderr) })
        },
    }
}

/// Turns what the executor observed of `request` into the command's result.
///
/// Output that is valid UTF-8 is passed on byte for byte.
pub fn run_cmd(request: &CommandRequest, outcome: &ExecOutcome) -> (r: Result<String, ApiError>)
    ensures
        result_view(r) == run_result(request@, outcome@),
        outcome@ is TimedOut ==> r is Err && r->Err_0@ is ExecutionTimeout,
        outcome@ is LaunchFailed ==> r is Err && r->Err_0@ is ExecutionFailure,
        outcome@ is Exited && outcome@->success ==> r is Ok && (valid_utf8(outcome@->stdout)
            ==> encode_utf8(r->Ok_0@) == outcome@->stdout),
        outcome@ is Exited && !outcome@->success ==> r is Err && r->Err_0@ is ExecutionFailure && (
        valid_utf8(outcome@->stderr) ==> encode_utf8(r->Err_0@->detail) == outcome@->stderr),
{
    match outcome {
        ExecOutcome::TimedOut => Err(
            ApiError::ExecutionTimeout { command: request.command_line() },
        ),
        ExecOutcome::LaunchFailed { reason } => Err(
            ApiError::ExecutionFailure { detail: reason.clone() },
        ),
        ExecOutcome::Exited { success, stdout, stderr } => {
            if *success {
                Ok(lossy_text(stdout))
            } else {
                Err(ApiError::ExecutionFailure { detail: lossy_text(stderr) })
            }
        },
    }
}

} // verus!
