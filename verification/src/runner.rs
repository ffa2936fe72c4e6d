//! The run orchestration rules.
//!
//! A run goes through one pass: derive the notification URLs, dispatch the
//! start ping (unless suppressed) concurrently with the child process,
//! re-emit the child's captured output verbatim, compute the exit code,
//! only then collect the start ping's result, and conditionally send the
//! end ping. The caller drives the I/O — spawning, awaiting, sending —
//! and takes every decision from the functions here: [`prepare`] says what
//! to launch, [`conclude`] says what the run came to, and
//! [`crate::ping_warning`] says what a ping's result deserves. Nothing a
//! ping returns can change the exit code; see
//! [`law_pings_never_change_exit_code`].

use vstd::prelude::*;
use vstd::slice::slice_to_vec;
use vstd::string::StringExecFns;
use vstd::utf8::{decode_utf8, encode_utf8, encode_utf8_decode_utf8, valid_utf8};

use crate::config::Config;
use crate::errors::Error;
use crate::foreign::utf8_text;
use crate::notify::{PingResult, end_url, spec_end_url, spec_start_url, start_url};

verus! {

/// The platform the wrapper runs on, as far as the launcher substitution
/// cares: one platform puts a keep-awake launcher ahead of the command.
#[derive(Clone, Copy, Debug, PartialEq, Eq, Structural)]
pub enum Platform {
    MacOs,
    Other,
}

/// What running the child process came to: whether it could be spawned at
/// all, whether it succeeded, its exit status code if the OS reported one,
/// and its captured output, byte for byte.
#[derive(Clone, Debug)]
pub struct RunOutcome {
    pub completed: bool,
    pub success: bool,
    pub code: Option<i32>,
    pub stdout: Vec<u8>,
    pub stderr: Vec<u8>,
}

impl RunOutcome {
    /// The bytes to re-emit on this process's own standard streams:
    /// exactly the captured bytes, whatever the exit status was.
    pub fn emitted(&self) -> (r: (Vec<u8>, Vec<u8>))
        ensures
            r.0@ == self.stdout@,
            r.1@ == self.stderr@,
    {
        (slice_to_vec(self.stdout.as_slice()), slice_to_vec(self.stderr.as_slice()))
    }
}

/// The exit code a run outcome stands for: `0` for a successful run, else
/// the child's own status code. A child that could not be spawned, or
/// that terminated without a representable status code, leaves nothing to
/// report: that is a fatal error, distinct for each of the three ways.
pub open spec fn spec_exit_code(o: RunOutcome) -> Result<u8, Error> {
    if !o.completed {
        Err(Error::Spawn)
    } else if o.success {
        Ok(0)
    } else {
        match o.code {
            Some(c) => if 0 <= c <= 255 {
                Ok(c as u8)
            } else {
                Err(Error::ExitCodeOutOfRange)
            },
            None => Err(Error::EmptyExitCode),
        }
    }
}

/// The start ping is due exactly when the run is not marked success-only:
/// a success-only job never announces a start, so that a later silence is
/// not read as a hung run.
pub open spec fn start_ping_due(success_only: bool) -> bool {
    !success_only
}

/// The end ping is due unless the run is marked success-only and failed:
/// a success-only job reports successes and stays silent otherwise.
pub open spec fn end_ping_due(success_only: bool, code: u8) -> bool {
    !success_only || code == 0
}

/// The command actually spawned: on the keep-awake platform the launcher
/// binary, with the configured command as its arguments; elsewhere the
/// configured command itself.
pub open spec fn spec_effective_command(platform: Platform, command: Seq<Seq<char>>) -> Seq<
    Seq<char>,
> {
    if platform is MacOs {
        seq!["/usr/bin/caffeinate"@] + command
    } else {
        command
    }
}

/// Resolves the launcher substitution for one platform.
pub fn effective_command(platform: Platform, command: &Vec<String>) -> (r: Vec<String>)
    ensures
        r.deep_view() == spec_effective_command(platform, command.deep_view()),
{
    let mut r: Vec<String> = Vec::new();
    if let Platform::MacOs = platform {
        r.push(String::from_str("/usr/bin/caffeinate"));
    }
    let ghost base: Seq<Seq<char>> = r.deep_view();
    proof {
        if platform is MacOs {
            assert(base =~= seq!["/usr/bin/caffeinate"@]);
        } else {
            assert(base =~= Seq::<Seq<char>>::empty());
        }
    }
    let mut i: usize = 0;
    while i < command.len()
        invariant
            0 <= i <= command@.len(),
            r.deep_view() =~~= base + command.deep_view().take(i as int),
            base == if platform is MacOs {
                seq!["/usr/bin/caffeinate"@]
            } else {
                Seq::<Seq<char>>::empty()
            },
        decreases command@.len() - i,
    {
        let s = command[i].clone();
        proof {
            assert(s == command@[i as int]);
            assert(s@ == command.deep_view()[i as int]);
        }
        let ghost prev = r@;
        let ghost dv_prev = r.deep_view();
        r.push(s);
        i = i + 1;
        proof {
            assert(r@ == prev.push(s));
            let dv = r.deep_view();
            let rhs = base + command.deep_view().take(i as int);
            assert(dv_prev == base + command.deep_view().take(i - 1));
            assert(dv.len() == rhs.len());
            assert forall|j: int| 0 <= j < dv.len() implies dv[j] == rhs[j] by {
                if j < prev.len() {
                    assert(dv_prev[j] == prev[j].deep_view());
                } else {
                    assert(r@[j] == s);
                }
            }
            assert(dv =~= rhs);
        }
    }
    proof {
        assert(command.deep_view().take(command@.len() as int) =~~= command.deep_view());
        assert(r.deep_view() =~~= spec_effective_command(platform, command.deep_view()));
    }
    r
}

/// What to launch: the start-ping URL to dispatch before the child is
/// spawned — absent exactly for a success-only run — and the command to
/// spawn, launcher substitution applied.
#[derive(Clone, Debug)]
pub struct LaunchPlan {
    pub start_ping: Option<String>,
    pub command: Vec<String>,
}

/// Decides the launch: which start ping to dispatch, if any, and which
/// command to spawn. The ping's dispatch must not delay the spawn; its
/// result is collected only after the child has exited.
pub fn prepare(config: &Config, platform: Platform) -> (plan: LaunchPlan)
    ensures
        plan.start_ping is Some <==> start_ping_due(config.success_only),
        plan.start_ping matches Some(u) ==> u@ == spec_start_url(config.url@, config.slug@),
        plan.command.deep_view() == spec_effective_command(platform, config.command.deep_view()),
{
    let start_ping = if config.success_only {
        None
    } else {
        Some(start_url(config.url.as_str(), config.slug.as_str()))
    };
    let command = effective_command(platform, &config.command);
    LaunchPlan { start_ping, command }
}

/// The end ping to send: its URL names the job and the exit code, its
/// body is the child's captured stderr as text.
#[derive(Clone, Debug)]
pub struct EndCall {
    pub url: String,
    pub body: String,
}

/// What a finished run comes to: the exit code this process must return,
/// and the end ping that is due, if one is.
#[derive(Clone, Debug)]
pub struct Verdict {
    pub exit_code: u8,
    pub end_ping: Option<EndCall>,
}

/// The code this process reports for a run, as a function of the run's
/// parts. The results of the two pings are inputs of this model precisely
/// so that [`law_pings_never_change_exit_code`] can say they never matter.
pub open spec fn spec_reported(
    outcome: RunOutcome,
    start_ping: PingResult,
    end_ping: PingResult,
) -> Result<u8, Error> {
    match spec_exit_code(outcome) {
        Ok(code) => if valid_utf8(outcome.stderr@) {
            Ok(code)
        } else {
            Err(Error::InvalidUtf8)
        },
        Err(e) => Err(e),
    }
}

/// However the monitoring endpoint answers either ping — acceptance,
/// rejection, or no answer at all — the code reported for the run is the
/// same: the child's own.
pub proof fn law_pings_never_change_exit_code(
    outcome: RunOutcome,
    start_a: PingResult,
    end_a: PingResult,
    start_b: PingResult,
    end_b: PingResult,
)
    ensures
        spec_reported(outcome, start_a, end_a) == spec_reported(outcome, start_b, end_b),
{
}

/// Decides what a finished run comes to. The exit code mirrors the
/// child's; the end ping is due unless a success-only run failed, and its
/// body is the captured stderr, decoded — an empty stderr still makes an
/// (empty) body. A run with no representable exit status, and a stderr
/// that is not UTF-8, are fatal: nothing can be reported.
pub fn conclude(config: &Config, outcome: &RunOutcome) -> (r: Result<Verdict, Error>)
    ensures
        r is Ok <==> (spec_exit_code(*outcome) is Ok && valid_utf8(outcome.stderr@)),
        spec_exit_code(*outcome) matches Err(e) ==> r == Err::<Verdict, Error>(e),
        spec_exit_code(*outcome) is Ok && !valid_utf8(outcome.stderr@) ==> r == Err::<
            Verdict,
            Error,
        >(Error::InvalidUtf8),
        r matches Ok(v) ==> {
            &&& Ok::<u8, Error>(v.exit_code) == spec_exit_code(*outcome)
            &&& (v.end_ping is Some <==> end_ping_due(config.success_only, v.exit_code))
            &&& (v.end_ping matches Some(call) ==> {
                &&& call.url@ == spec_end_url(config.url@, config.slug@, v.exit_code)
                &&& call.body@ == decode_utf8(outcome.stderr@)
                &&& encode_utf8(call.body@) == outcome.stderr@
            })
        },
        forall|s: PingResult, e: PingResult|
            #[trigger] spec_reported(*outcome, s, e) == (match r {
                Ok(v) => Ok::<u8, Error>(v.exit_code),
                Err(err) => Err::<u8, Error>(err),
            }),
{
    if !outcome.completed {
        return Err(Error::Spawn);
    }
    let code: u8 = if outcome.success {
        0
    } else {
        match outcome.code {
            Some(c) => {
                if 0 <= c && c <= 255 {
                    c as u8
                } else {
                    return Err(Error::ExitCodeOutOfRange);
                }
            },
            None => {
                return Err(Error::EmptyExitCode);
            },
        }
    };
    let body = match utf8_text(&outcome.stderr) {
        Some(t) => t,
        None => {
            return Err(Error::InvalidUtf8);
        },
    };
    proof {
        encode_utf8_decode_utf8(body@);
    }
    let end_ping = if !config.success_only || code == 0 {
        Some(
            EndCall { url: end_url(config.url.as_str(), config.slug.as_str(), code), body },
        )
    } else {
        None
    };
    Ok(Verdict { exit_code: code, end_ping })
}

} // verus!
