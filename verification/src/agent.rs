//! Command-line front: which command runs, and how coding agents are
//! launched against the local gateway.

use vstd::prelude::*;
use vstd::string::StringExecFns;
use crate::text::{chars_of, equals_str, starts_with_seq, starts_with_str};

verus! {

broadcast use vstd::string::group_string_axioms;

/// The command to run: an executable installed as `sanctum-<command>` runs
/// that command; otherwise the first argument names it, `serve` by default.
pub fn select_command(executable: &str, first_argument: Option<&str>) -> (r: String)
    ensures
        starts_with_seq(executable@, "sanctum-"@) ==> r@ == executable@,
        !starts_with_seq(executable@, "sanctum-"@) ==> (first_argument matches Some(a) ==> r@
            == a@),
        !starts_with_seq(executable@, "sanctum-"@) ==> (first_argument is None ==> r@
            == "serve"@),
{
    let name = chars_of(executable);
    if starts_with_str(&name, "sanctum-") {
        return executable.to_owned();
    }
    match first_argument {
        Some(a) => a.to_owned(),
        None => String::from_str("serve"),
    }
}

/// What the command line asks for.
#[derive(Debug, Clone, Copy, PartialEq, Eq, Structural)]
pub enum CliCommand {
    Serve,
    Doctor,
    Benchmark,
    Agent,
    Help,
    Unknown,
}

pub open spec fn is_agent_command(c: Seq<char>) -> bool {
    ||| c == "opencode"@ || c == "aider"@
    ||| c == "sanctum-opencode"@ || c == "sanctum-aider"@
}

pub open spec fn command_kind(c: Seq<char>) -> CliCommand {
    if c == "serve"@ || c == "sanctum-serve"@ {
        CliCommand::Serve
    } else if c == "doctor"@ || c == "sanctum-doctor"@ {
        CliCommand::Doctor
    } else if c == "benchmark"@ || c == "sanctum-benchmark"@ {
        CliCommand::Benchmark
    } else if is_agent_command(c) {
        CliCommand::Agent
    } else if c == "--help"@ || c == "help"@ {
        CliCommand::Help
    } else {
        CliCommand::Unknown
    }
}

pub fn classify_command(command: &str) -> (r: CliCommand)
    ensures
        r == command_kind(command@),
{
    let c = chars_of(command);
    if equals_str(&c, "serve") || equals_str(&c, "sanctum-serve") {
        CliCommand::Serve
    } else if equals_str(&c, "doctor") || equals_str(&c, "sanctum-doctor") {
        CliCommand::Doctor
    } else if equals_str(&c, "benchmark") || equals_str(&c, "sanctum-benchmark") {
        CliCommand::Benchmark
    } else if equals_str(&c, "opencode") || equals_str(&c, "aider") || equals_str(
        &c,
        "sanctum-opencode",
    ) || equals_str(&c, "sanctum-aider") {
        CliCommand::Agent
    } else if equals_str(&c, "--help") || equals_str(&c, "help") {
        CliCommand::Help
    } else {
        CliCommand::Unknown
    }
}

/// `http://<host>:<port>`, where the gateway listens.
pub fn gateway_endpoint(host: &str, port: &str) -> (r: String)
    ensures
        r@ == "http://"@ + host@ + ":"@ + port@,
{
    let mut out = String::from_str("http://");
    out.append(host);
    out.append(":");
    out.append(port);
    out
}

/// A coding agent to run, and the environment that points it at the gateway.
#[derive(Debug, Clone, PartialEq, Eq)]
pub struct AgentLaunch {
    pub program: String,
    pub variables: Vec<(String, String)>,
}

pub open spec fn pair_views(v: Seq<(String, String)>) -> EnvVars {
    v.map_values(|p: (String, String)| (p.0@, p.1@))
}

/// The program an agent command launches: OpenCode or Aider.
pub open spec fn launch_program(command: Seq<char>) -> Option<Seq<char>> {
    if command == "opencode"@ || command == "sanctum-opencode"@ {
        Some("opencode"@)
    } else if command == "aider"@ || command == "sanctum-aider"@ {
        Some("aider"@)
    } else {
        None
    }
}

pub type EnvVars = Seq<(Seq<char>, Seq<char>)>;

/// Both agents speak the OpenAI API under `/v1`, with the key `local`;
/// they name the base URL differently.
pub open spec fn launch_variables(command: Seq<char>, endpoint: Seq<char>) -> EnvVars {
    if command == "opencode"@ || command == "sanctum-opencode"@ {
        seq![("OPENAI_BASE_URL"@, endpoint + "/v1"@), ("OPENAI_API_KEY"@, "local"@)]
    } else {
        seq![("OPENAI_API_BASE"@, endpoint + "/v1"@), ("OPENAI_API_KEY"@, "local"@)]
    }
}

/// Every agent that is launched is pointed at the gateway's OpenAI routes:
/// the variable that carries its base URL, `OPENAI_BASE_URL` or
/// `OPENAI_API_BASE`, is there and holds the endpoint followed by `/v1`,
/// and the variable `OPENAI_API_KEY` holds `local`.
pub proof fn lemma_launch_targets_v1(command: Seq<char>, endpoint: Seq<char>)
    requires
        launch_program(command) is Some,
    ensures
        exists|k: int|
            0 <= k < launch_variables(command, endpoint).len() && (launch_variables(
                command,
                endpoint,
            )[k].0 == "OPENAI_BASE_URL"@ || launch_variables(command, endpoint)[k].0
                == "OPENAI_API_BASE"@),
        forall|k: int|
            0 <= k < launch_variables(command, endpoint).len() && ((#[trigger] launch_variables(
                command,
                endpoint,
            )[k]).0 == "OPENAI_BASE_URL"@ || launch_variables(command, endpoint)[k].0
                == "OPENAI_API_BASE"@) ==> launch_variables(command, endpoint)[k].1 == endpoint
                + "/v1"@,
        forall|k: int|
            0 <= k < launch_variables(command, endpoint).len() && (#[trigger] launch_variables(
                command,
                endpoint,
            )[k]).0 == "OPENAI_API_KEY"@ ==> launch_variables(command, endpoint)[k].1
                == "local"@,
{
    reveal_strlit("OPENAI_BASE_URL");
    reveal_strlit("OPENAI_API_BASE");
    reveal_strlit("OPENAI_API_KEY");
    let vs = launch_variables(command, endpoint);
    assert(vs[0].0 == "OPENAI_BASE_URL"@ || vs[0].0 == "OPENAI_API_BASE"@);
    assert(vs[1].0.len() == 14 && "OPENAI_BASE_URL"@.len() == 15 && "OPENAI_API_BASE"@.len() == 15);
}

fn pair(a: &str, b: String) -> (r: (String, String))
    ensures
        r.0@ == a@,
        r.1@ == b@,
{
    (String::from_str(a), b)
}

pub fn agent_launch(command: &str, endpoint: &str) -> (r: Option<AgentLaunch>)
    ensures
        launch_program(command@) is None ==> r is None,
        launch_program(command@) matches Some(program) ==> (r matches Some(l) && l.program@
            == program && pair_views(l.variables@) == launch_variables(command@, endpoint@)),
{
    let c = chars_of(command);
    let mut v1 = String::from_str(endpoint);
    v1.append("/v1");
    let mut variables: Vec<(String, String)> = Vec::new();
    let program;
    if equals_str(&c, "opencode") || equals_str(&c, "sanctum-opencode") {
        program = String::from_str("opencode");
        variables.push(pair("OPENAI_BASE_URL", v1));
        variables.push(pair("OPENAI_API_KEY", String::from_str("local")));
    } else if equals_str(&c, "aider") || equals_str(&c, "sanctum-aider") {
        program = String::from_str("aider");
        variables.push(pair("OPENAI_API_BASE", v1));
        variables.push(pair("OPENAI_API_KEY", String::from_str("local")));
    } else {
        return None;
    }
    assert(pair_views(variables@) =~= launch_variables(command@, endpoint@));
    Some(AgentLaunch { program, variables })
}


/// Defaults of the environment the command line reads.
pub const DEFAULT_HOST: &'static str = "127.0.0.1";
pub const DEFAULT_PORT: &'static str = "8080";
pub const DEFAULT_UPSTREAM: &'static str = "http://127.0.0.1:11434";
pub const DEFAULT_MODEL: &'static str = "qwen3.5:4b-q4_K_M";

/// An agent waits for a gateway it started: 50 probes, 100 ms apart.
pub const GATEWAY_READY_ATTEMPTS: u32 = 50;
pub const GATEWAY_READY_INTERVAL_MS: u64 = 100;

/// The gateway waits for an upstream it started: 60 probes, 250 ms apart.
pub const UPSTREAM_READY_ATTEMPTS: u32 = 60;
pub const UPSTREAM_READY_INTERVAL_MS: u64 = 250;

/// The gateway starts its own upstream unless `SANCTUM_MANAGE_UPSTREAM`
/// is `0`.
pub fn manages_upstream(setting: Option<&str>) -> (r: bool)
    ensures
        r == !(setting matches Some(v) && v@ == "0"@),
{
    match setting {
        Some(v) => !equals_str(&chars_of(v), "0"),
        None => true,
    }
}

/// What one readiness probe means for a wait.
#[derive(Debug, Clone, Copy, PartialEq, Eq, Structural)]
pub enum WaitOutcome {
    /// The server answered.
    Ready,
    /// Not yet: sleep and probe again.
    Retry,
    /// The server process ended before it answered.
    Exited,
    /// Every probe was spent.
    GaveUp,
}

/// Waiting for a freshly started server: the probes left.
#[derive(Debug, Clone, Copy, PartialEq, Eq, Structural)]
pub struct ReadinessWait {
    pub remaining: u32,
}

impl ReadinessWait {
    pub fn new(attempts: u32) -> (r: Self)
        requires
            attempts > 0,
        ensures
            r.remaining == attempts,
    {
        ReadinessWait { remaining: attempts }
    }

    /// Takes the result of one probe: whether the server answered and
    /// whether its process has ended.
    pub fn observe(&mut self, ready: bool, exited: bool) -> (r: WaitOutcome)
        requires
            old(self).remaining > 0,
        ensures
            ready ==> r == WaitOutcome::Ready,
            !ready && exited ==> r == WaitOutcome::Exited,
            !ready && !exited ==> final(self).remaining == old(self).remaining - 1,
            !ready && !exited && old(self).remaining == 1 ==> r == WaitOutcome::GaveUp,
            !ready && !exited && old(self).remaining > 1 ==> r == WaitOutcome::Retry,
            r == WaitOutcome::Retry ==> final(self).remaining > 0,
            ready || exited ==> *final(self) == *old(self),
    {
        if ready {
            return WaitOutcome::Ready;
        }
        if exited {
            return WaitOutcome::Exited;
        }
        self.remaining = self.remaining - 1;
        if self.remaining == 0 {
            WaitOutcome::GaveUp
        } else {
            WaitOutcome::Retry
        }
    }
}

} // verus!
