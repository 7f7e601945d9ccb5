//! How a child is to be launched: the launcher chosen by host system, the
//! entry script, the working directory and the port handed over in the
//! environment.
use vstd::prelude::*;

verus! {

/// The family of the host system, which decides the launcher's name.
#[derive(Clone, Copy, Debug, PartialEq, Eq, Structural)]
pub enum HostOs {
    Windows,
    Other,
}

/// Name of the launcher program on a given host.
pub open spec fn launcher_name(host: HostOs) -> Seq<char> {
    match host {
        HostOs::Windows => "python"@,
        HostOs::Other => "python3"@,
    }
}

/// The entry file looked up inside the backend directory.
pub open spec fn entry_script() -> Seq<char> {
    "main.py"@
}

/// Name of the environment variable that carries the port.
pub open spec fn port_variable() -> Seq<char> {
    "PORT"@
}

/// The character of a decimal digit.
pub open spec fn digit_char(d: nat) -> char
    recommends
        d < 10,
{
    ('0' as u8 + d) as char
}

/// Decimal notation of a natural number, without leading zeros.
pub open spec fn decimal(n: nat) -> Seq<char>
    decreases n,
{
    if n < 10 {
        seq![digit_char(n)]
    } else {
        decimal(n / 10).push(digit_char(n % 10))
    }
}

/// Everything needed to start the child: run `program` on the file `script`
/// inside `working_dir`, from `working_dir`, with `port_var` set to
/// `port_value`; its output and error streams are discarded where
/// `discard_stdout` and `discard_stderr` say so.
#[derive(Debug)]
pub struct LaunchPlan {
    pub program: String,
    pub script: String,
    pub working_dir: String,
    pub port_var: String,
    pub port_value: String,
    pub discard_stdout: bool,
    pub discard_stderr: bool,
}

impl LaunchPlan {
    /// The plan is the one for this directory, host and port.
    pub open spec fn describes(&self, backend_path: Seq<char>, host: HostOs, port: u16) -> bool {
        &&& self.program@ == launcher_name(host)
        &&& self.script@ == entry_script()
        &&& self.working_dir@ == backend_path
        &&& self.port_var@ == port_variable()
        &&& self.port_value@ == decimal(port as nat)
        &&& self.discard_stdout
        &&& self.discard_stderr
    }
}

/// The launcher program for `host`.
pub fn launcher(host: HostOs) -> (r: &'static str)
    ensures
        r@ == launcher_name(host),
{
    match host {
        HostOs::Windows => "python",
        HostOs::Other => "python3",
    }
}

fn digit_str(d: u16) -> (r: &'static str)
    requires
        d < 10,
    ensures
        r@ == seq![digit_char(d as nat)],
{
    proof {
        reveal_strlit("0");
        reveal_strlit("1");
        reveal_strlit("2");
        reveal_strlit("3");
        reveal_strlit("4");
        reveal_strlit("5");
        reveal_strlit("6");
        reveal_strlit("7");
        reveal_strlit("8");
        reveal_strlit("9");
    }
    let r = match d {
        0 => "0",
        1 => "1",
        2 => "2",
        3 => "3",
        4 => "4",
        5 => "5",
        6 => "6",
        7 => "7",
        8 => "8",
        _ => "9",
    };
    assert(r@ =~= seq![digit_char(d as nat)]);
    r
}

/// Decimal notation of a port number.
pub fn port_decimal(n: u16) -> (r: String)
    ensures
        r@ == decimal(n as nat),
    decreases n,
{
    if n < 10 {
        String::from_str(digit_str(n))
    } else {
        let mut s = port_decimal(n / 10);
        s.append(digit_str(n % 10));
        s
    }
}

/// The plan for starting the child found in `backend_path` on `host`, with
/// `port` handed over in the environment and its output and error streams
/// discarded.
pub fn launch_plan(backend_path: &str, host: HostOs, port: u16) -> (r: LaunchPlan)
    ensures
        r.describes(backend_path@, host, port),
{
    proof {
        reveal_strlit("main.py");
        reveal_strlit("PORT");
    }
    LaunchPlan {
        program: String::from_str(launcher(host)),
        script: String::from_str("main.py"),
        working_dir: String::from_str(backend_path),
        port_var: String::from_str("PORT"),
        port_value: port_decimal(port),
        discard_stdout: true,
        discard_stderr: true,
    }
}

} // verus!
