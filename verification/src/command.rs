//! Construction of the child command line.
//!
//! The sibling service is started through a runtime interpreter invoked as
//! `bun run <entry-point> --port <PORT>`, optionally preceded by an
//! `--env-file=<path>` option when the workspace's environment file
//! exists. This module builds that argument list exactly, including the
//! decimal rendering of the port.

use vstd::prelude::*;
use vstd::string::StringExecFns;

verus! {

/// The program that runs the sibling service's entry point.
pub const INTERPRETER: &'static str = "bun";

/// A fully decided child command line: the program to execute and its
/// arguments, in order. Output redirection (both streams appended to the
/// shared log file) is carried out by the host application when it spawns.
#[derive(Debug, Clone, PartialEq, Eq)]
pub struct CommandSpec {
    pub program: String,
    pub args: Vec<String>,
}

/// The character for a single decimal digit.
pub open spec fn spec_digit_char(d: nat) -> char {
    if d == 0 {
        '0'
    } else if d == 1 {
        '1'
    } else if d == 2 {
        '2'
    } else if d == 3 {
        '3'
    } else if d == 4 {
        '4'
    } else if d == 5 {
        '5'
    } else if d == 6 {
        '6'
    } else if d == 7 {
        '7'
    } else if d == 8 {
        '8'
    } else {
        '9'
    }
}

/// The decimal rendering of a natural number, most significant digit
/// first, with no leading zeros (and the single digit `0` for zero).
pub open spec fn spec_decimal(n: nat) -> Seq<char>
    decreases n,
{
    if n < 10 {
        seq![spec_digit_char(n)]
    } else {
        spec_decimal(n / 10) + seq![spec_digit_char(n % 10)]
    }
}

/// The one-character string for a single decimal digit.
fn digit_str(d: u16) -> (r: &'static str)
    requires
        d < 10,
    ensures
        r@ == seq![spec_digit_char(d as nat)],
{
    proof {
        reveal_strlit("0");
        reveal_strlit("1");
        reveal_strlit("2");
        reveal_strlit("3");
        reveal_strlit("4");
        reveal_strlit("5");
        reveal_strlit("6");
        reveal_strlit("7");
        reveal_strlit("8");
        reveal_strlit("9");
    }
    let r: &'static str = if d == 0 {
        "0"
    } else if d == 1 {
        "1"
    } else if d == 2 {
        "2"
    } else if d == 3 {
        "3"
    } else if d == 4 {
        "4"
    } else if d == 5 {
        "5"
    } else if d == 6 {
        "6"
    } else if d == 7 {
        "7"
    } else if d == 8 {
        "8"
    } else {
        "9"
    };
    proof {
        assert(r@ =~= seq![spec_digit_char(d as nat)]);
    }
    r
}

/// The decimal rendering of a port number, as passed on the child's
/// command line.
pub fn u16_to_decimal(n: u16) -> (r: String)
    ensures
        r@ == spec_decimal(n as nat),
    decreases n,
{
    if n < 10 {
        digit_str(n).to_owned()
    } else {
        let prefix = u16_to_decimal(n / 10);
        prefix.concat(digit_str(n % 10))
    }
}

/// The views of the argument strings of the child command line for a
/// given entry point, port, and optional environment file.
pub open spec fn spec_command_args(
    entry: Seq<char>,
    port: u16,
    env_file: Option<Seq<char>>,
) -> Seq<Seq<char>> {
    let tail = seq![entry, "--port"@, spec_decimal(port as nat)];
    match env_file {
        None => seq!["run"@] + tail,
        Some(path) => seq!["run"@, "--env-file="@ + path] + tail,
    }
}

/// The child command line: `bun run [--env-file=<path>] <entry> --port
/// <port>`. The environment-file option is present exactly when the host
/// found the workspace's environment file on disk; its absence is not an
/// error.
pub fn build_command(entry: &str, port: u16, env_file: &Option<String>) -> (r: CommandSpec)
    ensures
        r.program@ == INTERPRETER@,
        r.args@.map_values(|a: String| a@) == spec_command_args(
            entry@,
            port,
            match env_file {
                None => None::<Seq<char>>,
                Some(p) => Some(p@),
            },
        ),
{
    let program = INTERPRETER.to_owned();
    let mut args: Vec<String> = Vec::new();
    args.push("run".to_owned());
    match env_file {
        None => {},
        Some(path) => {
            let mut opt = "--env-file=".to_owned();
            opt.append(path.as_str());
            args.push(opt);
        },
    }
    args.push(entry.to_owned());
    args.push("--port".to_owned());
    args.push(u16_to_decimal(port));
    proof {
        assert(args@.map_values(|a: String| a@) =~= spec_command_args(
            entry@,
            port,
            match env_file {
                None => None::<Seq<char>>,
                Some(p) => Some(p@),
            },
        ));
    }
    CommandSpec { program, args }
}

} // verus!
