//! One invocation, from the argument list to a resolver ready to run.
use vstd::prelude::*;
use vstd::string::*;
use crate::flags::{PolicyFlags, ConfigError, Request, Scan, scan, views, flag_check, parse_args, check_flags};
use crate::resolve::Resolver;

verus! {

/// The program's version.
pub const VERSION: &'static str = "1.0.0";

/// How an invocation begins.
pub enum Start {
    /// Help was asked for; nothing else is done.
    Help,
    /// The version was asked for; nothing else is done.
    Version,
    /// The configuration is refused before any file is touched.
    Invalid(ConfigError),
    /// The operands are to be resolved.
    Resolve(Resolver),
}

/// The configuration check of a run: the flag combination, and in compare
/// mode the number of operands (which resolution cannot change there, since
/// compare mode never skips a file).
pub open spec fn run_check(f: PolicyFlags, ops: Seq<Seq<char>>) -> Result<(), ConfigError> {
    match flag_check(f) {
        Err(e) => Err(e),
        Ok(_) => if f.compare && ops.len() != 2 {
            Err(ConfigError::CompareNeedsTwo)
        } else {
            Ok(())
        },
    }
}

/// Parses the arguments (without the program name) and checks the
/// configuration; `base` is the directory that relative operands are
/// resolved against.
pub fn start(args: &Vec<String>, base: &str) -> (r: Start)
    ensures
        match scan(views(args@)) {
            Scan::Help => r is Help,
            Scan::Version => r is Version,
            Scan::Run(f, ops) => match run_check(f, ops) {
                Err(e) => r matches Start::Invalid(e2) && e2 == e,
                Ok(_) => r matches Start::Resolve(res) && {
                    &&& res.wf()
                    &&& res.flags() == f
                    &&& res.base() == base@
                    &&& res.operands() == ops
                    &&& res.seen().len() == 0
                },
            },
        },
{
    match parse_args(args) {
        Request::Help => Start::Help,
        Request::Version => Start::Version,
        Request::Run(f, ops) => {
            match check_flags(f) {
                Err(e) => Start::Invalid(e),
                Ok(_) => {
                    if f.compare && ops.len() != 2 {
                        Start::Invalid(ConfigError::CompareNeedsTwo)
                    } else {
                        Start::Resolve(Resolver::new(f, String::from_str(base), ops))
                    }
                },
            }
        },
    }
}

/// The line printed for a version request.
pub fn version_line() -> (r: String)
    ensures
        r@ == "syn "@ + VERSION@,
{
    let mut r = String::from_str("syn ");
    r.append(VERSION);
    r
}

} // verus!
