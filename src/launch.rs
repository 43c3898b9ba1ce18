//! The launches that follow a successful resolution.
use vstd::prelude::*;
use vstd::string::*;
use crate::flags::{PolicyFlags, ConfigError, views};

verus! {

/// The external viewers.
#[derive(Debug, Clone, Copy, PartialEq, Eq, Structural)]
pub enum Program {
    /// The structure analyzer (`synalyze`).
    Synalyze,
    /// The hex viewer (`hexf`).
    Hexf,
}

impl Program {
    /// The executable's name, looked up on the search path.
    pub fn command(&self) -> (r: &'static str)
        ensures
            r@ == match *self {
                Program::Synalyze => "synalyze"@,
                Program::Hexf => "hexf"@,
            },
    {
        match self {
            Program::Synalyze => "synalyze",
            Program::Hexf => "hexf",
        }
    }
}

/// One program to start, with its arguments.
#[derive(Debug)]
pub struct Launch {
    pub program: Program,
    pub args: Vec<String>,
    /// Start it again until it reports success.
    pub until_success: bool,
}

/// A launch as plain values.
pub open spec fn launch_view(l: Launch) -> (Program, Seq<Seq<char>>, bool) {
    (l.program, views(l.args@), l.until_success)
}

/// The hex viewer opens an untitled document when it is given no path.
pub open spec fn hexf_args(paths: Seq<Seq<char>>) -> Seq<Seq<char>> {
    if paths.len() == 0 {
        seq!["Untitled"@]
    } else {
        paths
    }
}

/// The launches for the resolved `paths` under `f`: compare mode hands
/// exactly two paths to the hex viewer's diff; otherwise the hex viewer
/// alone, or the structure analyzer (retried until it succeeds) followed
/// by the hex viewer when that is asked for.
pub open spec fn launch_plan(f: PolicyFlags, paths: Seq<Seq<char>>) -> Result<
    Seq<(Program, Seq<Seq<char>>, bool)>,
    ConfigError,
> {
    if f.compare {
        if paths.len() == 2 {
            Ok(seq![(Program::Hexf, seq!["-d"@, paths[0], paths[1]], false)])
        } else {
            Err(ConfigError::CompareNeedsTwo)
        }
    } else if f.hexf_only {
        Ok(seq![(Program::Hexf, hexf_args(paths), false)])
    } else if f.hexf_also {
        Ok(seq![(Program::Synalyze, paths, true), (Program::Hexf, hexf_args(paths), false)])
    } else {
        Ok(seq![(Program::Synalyze, paths, true)])
    }
}

fn copy_paths(v: &Vec<String>) -> (r: Vec<String>)
    ensures
        views(r@) == views(v@),
{
    let mut r: Vec<String> = Vec::new();
    let mut i: usize = 0;
    while i < v.len()
        invariant
            i <= v.len(),
            views(r@) == views(v@).take(i as int),
        decreases v.len() - i,
    {
        let ghost before = views(r@);
        r.push(v[i].clone());
        assert(views(r@) == before.push(v@[i as int]@));
        assert(views(v@).take(i as int + 1) == views(v@).take(i as int).push(v@[i as int]@));
        i = i + 1;
    }
    assert(views(v@).take(i as int) == views(v@));
    r
}

fn hexf_paths(paths: &Vec<String>) -> (r: Vec<String>)
    ensures
        views(r@) == hexf_args(views(paths@)),
{
    if paths.len() == 0 {
        let mut r: Vec<String> = Vec::new();
        r.push(String::from_str("Untitled"));
        assert(views(r@) == seq!["Untitled"@]);
        r
    } else {
        copy_paths(paths)
    }
}

/// Plans the launches for the resolved `paths` under `f`.
pub fn plan_launches(f: PolicyFlags, paths: &Vec<String>) -> (r: Result<Vec<Launch>, ConfigError>)
    ensures
        match r {
            Ok(ls) => launch_plan(f, views(paths@)) == Ok::<_, ConfigError>(
                ls@.map_values(|l: Launch| launch_view(l)),
            ),
            Err(e) => launch_plan(f, views(paths@)) == Err::<Seq<(Program, Seq<Seq<char>>, bool)>, _>(e),
        },
{
    let mut ls: Vec<Launch> = Vec::new();
    if f.compare {
        if paths.len() != 2 {
            return Err(ConfigError::CompareNeedsTwo);
        }
        let mut args: Vec<String> = Vec::new();
        args.push(String::from_str("-d"));
        args.push(paths[0].clone());
        args.push(paths[1].clone());
        assert(views(args@) == seq!["-d"@, views(paths@)[0], views(paths@)[1]]);
        ls.push(Launch { program: Program::Hexf, args, until_success: false });
    } else if f.hexf_only {
        ls.push(Launch { program: Program::Hexf, args: hexf_paths(paths), until_success: false });
    } else {
        ls.push(Launch { program: Program::Synalyze, args: copy_paths(paths), until_success: true });
        if f.hexf_also {
            ls.push(Launch { program: Program::Hexf, args: hexf_paths(paths), until_success: false });
        }
    }
    assert(ls@.map_values(|l: Launch| launch_view(l)) == launch_plan(f, views(paths@))->Ok_0);
    Ok(ls)
}

} // verus!
