//! The flag parser: classifies tokens, collects policy flags and operands,
//! and checks that the flags may be combined.
use vstd::prelude::*;
use vstd::string::*;

verus! {

/// The policy switches of one invocation.
#[derive(Debug, Clone, Copy, PartialEq, Eq, Structural)]
pub struct PolicyFlags {
    pub compare: bool,
    pub strict: bool,
    pub soft_strict: bool,
    pub hexf_only: bool,
    pub hexf_also: bool,
}

/// What a single command-line token stands for.
#[derive(Debug, Clone, Copy, PartialEq, Eq, Structural)]
pub enum Token {
    Help,
    Version,
    Strict,
    SoftStrict,
    Compare,
    Hexf,
    HexfOnly,
    /// A flag-shaped token outside the vocabulary; it is dropped.
    Unknown,
    /// A path operand.
    Operand,
}

/// A flag combination that may not be used, or a compare run without two files.
#[derive(Debug, Clone, Copy, PartialEq, Eq, Structural)]
pub enum ConfigError {
    /// `compare` together with `strict`, `hexf_only` or `hexf_also`.
    CompareWithOthers,
    /// `hexf_only` together with `hexf_also`.
    HexfBoth,
    /// `strict` together with `soft_strict`.
    StrictBoth,
    /// `compare` with a number of operands other than two.
    CompareNeedsTwo,
}

impl ConfigError {
    /// The diagnostic line for this error.
    pub fn message(&self) -> (r: String)
        ensures
            r@ == match *self {
                ConfigError::CompareWithOthers => "Invalid input: '-c', '--compare' flag works only with '-ss' flag."@,
                ConfigError::HexfBoth => "Invalid input: Can't use both flags '-x' and '-xo'"@,
                ConfigError::StrictBoth => "Invalid input: Can't use both flags '-s' and '-ss'"@,
                ConfigError::CompareNeedsTwo => "Invalid input: '-c', '--compare' requires two files."@,
            },
    {
        match self {
            ConfigError::CompareWithOthers => String::from_str(
                "Invalid input: '-c', '--compare' flag works only with '-ss' flag.",
            ),
            ConfigError::HexfBoth => String::from_str("Invalid input: Can't use both flags '-x' and '-xo'"),
            ConfigError::StrictBoth => String::from_str("Invalid input: Can't use both flags '-s' and '-ss'"),
            ConfigError::CompareNeedsTwo => String::from_str(
                "Invalid input: '-c', '--compare' requires two files.",
            ),
        }
    }
}

/// What the parser makes of the whole argument list.
pub enum Request {
    Help,
    Version,
    Run(PolicyFlags, Vec<String>),
}

/// The parse result over plain sequences.
pub enum Scan {
    Help,
    Version,
    Run(PolicyFlags, Seq<Seq<char>>),
}

/// The flags of an invocation that names none.
pub open spec fn no_flags() -> PolicyFlags {
    PolicyFlags {
        compare: false,
        strict: false,
        soft_strict: false,
        hexf_only: false,
        hexf_also: false,
    }
}

/// The views of a list of strings.
pub open spec fn views(v: Seq<String>) -> Seq<Seq<char>> {
    v.map_values(|s: String| s@)
}

/// The meaning of a token: flag-shaped tokens are looked up in the
/// vocabulary, all others are operands.
pub open spec fn token_kind(t: Seq<char>) -> Token {
    if t.len() > 0 && t[0] == '-' {
        if t == "-h"@ || t == "--help"@ {
            Token::Help
        } else if t == "-v"@ || t == "--version"@ {
            Token::Version
        } else if t == "-s"@ || t == "--strict"@ {
            Token::Strict
        } else if t == "-ss"@ || t == "--soft-strict"@ {
            Token::SoftStrict
        } else if t == "-c"@ || t == "--compare"@ {
            Token::Compare
        } else if t == "-x"@ || t == "--hexf"@ {
            Token::Hexf
        } else if t == "-xo"@ || t == "--hexf-only"@ {
            Token::HexfOnly
        } else {
            Token::Unknown
        }
    } else {
        Token::Operand
    }
}

/// The flags after a switch token has been seen.
pub open spec fn with_token(f: PolicyFlags, k: Token) -> PolicyFlags {
    match k {
        Token::Strict => PolicyFlags { strict: true, ..f },
        Token::SoftStrict => PolicyFlags { soft_strict: true, ..f },
        Token::Compare => PolicyFlags { compare: true, ..f },
        Token::Hexf => PolicyFlags { hexf_also: true, ..f },
        Token::HexfOnly => PolicyFlags { hexf_only: true, ..f },
        _ => f,
    }
}

/// Scans the tokens from the left: the first help or version token ends the
/// scan, switches set their flag, unknown flags are dropped and operands are
/// kept in order.
pub open spec fn scan(toks: Seq<Seq<char>>) -> Scan
    decreases toks.len(),
{
    if toks.len() == 0 {
        Scan::Run(no_flags(), Seq::empty())
    } else {
        let t = toks.last();
        match scan(toks.drop_last()) {
            Scan::Run(f, ops) => match token_kind(t) {
                Token::Help => Scan::Help,
                Token::Version => Scan::Version,
                Token::Operand => Scan::Run(f, ops.push(t)),
                k => Scan::Run(with_token(f, k), ops),
            },
            done => done,
        }
    }
}

/// The check of the flag combination, in a fixed order: compare conflicts
/// first, then the two viewer flags, then the two strictness flags.
pub open spec fn flag_check(f: PolicyFlags) -> Result<(), ConfigError> {
    if f.compare && (f.hexf_only || f.hexf_also || f.strict) {
        Err(ConfigError::CompareWithOthers)
    } else if f.hexf_only && f.hexf_also {
        Err(ConfigError::HexfBoth)
    } else if f.strict && f.soft_strict {
        Err(ConfigError::StrictBoth)
    } else {
        Ok(())
    }
}

/// The flags may be combined.
pub open spec fn flags_valid(f: PolicyFlags) -> bool {
    flag_check(f) is Ok
}

fn str_is(a: &str, lit: &str) -> (r: bool)
    ensures
        r == (a@ == lit@),
{
    String::from_str(a) == String::from_str(lit)
}

/// Classifies one token.
pub fn classify(tok: &str) -> (r: Token)
    ensures
        r == token_kind(tok@),
{
    if !tok.is_empty() && tok.get_char(0) == '-' {
        if str_is(tok, "-h") || str_is(tok, "--help") {
            Token::Help
        } else if str_is(tok, "-v") || str_is(tok, "--version") {
            Token::Version
        } else if str_is(tok, "-s") || str_is(tok, "--strict") {
            Token::Strict
        } else if str_is(tok, "-ss") || str_is(tok, "--soft-strict") {
            Token::SoftStrict
        } else if str_is(tok, "-c") || str_is(tok, "--compare") {
            Token::Compare
        } else if str_is(tok, "-x") || str_is(tok, "--hexf") {
            Token::Hexf
        } else if str_is(tok, "-xo") || str_is(tok, "--hexf-only") {
            Token::HexfOnly
        } else {
            Token::Unknown
        }
    } else {
        Token::Operand
    }
}

/// Splits the argument list (without the program name) into flags and
/// operands, or reports the help or version request that ends the scan.
pub fn parse_args(args: &Vec<String>) -> (r: Request)
    ensures
        match r {
            Request::Help => scan(views(args@)) is Help,
            Request::Version => scan(views(args@)) is Version,
            Request::Run(f, ops) => scan(views(args@)) == Scan::Run(f, views(ops@)),
        },
{
    let mut f = PolicyFlags {
        compare: false,
        strict: false,
        soft_strict: false,
        hexf_only: false,
        hexf_also: false,
    };
    let mut ops: Vec<String> = Vec::new();
    let mut i: usize = 0;
    assert(views(ops@) == Seq::<Seq<char>>::empty());
    assert(views(args@).take(0) == Seq::<Seq<char>>::empty());
    while i < args.len()
        invariant
            i <= args.len(),
            scan(views(args@).take(i as int)) == Scan::Run(f, views(ops@)),
        decreases args.len() - i,
    {
        let ghost toks = views(args@);
        assert(toks.take(i as int + 1).drop_last() == toks.take(i as int));
        assert(toks.take(i as int + 1).last() == args@[i as int]@);
        let ghost before = views(ops@);
        let k = classify(args[i].as_str());
        match k {
            Token::Help => {
                proof {
                    lemma_scan_stays_help(toks, i as int + 1);
                }
                return Request::Help;
            },
            Token::Version => {
                proof {
                    lemma_scan_stays_version(toks, i as int + 1);
                }
                return Request::Version;
            },
            Token::Operand => {
                ops.push(args[i].clone());
                assert(views(ops@) == before.push(args@[i as int]@));
            },
            Token::Strict => f.strict = true,
            Token::SoftStrict => f.soft_strict = true,
            Token::Compare => f.compare = true,
            Token::Hexf => f.hexf_also = true,
            Token::HexfOnly => f.hexf_only = true,
            Token::Unknown => {},
        }
        i = i + 1;
    }
    assert(views(args@).take(i as int) == views(args@));
    Request::Run(f, ops)
}

/// Once the scan has met a help token, later tokens do not change it.
proof fn lemma_scan_stays_help(toks: Seq<Seq<char>>, n: int)
    requires
        0 <= n <= toks.len(),
        scan(toks.take(n)) is Help,
    ensures
        scan(toks) is Help,
    decreases toks.len() - n,
{
    if n < toks.len() {
        assert(toks.take(n + 1).drop_last() == toks.take(n));
        lemma_scan_stays_help(toks, n + 1);
    } else {
        assert(toks.take(n) == toks);
    }
}

/// Once the scan has met a version token, later tokens do not change it.
proof fn lemma_scan_stays_version(toks: Seq<Seq<char>>, n: int)
    requires
        0 <= n <= toks.len(),
        scan(toks.take(n)) is Version,
    ensures
        scan(toks) is Version,
    decreases toks.len() - n,
{
    if n < toks.len() {
        assert(toks.take(n + 1).drop_last() == toks.take(n));
        lemma_scan_stays_version(toks, n + 1);
    } else {
        assert(toks.take(n) == toks);
    }
}

/// Checks that the flags may be combined.
pub fn check_flags(f: PolicyFlags) -> (r: Result<(), ConfigError>)
    ensures
        r == flag_check(f),
{
    if f.compare && (f.hexf_only || f.hexf_also || f.strict) {
        Err(ConfigError::CompareWithOthers)
    } else if f.hexf_only && f.hexf_also {
        Err(ConfigError::HexfBoth)
    } else if f.strict && f.soft_strict {
        Err(ConfigError::StrictBoth)
    } else {
        Ok(())
    }
}

} // verus!
