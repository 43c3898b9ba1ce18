//! The path resolver: applies the existence policy to each operand in turn.
//!
//! Opening a file is the caller's part. The resolver says which path to open
//! and whether a missing file is to be created; the caller reports how the
//! open went, and the resolver decides whether the path is kept, skipped or
//! ends the run.
use vstd::prelude::*;
use vstd::string::*;
use crate::flags::{PolicyFlags, views};
use crate::path::{absolute_path, resolve_path};

verus! {

/// How an attempt to open a path for reading and writing went.
#[derive(Debug)]
pub enum OpenStatus {
    /// The file exists (it may just have been created).
    Opened,
    /// The open failed; the text is the underlying reason.
    Failed(String),
    /// The open was refused for lack of permission; the text is the reason.
    Denied(String),
}

/// What becomes of one operand.
#[derive(Debug, Clone, Copy, PartialEq, Eq, Structural)]
pub enum Verdict {
    Keep,
    Skip,
    Fatal,
}

/// A path that could not be opened under the active policy.
#[derive(Debug)]
pub struct ResolutionError {
    /// The absolute path that failed.
    pub path: String,
    /// The underlying reason.
    pub reason: String,
    /// The failure was a refused permission.
    pub denied: bool,
}

impl ResolutionError {
    /// The diagnostic line for this error.
    pub fn message(&self) -> (r: String)
        ensures
            r@ == if self.denied {
                "Permission denied: cannot open '"@ + self.path@ + "'. "@ + self.reason@
            } else {
                "Failed to load '"@ + self.path@ + "'. "@ + self.reason@
            },
    {
        let mut r = if self.denied {
            String::from_str("Permission denied: cannot open '")
        } else {
            String::from_str("Failed to load '")
        };
        r.append(self.path.as_str());
        r.append("'. ");
        r.append(self.reason.as_str());
        r
    }
}

/// A probe the caller is to perform: open `path` for reading and writing,
/// creating it when `create` is set.
#[derive(Debug)]
pub struct Probe {
    pub path: String,
    pub create: bool,
}

/// Missing files are created: in the default policy, and in compare mode
/// together with soft-strict.
pub open spec fn creates(f: PolicyFlags) -> bool {
    (!(f.strict || f.soft_strict) && !f.compare) || (f.soft_strict && f.compare)
}

/// The decision for one operand, from the policy and how its open went.
pub open spec fn verdict(f: PolicyFlags, s: OpenStatus) -> Verdict {
    match s {
        OpenStatus::Opened => Verdict::Keep,
        OpenStatus::Denied(_) => Verdict::Fatal,
        OpenStatus::Failed(_) => if f.strict || (f.compare && !f.soft_strict) {
            Verdict::Fatal
        } else if f.soft_strict && !f.compare {
            Verdict::Skip
        } else {
            Verdict::Keep
        },
    }
}

/// The outcome of resolving `ops` in order, where the open of `ops[i]`
/// went as `st[i]`: the kept paths, or the index of the first operand that
/// ends the run.
pub open spec fn resolve_model(
    f: PolicyFlags,
    base: Seq<char>,
    ops: Seq<Seq<char>>,
    st: Seq<OpenStatus>,
) -> Result<Seq<Seq<char>>, int>
    decreases ops.len(),
{
    if ops.len() == 0 {
        Ok(Seq::empty())
    } else {
        let n = ops.len() - 1;
        match resolve_model(f, base, ops.drop_last(), st) {
            Ok(acc) => match verdict(f, st[n]) {
                Verdict::Keep => Ok(acc.push(absolute_path(ops[n], base))),
                Verdict::Skip => Ok(acc),
                Verdict::Fatal => Err(n),
            },
            Err(i) => Err(i),
        }
    }
}

/// Decides what becomes of an operand whose open went as `s`.
pub fn decide(f: PolicyFlags, s: &OpenStatus) -> (r: Verdict)
    ensures
        r == verdict(f, *s),
{
    match s {
        OpenStatus::Opened => Verdict::Keep,
        OpenStatus::Denied(_) => Verdict::Fatal,
        OpenStatus::Failed(_) => if f.strict || (f.compare && !f.soft_strict) {
            Verdict::Fatal
        } else if f.soft_strict && !f.compare {
            Verdict::Skip
        } else {
            Verdict::Keep
        },
    }
}

/// Whether missing files are to be created under `f`.
pub fn creates_missing(f: PolicyFlags) -> (r: bool)
    ensures
        r == creates(f),
{
    (!(f.strict || f.soft_strict) && !f.compare) || (f.soft_strict && f.compare)
}

/// Resolves a list of operands one at a time.
pub struct Resolver {
    flags: PolicyFlags,
    base: String,
    operands: Vec<String>,
    next: usize,
    resolved: Vec<String>,
    seen: Ghost<Seq<OpenStatus>>,
}

impl Resolver {
    pub closed spec fn flags(&self) -> PolicyFlags {
        self.flags
    }

    pub closed spec fn base(&self) -> Seq<char> {
        self.base@
    }

    pub closed spec fn operands(&self) -> Seq<Seq<char>> {
        views(self.operands@)
    }

    /// How the opens of the operands handled so far went.
    pub closed spec fn seen(&self) -> Seq<OpenStatus> {
        self.seen@
    }

    /// The paths kept so far.
    pub closed spec fn resolved(&self) -> Seq<Seq<char>> {
        views(self.resolved@)
    }

    /// The resolver holds the outcome of the operands handled so far.
    pub closed spec fn wf(&self) -> bool {
        &&& self.next == self.seen@.len()
        &&& self.next <= self.operands@.len()
        &&& resolve_model(self.flags, self.base@, self.operands().take(self.next as int), self.seen@)
            == Ok::<Seq<Seq<char>>, int>(self.resolved())
    }

    /// A resolver that has handled no operand yet.
    pub fn new(flags: PolicyFlags, base: String, operands: Vec<String>) -> (r: Resolver)
        ensures
            r.wf(),
            r.flags() == flags,
            r.base() == base@,
            r.operands() == views(operands@),
            r.seen() == Seq::<OpenStatus>::empty(),
    {
        let r = Resolver {
            flags,
            base,
            operands,
            next: 0,
            resolved: Vec::new(),
            seen: Ghost(Seq::empty()),
        };
        assert(r.operands().take(0) == Seq::<Seq<char>>::empty());
        assert(r.resolved() == Seq::<Seq<char>>::empty());
        r
    }

    /// The policy being applied.
    pub fn policy(&self) -> (r: PolicyFlags)
        ensures
            r == self.flags(),
    {
        self.flags
    }

    /// All operands have been handled.
    pub fn is_done(&self) -> (r: bool)
        requires
            self.wf(),
        ensures
            r == (self.seen().len() == self.operands().len()),
    {
        self.next == self.operands.len()
    }

    /// The open to perform for the next operand, if one is left.
    pub fn next_probe(&self) -> (r: Option<Probe>)
        requires
            self.wf(),
        ensures
            self.seen().len() < self.operands().len() <==> r is Some,
            r matches Some(p) ==> {
                &&& p.path@ == absolute_path(self.operands()[self.seen().len() as int], self.base())
                &&& p.create == creates(self.flags())
            },
    {
        if self.next < self.operands.len() {
            let path = resolve_path(self.operands[self.next].as_str(), self.base.as_str());
            Some(Probe { path, create: creates_missing(self.flags) })
        } else {
            None
        }
    }

    /// Records how the open of the next operand went. A fatal outcome ends
    /// the run with an error that names the path; otherwise the resolver
    /// moves on, having kept or skipped the path.
    pub fn record(self, status: OpenStatus) -> (r: Result<Resolver, ResolutionError>)
        requires
            self.wf(),
            self.seen().len() < self.operands().len(),
        ensures
            r is Err <==> verdict(self.flags(), status) == Verdict::Fatal,
            r matches Ok(n) ==> {
                &&& n.wf()
                &&& n.flags() == self.flags()
                &&& n.base() == self.base()
                &&& n.operands() == self.operands()
                &&& n.seen() == self.seen().push(status)
            },
            r matches Err(e) ==> {
                &&& e.path@ == absolute_path(self.operands()[self.seen().len() as int], self.base())
                &&& e.denied == (status is Denied)
                &&& status matches OpenStatus::Failed(why) ==> e.reason@ == why@
                &&& status matches OpenStatus::Denied(why) ==> e.reason@ == why@
                &&& resolve_model(
                    self.flags(),
                    self.base(),
                    self.operands().take(self.seen().len() as int + 1),
                    self.seen().push(status),
                ) == Err::<Seq<Seq<char>>, int>(self.seen().len() as int)
            },
    {
        let Resolver { flags, base, operands, next, mut resolved, seen } = self;
        let ghost old_resolved = views(resolved@);
        let ghost ops = views(operands@);
        let ghost st = seen@.push(status);
        let count = operands.len();
        let v = decide(flags, &status);
        let path = resolve_path(operands[next].as_str(), base.as_str());
        assert(next < count);
        proof {
            assert(ops.len() == operands@.len());
            lemma_model_ignores_later(flags, base@, ops.take(next as int), seen@, status);
            assert(ops.take(next as int + 1).drop_last() == ops.take(next as int));
            assert(ops.take(next as int + 1)[next as int] == ops[next as int]);
        }
        match v {
            Verdict::Fatal => {
                let (reason, denied) = match status {
                    OpenStatus::Denied(why) => (why, true),
                    OpenStatus::Failed(why) => (why, false),
                    OpenStatus::Opened => (String::new(), false),
                };
                Err(ResolutionError { path, reason, denied })
            },
            Verdict::Skip => {
                Ok(Resolver { flags, base, operands, next: next + 1, resolved, seen: Ghost(st) })
            },
            Verdict::Keep => {
                resolved.push(path);
                assert(views(resolved@) == old_resolved.push(absolute_path(ops[next as int], base@)));
                Ok(Resolver { flags, base, operands, next: next + 1, resolved, seen: Ghost(st) })
            },
        }
    }

    /// The kept paths, once every operand has been handled.
    pub fn finish(self) -> (r: Vec<String>)
        requires
            self.wf(),
            self.seen().len() == self.operands().len(),
        ensures
            resolve_model(self.flags(), self.base(), self.operands(), self.seen())
                == Ok::<Seq<Seq<char>>, int>(views(r@)),
    {
        assert(self.operands().take(self.next as int) == self.operands());
        self.resolved
    }
}

/// The model reads the status of an operand only at that operand's index,
/// so statuses past the end of the operand list do not matter.
pub proof fn lemma_model_ignores_later(
    f: PolicyFlags,
    base: Seq<char>,
    ops: Seq<Seq<char>>,
    st: Seq<OpenStatus>,
    s: OpenStatus,
)
    requires
        ops.len() <= st.len(),
    ensures
        resolve_model(f, base, ops, st.push(s)) == resolve_model(f, base, ops, st),
    decreases ops.len(),
{
    if ops.len() > 0 {
        lemma_model_ignores_later(f, base, ops.drop_last(), st, s);
    }
}

} // verus!
