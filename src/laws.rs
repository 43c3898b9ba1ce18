//! Properties of whole runs of the resolver and of the flag check.
use vstd::prelude::*;
use crate::flags::{PolicyFlags, ConfigError, flag_check, flags_valid};
use crate::launch::{Program, launch_plan};
use crate::path::absolute_path;
use crate::resolve::{OpenStatus, Verdict, creates, verdict, resolve_model};
use crate::session::run_check;

verus! {

/// The absolute paths of all operands, in order.
pub open spec fn all_paths(base: Seq<char>, ops: Seq<Seq<char>>) -> Seq<Seq<char>> {
    ops.map_values(|o: Seq<char>| absolute_path(o, base))
}

/// The absolute paths of the operands whose open succeeded, in order.
pub open spec fn opened_paths(base: Seq<char>, ops: Seq<Seq<char>>, st: Seq<OpenStatus>) -> Seq<
    Seq<char>,
>
    decreases ops.len(),
{
    if ops.len() == 0 {
        Seq::empty()
    } else {
        let rest = opened_paths(base, ops.drop_last(), st);
        if st[ops.len() - 1] is Opened {
            rest.push(absolute_path(ops.last(), base))
        } else {
            rest
        }
    }
}

/// No open was refused for lack of permission.
pub open spec fn none_denied(st: Seq<OpenStatus>) -> bool {
    forall|i: int| 0 <= i < st.len() ==> !(#[trigger] st[i] is Denied)
}

/// When every operand is kept, the run yields all operands' paths in order.
proof fn lemma_all_kept(f: PolicyFlags, base: Seq<char>, ops: Seq<Seq<char>>, st: Seq<OpenStatus>)
    requires
        st.len() >= ops.len(),
        forall|i: int| 0 <= i < ops.len() ==> verdict(f, #[trigger] st[i]) == Verdict::Keep,
    ensures
        resolve_model(f, base, ops, st) == Ok::<Seq<Seq<char>>, int>(all_paths(base, ops)),
    decreases ops.len(),
{
    if ops.len() == 0 {
        assert(all_paths(base, ops) == Seq::<Seq<char>>::empty());
    } else {
        assert(verdict(f, st[ops.len() - 1]) == Verdict::Keep);
        lemma_all_kept(f, base, ops.drop_last(), st);
        assert(all_paths(base, ops) == all_paths(base, ops.drop_last()).push(
            absolute_path(ops.last(), base),
        ));
    }
}

/// Default policy: every probe asks for a missing file to be created, and
/// unless an open is refused for lack of permission, every operand is kept,
/// in order, so the output is as long as the input.
pub proof fn default_policy_keeps_all(
    f: PolicyFlags,
    base: Seq<char>,
    ops: Seq<Seq<char>>,
    st: Seq<OpenStatus>,
)
    requires
        !f.compare && !f.strict && !f.soft_strict,
        st.len() == ops.len(),
        none_denied(st),
    ensures
        creates(f),
        resolve_model(f, base, ops, st) == Ok::<Seq<Seq<char>>, int>(all_paths(base, ops)),
        all_paths(base, ops).len() == ops.len(),
{
    lemma_all_kept(f, base, ops, st);
}

/// Strict policy: if any operand's file cannot be opened, the run fails at
/// the first such operand and yields no paths.
pub proof fn strict_policy_all_or_nothing(
    f: PolicyFlags,
    base: Seq<char>,
    ops: Seq<Seq<char>>,
    st: Seq<OpenStatus>,
    i: int,
)
    requires
        f.strict,
        flags_valid(f),
        st.len() == ops.len(),
        0 <= i < ops.len(),
        !(st[i] is Opened),
    ensures
        !creates(f),
        resolve_model(f, base, ops, st) matches Err(j) && j <= i,
    decreases ops.len(),
{
    if i < ops.len() - 1 {
        assert(st.drop_last()[i] == st[i]);
        strict_policy_all_or_nothing(f, base, ops.drop_last(), st.drop_last(), i);
        lemma_prefix_status(f, base, ops.drop_last(), st);
    } else {
        lemma_failure_in_range(f, base, ops.drop_last(), st);
        assert(verdict(f, st[i]) == Verdict::Fatal);
    }
}

/// A failed run names one of its operands.
proof fn lemma_failure_in_range(f: PolicyFlags, base: Seq<char>, ops: Seq<Seq<char>>, st: Seq<OpenStatus>)
    ensures
        resolve_model(f, base, ops, st) matches Err(j) ==> 0 <= j < ops.len(),
    decreases ops.len(),
{
    if ops.len() > 0 {
        lemma_failure_in_range(f, base, ops.drop_last(), st);
    }
}

/// The model of a prefix reads only the statuses of that prefix.
proof fn lemma_prefix_status(f: PolicyFlags, base: Seq<char>, ops: Seq<Seq<char>>, st: Seq<OpenStatus>)
    requires
        ops.len() < st.len(),
    ensures
        resolve_model(f, base, ops, st) == resolve_model(f, base, ops, st.drop_last()),
    decreases ops.len(),
{
    if ops.len() > 0 {
        lemma_prefix_status(f, base, ops.drop_last(), st);
    }
}

/// Soft-strict policy: the output is exactly the paths of the operands whose
/// files could be opened, in their original order, and never longer than
/// the input.
pub proof fn soft_strict_keeps_opened(
    f: PolicyFlags,
    base: Seq<char>,
    ops: Seq<Seq<char>>,
    st: Seq<OpenStatus>,
)
    requires
        f.soft_strict && !f.compare,
        flags_valid(f),
        st.len() == ops.len(),
        none_denied(st),
    ensures
        !creates(f),
        resolve_model(f, base, ops, st) == Ok::<Seq<Seq<char>>, int>(opened_paths(base, ops, st)),
        opened_paths(base, ops, st).len() <= ops.len(),
    decreases ops.len(),
{
    if ops.len() > 0 {
        soft_strict_keeps_opened(f, base, ops.drop_last(), st.drop_last());
        lemma_prefix_status(f, base, ops.drop_last(), st);
        lemma_opened_prefix(base, ops.drop_last(), st);
        assert(!(st[ops.len() - 1] is Denied));
    }
}

/// The opened paths of a prefix read only the statuses of that prefix.
proof fn lemma_opened_prefix(base: Seq<char>, ops: Seq<Seq<char>>, st: Seq<OpenStatus>)
    requires
        ops.len() < st.len(),
    ensures
        opened_paths(base, ops, st) == opened_paths(base, ops, st.drop_last()),
    decreases ops.len(),
{
    if ops.len() > 0 {
        lemma_opened_prefix(base, ops.drop_last(), st);
    }
}

/// Compare mode on two files that both exist: both are kept and handed to
/// the hex viewer's diff.
pub proof fn compare_two_existing(
    f: PolicyFlags,
    base: Seq<char>,
    ops: Seq<Seq<char>>,
    st: Seq<OpenStatus>,
)
    requires
        f.compare,
        flags_valid(f),
        ops.len() == 2,
        st.len() == 2,
        st[0] is Opened,
        st[1] is Opened,
    ensures
        run_check(f, ops) is Ok,
        resolve_model(f, base, ops, st) == Ok::<Seq<Seq<char>>, int>(
            seq![absolute_path(ops[0], base), absolute_path(ops[1], base)],
        ),
        launch_plan(f, seq![absolute_path(ops[0], base), absolute_path(ops[1], base)]) == Ok::<
            _,
            ConfigError,
        >(
            seq![
                (
                    Program::Hexf,
                    seq!["-d"@, absolute_path(ops[0], base), absolute_path(ops[1], base)],
                    false,
                ),
            ],
        ),
{
    lemma_all_kept(f, base, ops, st);
    assert(all_paths(base, ops) == seq![absolute_path(ops[0], base), absolute_path(ops[1], base)]);
}

/// Compare mode with any number of operands other than two is a
/// configuration error, whatever exists on disk; and no launch is planned
/// for a number of paths other than two.
pub proof fn compare_needs_two(f: PolicyFlags, ops: Seq<Seq<char>>, paths: Seq<Seq<char>>)
    requires
        f.compare,
        flags_valid(f),
        ops.len() != 2,
        paths.len() != 2,
    ensures
        run_check(f, ops) == Err::<(), ConfigError>(ConfigError::CompareNeedsTwo),
        launch_plan(f, paths) == Err::<Seq<(Program, Seq<Seq<char>>, bool)>, ConfigError>(
            ConfigError::CompareNeedsTwo,
        ),
{
}

/// Compare mode with soft-strict: missing files are created rather than
/// failing, so both operands are kept unless an open is refused for lack of
/// permission.
pub proof fn compare_soft_creates(
    f: PolicyFlags,
    base: Seq<char>,
    ops: Seq<Seq<char>>,
    st: Seq<OpenStatus>,
    why: String,
)
    requires
        f.compare && f.soft_strict,
        flags_valid(f),
        st.len() == ops.len(),
        none_denied(st),
    ensures
        creates(f),
        verdict(f, OpenStatus::Failed(why)) == Verdict::Keep,
        resolve_model(f, base, ops, st) == Ok::<Seq<Seq<char>>, int>(all_paths(base, ops)),
{
    lemma_all_kept(f, base, ops, st);
}

/// The flag check refuses exactly the combinations strict with soft-strict,
/// hex-only with hex-also, and compare with strict, hex-only or hex-also;
/// compare with soft-strict passes. A refused run never gets a resolver.
pub proof fn conflicting_flags_refused(f: PolicyFlags, ops: Seq<Seq<char>>)
    ensures
        flag_check(f) is Err <==> ((f.strict && f.soft_strict) || (f.hexf_only && f.hexf_also) || (
        f.compare && (f.strict || f.hexf_only || f.hexf_also))),
        flag_check(f) is Err ==> run_check(f, ops) is Err,
{
}

} // verus!
