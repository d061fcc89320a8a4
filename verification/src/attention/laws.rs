//! What holds of attention tuning as a whole.

use crate::attention::inputs::{same_call, Degrade, Inputs};
use crate::attention::key::{has_key, problem_of};
use crate::attention::tune::{
    accelerates, call_of, decimal, has_accelerated, name_of, priority_of, strategies,
    AttentionCall, AttentionStrategy, AttentionTunable, AttentionTunableSet, PRIORITY_HIGH,
    PRIORITY_LOW, PRIORITY_MAX, PRIORITY_MIN,
};
use cubecl::ir::features::MmaConfig;
use cubecl::ir::{ElemType, FloatKind};
use cubek::attention::forward::routines::blackbox_accelerated::BlackboxAcceleratedStrategy;
use vstd::prelude::*;

verus! {

/// The candidate at `i`, of those of [`strategies`], is at the level `priority`.
pub open spec fn at_level(
    i: int,
    priority: i8,
    seq_q: usize,
    head_dim: usize,
    has_accelerated: bool,
) -> bool {
    0 <= i < strategies().len() && priority_of(strategies()[i], seq_q, head_dim, has_accelerated)
        == priority
}

/// The candidate at `i` is the fallback.
pub open spec fn is_fallback(i: int) -> bool {
    i == 0
}

/// The candidate at `i` is an accelerated kernel.
pub open spec fn is_blackbox(i: int) -> bool {
    1 <= i <= 3
}

/// The candidate at `i` is the unit kernel.
pub open spec fn is_unit(i: int) -> bool {
    i == 4
}

/// The positions of the candidates are those of the strategies that they run.
pub proof fn law_positions(i: int)
    requires
        0 <= i < strategies().len(),
    ensures
        is_fallback(i) <==> strategies()[i] is Fallback,
        is_blackbox(i) <==> strategies()[i] is FlashBlackboxAccelerated,
        is_unit(i) <==> strategies()[i] is FlashUnit,
{
}

/// The levels of a short shape, `seq_q <= head_dim`, with an accelerator: the fallback with the
/// accelerated kernels, then the unit kernel.
pub proof fn law_levels_short(i: int, seq_q: usize, head_dim: usize)
    requires
        seq_q <= head_dim,
    ensures
        at_level(i, PRIORITY_MAX, seq_q, head_dim, true) <==> is_fallback(i) || is_blackbox(i),
        !at_level(i, PRIORITY_HIGH, seq_q, head_dim, true),
        at_level(i, PRIORITY_LOW, seq_q, head_dim, true) <==> is_unit(i),
        !at_level(i, PRIORITY_MIN, seq_q, head_dim, true),
{
}

/// The levels of a short shape without an accelerator: the fallback, then the unit kernel with
/// the accelerated kernels, which are not supported.
pub proof fn law_levels_short_unaccelerated(i: int, seq_q: usize, head_dim: usize)
    requires
        seq_q <= head_dim,
    ensures
        at_level(i, PRIORITY_MAX, seq_q, head_dim, false) <==> is_fallback(i),
        !at_level(i, PRIORITY_HIGH, seq_q, head_dim, false),
        at_level(i, PRIORITY_LOW, seq_q, head_dim, false) <==> is_blackbox(i) || is_unit(i),
        !at_level(i, PRIORITY_MIN, seq_q, head_dim, false),
{
}

/// The levels of a longer shape with an accelerator: the accelerated kernels, then the
/// fallback, then the unit kernel.
pub proof fn law_levels_long(i: int, seq_q: usize, head_dim: usize)
    requires
        seq_q > head_dim,
    ensures
        at_level(i, PRIORITY_MAX, seq_q, head_dim, true) <==> is_blackbox(i),
        at_level(i, PRIORITY_HIGH, seq_q, head_dim, true) <==> is_fallback(i),
        at_level(i, PRIORITY_LOW, seq_q, head_dim, true) <==> is_unit(i),
        !at_level(i, PRIORITY_MIN, seq_q, head_dim, true),
{
}

/// The levels of a longer shape without an accelerator: the unit kernel with the accelerated
/// kernels, which are not supported, then the fallback.
pub proof fn law_levels_long_unaccelerated(i: int, seq_q: usize, head_dim: usize)
    requires
        seq_q > head_dim,
    ensures
        !at_level(i, PRIORITY_MAX, seq_q, head_dim, false),
        !at_level(i, PRIORITY_HIGH, seq_q, head_dim, false),
        at_level(i, PRIORITY_LOW, seq_q, head_dim, false) <==> is_blackbox(i) || is_unit(i),
        at_level(i, PRIORITY_MIN, seq_q, head_dim, false) <==> is_fallback(i),
{
}

/// Every candidate is at one of the four levels. A tuner skips a negative priority, so none of
/// them is skipped and the plan is never empty.
pub proof fn law_no_candidate_skipped(
    i: int,
    seq_q: usize,
    head_dim: usize,
    has_accelerated: bool,
)
    requires
        0 <= i < strategies().len(),
    ensures
        PRIORITY_MIN <= priority_of(strategies()[i], seq_q, head_dim, has_accelerated)
            <= PRIORITY_MAX,
        PRIORITY_MIN >= 0,
{
}

/// A tuner that tries the levels from the highest down stops at `priority`: some candidate of
/// that level runs, and none of a higher one does.
pub open spec fn settles_at(
    runs: spec_fn(int) -> bool,
    priority: i8,
    seq_q: usize,
    head_dim: usize,
    has_accelerated: bool,
) -> bool {
    &&& exists|i: int|
        #[trigger] at_level(i, priority, seq_q, head_dim, has_accelerated) && runs(i)
    &&& forall|i: int, higher: i8|
        higher > priority && #[trigger] at_level(i, higher, seq_q, head_dim, has_accelerated)
            ==> !runs(i)
}

/// The fallback always runs, so the tuner always settles, at the level of the fallback or
/// above it.
pub proof fn law_tuner_settles(
    runs: spec_fn(int) -> bool,
    seq_q: usize,
    head_dim: usize,
    has_accelerated: bool,
)
    requires
        runs(0),
    ensures
        exists|priority: i8|
            #[trigger] settles_at(runs, priority, seq_q, head_dim, has_accelerated) && priority
                >= priority_of(
                AttentionStrategy::Fallback,
                seq_q,
                head_dim,
                has_accelerated,
            ),
{
    let fallback = priority_of(
        AttentionStrategy::Fallback,
        seq_q,
        head_dim,
        has_accelerated,
    );
    assert(at_level(0, fallback, seq_q, head_dim, has_accelerated));
    lemma_settles_above(runs, fallback, seq_q, head_dim, has_accelerated);
}

proof fn lemma_settles_above(
    runs: spec_fn(int) -> bool,
    priority: i8,
    seq_q: usize,
    head_dim: usize,
    has_accelerated: bool,
)
    requires
        exists|i: int|
            #[trigger] at_level(i, priority, seq_q, head_dim, has_accelerated) && runs(i),
    ensures
        exists|settled: i8|
            #[trigger] settles_at(runs, settled, seq_q, head_dim, has_accelerated) && settled
                >= priority,
    decreases PRIORITY_MAX - priority,
{
    if !settles_at(runs, priority, seq_q, head_dim, has_accelerated) {
        let (i, higher) = choose|i: int, higher: i8|
            higher > priority && #[trigger] at_level(i, higher, seq_q, head_dim, has_accelerated)
                && runs(i);
        law_no_candidate_skipped(i, seq_q, head_dim, has_accelerated);
        lemma_settles_above(runs, higher, seq_q, head_dim, has_accelerated);
    }
}

/// On a long shape with an accelerator where no accelerated kernel launches, the tuner settles
/// on the fallback alone and never gets to the unit kernel.
pub proof fn law_fallback_before_unit(
    runs: spec_fn(int) -> bool,
    i: int,
    seq_q: usize,
    head_dim: usize,
)
    requires
        seq_q > head_dim,
        runs(0),
        forall|j: int| is_blackbox(j) ==> !#[trigger] runs(j),
    ensures
        settles_at(runs, PRIORITY_HIGH, seq_q, head_dim, true),
        at_level(i, PRIORITY_HIGH, seq_q, head_dim, true) ==> is_fallback(i),
{
    assert(at_level(0, PRIORITY_HIGH, seq_q, head_dim, true));
}

/// On a long shape without an accelerator where the unit kernel runs, the tuner settles on the
/// flash kernels, and the score matrix is never allocated.
pub proof fn law_unit_before_fallback(
    runs: spec_fn(int) -> bool,
    i: int,
    seq_q: usize,
    head_dim: usize,
)
    requires
        seq_q > head_dim,
        runs(4),
    ensures
        settles_at(runs, PRIORITY_LOW, seq_q, head_dim, false),
        at_level(i, PRIORITY_LOW, seq_q, head_dim, false) ==> !is_fallback(i),
{
    assert(at_level(4, PRIORITY_LOW, seq_q, head_dim, false));
}

/// The fallback is at the first level exactly while its score matrix, of
/// `batches * heads * seq_q * seq_kv` elements, is no bigger than an activation that the model
/// already produces, of `batches * seq_kv * (heads * head_dim)`.
pub proof fn law_score_matrix_bound(
    batches: nat,
    heads: nat,
    seq_q: usize,
    seq_kv: nat,
    head_dim: usize,
    has_accelerated: bool,
)
    requires
        batches > 0,
        heads > 0,
        seq_kv > 0,
    ensures
        priority_of(AttentionStrategy::Fallback, seq_q, head_dim, has_accelerated) == PRIORITY_MAX
            <==> (batches * heads) * seq_q * seq_kv <= batches * seq_kv * (heads * head_dim),
{
    let unit = batches * heads * seq_kv;
    assert(unit > 0) by (nonlinear_arith)
        requires
            batches > 0,
            heads > 0,
            seq_kv > 0,
            unit == batches * heads * seq_kv,
    ;
    assert((batches * heads) * seq_q * seq_kv == unit * seq_q) by (nonlinear_arith)
        requires
            unit == batches * heads * seq_kv,
    ;
    assert(batches * seq_kv * (heads * head_dim) == unit * head_dim) by (nonlinear_arith)
        requires
            unit == batches * heads * seq_kv,
    ;
    assert(unit * seq_q <= unit * head_dim <==> seq_q <= head_dim) by (nonlinear_arith)
        requires
            unit > 0,
    ;
}

/// The results of tuning are kept under the names of the candidates, and no two of them share
/// one.
pub proof fn law_names_distinct(i: int, j: int)
    requires
        0 <= i < j < strategies().len(),
    ensures
        name_of(strategies()[i]) != name_of(strategies()[j]),
{
    reveal_strlit("blackbox_accelerated_");
    reveal_strlit("_planes_p_");
    reveal_strlit("-");
    reveal_strlit("unit");
    reveal_strlit("fallback");
    let a = name_of(strategies()[i]);
    let b = name_of(strategies()[j]);
    if is_blackbox(i) && is_blackbox(j) {
        assert(a[21] != b[21]);
    } else {
        assert(a[0] != b[0]);
    }
}

/// What a call runs, if anything: the strategy itself where it launches, otherwise the fallback
/// where the call may degrade to it.
pub open spec fn what_runs(call: AttentionCall, launches: bool) -> Option<AttentionStrategy> {
    match call {
        AttentionCall::Attention(strategy) => if launches {
            Some(strategy)
        } else {
            None
        },
        AttentionCall::AttentionDegrading(strategy, degrade) => if launches {
            Some(strategy)
        } else if degrade == Degrade::ToFallback {
            Some(AttentionStrategy::Fallback)
        } else {
            None
        },
    }
}

/// A benchmark times its candidate or fails: with the inputs of a benchmark a flash kernel that
/// cannot launch the shape loses, and does not stand in for the fallback.
pub proof fn law_benchmark_times_its_candidate<H: Clone>(
    strategy: AttentionStrategy,
    benchmark: Inputs<H>,
    launches: bool,
)
    requires
        benchmark.degrade == Degrade::Never,
    ensures
        what_runs(call_of(strategy, benchmark.degrade), launches) == (if launches {
            Some(strategy)
        } else {
            None
        }),
{
}

/// A winner runs on the inputs of a call even where it cannot launch their shape: a flash
/// kernel then gives way to the fallback.
pub proof fn law_winner_always_runs<H: Clone>(
    strategy: AttentionStrategy,
    call: Inputs<H>,
    launches: bool,
)
    requires
        call.degrade == Degrade::ToFallback,
        strategy is Fallback ==> launches,
    ensures
        what_runs(call_of(strategy, call.degrade), launches) == Some(
            if launches {
                strategy
            } else {
                AttentionStrategy::Fallback
            },
        ),
{
}

/// The benchmark inputs of a call pose the problem that the call poses.
pub proof fn law_benchmark_poses_the_same_problem<H: Clone>(call: Inputs<H>, benchmark: Inputs<H>)
    requires
        same_call(call, benchmark),
    ensures
        has_key(call) == has_key(benchmark),
        problem_of(call) == problem_of(benchmark),
{
}

/// Whether the matrix instruction multiplies half-precision tiles: both of its operands are.
pub open spec fn is_half(config: MmaConfig) -> bool {
    &&& config.a_type == ElemType::Float(FloatKind::F16)
    &&& config.b_type == ElemType::Float(FloatKind::F16)
}

/// A device is accelerated by any of its matrix instructions, wherever it is listed, and by
/// nothing else.
pub proof fn law_accelerated_by_any_instruction(cmma: Seq<MmaConfig>)
    ensures
        accelerates(cmma) <==> exists|i: int| 0 <= i < cmma.len() && is_half(#[trigger] cmma[i]),
{
    if exists|i: int| 0 <= i < cmma.len() && is_half(#[trigger] cmma[i]) {
        let i = choose|i: int| 0 <= i < cmma.len() && is_half(#[trigger] cmma[i]);
        assert(is_half(cmma[i]));
    }
}

/// A device with the instructions of two lists is accelerated where either list accelerates it:
/// more instructions, before or after, never take an accelerator away.
pub proof fn law_accelerated_by_either_list(a: Seq<MmaConfig>, b: Seq<MmaConfig>)
    ensures
        accelerates(a + b) <==> accelerates(a) || accelerates(b),
{
    law_accelerated_by_any_instruction(a);
    law_accelerated_by_any_instruction(b);
    law_accelerated_by_any_instruction(a + b);
    let all = a + b;
    if accelerates(a) {
        let i = choose|i: int| 0 <= i < a.len() && is_half(#[trigger] a[i]);
        assert(is_half(all[i]));
    }
    if accelerates(b) {
        let i = choose|i: int| 0 <= i < b.len() && is_half(#[trigger] b[i]);
        assert(is_half(all[a.len() + i]));
    }
    if accelerates(all) {
        let i = choose|i: int| 0 <= i < all.len() && is_half(#[trigger] all[i]);
        if i < a.len() {
            assert(is_half(a[i]));
        } else {
            assert(is_half(b[i - a.len()]));
        }
    }
}

/// Whether a device is accelerated does not depend on the order in which its instructions are
/// listed.
pub proof fn law_accelerated_in_any_order(a: Seq<MmaConfig>, b: Seq<MmaConfig>)
    requires
        a.to_multiset() == b.to_multiset(),
    ensures
        accelerates(a) <==> accelerates(b),
{
    a.to_multiset_ensures();
    b.to_multiset_ensures();
    law_accelerated_by_any_instruction(a);
    law_accelerated_by_any_instruction(b);
    if accelerates(a) {
        let i = choose|i: int| 0 <= i < a.len() && is_half(#[trigger] a[i]);
        assert(a.contains(a[i]));
        assert(b.to_multiset().count(a[i]) > 0);
        assert(b.contains(a[i]));
        let j = choose|j: int| 0 <= j < b.len() && b[j] == a[i];
        assert(is_half(b[j]));
    }
    if accelerates(b) {
        let i = choose|i: int| 0 <= i < b.len() && is_half(#[trigger] b[i]);
        assert(b.contains(b[i]));
        assert(a.to_multiset().count(b[i]) > 0);
        assert(a.contains(b[i]));
        let j = choose|j: int| 0 <= j < a.len() && a[j] == b[i];
        assert(is_half(a[j]));
    }
}

/// The four levels are tried one after the other, and none of them is negative.
pub proof fn law_levels_are_ordered()
    ensures
        PRIORITY_MAX > PRIORITY_HIGH > PRIORITY_LOW > PRIORITY_MIN >= 0,
{
}

/// An accelerated kernel is at the first level where the device has an accelerator and beside the
/// unit kernel where it has none, whatever its sizes and the shape are.
pub proof fn law_accelerated_kernels_rank_alike(
    sizes: BlackboxAcceleratedStrategy,
    seq_q: usize,
    head_dim: usize,
    has_accelerated: bool,
)
    ensures
        ({
            let blackbox = priority_of(
                AttentionStrategy::FlashBlackboxAccelerated(sizes),
                seq_q,
                head_dim,
                has_accelerated,
            );
            let unit = priority_of(
                AttentionStrategy::FlashUnit,
                seq_q,
                head_dim,
                has_accelerated,
            );
            &&& unit == PRIORITY_LOW
            &&& has_accelerated ==> blackbox == PRIORITY_MAX
            &&& !has_accelerated ==> blackbox == unit
        }),
{
}

/// The fallback ranks first where the queries are no more than the channels of a head. Where they
/// are more, it ranks between the accelerated kernels and the unit kernel with an accelerator, and
/// behind all of them without one.
pub proof fn law_fallback_ranks_by_shape(
    sizes: BlackboxAcceleratedStrategy,
    seq_q: usize,
    head_dim: usize,
    has_accelerated: bool,
)
    ensures
        ({
            let fallback = priority_of(
                AttentionStrategy::Fallback,
                seq_q,
                head_dim,
                has_accelerated,
            );
            let blackbox = priority_of(
                AttentionStrategy::FlashBlackboxAccelerated(sizes),
                seq_q,
                head_dim,
                has_accelerated,
            );
            let unit = priority_of(
                AttentionStrategy::FlashUnit,
                seq_q,
                head_dim,
                has_accelerated,
            );
            &&& seq_q <= head_dim ==> fallback == PRIORITY_MAX && fallback >= blackbox && fallback
                > unit
            &&& seq_q > head_dim && has_accelerated ==> fallback == PRIORITY_HIGH && blackbox
                > fallback > unit
            &&& seq_q > head_dim && !has_accelerated ==> fallback == PRIORITY_MIN && fallback
                < blackbox && fallback < unit
        }),
{
}

/// More queries never raise the fallback, and wider heads never lower it.
pub proof fn law_fallback_falls_with_queries(
    seq_q: usize,
    longer: usize,
    head_dim: usize,
    wider: usize,
    has_accelerated: bool,
)
    requires
        seq_q <= longer,
        head_dim <= wider,
    ensures
        priority_of(AttentionStrategy::Fallback, longer, head_dim, has_accelerated)
            <= priority_of(AttentionStrategy::Fallback, seq_q, wider, has_accelerated),
{
}

/// The fallback is called as it is. Every flash kernel is called with its own sizes and with what
/// the inputs let it do.
pub proof fn law_calls_run_their_candidate(strategy: AttentionStrategy, degrade: Degrade)
    ensures
        match call_of(strategy, degrade) {
            AttentionCall::Attention(run) => strategy is Fallback && run is Fallback,
            AttentionCall::AttentionDegrading(run, given) => {
                &&& !(strategy is Fallback)
                &&& run == strategy
                &&& given == degrade
            },
        },
{
}

/// The candidates of a device are the fallback, three accelerated kernels on one tile of queries
/// and one of keys, each on twice the planes of the one before, and the unit kernel. Each has its
/// own name.
pub proof fn law_set_holds_every_candidate(set: AttentionTunableSet)
    requires
        set.wf(),
    ensures
        set.tunables@.len() == 5,
        set.tunables@[0].strategy is Fallback,
        set.tunables@[4].strategy is FlashUnit,
        forall|i: int|
            1 <= i <= 3 ==> match (#[trigger] set.tunables@[i]).strategy {
                AttentionStrategy::FlashBlackboxAccelerated(sizes) => {
                    &&& i == 1 ==> sizes.num_planes == 2
                    &&& i == 2 ==> sizes.num_planes == 4
                    &&& i == 3 ==> sizes.num_planes == 8
                    &&& sizes.seq_q == 1
                    &&& sizes.seq_kv == 1
                },
                _ => false,
            },
        forall|i: int|
            0 <= i < 5 ==> (#[trigger] set.tunables@[i]).name@ == name_of(set.tunables@[i].strategy),
{
}

/// The value of a digit.
pub open spec fn digit(c: char) -> int {
    c as int - '0' as int
}

/// The number that the digits are written for.
pub open spec fn number(digits: Seq<char>) -> int
    decreases digits.len(),
{
    if digits.len() == 0 {
        0
    } else {
        number(digits.drop_last()) * 10 + digit(digits.last())
    }
}

/// The digits of a number are written for that number, and begin with no zero that could be left
/// out.
pub proof fn law_digits_are_those_of_the_number(n: nat)
    ensures
        number(decimal(n)) == n,
        decimal(n).len() > 0,
        forall|i: int| 0 <= i < decimal(n).len() ==> 0 <= digit(#[trigger] decimal(n)[i]) <= 9,
        decimal(n).len() > 1 ==> digit(decimal(n)[0]) > 0,
    decreases n,
{
    let last = ('0' as u32 + n % 10) as char;
    assert(digit(last) == n % 10);
    if n < 10 {
        assert(decimal(n) =~= seq![last]);
        assert(decimal(n).drop_last() =~= seq![]);
        assert(number(decimal(n).drop_last()) == 0);
    } else {
        law_digits_are_those_of_the_number(n / 10);
        assert(decimal(n).drop_last() =~= decimal(n / 10));
        assert(decimal(n).last() == last);
        if decimal(n / 10).len() == 1 {
            assert(decimal(n / 10).drop_last() =~= seq![]);
            assert(number(decimal(n / 10).drop_last()) == 0);
        }
    }
}

/// The name of an accelerated kernel tells its planes and its tiles, and the other candidates are
/// named after what they are.
pub proof fn law_names_tell_the_sizes(sizes: BlackboxAcceleratedStrategy)
    ensures
        name_of(AttentionStrategy::FlashBlackboxAccelerated(sizes)) == "blackbox_accelerated_"@
            + decimal(sizes.num_planes as nat) + "_planes_p_"@ + decimal(sizes.seq_q as nat)
            + "-"@ + decimal(sizes.seq_kv as nat),
        name_of(AttentionStrategy::FlashUnit) == "unit"@,
        name_of(AttentionStrategy::Fallback) == "fallback"@,
{
}

/// A device is told to be accelerated by any of its instructions, and is still told so when more
/// of them are listed behind or before.
pub proof fn law_devices_are_told_to_be_accelerated(
    cmma: Vec<MmaConfig>,
    more: Vec<MmaConfig>,
    both: Vec<MmaConfig>,
    accelerated: bool,
    by_more: bool,
    by_both: bool,
)
    requires
        both@ == cmma@ + more@,
        call_ensures(has_accelerated, (&cmma,), accelerated),
        call_ensures(has_accelerated, (&more,), by_more),
        call_ensures(has_accelerated, (&both,), by_both),
    ensures
        accelerated <==> exists|i: int| 0 <= i < cmma@.len() && is_half(#[trigger] cmma@[i]),
        by_both <==> accelerated || by_more,
{
    law_accelerated_by_any_instruction(cmma@);
    law_accelerated_by_either_list(cmma@, more@);
}

/// The set of a device holds every candidate, under its name, and knows whether any instruction of
/// the device accelerates it.
pub proof fn law_sets_are_made_for_the_device(cmma: Vec<MmaConfig>, set: AttentionTunableSet)
    requires
        call_ensures(AttentionTunableSet::new, (&cmma,), set),
    ensures
        set.wf(),
        set.tunables@.len() == 5,
        set.has_accelerated <==> exists|i: int|
            0 <= i < cmma@.len() && is_half(#[trigger] cmma@[i]),
{
    law_accelerated_by_any_instruction(cmma@);
}

/// A candidate is named after what it runs, runs what it was made for, and ranks and is called by
/// that alone.
pub proof fn law_candidates_are_what_they_run(
    strategy: AttentionStrategy,
    tunable: AttentionTunable,
    seq_q: usize,
    head_dim: usize,
    has_accelerated: bool,
    priority: i8,
    degrade: Degrade,
    call: AttentionCall,
)
    requires
        call_ensures(AttentionTunable::new, (strategy,), tunable),
        call_ensures(
            AttentionTunable::priority,
            (&tunable, seq_q, head_dim, has_accelerated),
            priority,
        ),
        call_ensures(AttentionTunable::call, (&tunable, degrade), call),
    ensures
        tunable.strategy == strategy,
        tunable.name@ == name_of(strategy),
        priority == match strategy {
            AttentionStrategy::FlashUnit => PRIORITY_LOW,
            AttentionStrategy::FlashBlackboxAccelerated(_) => if has_accelerated {
                PRIORITY_MAX
            } else {
                PRIORITY_LOW
            },
            AttentionStrategy::Fallback => if seq_q <= head_dim {
                PRIORITY_MAX
            } else if has_accelerated {
                PRIORITY_HIGH
            } else {
                PRIORITY_MIN
            },
        },
        match call {
            AttentionCall::Attention(run) => strategy is Fallback && run is Fallback,
            AttentionCall::AttentionDegrading(run, given) => {
                &&& !(strategy is Fallback)
                &&& run == strategy
                &&& given == degrade
            },
        },
{
    law_calls_run_their_candidate(strategy, degrade);
}

/// A set ranks each of its candidates as the candidate ranks itself on the device of the set, in
/// one group, which is at the first level.
pub proof fn law_sets_rank_their_candidates(
    set: AttentionTunableSet,
    candidate: usize,
    seq_q: usize,
    head_dim: usize,
    priority: i8,
    own: i8,
    group: i8,
    name: &'static str,
)
    requires
        set.wf(),
        candidate < 5,
        call_ensures(AttentionTunableSet::priority, (&set, candidate, seq_q, head_dim), priority),
        call_ensures(
            AttentionTunable::priority,
            (&set.tunables@[candidate as int], seq_q, head_dim, set.has_accelerated),
            own,
        ),
        call_ensures(AttentionTunableSet::group_priority, (&set,), group),
        call_ensures(AttentionTunableSet::group_name, (&set,), name),
    ensures
        priority == own,
        group == PRIORITY_MAX,
        name@ == "attention"@,
{
    assert(set.tunables@[candidate as int].strategy == strategies()[candidate as int]);
}

} // verus!
