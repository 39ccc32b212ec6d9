//! The FRI folding schedule for a run of a given length.
//!
//! A prover and a verifier agree on the schedule through the identity
//! `log2(steps) + 4 = log2(last_layer_degree_bound) + sum(fri_step_list)`.
//! The functions here pick the last layer degree bound and split the
//! remaining budget of folding exponents into steps that the chosen verifier
//! accepts.

use vstd::prelude::*;
use vstd::arithmetic::power2::{pow2, lemma2_to64, lemma_pow2_strictly_increases};
use crate::models::{FriParameters, FriParametersView, ProverParameters, StarkParameters, Verifier};

verus! {

/// The last layer degree bound that both policies start from.
pub const DEFAULT_LAST_LAYER_DEGREE_BOUND: u32 = 64;

/// The number of queries of every schedule.
pub const DEFAULT_N_QUERIES: u32 = 18;

/// The proof-of-work difficulty of every schedule.
pub const DEFAULT_PROOF_OF_WORK_BITS: u32 = 24;

/// The largest folding exponent of the default policy.
pub const DEFAULT_MAX_STEP: u32 = 4;

/// The largest folding exponent that the L1 verifier accepts.
pub const L1_MAX_STEP: u32 = 2;

/// `n` is the smallest exponent with `x <= 2^n`.
pub open spec fn is_ceil_log2(x: nat, n: nat) -> bool {
    &&& x <= pow2(n)
    &&& forall|m: nat| x <= #[trigger] pow2(m) ==> n <= m
}

/// The smallest exponent `n` with `x <= 2^n`.
pub open spec fn ceil_log2_of(x: nat) -> nat {
    choose|n: nat| is_ceil_log2(x, n)
}

/// Powers of two grow with the exponent.
pub proof fn lemma_pow2_monotonic(a: nat, b: nat)
    requires
        a <= b,
    ensures
        pow2(a) <= pow2(b),
{
    if a < b {
        lemma_pow2_strictly_increases(a, b);
    }
}

/// At most one exponent is the rounded-up logarithm of `x`, and it is the
/// value of `ceil_log2_of`.
pub proof fn lemma_ceil_log2_unique(x: nat, n: nat)
    requires
        is_ceil_log2(x, n),
    ensures
        ceil_log2_of(x) == n,
{
    let c = ceil_log2_of(x);
    assert(is_ceil_log2(x, c));
    assert(x <= pow2(n));
    assert(x <= pow2(c));
}

/// The rounded-up logarithm is characterised by the two neighbouring powers.
pub proof fn lemma_ceil_log2_between(x: nat, n: nat)
    requires
        x <= pow2(n),
        n > 0 ==> pow2((n - 1) as nat) < x,
    ensures
        is_ceil_log2(x, n),
        ceil_log2_of(x) == n,
{
    assert forall|m: nat| x <= #[trigger] pow2(m) implies n <= m by {
        if m < n {
            lemma_pow2_monotonic(m, (n - 1) as nat);
        }
    }
    lemma_ceil_log2_unique(x, n);
}

/// `u32::ilog2` rounds the base 2 logarithm down, and is defined for every
/// number but zero.
pub assume_specification[ u32::ilog2 ](x: u32) -> (log: u32)
    requires
        x > 0,
    ensures
        pow2(log as nat) <= x < pow2(log as nat + 1),
;

/// `u32::is_power_of_two` holds exactly of the numbers `2^k`.
pub assume_specification[ u32::is_power_of_two ](x: u32) -> (yes: bool)
    ensures
        yes <==> exists|k: nat| x == pow2(k),
;

/// The base 2 logarithm of `x`, rounded up.
pub fn ceil_log2(x: u32) -> (log: u32)
    requires
        x >= 1,
    ensures
        log == ceil_log2_of(x as nat),
        is_ceil_log2(x as nat, log as nat),
        log <= 32,
{
    let floor = x.ilog2();
    let exact = x.is_power_of_two();
    proof {
        lemma2_to64();
        if floor >= 32 {
            lemma_pow2_monotonic(32, floor as nat);
        }
    }
    if exact {
        proof {
            let k = choose|k: nat| x == pow2(k);
            if k < floor {
                lemma_pow2_strictly_increases(k, floor as nat);
            }
            if k > floor {
                lemma_pow2_monotonic(floor as nat + 1, k);
            }
            assert(k == floor);
            assert forall|m: nat| x as nat <= #[trigger] pow2(m) implies floor as nat <= m by {
                if m < floor {
                    lemma_pow2_strictly_increases(m, floor as nat);
                }
            }
            lemma_ceil_log2_unique(x as nat, floor as nat);
        }
        floor
    } else {
        proof {
            assert forall|m: nat| x as nat <= #[trigger] pow2(m) implies floor as nat + 1 <= m by {
                if m <= floor {
                    lemma_pow2_monotonic(m, floor as nat);
                    assert(x == pow2(m));
                }
            }
            lemma_ceil_log2_unique(x as nat, floor as nat + 1);
        }
        floor + 1
    }
}

/// The total of folding exponents still to be spent once the last layer is
/// set aside: `total_log + 4 - last_layer_log`, and nothing where the last
/// layer alone already exceeds the budget.
pub open spec fn folding_budget(total_log: nat, last_layer_log: nat) -> nat {
    if total_log + 4 >= last_layer_log {
        (total_log + 4 - last_layer_log) as nat
    } else {
        0
    }
}

/// `count` steps that all fold by `step`.
pub open spec fn repeated_step(step: u32, count: nat) -> Seq<u32> {
    Seq::new(count, |i: int| step)
}

/// A budget of folding exponents split into steps of at most `max_step`:
/// as many full steps as fit, then the remainder if there is one.
pub open spec fn fri_steps(budget: nat, max_step: nat) -> Seq<u32>
    recommends
        max_step > 0,
{
    let full = repeated_step(max_step as u32, budget / max_step);
    if budget % max_step > 0 {
        full.push((budget % max_step) as u32)
    } else {
        full
    }
}

/// The sum of the folding exponents of a schedule.
pub open spec fn steps_total(steps: Seq<u32>) -> nat
    decreases steps.len(),
{
    if steps.len() == 0 {
        0
    } else {
        steps_total(steps.drop_last()) + steps.last() as nat
    }
}

/// A run of `count` equal steps sums to `count * step`.
pub proof fn lemma_steps_total_constant(count: nat, step: u32)
    ensures
        steps_total(repeated_step(step, count)) == count * step as nat,
    decreases count,
{
    let run = repeated_step(step, count);
    if count == 0 {
        assert(count * step as nat == 0) by (nonlinear_arith)
            requires
                count == 0,
        ;
    } else {
        let shorter = (count - 1) as nat;
        assert(run.drop_last() =~= repeated_step(step, shorter));
        assert(run.last() == step);
        lemma_steps_total_constant(shorter, step);
        assert(count * step as nat == shorter * step as nat + step as nat) by (nonlinear_arith)
            requires
                count == shorter + 1,
        ;
    }
}

/// The steps of a schedule spend the budget exactly, and none exceeds the
/// largest step or is zero. Counted as full steps they overshoot the budget by
/// less than one step, and where the largest step divides the budget every
/// step is a full one.
pub proof fn lemma_fri_steps_spend_budget(budget: nat, max_step: nat)
    requires
        0 < max_step <= u32::MAX,
    ensures
        steps_total(fri_steps(budget, max_step)) == budget,
        budget <= fri_steps(budget, max_step).len() * max_step < budget + max_step,
        forall|i: int|
            0 <= i < fri_steps(budget, max_step).len() ==> 1 <= #[trigger] fri_steps(
                budget,
                max_step,
            )[i] <= max_step,
        budget % max_step == 0 ==> forall|i: int|
            0 <= i < fri_steps(budget, max_step).len() ==> #[trigger] fri_steps(
                budget,
                max_step,
            )[i] == max_step,
{
    let count = budget / max_step;
    let rest = budget % max_step;
    let full = repeated_step(max_step as u32, count);
    lemma_steps_total_constant(count, max_step as u32);
    assert(budget == count * max_step + rest) by (nonlinear_arith)
        requires
            count == budget / max_step,
            rest == budget % max_step,
            max_step > 0,
    ;
    if rest > 0 {
        assert(full.push(rest as u32).drop_last() =~= full);
        assert((count + 1) * max_step == count * max_step + max_step) by (nonlinear_arith);
    }
}

/// Splits the budget `nb_steps_log + 4 - last_layer_degree_bound_log` into
/// folding exponents of at most `max_step_value`.
///
/// * `nb_steps_log`: the rounded-up logarithm of the number of steps of the run.
/// * `last_layer_degree_bound_log`: the logarithm of the last layer degree bound.
/// * `max_step_value`: the largest exponent that a single layer may fold by.
pub fn compute_fri_steps(
    nb_steps_log: u32,
    last_layer_degree_bound_log: u32,
    max_step_value: u32,
) -> (fri_steps: Vec<u32>)
    requires
        max_step_value > 0,
    ensures
        fri_steps@ == self::fri_steps(
            folding_budget(nb_steps_log as nat, last_layer_degree_bound_log as nat),
            max_step_value as nat,
        ),
{
    let available: u64 = nb_steps_log as u64 + 4;
    let sum_of_fri_steps: u64 = if available >= last_layer_degree_bound_log as u64 {
        available - last_layer_degree_bound_log as u64
    } else {
        0
    };
    let quotient: u64 = sum_of_fri_steps / (max_step_value as u64);
    let remainder: u64 = sum_of_fri_steps % (max_step_value as u64);

    let mut fri_steps: Vec<u32> = Vec::new();
    let mut emitted: u64 = 0;
    while emitted < quotient
        invariant
            emitted <= quotient,
            fri_steps@ == repeated_step(max_step_value, emitted as nat),
        decreases quotient - emitted,
    {
        fri_steps.push(max_step_value);
        emitted += 1;
        assert(fri_steps@ =~= repeated_step(max_step_value, emitted as nat));
    }
    if remainder > 0 {
        fri_steps.push(remainder as u32);
    }
    fri_steps
}

/// Every number of steps that fits in 32 bits has a rounded-up logarithm, of
/// at most 32.
pub proof fn lemma_ceil_log2_exists(x: nat)
    requires
        x <= u32::MAX,
    ensures
        is_ceil_log2(x, ceil_log2_of(x)),
        ceil_log2_of(x) <= 32,
{
    lemma2_to64();
    lemma_ceil_log2_search(x, 32);
}

/// Below any exponent whose power reaches `x` lies the smallest such exponent.
proof fn lemma_ceil_log2_search(x: nat, n: nat)
    requires
        x <= pow2(n),
    ensures
        is_ceil_log2(x, ceil_log2_of(x)),
        ceil_log2_of(x) <= n,
    decreases n,
{
    if n > 0 && x <= pow2((n - 1) as nat) {
        lemma_ceil_log2_search(x, (n - 1) as nat);
    } else {
        lemma_ceil_log2_between(x, n);
    }
}

/// The logarithms of the two last layer degree bounds in use.
pub proof fn lemma_ceil_log2_of_bounds()
    ensures
        ceil_log2_of(64) == 6,
        ceil_log2_of(32) == 5,
{
    lemma2_to64();
    lemma_ceil_log2_between(64, 6);
    lemma_ceil_log2_between(32, 5);
}

/// The schedule of the default policy: the last layer degree bound is 64 and
/// a layer folds by at most 4.
pub open spec fn default_fri_parameters(nb_steps: nat) -> FriParametersView {
    FriParametersView {
        fri_step_list: fri_steps(
            folding_budget(
                ceil_log2_of(nb_steps),
                ceil_log2_of(DEFAULT_LAST_LAYER_DEGREE_BOUND as nat),
            ),
            DEFAULT_MAX_STEP as nat,
        ),
        last_layer_degree_bound: DEFAULT_LAST_LAYER_DEGREE_BOUND,
        n_queries: DEFAULT_N_QUERIES,
        proof_of_work_bits: DEFAULT_PROOF_OF_WORK_BITS,
    }
}

/// The last layer degree bound of the L1 policy: 64, halved once where the
/// logarithm of the number of steps and that of 64 differ by an odd number.
pub open spec fn l1_last_layer_degree_bound(nb_steps: nat) -> u32 {
    let distance = ceil_log2_of(nb_steps) - ceil_log2_of(
        DEFAULT_LAST_LAYER_DEGREE_BOUND as nat,
    );
    if distance % 2 != 0 {
        (DEFAULT_LAST_LAYER_DEGREE_BOUND / 2) as u32
    } else {
        DEFAULT_LAST_LAYER_DEGREE_BOUND
    }
}

/// The schedule of the L1 policy: a leading step of 0, then steps of at most 2
/// over the budget that the adjusted last layer leaves.
pub open spec fn l1_fri_parameters(nb_steps: nat) -> FriParametersView {
    let bound = l1_last_layer_degree_bound(nb_steps);
    FriParametersView {
        fri_step_list: seq![0u32] + fri_steps(
            folding_budget(ceil_log2_of(nb_steps), ceil_log2_of(bound as nat)),
            L1_MAX_STEP as nat,
        ),
        last_layer_degree_bound: bound,
        n_queries: DEFAULT_N_QUERIES,
        proof_of_work_bits: DEFAULT_PROOF_OF_WORK_BITS,
    }
}

/// A policy that derives the FRI parameters from the number of steps of a run.
pub trait FriComputer {
    /// The parameters that the policy assigns to a run of `nb_steps` steps.
    spec fn fri_parameters(&self, nb_steps: u32) -> FriParametersView;

    /// The parameters for a run of `nb_steps` steps, which is at least 1.
    fn compute_fri_parameters(&self, nb_steps: u32) -> (parameters: FriParameters)
        requires
            nb_steps >= 1,
        ensures
            parameters@ == self.fri_parameters(nb_steps),
            parameters@.well_formed(),
    ;
}

/// The policy of the Stone verifier.
pub struct DefaultFriComputer;

impl FriComputer for DefaultFriComputer {
    open spec fn fri_parameters(&self, nb_steps: u32) -> FriParametersView {
        default_fri_parameters(nb_steps as nat)
    }

    fn compute_fri_parameters(&self, nb_steps: u32) -> (parameters: FriParameters) {
        let last_layer_degree_bound = DEFAULT_LAST_LAYER_DEGREE_BOUND;

        let nb_steps_log = ceil_log2(nb_steps);
        let last_layer_degree_bound_log = ceil_log2(last_layer_degree_bound);
        let max_step_value = DEFAULT_MAX_STEP;

        let fri_steps = compute_fri_steps(
            nb_steps_log,
            last_layer_degree_bound_log,
            max_step_value,
        );
        proof {
            lemma_default_schedule_balances(nb_steps);
        }

        FriParameters {
            fri_step_list: fri_steps,
            last_layer_degree_bound,
            n_queries: DEFAULT_N_QUERIES,
            proof_of_work_bits: DEFAULT_PROOF_OF_WORK_BITS,
        }
    }
}

/// The policy of the L1 verifier, which accepts folding exponents 0, 1 and 2
/// and wants the first to be 0.
pub struct L1VerifierFriComputer;

impl FriComputer for L1VerifierFriComputer {
    open spec fn fri_parameters(&self, nb_steps: u32) -> FriParametersView {
        l1_fri_parameters(nb_steps as nat)
    }

    fn compute_fri_parameters(&self, nb_steps: u32) -> (parameters: FriParameters) {
        let max_step_value = L1_MAX_STEP;

        let nb_steps_log = ceil_log2(nb_steps);

        let mut last_layer_degree_bound = DEFAULT_LAST_LAYER_DEGREE_BOUND;
        let mut last_layer_degree_bound_log = ceil_log2(last_layer_degree_bound);
        proof {
            lemma_ceil_log2_of_bounds();
        }
        // A last step of 1 is avoided by halving the last layer degree bound
        // where the two logarithms differ by an odd number.
        if nb_steps_log % 2 != last_layer_degree_bound_log % 2 {
            last_layer_degree_bound /= 2;
            last_layer_degree_bound_log -= 1;
        }
        // The first step must be 0.

        let mut fri_steps: Vec<u32> = Vec::new();
        fri_steps.push(0);
        let mut folding_steps = compute_fri_steps(
            nb_steps_log,
            last_layer_degree_bound_log,
            max_step_value,
        );
        fri_steps.append(&mut folding_steps);
        proof {
            assert(fri_steps@ =~= l1_fri_parameters(nb_steps as nat).fri_step_list);
            lemma_l1_schedule_balances(nb_steps);
        }

        FriParameters {
            fri_step_list: fri_steps,
            last_layer_degree_bound,
            n_queries: DEFAULT_N_QUERIES,
            proof_of_work_bits: DEFAULT_PROOF_OF_WORK_BITS,
        }
    }
}

/// The parameters that `verifier` wants for a run of `nb_steps` steps.
pub open spec fn fri_parameters_for(nb_steps: nat, verifier: Verifier) -> FriParametersView {
    match verifier {
        Verifier::L1 => l1_fri_parameters(nb_steps),
        Verifier::Stone => default_fri_parameters(nb_steps),
    }
}

/// Derives the prover parameters from the length of a run.
///
/// * `nb_steps`: the number of steps of the run, at least 1.
/// * `verifier`: the verifier that the proof is meant for.
pub fn generate_prover_parameters(
    nb_steps: u32,
    verifier: Verifier,
) -> (parameters: ProverParameters)
    requires
        nb_steps >= 1,
    ensures
        parameters.field@ == "PrimeField0"@,
        parameters.stark.fri@ == fri_parameters_for(nb_steps as nat, verifier),
        parameters.stark.fri@.well_formed(),
        verifier == Verifier::L1 ==> parameters.stark.fri@.accepted_by_l1(),
        parameters.stark.log_n_cosets == 4,
        !parameters.use_extension_field,
{
    proof {
        lemma_l1_schedule_balances(nb_steps);
    }
    let fri_parameters = match verifier {
        Verifier::L1 => L1VerifierFriComputer.compute_fri_parameters(nb_steps),
        Verifier::Stone => DefaultFriComputer.compute_fri_parameters(nb_steps),
    };
    ProverParameters {
        field: "PrimeField0".to_string(),
        stark: StarkParameters { fri: fri_parameters, log_n_cosets: 4 },
        use_extension_field: false,
    }
}

/// The total of a schedule made of two parts is the sum of their totals.
pub proof fn lemma_steps_total_concat(front: Seq<u32>, back: Seq<u32>)
    ensures
        steps_total(front + back) == steps_total(front) + steps_total(back),
    decreases back.len(),
{
    if back.len() == 0 {
        assert(front + back =~= front);
    } else {
        assert((front + back).drop_last() =~= front + back.drop_last());
        lemma_steps_total_concat(front, back.drop_last());
    }
}

/// The default policy balances the identity
/// `log2(steps) + 4 = log2(last_layer_degree_bound) + sum(fri_step_list)`:
/// exactly for every run of at least 3 steps, and for the two shorter runs,
/// whose budget is used up by the last layer alone, to within one step of 4.
/// With every step counted as a full step of 4 the identity is overshot by
/// less than one step. Every step folds by 1 to 4, and the last layer degree
/// bound is a power of two.
pub proof fn lemma_default_schedule_balances(nb_steps: u32)
    requires
        nb_steps >= 1,
    ensures
        ({
            let parameters = default_fri_parameters(nb_steps as nat);
            let spent = steps_total(parameters.fri_step_list) + ceil_log2_of(
                parameters.last_layer_degree_bound as nat,
            );
            let owed = ceil_log2_of(nb_steps as nat) + 4;
            &&& owed <= spent <= owed + DEFAULT_MAX_STEP
            &&& nb_steps >= 3 ==> spent == owed
            &&& nb_steps >= 3 ==> owed <= parameters.fri_step_list.len() * DEFAULT_MAX_STEP
                + ceil_log2_of(parameters.last_layer_degree_bound as nat) < owed
                + DEFAULT_MAX_STEP
            &&& forall|i: int|
                0 <= i < parameters.fri_step_list.len() ==> 1
                    <= #[trigger] parameters.fri_step_list[i] <= DEFAULT_MAX_STEP
            &&& parameters.last_layer_degree_bound == pow2(6)
            &&& parameters.well_formed()
        }),
{
    let total_log = ceil_log2_of(nb_steps as nat);
    lemma2_to64();
    lemma_ceil_log2_of_bounds();
    lemma_ceil_log2_exists(nb_steps as nat);
    lemma_fri_steps_spend_budget(folding_budget(total_log, 6), DEFAULT_MAX_STEP as nat);
    if nb_steps >= 3 && total_log < 2 {
        lemma_pow2_monotonic(total_log, 1);
    }
}

/// The L1 policy balances the same identity: exactly for every run of at
/// least 2 steps, and for a run of a single step to within one step of 2. Its
/// schedule starts with a step of 0 and every later step folds by exactly 2,
/// so that the number of later steps times 2 balances the identity as well,
/// and its last layer degree bound is 32 or 64, a power of two.
pub proof fn lemma_l1_schedule_balances(nb_steps: u32)
    requires
        nb_steps >= 1,
    ensures
        ({
            let parameters = l1_fri_parameters(nb_steps as nat);
            let spent = steps_total(parameters.fri_step_list) + ceil_log2_of(
                parameters.last_layer_degree_bound as nat,
            );
            let owed = ceil_log2_of(nb_steps as nat) + 4;
            &&& owed <= spent <= owed + L1_MAX_STEP
            &&& nb_steps >= 2 ==> spent == owed
            &&& nb_steps >= 2 ==> (parameters.fri_step_list.len() - 1) * L1_MAX_STEP
                + ceil_log2_of(parameters.last_layer_degree_bound as nat) == owed
            &&& parameters.fri_step_list.len() >= 1
            &&& parameters.fri_step_list[0] == 0
            &&& forall|i: int|
                1 <= i < parameters.fri_step_list.len() ==> #[trigger] parameters.fri_step_list[i]
                    == L1_MAX_STEP
            &&& parameters.last_layer_degree_bound == pow2(5)
                || parameters.last_layer_degree_bound == pow2(6)
            &&& parameters.well_formed()
            &&& parameters.accepted_by_l1()
        }),
{
    let total_log = ceil_log2_of(nb_steps as nat);
    let bound = l1_last_layer_degree_bound(nb_steps as nat);
    let bound_log = ceil_log2_of(bound as nat);
    let budget = folding_budget(total_log, bound_log);
    let folding = fri_steps(budget, L1_MAX_STEP as nat);
    let parameters = l1_fri_parameters(nb_steps as nat);
    lemma2_to64();
    lemma_ceil_log2_of_bounds();
    lemma_ceil_log2_exists(nb_steps as nat);
    lemma_fri_steps_spend_budget(budget, L1_MAX_STEP as nat);
    lemma_steps_total_concat(seq![0u32], folding);
    assert(steps_total(seq![0u32]) == 0) by {
        assert(seq![0u32].drop_last() =~= Seq::<u32>::empty());
        assert(steps_total(Seq::<u32>::empty()) == 0);
    }
    assert(budget % 2 == 0);
    assert forall|i: int| 1 <= i < parameters.fri_step_list.len() implies #[trigger] parameters.fri_step_list[i]
        == L1_MAX_STEP by {
        assert(parameters.fri_step_list[i] == folding[i - 1]);
    }
    if nb_steps >= 2 && total_log < 1 {
        assert(pow2(total_log) == 1);
    }
}

} // verus!
