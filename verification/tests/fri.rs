use stone_prover_sdk::fri::{
    ceil_log2, compute_fri_steps, generate_prover_parameters, DefaultFriComputer, FriComputer,
    L1VerifierFriComputer,
};
use stone_prover_sdk::models::Verifier;

fn total(steps: &[u32]) -> u64 {
    let mut sum: u64 = 0;
    for step in steps {
        sum += u64::from(*step);
    }
    sum
}

#[test]
fn test_ceil_log2_of_two() {
    assert_eq!(ceil_log2(2), 1);
}

#[test]
fn test_ceil_log2_of_power_of_two() {
    assert_eq!(ceil_log2(32), 5);
}

#[test]
fn test_ceil_log2_rounds_up() {
    assert_eq!(ceil_log2(1000), 10);
}

#[test]
fn test_ceil_log2_of_large_power_of_two() {
    assert_eq!(ceil_log2(524288), 19);
}

#[test]
fn test_ceil_log2_of_one_is_zero() {
    assert_eq!(ceil_log2(1), 0);
}

#[test]
fn test_ceil_log2_around_a_power_of_two() {
    assert_eq!(ceil_log2(3), 2);
    assert_eq!(ceil_log2(4), 2);
    assert_eq!(ceil_log2(5), 3);
    assert_eq!(ceil_log2(63), 6);
    assert_eq!(ceil_log2(64), 6);
    assert_eq!(ceil_log2(65), 7);
}

#[test]
fn test_ceil_log2_of_the_largest_inputs() {
    assert_eq!(ceil_log2(1 << 31), 31);
    assert_eq!(ceil_log2((1 << 31) + 1), 32);
    assert_eq!(ceil_log2(u32::MAX), 32);
}

#[test]
fn test_compute_fri_steps_with_remainder() {
    assert_eq!(compute_fri_steps(15, 6, 4), vec![4, 4, 4, 1]);
}

#[test]
fn test_compute_fri_steps_without_remainder() {
    assert_eq!(compute_fri_steps(10, 6, 4), vec![4, 4]);
    assert_eq!(compute_fri_steps(15, 5, 2), vec![2, 2, 2, 2, 2, 2, 2]);
}

#[test]
fn test_compute_fri_steps_with_only_a_remainder() {
    assert_eq!(compute_fri_steps(5, 6, 4), vec![3]);
}

#[test]
fn test_compute_fri_steps_with_an_empty_budget() {
    assert_eq!(compute_fri_steps(2, 6, 4), Vec::<u32>::new());
}

#[test]
fn test_compute_fri_steps_where_the_last_layer_exceeds_the_budget() {
    assert_eq!(compute_fri_steps(0, 6, 4), Vec::<u32>::new());
    assert_eq!(compute_fri_steps(1, 6, 2), Vec::<u32>::new());
}

#[test]
fn test_compute_fri_steps_with_steps_of_one() {
    assert_eq!(compute_fri_steps(1, 2, 1), vec![1, 1, 1]);
}

#[test]
fn test_compute_fri_parameters_default_32768() {
    let fri_parameters = DefaultFriComputer.compute_fri_parameters(32768);
    assert_eq!(fri_parameters.fri_step_list, vec![4, 4, 4, 1]);
    assert_eq!(fri_parameters.last_layer_degree_bound, 64);
}

#[test]
fn test_compute_fri_parameters_default_524288() {
    let fri_parameters = DefaultFriComputer.compute_fri_parameters(524288);
    assert_eq!(fri_parameters.fri_step_list, vec![4, 4, 4, 4, 1]);
    assert_eq!(fri_parameters.last_layer_degree_bound, 64);
}

#[test]
fn test_compute_fri_parameters_default_768() {
    let fri_parameters = DefaultFriComputer.compute_fri_parameters(768);
    assert_eq!(fri_parameters.fri_step_list, vec![4, 4]);
    assert_eq!(fri_parameters.last_layer_degree_bound, 64);
}

#[test]
fn test_compute_fri_parameters_l1_verifier_32768() {
    let fri_parameters = L1VerifierFriComputer.compute_fri_parameters(32768);
    assert_eq!(fri_parameters.fri_step_list, vec![0, 2, 2, 2, 2, 2, 2, 2]);
    assert_eq!(fri_parameters.last_layer_degree_bound, 32);
}

#[test]
fn test_compute_fri_parameters_l1_verifier_524288() {
    let fri_parameters = L1VerifierFriComputer.compute_fri_parameters(524288);
    assert_eq!(fri_parameters.fri_step_list, vec![0, 2, 2, 2, 2, 2, 2, 2, 2, 2]);
    assert_eq!(fri_parameters.last_layer_degree_bound, 32);
}

#[test]
fn test_compute_fri_parameters_l1_verifier_768() {
    let fri_parameters = L1VerifierFriComputer.compute_fri_parameters(768);
    assert_eq!(fri_parameters.fri_step_list, vec![0, 2, 2, 2, 2]);
    assert_eq!(fri_parameters.last_layer_degree_bound, 64);
}

#[test]
fn test_fri_parameters_fix_queries_and_proof_of_work() {
    let default = DefaultFriComputer.compute_fri_parameters(32768);
    assert_eq!(default.n_queries, 18);
    assert_eq!(default.proof_of_work_bits, 24);
    let l1 = L1VerifierFriComputer.compute_fri_parameters(32768);
    assert_eq!(l1.n_queries, 18);
    assert_eq!(l1.proof_of_work_bits, 24);
}

#[test]
fn test_compute_fri_parameters_default_for_the_shortest_runs() {
    for nb_steps in [1u32, 2, 3, 4] {
        let fri_parameters = DefaultFriComputer.compute_fri_parameters(nb_steps);
        assert_eq!(fri_parameters.fri_step_list, Vec::<u32>::new());
        assert_eq!(fri_parameters.last_layer_degree_bound, 64);
    }
    let fri_parameters = DefaultFriComputer.compute_fri_parameters(5);
    assert_eq!(fri_parameters.fri_step_list, vec![1]);
}

#[test]
fn test_compute_fri_parameters_l1_verifier_for_the_shortest_runs() {
    let one = L1VerifierFriComputer.compute_fri_parameters(1);
    assert_eq!(one.fri_step_list, vec![0]);
    assert_eq!(one.last_layer_degree_bound, 64);
    let two = L1VerifierFriComputer.compute_fri_parameters(2);
    assert_eq!(two.fri_step_list, vec![0]);
    assert_eq!(two.last_layer_degree_bound, 32);
    let four = L1VerifierFriComputer.compute_fri_parameters(4);
    assert_eq!(four.fri_step_list, vec![0]);
    assert_eq!(four.last_layer_degree_bound, 64);
    let eight = L1VerifierFriComputer.compute_fri_parameters(8);
    assert_eq!(eight.fri_step_list, vec![0, 2]);
    assert_eq!(eight.last_layer_degree_bound, 32);
}

#[test]
fn test_compute_fri_parameters_for_the_longest_run() {
    let default = DefaultFriComputer.compute_fri_parameters(u32::MAX);
    assert_eq!(default.fri_step_list, vec![4, 4, 4, 4, 4, 4, 4, 2]);
    assert_eq!(default.last_layer_degree_bound, 64);
    let l1 = L1VerifierFriComputer.compute_fri_parameters(u32::MAX);
    assert_eq!(l1.fri_step_list, vec![0, 2, 2, 2, 2, 2, 2, 2, 2, 2, 2, 2, 2, 2, 2, 2]);
    assert_eq!(l1.last_layer_degree_bound, 64);
}

#[test]
fn test_default_schedule_balances_the_folding_identity() {
    let mut nb_steps: u32 = 3;
    while nb_steps < 3_000_000 {
        let fri_parameters = DefaultFriComputer.compute_fri_parameters(nb_steps);
        let spent = total(&fri_parameters.fri_step_list)
            + u64::from(ceil_log2(fri_parameters.last_layer_degree_bound));
        assert_eq!(spent, u64::from(ceil_log2(nb_steps)) + 4);
        for step in &fri_parameters.fri_step_list {
            assert!(1 <= *step && *step <= 4);
        }
        nb_steps = nb_steps + nb_steps / 3 + 1;
    }
}

#[test]
fn test_l1_schedule_balances_the_folding_identity() {
    let mut nb_steps: u32 = 2;
    while nb_steps < 3_000_000 {
        let fri_parameters = L1VerifierFriComputer.compute_fri_parameters(nb_steps);
        let spent = total(&fri_parameters.fri_step_list)
            + u64::from(ceil_log2(fri_parameters.last_layer_degree_bound));
        assert_eq!(spent, u64::from(ceil_log2(nb_steps)) + 4);
        assert_eq!(fri_parameters.fri_step_list[0], 0);
        for step in &fri_parameters.fri_step_list[1..] {
            assert_eq!(*step, 2);
        }
        assert!(fri_parameters.last_layer_degree_bound.is_power_of_two());
        nb_steps = nb_steps + nb_steps / 3 + 1;
    }
}

#[test]
fn test_schedules_of_the_shortest_runs_stay_within_one_step() {
    for nb_steps in [1u32, 2] {
        let fri_parameters = DefaultFriComputer.compute_fri_parameters(nb_steps);
        let spent = total(&fri_parameters.fri_step_list)
            + u64::from(ceil_log2(fri_parameters.last_layer_degree_bound));
        let owed = u64::from(ceil_log2(nb_steps)) + 4;
        assert!(owed <= spent && spent <= owed + 4);
    }
    let fri_parameters = L1VerifierFriComputer.compute_fri_parameters(1);
    let spent = total(&fri_parameters.fri_step_list)
        + u64::from(ceil_log2(fri_parameters.last_layer_degree_bound));
    assert_eq!(spent, 6);
}

#[test]
fn test_generate_prover_parameters_for_stone() {
    let parameters = generate_prover_parameters(32768, Verifier::Stone);
    assert_eq!(parameters.field, "PrimeField0");
    assert_eq!(parameters.stark.log_n_cosets, 4);
    assert!(!parameters.use_extension_field);
    assert_eq!(parameters.stark.fri, DefaultFriComputer.compute_fri_parameters(32768));
    assert_eq!(parameters.stark.fri.fri_step_list, vec![4, 4, 4, 1]);
    assert_eq!(parameters.stark.fri.last_layer_degree_bound, 64);
    assert_eq!(parameters.stark.fri.n_queries, 18);
    assert_eq!(parameters.stark.fri.proof_of_work_bits, 24);
}

#[test]
fn test_generate_prover_parameters_for_l1() {
    let parameters = generate_prover_parameters(32768, Verifier::L1);
    assert_eq!(parameters.field, "PrimeField0");
    assert_eq!(parameters.stark.log_n_cosets, 4);
    assert!(!parameters.use_extension_field);
    assert_eq!(parameters.stark.fri, L1VerifierFriComputer.compute_fri_parameters(32768));
    assert_eq!(parameters.stark.fri.fri_step_list, vec![0, 2, 2, 2, 2, 2, 2, 2]);
    assert_eq!(parameters.stark.fri.last_layer_degree_bound, 32);
}
