use stone_prover_sdk::models::{CachedLdeConfig, Layout, ProofVersion, ProverConfig, Verifier};

fn all_layouts() -> Vec<(Layout, &'static str)> {
    vec![
        (Layout::Plain, "plain"),
        (Layout::Small, "small"),
        (Layout::Dex, "dex"),
        (Layout::Recursive, "recursive"),
        (Layout::Starknet, "starknet"),
        (Layout::RecursiveLargeOutput, "recursive_large_output"),
        (Layout::AllCairo, "all_cairo"),
        (Layout::AllSolidity, "all_solidity"),
        (Layout::StarknetWithKeccak, "starknet_with_keccak"),
    ]
}

#[test]
fn deserialize_layout_small() {
    let layout_str = String::from("small");
    let layout = Layout::from_str(&layout_str).unwrap();
    assert_eq!(layout, Layout::Small);
}

#[test]
fn deserialize_layout_starknet_with_keccak() {
    let layout_str = String::from("starknet_with_keccak");
    let layout = Layout::from_str(&layout_str).unwrap();
    assert_eq!(layout, Layout::StarknetWithKeccak);
}

#[test]
fn serialize_layout_small() {
    let layout_str = Layout::Small.to_string();
    assert_eq!(layout_str, "small");
}

#[test]
fn serialize_layout_starknet_with_keccak() {
    let layout_str = Layout::StarknetWithKeccak.to_string();
    assert_eq!(layout_str, "starknet_with_keccak");
}

#[test]
fn layout_names_round_trip() {
    for (layout, name) in all_layouts() {
        assert_eq!(layout.to_string(), name);
        assert_eq!(Layout::from_str(name), Ok(layout));
        assert_eq!(Layout::from_str(&layout.to_string()), Ok(layout));
    }
}

#[test]
fn layout_names_are_matched_whole() {
    for text in ["", "Small", "SMALL", "small ", " small", "starknet_with", "all-cairo", "stark"] {
        assert!(Layout::from_str(text).is_err());
    }
}

#[test]
fn unknown_layout_is_reported_with_the_known_names() {
    let expected = "unknown variant `big`, expected one of `plain`, `small`, `dex`, \
                    `recursive`, `starknet`, `recursive_large_output`, `all_cairo`, \
                    `all_solidity`, `starknet_with_keccak`";
    assert_eq!(Layout::from_str("big"), Err(String::from(expected)));
}

#[test]
fn verifier_is_read_from_its_name() {
    assert_eq!(Verifier::from_str("stone"), Ok(Verifier::Stone));
    assert_eq!(Verifier::from_str("l1"), Ok(Verifier::L1));
}

#[test]
fn verifier_names_round_trip() {
    for verifier in [Verifier::Stone, Verifier::L1] {
        assert_eq!(Verifier::from_str(&verifier.to_string()), Ok(verifier));
    }
    assert_eq!(Verifier::Stone.to_string(), "stone");
    assert_eq!(Verifier::L1.to_string(), "l1");
}

#[test]
fn unknown_verifier_is_reported() {
    assert_eq!(Verifier::from_str("L1"), Err(String::from("unknown verifier: L1")));
    assert_eq!(Verifier::from_str("Stone"), Err(String::from("unknown verifier: Stone")));
    assert_eq!(Verifier::from_str(""), Err(String::from("unknown verifier: ")));
    assert_eq!(Verifier::from_str("stone "), Err(String::from("unknown verifier: stone ")));
}

#[test]
fn prover_config_defaults() {
    let config = ProverConfig::default();
    assert_eq!(
        config,
        ProverConfig {
            cached_lde_config: CachedLdeConfig { store_full_lde: false, use_fft_for_eval: false },
            constraint_polynomial_task_size: 256,
            n_out_of_memory_merkle_layers: 1,
            table_prover_n_tasks_per_segment: 32,
        }
    );
}

#[test]
fn proof_version_keeps_its_parts() {
    let version = ProofVersion::new(
        String::from("abc123"),
        String::from("keccak256"),
        String::from("cpu_air"),
    );
    assert_eq!(version.commit_hash(), "abc123");
    assert_eq!(version.proof_hash(), "keccak256");
    assert_eq!(version.statement_name(), "cpu_air");
}
