//! Plain data exchanged with the prover and the verifier.

use std::collections::HashMap;
use std::path::PathBuf;
use vstd::arithmetic::power2::pow2;
use vstd::prelude::*;
use vstd::string::*;

verus! {

/// Whether two strings hold the same characters.
fn same_text(left: &str, right: &str) -> (same: bool)
    ensures
        same == (left@ == right@),
{
    left.to_owned() == right.to_owned()
}

/// The verifier that a proof is meant for.
#[derive(Debug, Clone, Copy, PartialEq, Eq, Structural)]
pub enum Verifier {
    Stone,
    L1,
}

impl Verifier {
    /// The name that selects the verifier.
    pub open spec fn name(self) -> Seq<char> {
        match self {
            Verifier::Stone => "stone"@,
            Verifier::L1 => "l1"@,
        }
    }

    /// The verifier that `text` names, if it names one. Names are matched
    /// whole and case matters.
    pub open spec fn from_name(text: Seq<char>) -> Option<Verifier> {
        if text == "stone"@ {
            Some(Verifier::Stone)
        } else if text == "l1"@ {
            Some(Verifier::L1)
        } else {
            None
        }
    }

    /// What is reported for a text that names no verifier.
    pub open spec fn unknown(text: Seq<char>) -> Seq<char> {
        "unknown verifier: "@ + text
    }

    /// Reads a verifier from its name.
    pub fn from_str(s: &str) -> (parsed: Result<Verifier, String>)
        ensures
            match Verifier::from_name(s@) {
                Some(verifier) => parsed == Ok::<Verifier, String>(verifier),
                None => parsed.is_err() && parsed->Err_0@ == Verifier::unknown(s@),
            },
    {
        if same_text(s, "stone") {
            Ok(Verifier::Stone)
        } else if same_text(s, "l1") {
            Ok(Verifier::L1)
        } else {
            Err(String::from_str("unknown verifier: ").concat(s))
        }
    }

    /// The name of the verifier.
    pub fn to_string(&self) -> (text: String)
        ensures
            text@ == self.name(),
    {
        match self {
            Verifier::Stone => String::from_str("stone"),
            Verifier::L1 => String::from_str("l1"),
        }
    }

    /// Reading the name of a verifier gives that verifier back, and a text
    /// that is read as a verifier is its name.
    pub proof fn lemma_name_round_trip(self, text: Seq<char>)
        ensures
            Verifier::from_name(self.name()) == Some(self),
            Verifier::from_name(text) == Some(self) ==> text == self.name(),
    {
        reveal_strlit("stone");
        reveal_strlit("l1");
        assert("stone"@.len() != "l1"@.len());
    }
}

/// A named configuration of the machine.
#[derive(Debug, Clone, Copy, PartialEq, Eq, Structural)]
pub enum Layout {
    Plain,
    Small,
    Dex,
    Recursive,
    Starknet,
    RecursiveLargeOutput,
    AllCairo,
    AllSolidity,
    StarknetWithKeccak,
}

impl Layout {
    /// The name of the layout: lower case, words joined by underscores.
    pub open spec fn name(self) -> Seq<char> {
        match self {
            Layout::Plain => "plain"@,
            Layout::Small => "small"@,
            Layout::Dex => "dex"@,
            Layout::Recursive => "recursive"@,
            Layout::Starknet => "starknet"@,
            Layout::RecursiveLargeOutput => "recursive_large_output"@,
            Layout::AllCairo => "all_cairo"@,
            Layout::AllSolidity => "all_solidity"@,
            Layout::StarknetWithKeccak => "starknet_with_keccak"@,
        }
    }

    /// The layout that `text` names, if it names one. Names are matched
    /// whole: there are no aliases and no abbreviations.
    pub open spec fn from_name(text: Seq<char>) -> Option<Layout> {
        if text == "plain"@ {
            Some(Layout::Plain)
        } else if text == "small"@ {
            Some(Layout::Small)
        } else if text == "dex"@ {
            Some(Layout::Dex)
        } else if text == "recursive"@ {
            Some(Layout::Recursive)
        } else if text == "starknet"@ {
            Some(Layout::Starknet)
        } else if text == "recursive_large_output"@ {
            Some(Layout::RecursiveLargeOutput)
        } else if text == "all_cairo"@ {
            Some(Layout::AllCairo)
        } else if text == "all_solidity"@ {
            Some(Layout::AllSolidity)
        } else if text == "starknet_with_keccak"@ {
            Some(Layout::StarknetWithKeccak)
        } else {
            None
        }
    }

    /// What is reported for a text that names no layout.
    pub open spec fn unknown(text: Seq<char>) -> Seq<char> {
        "unknown variant `"@ + text
            + "`, expected one of `plain`, `small`, `dex`, `recursive`, `starknet`, `recursive_large_output`, `all_cairo`, `all_solidity`, `starknet_with_keccak`"@
    }

    /// Reads a layout from its name.
    pub fn from_str(s: &str) -> (parsed: Result<Layout, String>)
        ensures
            match Layout::from_name(s@) {
                Some(layout) => parsed == Ok::<Layout, String>(layout),
                None => parsed.is_err() && parsed->Err_0@ == Layout::unknown(s@),
            },
    {
        if same_text(s, "plain") {
            Ok(Layout::Plain)
        } else if same_text(s, "small") {
            Ok(Layout::Small)
        } else if same_text(s, "dex") {
            Ok(Layout::Dex)
        } else if same_text(s, "recursive") {
            Ok(Layout::Recursive)
        } else if same_text(s, "starknet") {
            Ok(Layout::Starknet)
        } else if same_text(s, "recursive_large_output") {
            Ok(Layout::RecursiveLargeOutput)
        } else if same_text(s, "all_cairo") {
            Ok(Layout::AllCairo)
        } else if same_text(s, "all_solidity") {
            Ok(Layout::AllSolidity)
        } else if same_text(s, "starknet_with_keccak") {
            Ok(Layout::StarknetWithKeccak)
        } else {
            Err(
                String::from_str("unknown variant `").concat(s).concat(
                    "`, expected one of `plain`, `small`, `dex`, `recursive`, `starknet`, `recursive_large_output`, `all_cairo`, `all_solidity`, `starknet_with_keccak`",
                ),
            )
        }
    }

    /// The name of the layout.
    pub fn to_string(&self) -> (text: String)
        ensures
            text@ == self.name(),
    {
        match self {
            Layout::Plain => String::from_str("plain"),
            Layout::Small => String::from_str("small"),
            Layout::Dex => String::from_str("dex"),
            Layout::Recursive => String::from_str("recursive"),
            Layout::Starknet => String::from_str("starknet"),
            Layout::RecursiveLargeOutput => String::from_str("recursive_large_output"),
            Layout::AllCairo => String::from_str("all_cairo"),
            Layout::AllSolidity => String::from_str("all_solidity"),
            Layout::StarknetWithKeccak => String::from_str("starknet_with_keccak"),
        }
    }

    /// Names and layouts correspond one to one: reading the name of a layout
    /// gives that layout back, and a text that is read as a layout is its
    /// name.
    pub proof fn lemma_name_round_trip(self, text: Seq<char>)
        ensures
            Layout::from_name(self.name()) == Some(self),
            Layout::from_name(text) == Some(self) ==> text == self.name(),
    {
        reveal_strlit("plain");
        reveal_strlit("small");
        reveal_strlit("dex");
        reveal_strlit("recursive");
        reveal_strlit("starknet");
        reveal_strlit("recursive_large_output");
        reveal_strlit("all_cairo");
        reveal_strlit("all_solidity");
        reveal_strlit("starknet_with_keccak");
        assert("plain"@.len() == 5);
        assert("small"@.len() == 5);
        assert("dex"@.len() == 3);
        assert("recursive"@.len() == 9);
        assert("starknet"@.len() == 8);
        assert("recursive_large_output"@.len() == 22);
        assert("all_cairo"@.len() == 9);
        assert("all_solidity"@.len() == 12);
        assert("starknet_with_keccak"@.len() == 20);
        assert("plain"@[0] == 'p' && "small"@[0] == 's');
        assert("recursive"@[0] == 'r' && "all_cairo"@[0] == 'a');
    }
}

/// How the prover caches low degree extensions.
#[derive(Debug, Clone, Copy, PartialEq, Eq, Structural)]
pub struct CachedLdeConfig {
    pub store_full_lde: bool,
    pub use_fft_for_eval: bool,
}

/// Tuning knobs of the prover.
#[derive(Debug, Clone, Copy, PartialEq, Eq, Structural)]
pub struct ProverConfig {
    pub cached_lde_config: CachedLdeConfig,
    pub constraint_polynomial_task_size: i32,
    pub n_out_of_memory_merkle_layers: i32,
    pub table_prover_n_tasks_per_segment: i32,
}

impl ProverConfig {
    /// The configuration that the prover is run with unless told otherwise.
    pub open spec fn standard() -> ProverConfig {
        ProverConfig {
            cached_lde_config: CachedLdeConfig { store_full_lde: false, use_fft_for_eval: false },
            constraint_polynomial_task_size: 256,
            n_out_of_memory_merkle_layers: 1,
            table_prover_n_tasks_per_segment: 32,
        }
    }
}

impl Default for ProverConfig {
    fn default() -> (config: ProverConfig)
        ensures
            config == ProverConfig::standard(),
    {
        ProverConfig {
            cached_lde_config: CachedLdeConfig { store_full_lde: false, use_fft_for_eval: false },
            constraint_polynomial_task_size: 256,
            n_out_of_memory_merkle_layers: 1,
            table_prover_n_tasks_per_segment: 32,
        }
    }
}

/// Parameters of the FRI protocol.
#[derive(Debug, PartialEq)]
pub struct FriParameters {
    pub fri_step_list: Vec<u32>,
    pub last_layer_degree_bound: u32,
    pub n_queries: u32,
    pub proof_of_work_bits: u32,
}

/// What a [`FriParameters`] value stands for in contracts.
pub ghost struct FriParametersView {
    pub fri_step_list: Seq<u32>,
    pub last_layer_degree_bound: u32,
    pub n_queries: u32,
    pub proof_of_work_bits: u32,
}

impl FriParametersView {
    /// The last layer degree bound is a power of two.
    pub open spec fn well_formed(self) -> bool {
        exists|exponent: nat| self.last_layer_degree_bound == pow2(exponent)
    }

    /// The L1 verifier takes the schedule: it starts with a step of 0, and
    /// every later step folds by 1 or 2.
    pub open spec fn accepted_by_l1(self) -> bool {
        &&& self.fri_step_list.len() >= 1
        &&& self.fri_step_list[0] == 0
        &&& forall|i: int|
            1 <= i < self.fri_step_list.len() ==> 1 <= #[trigger] self.fri_step_list[i] <= 2
    }
}

impl View for FriParameters {
    type V = FriParametersView;

    open spec fn view(&self) -> FriParametersView {
        FriParametersView {
            fri_step_list: self.fri_step_list@,
            last_layer_degree_bound: self.last_layer_degree_bound,
            n_queries: self.n_queries,
            proof_of_work_bits: self.proof_of_work_bits,
        }
    }
}

/// Parameters of the STARK protocol.
#[derive(Debug, PartialEq)]
pub struct StarkParameters {
    pub fri: FriParameters,
    pub log_n_cosets: i32,
}

/// Everything the prover is told about the protocol.
#[derive(Debug, PartialEq)]
pub struct ProverParameters {
    pub field: String,
    pub stark: StarkParameters,
    pub use_extension_field: bool,
}

/// Where a memory segment begins and where it stopped.
#[derive(Debug, Clone, Copy, PartialEq, Eq, Structural)]
pub struct MemorySegmentAddresses {
    pub begin_addr: u32,
    pub stop_ptr: u32,
}

/// One cell of the public memory.
#[derive(Debug, PartialEq)]
pub struct PublicMemoryEntry {
    pub address: u32,
    pub value: String,
    pub page: u32,
}

/// What a run discloses to the verifier.
#[derive(Debug, PartialEq)]
pub struct PublicInput {
    pub layout: Layout,
    pub rc_min: u32,
    pub rc_max: u32,
    pub n_steps: u32,
    pub memory_segments: HashMap<String, MemorySegmentAddresses>,
    pub public_memory: Vec<PublicMemoryEntry>,
    pub dynamic_params: Option<HashMap<String, u32>>,
}

/// The build of the prover that made a proof.
#[derive(Debug)]
pub struct ProofVersion {
    commit_hash: String,
    proof_hash: String,
    statement_name: String,
}

impl ProofVersion {
    /// The commit of the prover's sources.
    pub closed spec fn spec_commit_hash(&self) -> Seq<char> {
        self.commit_hash@
    }

    /// The hash function that the proof was made with.
    pub closed spec fn spec_proof_hash(&self) -> Seq<char> {
        self.proof_hash@
    }

    /// The name of the statement that was proved.
    pub closed spec fn spec_statement_name(&self) -> Seq<char> {
        self.statement_name@
    }

    /// A version made of its three parts.
    pub fn new(
        commit_hash: String,
        proof_hash: String,
        statement_name: String,
    ) -> (version: ProofVersion)
        ensures
            version.spec_commit_hash() == commit_hash@,
            version.spec_proof_hash() == proof_hash@,
            version.spec_statement_name() == statement_name@,
    {
        ProofVersion { commit_hash, proof_hash, statement_name }
    }

    /// The commit of the prover's sources.
    pub fn commit_hash(&self) -> (text: &str)
        ensures
            text@ == self.spec_commit_hash(),
    {
        self.commit_hash.as_str()
    }

    /// The hash function that the proof was made with.
    pub fn proof_hash(&self) -> (text: &str)
        ensures
            text@ == self.spec_proof_hash(),
    {
        self.proof_hash.as_str()
    }

    /// The name of the statement that was proved.
    pub fn statement_name(&self) -> (text: &str)
        ensures
            text@ == self.spec_statement_name(),
    {
        self.statement_name.as_str()
    }
}

/// A path of the file system, carried through as it is.
#[verifier::external_type_specification]
#[verifier::external_body]
pub struct ExPathBuf(PathBuf);

/// The files that the verifier writes when it is asked for annotations.
#[derive(Debug)]
pub struct ProofAnnotations {
    pub annotation_file: PathBuf,
    pub extra_output_file: PathBuf,
}

} // verus!
