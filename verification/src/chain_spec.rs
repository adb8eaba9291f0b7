//! Chain configurations: the genesis state and network identity of the
//! built-in development and local-testnet chains, assembled from
//! deterministically derived test keys.

use vstd::prelude::*;
use vstd::string::StringExecFns;

use crate::crypto::{ed25519_public_from_seed, ed25519_public_of, hard_seed,
    sr25519_public_from_seed, sr25519_public_of};
use crate::primitives::clone_bytes;
use crate::strutil::str_eq;

verus! {

/// The balance every endowed account starts with.
pub const ENDOWMENT: u128 = 1u128 << 60;

/// The minimum number of milliseconds between blocks, written into the
/// genesis timestamp configuration.
pub const MINIMUM_PERIOD: u64 = 1000;

/// The weight every initial finality authority votes with.
pub const AUTHORITY_WEIGHT: u64 = 1;

/// An account identifier: for an sr25519-derived test account, the 32 bytes
/// of its public key.
pub struct AccountId {
    pub bytes: Vec<u8>,
}

impl View for AccountId {
    type V = Seq<u8>;

    open spec fn view(&self) -> Seq<u8> {
        self.bytes@
    }
}

impl AccountId {
    /// An account identifier is 32 bytes long.
    pub open spec fn wf(&self) -> bool {
        self.bytes@.len() == 32
    }
}

impl Clone for AccountId {
    fn clone(&self) -> (r: Self)
        ensures
            r@ == self@,
    {
        AccountId { bytes: clone_bytes(&self.bytes) }
    }
}

/// A block-authoring authority: an sr25519 public key.
pub struct AuraId {
    pub bytes: Vec<u8>,
}

impl View for AuraId {
    type V = Seq<u8>;

    open spec fn view(&self) -> Seq<u8> {
        self.bytes@
    }
}

impl AuraId {
    /// An authoring key is 32 bytes long.
    pub open spec fn wf(&self) -> bool {
        self.bytes@.len() == 32
    }
}

impl Clone for AuraId {
    fn clone(&self) -> (r: Self)
        ensures
            r@ == self@,
    {
        AuraId { bytes: clone_bytes(&self.bytes) }
    }
}

/// A finality authority: an ed25519 public key.
pub struct GrandpaId {
    pub bytes: Vec<u8>,
}

impl View for GrandpaId {
    type V = Seq<u8>;

    open spec fn view(&self) -> Seq<u8> {
        self.bytes@
    }
}

impl GrandpaId {
    /// A finality key is 32 bytes long.
    pub open spec fn wf(&self) -> bool {
        self.bytes@.len() == 32
    }
}

impl Clone for GrandpaId {
    fn clone(&self) -> (r: Self)
        ensures
            r@ == self@,
    {
        GrandpaId { bytes: clone_bytes(&self.bytes) }
    }
}

/// Which cryptographic scheme a key is derived under.
#[derive(Clone, Copy, PartialEq, Eq, Structural, Debug)]
pub enum KeyScheme {
    Sr25519,
    Ed25519,
}

/// Generate a public key from a seed name, under the given scheme.
pub fn get_from_seed(scheme: KeyScheme, seed: &str) -> (r: Result<Vec<u8>, String>)
    ensures
        match r {
            Ok(v) => v@ == (match scheme {
                KeyScheme::Sr25519 => sr25519_public_of(seed@),
                KeyScheme::Ed25519 => ed25519_public_of(seed@),
            }) && v@.len() == 32,
            Err(e) => e@ == "invalid seed string"@,
        },
        hard_seed(seed@) ==> r is Ok,
{
    let derived = match scheme {
        KeyScheme::Sr25519 => sr25519_public_from_seed(seed),
        KeyScheme::Ed25519 => ed25519_public_from_seed(seed),
    };
    match derived {
        Some(v) => Ok(v),
        None => Err(String::from_str("invalid seed string")),
    }
}

/// Generate an account identifier from a seed name: the account of an
/// sr25519 test key is its 32 public-key bytes.
pub fn get_account_id_from_seed(seed: &str) -> (r: Result<AccountId, String>)
    ensures
        match r {
            Ok(a) => a@ == sr25519_public_of(seed@) && a.wf(),
            Err(e) => e@ == "invalid seed string"@,
        },
        hard_seed(seed@) ==> r is Ok,
{
    match get_from_seed(KeyScheme::Sr25519, seed) {
        Ok(v) => Ok(AccountId { bytes: v }),
        Err(e) => Err(e),
    }
}

/// Generate the authority keys (block authoring and finality) for a seed
/// name.
pub fn authority_keys_from_seed(seed: &str) -> (r: Result<(AuraId, GrandpaId), String>)
    ensures
        match r {
            Ok(keys) => keys.0@ == sr25519_public_of(seed@) && keys.0.wf() && keys.1@
                == ed25519_public_of(seed@) && keys.1.wf(),
            Err(e) => e@ == "invalid seed string"@,
        },
        hard_seed(seed@) ==> r is Ok,
{
    let aura = match get_from_seed(KeyScheme::Sr25519, seed) {
        Ok(v) => AuraId { bytes: v },
        Err(e) => {
            return Err(e);
        },
    };
    let grandpa = match get_from_seed(KeyScheme::Ed25519, seed) {
        Ok(v) => GrandpaId { bytes: v },
        Err(e) => {
            return Err(e);
        },
    };
    Ok((aura, grandpa))
}

/// The accounts of a list of seed names, in order.
pub fn accounts_from_seeds(seeds: &[&str]) -> (r: Result<Vec<AccountId>, String>)
    ensures
        match r {
            Ok(v) => v@.len() == seeds@.len() && forall|i: int|
                0 <= i < seeds@.len() ==> #[trigger] v@[i]@ == sr25519_public_of(seeds@[i]@)
                    && v@[i].wf(),
            Err(e) => e@ == "invalid seed string"@,
        },
        (forall|i: int| 0 <= i < seeds@.len() ==> #[trigger] hard_seed(seeds@[i]@)) ==> r is Ok,
{
    let mut v: Vec<AccountId> = Vec::new();
    let mut i: usize = 0;
    while i < seeds.len()
        invariant
            0 <= i <= seeds@.len(),
            v@.len() == i,
            forall|j: int|
                0 <= j < i ==> #[trigger] v@[j]@ == sr25519_public_of(seeds@[j]@) && v@[j].wf(),
        decreases seeds@.len() - i,
    {
        let seed: &&str = vstd::slice::slice_index_get(seeds, i);
        match get_account_id_from_seed(*seed) {
            Ok(a) => v.push(a),
            Err(e) => {
                return Err(e);
            },
        }
        i += 1;
    }
    Ok(v)
}

/// The authority key pairs of a list of seed names, in order.
pub fn authorities_from_seeds(seeds: &[&str]) -> (r: Result<Vec<(AuraId, GrandpaId)>, String>)
    ensures
        match r {
            Ok(v) => v@.len() == seeds@.len() && forall|i: int|
                0 <= i < seeds@.len() ==> ((#[trigger] v@[i]).0@ == sr25519_public_of(seeds@[i]@)
                    && v@[i].1@ == ed25519_public_of(seeds@[i]@) && v@[i].0.wf() && v@[i].1.wf()),
            Err(e) => e@ == "invalid seed string"@,
        },
        (forall|i: int| 0 <= i < seeds@.len() ==> #[trigger] hard_seed(seeds@[i]@)) ==> r is Ok,
{
    let mut v: Vec<(AuraId, GrandpaId)> = Vec::new();
    let mut i: usize = 0;
    while i < seeds.len()
        invariant
            0 <= i <= seeds@.len(),
            v@.len() == i,
            forall|j: int|
                0 <= j < i ==> ((#[trigger] v@[j]).0@ == sr25519_public_of(seeds@[j]@) && v@[j].1@
                    == ed25519_public_of(seeds@[j]@) && v@[j].0.wf() && v@[j].1.wf()),
        decreases seeds@.len() - i,
    {
        let seed: &&str = vstd::slice::slice_index_get(seeds, i);
        match authority_keys_from_seed(*seed) {
            Ok(keys) => v.push(keys),
            Err(e) => {
                return Err(e);
            },
        }
        i += 1;
    }
    Ok(v)
}

/// Genesis state of the system module: the runtime code blob.
pub struct SystemConfig {
    pub code: Vec<u8>,
}

/// Genesis balances: which accounts start endowed, and with how much.
pub struct BalancesConfig {
    pub balances: Vec<(AccountId, u128)>,
}

/// Genesis set of block-authoring authorities.
pub struct AuraConfig {
    pub authorities: Vec<AuraId>,
}

/// Genesis set of finality authorities, each with its voting weight.
pub struct GrandpaConfig {
    pub authorities: Vec<(GrandpaId, u64)>,
}

/// Genesis superuser account, if any.
pub struct SudoConfig {
    pub key: Option<AccountId>,
}

/// Genesis timestamp configuration.
pub struct TimestampConfig {
    pub minimum_period: u64,
}

/// The whole genesis state of a chain.
pub struct GenesisConfig {
    pub system: SystemConfig,
    pub balances: BalancesConfig,
    pub aura: AuraConfig,
    pub grandpa: GrandpaConfig,
    pub sudo: SudoConfig,
    pub timestamp: TimestampConfig,
}

/// What `testnet_genesis` promises of its result, for the given authority
/// key pairs, root account and endowed accounts.
pub open spec fn genesis_of(
    g: GenesisConfig,
    wasm: Seq<u8>,
    authorities: Seq<(Seq<u8>, Seq<u8>)>,
    root: Seq<u8>,
    endowed: Seq<Seq<u8>>,
) -> bool {
    &&& g.system.code@ == wasm
    &&& g.balances.balances@.len() == endowed.len()
    &&& forall|i: int|
        0 <= i < endowed.len() ==> #[trigger] g.balances.balances@[i].0@ == endowed[i]
            && g.balances.balances@[i].1 == ENDOWMENT
    &&& g.aura.authorities@.len() == authorities.len()
    &&& forall|i: int|
        0 <= i < authorities.len() ==> #[trigger] g.aura.authorities@[i]@ == authorities[i].0
    &&& g.grandpa.authorities@.len() == authorities.len()
    &&& forall|i: int|
        0 <= i < authorities.len() ==> #[trigger] g.grandpa.authorities@[i].0@ == authorities[i].1
            && g.grandpa.authorities@[i].1 == AUTHORITY_WEIGHT
    &&& g.sudo.key matches Some(k) && k@ == root
    &&& g.timestamp.minimum_period == MINIMUM_PERIOD
}

/// The view of a sequence of authority key pairs.
pub open spec fn authorities_view(v: Seq<(AuraId, GrandpaId)>) -> Seq<(Seq<u8>, Seq<u8>)> {
    v.map_values(|p: (AuraId, GrandpaId)| (p.0@, p.1@))
}

/// The view of a sequence of accounts.
pub open spec fn accounts_view(v: Seq<AccountId>) -> Seq<Seq<u8>> {
    v.map_values(|a: AccountId| a@)
}

/// Create the genesis state of a testing chain: every endowed account is
/// given the same starting balance, the given keys become the authoring
/// and finality authorities (each finality key with weight one), and the
/// root account becomes the superuser.
pub fn testnet_genesis(
    wasm_binary: &Vec<u8>,
    initial_authorities: &Vec<(AuraId, GrandpaId)>,
    root_key: AccountId,
    endowed_accounts: &Vec<AccountId>,
    _enable_println: bool,
) -> (g: GenesisConfig)
    ensures
        genesis_of(
            g,
            wasm_binary@,
            authorities_view(initial_authorities@),
            root_key@,
            accounts_view(endowed_accounts@),
        ),
{
    let mut balances: Vec<(AccountId, u128)> = Vec::new();
    let mut i: usize = 0;
    while i < endowed_accounts.len()
        invariant
            0 <= i <= endowed_accounts@.len(),
            balances@.len() == i,
            forall|j: int|
                0 <= j < i ==> #[trigger] balances@[j].0@ == endowed_accounts@[j]@
                    && balances@[j].1 == ENDOWMENT,
        decreases endowed_accounts@.len() - i,
    {
        balances.push((endowed_accounts[i].clone(), ENDOWMENT));
        i += 1;
    }
    let mut aura: Vec<AuraId> = Vec::new();
    let mut j: usize = 0;
    while j < initial_authorities.len()
        invariant
            0 <= j <= initial_authorities@.len(),
            aura@.len() == j,
            forall|k: int| 0 <= k < j ==> #[trigger] aura@[k]@ == initial_authorities@[k].0@,
        decreases initial_authorities@.len() - j,
    {
        aura.push(initial_authorities[j].0.clone());
        j += 1;
    }
    let mut grandpa: Vec<(GrandpaId, u64)> = Vec::new();
    let mut k: usize = 0;
    while k < initial_authorities.len()
        invariant
            0 <= k <= initial_authorities@.len(),
            grandpa@.len() == k,
            forall|m: int|
                0 <= m < k ==> #[trigger] grandpa@[m].0@ == initial_authorities@[m].1@
                    && grandpa@[m].1 == AUTHORITY_WEIGHT,
        decreases initial_authorities@.len() - k,
    {
        grandpa.push((initial_authorities[k].1.clone(), AUTHORITY_WEIGHT));
        k += 1;
    }
    GenesisConfig {
        system: SystemConfig { code: clone_bytes(wasm_binary) },
        balances: BalancesConfig { balances },
        aura: AuraConfig { authorities: aura },
        grandpa: GrandpaConfig { authorities: grandpa },
        sudo: SudoConfig { key: Some(root_key) },
        timestamp: TimestampConfig { minimum_period: MINIMUM_PERIOD },
    }
}


/// The kind of chain a specification describes.
#[derive(Clone, Copy, PartialEq, Eq, Structural, Debug)]
pub enum ChainType {
    Development,
    Local,
    Live,
}

/// A chain specification: the network identity of a chain together with its
/// genesis state.
pub struct ChainSpec {
    /// Human-readable chain name.
    pub name: String,
    /// Machine identifier of the chain.
    pub id: String,
    /// What kind of chain this is.
    pub chain_type: ChainType,
    /// Addresses of the initial boot nodes.
    pub boot_nodes: Vec<String>,
    /// Telemetry collector addresses, if telemetry is wanted.
    pub telemetry_endpoints: Option<Vec<String>>,
    /// Network protocol identifier, if one is set.
    pub protocol_id: Option<String>,
    /// Extra chain properties, as raw text, if any are set.
    pub properties: Option<String>,
    /// The genesis state.
    pub genesis: GenesisConfig,
}

/// The authority key pairs that the given seed names derive to.
pub open spec fn keys_of_seeds(seeds: Seq<Seq<char>>) -> Seq<(Seq<u8>, Seq<u8>)> {
    Seq::new(seeds.len(), |i: int| (sr25519_public_of(seeds[i]), ed25519_public_of(seeds[i])))
}

/// The accounts that the given seed names derive to.
pub open spec fn accounts_of_seeds(seeds: Seq<Seq<char>>) -> Seq<Seq<u8>> {
    Seq::new(seeds.len(), |i: int| sr25519_public_of(seeds[i]))
}

/// Seed names of the development chain's authorities.
pub open spec fn dev_authority_seeds() -> Seq<Seq<char>> {
    seq!["Alice"@]
}

/// Seed name of the development chain's superuser.
pub open spec fn dev_root_seed() -> Seq<char> {
    "Alice"@
}

/// Seed names of the development chain's endowed accounts.
pub open spec fn dev_endowed_seeds() -> Seq<Seq<char>> {
    seq!["Alice"@, "Bob"@, "Alice//stash"@, "Bob//stash"@]
}

/// Seed names of the local testnet's authorities.
pub open spec fn local_authority_seeds() -> Seq<Seq<char>> {
    seq!["Alice"@, "Bob"@]
}

/// Seed name of the local testnet's superuser.
pub open spec fn local_root_seed() -> Seq<char> {
    "Alice"@
}

/// Seed names of the local testnet's endowed accounts.
pub open spec fn local_endowed_seeds() -> Seq<Seq<char>> {
    seq![
        "Alice"@,
        "Bob"@,
        "Charlie"@,
        "Dave"@,
        "Eve"@,
        "Ferdie"@,
        "Alice//stash"@,
        "Bob//stash"@,
        "Charlie//stash"@,
        "Dave//stash"@,
        "Eve//stash"@,
        "Ferdie//stash"@,
    ]
}

/// What the development chain specification looks like: name `Development`,
/// id `dev`, no boot nodes and no extras, and the genesis state of a
/// testing chain run by Alice with Alice and Bob endowed.
pub open spec fn is_dev_spec(s: ChainSpec, wasm: Seq<u8>) -> bool {
    &&& s.name@ == "Development"@
    &&& s.id@ == "dev"@
    &&& s.chain_type == ChainType::Development
    &&& s.boot_nodes@.len() == 0
    &&& s.telemetry_endpoints is None
    &&& s.protocol_id is None
    &&& s.properties is None
    &&& genesis_of(
        s.genesis,
        wasm,
        keys_of_seeds(dev_authority_seeds()),
        sr25519_public_of(dev_root_seed()),
        accounts_of_seeds(dev_endowed_seeds()),
    )
}

/// What the local testnet specification looks like: name `Local Testnet`,
/// id `local_testnet`, no boot nodes and no extras, and the genesis state
/// of a testing chain run by Alice and Bob with the six well-known accounts
/// and their stashes endowed.
pub open spec fn is_local_spec(s: ChainSpec, wasm: Seq<u8>) -> bool {
    &&& s.name@ == "Local Testnet"@
    &&& s.id@ == "local_testnet"@
    &&& s.chain_type == ChainType::Local
    &&& s.boot_nodes@.len() == 0
    &&& s.telemetry_endpoints is None
    &&& s.protocol_id is None
    &&& s.properties is None
    &&& genesis_of(
        s.genesis,
        wasm,
        keys_of_seeds(local_authority_seeds()),
        sr25519_public_of(local_root_seed()),
        accounts_of_seeds(local_endowed_seeds()),
    )
}

/// Create the development chain specification: a single-validator chain run
/// by Alice. Fails when no runtime code is at hand, or when key derivation
/// fails.
pub fn development_config(wasm_binary: Option<&Vec<u8>>) -> (r: Result<ChainSpec, String>)
    ensures
        match r {
            Ok(s) => wasm_binary matches Some(w) && is_dev_spec(s, w@),
            Err(e) => wasm_binary is None && e@ == "Development wasm binary not available"@,
        },
        wasm_binary is Some ==> r is Ok,
{
    let wasm = match wasm_binary {
        Some(w) => w,
        None => {
            return Err(String::from_str("Development wasm binary not available"));
        },
    };
    proof {
        reveal_strlit("Alice");
        reveal_strlit("Bob");
        reveal_strlit("Alice//stash");
        reveal_strlit("Bob//stash");
        assert(hard_seed("Alice"@));
        assert(hard_seed("Bob"@));
        assert(hard_seed("Alice//stash"@));
        assert(hard_seed("Bob//stash"@));
    }
    let authorities = match authorities_from_seeds(&["Alice"]) {
        Ok(v) => v,
        Err(e) => {
            return Err(e);
        },
    };
    let root = match get_account_id_from_seed("Alice") {
        Ok(a) => a,
        Err(e) => {
            return Err(e);
        },
    };
    let endowed = match accounts_from_seeds(&["Alice", "Bob", "Alice//stash", "Bob//stash"]) {
        Ok(v) => v,
        Err(e) => {
            return Err(e);
        },
    };
    let genesis = testnet_genesis(wasm, &authorities, root, &endowed, true);
    proof {
        assert(authorities_view(authorities@) =~= keys_of_seeds(dev_authority_seeds()));
        assert(accounts_view(endowed@) =~= accounts_of_seeds(dev_endowed_seeds()));
    }
    Ok(
        ChainSpec {
            name: String::from_str("Development"),
            id: String::from_str("dev"),
            chain_type: ChainType::Development,
            boot_nodes: Vec::new(),
            telemetry_endpoints: None,
            protocol_id: None,
            properties: None,
            genesis,
        },
    )
}

/// Create the local testnet chain specification: a two-validator chain run
/// by Alice and Bob. Fails when no runtime code is at hand, or when key
/// derivation fails.
pub fn local_testnet_config(wasm_binary: Option<&Vec<u8>>) -> (r: Result<ChainSpec, String>)
    ensures
        match r {
            Ok(s) => wasm_binary matches Some(w) && is_local_spec(s, w@),
            Err(e) => wasm_binary is None && e@ == "Development wasm binary not available"@,
        },
        wasm_binary is Some ==> r is Ok,
{
    let wasm = match wasm_binary {
        Some(w) => w,
        None => {
            return Err(String::from_str("Development wasm binary not available"));
        },
    };
    proof {
        reveal_strlit("Alice");
        reveal_strlit("Bob");
        reveal_strlit("Charlie");
        reveal_strlit("Dave");
        reveal_strlit("Eve");
        reveal_strlit("Ferdie");
        reveal_strlit("Alice//stash");
        reveal_strlit("Bob//stash");
        reveal_strlit("Charlie//stash");
        reveal_strlit("Dave//stash");
        reveal_strlit("Eve//stash");
        reveal_strlit("Ferdie//stash");
        assert(hard_seed("Alice"@));
        assert(hard_seed("Bob"@));
        assert(hard_seed("Charlie"@));
        assert(hard_seed("Dave"@));
        assert(hard_seed("Eve"@));
        assert(hard_seed("Ferdie"@));
        assert(hard_seed("Alice//stash"@));
        assert(hard_seed("Bob//stash"@));
        assert(hard_seed("Charlie//stash"@));
        assert(hard_seed("Dave//stash"@));
        assert(hard_seed("Eve//stash"@));
        assert(hard_seed("Ferdie//stash"@));
    }
    let authorities = match authorities_from_seeds(&["Alice", "Bob"]) {
        Ok(v) => v,
        Err(e) => {
            return Err(e);
        },
    };
    let root = match get_account_id_from_seed("Alice") {
        Ok(a) => a,
        Err(e) => {
            return Err(e);
        },
    };
    let endowed = match accounts_from_seeds(
        &[
            "Alice",
            "Bob",
            "Charlie",
            "Dave",
            "Eve",
            "Ferdie",
            "Alice//stash",
            "Bob//stash",
            "Charlie//stash",
            "Dave//stash",
            "Eve//stash",
            "Ferdie//stash",
        ],
    ) {
        Ok(v) => v,
        Err(e) => {
            return Err(e);
        },
    };
    let genesis = testnet_genesis(wasm, &authorities, root, &endowed, true);
    proof {
        assert(authorities_view(authorities@) =~= keys_of_seeds(local_authority_seeds()));
        assert(accounts_view(endowed@) =~= accounts_of_seeds(local_endowed_seeds()));
    }
    Ok(
        ChainSpec {
            name: String::from_str("Local Testnet"),
            id: String::from_str("local_testnet"),
            chain_type: ChainType::Local,
            boot_nodes: Vec::new(),
            telemetry_endpoints: None,
            protocol_id: None,
            properties: None,
            genesis,
        },
    )
}

/// The built-in chain configurations that can be asked for by name.
#[derive(Clone, Copy, PartialEq, Eq, Structural, Debug)]
pub enum Alternative {
    /// The current runtime, with just Alice as an authority.
    Development,
    /// The current runtime, with simple Alice/Bob authorities.
    LocalTestnet,
}

impl Alternative {
    /// The built-in configuration a chain identifier names, if any.
    pub fn from_id(s: &str) -> (r: Option<Alternative>)
        ensures
            r == (if s@ == "dev"@ || s@ == "development"@ {
                Some(Alternative::Development)
            } else if s@ == "local"@ || s@ == "local_testnet"@ {
                Some(Alternative::LocalTestnet)
            } else {
                None::<Alternative>
            }),
    {
        if str_eq(s, "dev") || str_eq(s, "development") {
            Some(Alternative::Development)
        } else if str_eq(s, "local") || str_eq(s, "local_testnet") {
            Some(Alternative::LocalTestnet)
        } else {
            None
        }
    }
}

/// A chain identifier that names a built-in configuration.
pub open spec fn is_known_chain_id(s: Seq<char>) -> bool {
    s == "dev"@ || s == "development"@ || s == "local"@ || s == "local_testnet"@
}

/// Get the chain specification of a built-in configuration.
pub fn get_chain_spec(spec: Alternative, wasm_binary: Option<&Vec<u8>>) -> (r: Result<
    ChainSpec,
    String,
>)
    ensures
        match r {
            Ok(s) => wasm_binary matches Some(w) && (match spec {
                Alternative::Development => is_dev_spec(s, w@),
                Alternative::LocalTestnet => is_local_spec(s, w@),
            }),
            Err(e) => wasm_binary is None && e@ == "Development wasm binary not available"@,
        },
        wasm_binary is Some ==> r is Ok,
{
    match spec {
        Alternative::Development => development_config(wasm_binary),
        Alternative::LocalTestnet => local_testnet_config(wasm_binary),
    }
}

/// Load the chain specification a chain identifier names. An identifier
/// that names no built-in configuration is not accepted.
pub fn load_spec(id: &str, wasm_binary: Option<&Vec<u8>>) -> (r: Result<ChainSpec, String>)
    requires
        is_known_chain_id(id@),
    ensures
        match r {
            Ok(s) => wasm_binary matches Some(w) && ((id@ == "dev"@ || id@ == "development"@)
                ==> is_dev_spec(s, w@)) && ((id@ == "local"@ || id@ == "local_testnet"@)
                ==> is_local_spec(s, w@)),
            Err(e) => wasm_binary is None && e@ == "Development wasm binary not available"@,
        },
        wasm_binary is Some ==> r is Ok,
{
    let alt = match Alternative::from_id(id) {
        Some(a) => a,
        None => vstd::pervasive::unreached(),
    };
    proof {
        reveal_strlit("dev");
        reveal_strlit("development");
        reveal_strlit("local");
        reveal_strlit("local_testnet");
        assert("dev"@.len() == 3);
        assert("development"@.len() == 11);
        assert("local"@.len() == 5);
        assert("local_testnet"@.len() == 13);
    }
    get_chain_spec(alt, wasm_binary)
}

/// Extensions of the chain specification; this chain needs none.
pub struct Extensions {}

impl Default for Extensions {
    fn default() -> (r: Self)
        ensures
            r == (Extensions {  }),
    {
        Extensions {  }
    }
}

} // verus!
