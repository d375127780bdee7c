//! Decisions of the command-line client that do not touch the network: which
//! contract flags each command accepts and needs, and how a failure is labelled.
use vstd::prelude::*;

verus! {

/// The network a command talks to.
#[derive(Clone, Copy, Debug, PartialEq, Eq, Structural)]
pub enum Network {
    Testnet,
    Mainnet,
}

/// The contracts a command may name.
#[derive(Clone, Copy, Debug, PartialEq, Eq, Structural)]
pub enum ContractKind {
    Registry,
    Registrar,
    Resolver,
    Auction,
    Bridge,
    Subdomain,
    Nft,
}

/// The flag that overrides a contract ID, without its dashes.
pub open spec fn flag_name_spec(k: ContractKind) -> Seq<char> {
    match k {
        ContractKind::Registry => "registry-contract-id"@,
        ContractKind::Registrar => "registrar-contract-id"@,
        ContractKind::Resolver => "resolver-contract-id"@,
        ContractKind::Auction => "auction-contract-id"@,
        ContractKind::Bridge => "bridge-contract-id"@,
        ContractKind::Subdomain => "subdomain-contract-id"@,
        ContractKind::Nft => "nft-contract-id"@,
    }
}

/// How a contract is named in messages.
pub open spec fn display_name_spec(k: ContractKind) -> Seq<char> {
    match k {
        ContractKind::Registry => "a registry contract ID"@,
        ContractKind::Registrar => "a registrar contract ID"@,
        ContractKind::Resolver => "a resolver contract ID"@,
        ContractKind::Auction => "an auction contract ID"@,
        ContractKind::Bridge => "a bridge contract ID"@,
        ContractKind::Subdomain => "a subdomain contract ID"@,
        ContractKind::Nft => "an NFT contract ID"@,
    }
}

/// The environment variable that sets a contract ID.
pub open spec fn env_var_spec(k: ContractKind) -> Seq<char> {
    match k {
        ContractKind::Registry => "XLM_NS_REGISTRY_CONTRACT_ID"@,
        ContractKind::Registrar => "XLM_NS_REGISTRAR_CONTRACT_ID"@,
        ContractKind::Resolver => "XLM_NS_RESOLVER_CONTRACT_ID"@,
        ContractKind::Auction => "XLM_NS_AUCTION_CONTRACT_ID"@,
        ContractKind::Bridge => "XLM_NS_BRIDGE_CONTRACT_ID"@,
        ContractKind::Subdomain => "XLM_NS_SUBDOMAIN_CONTRACT_ID"@,
        ContractKind::Nft => "XLM_NS_NFT_CONTRACT_ID"@,
    }
}

impl ContractKind {
    /// The flag that overrides this contract's ID, without its dashes.
    pub fn flag_name(&self) -> (r: String)
        ensures
            r@ == flag_name_spec(*self),
    {
        let s = match self {
            ContractKind::Registry => "registry-contract-id",
            ContractKind::Registrar => "registrar-contract-id",
            ContractKind::Resolver => "resolver-contract-id",
            ContractKind::Auction => "auction-contract-id",
            ContractKind::Bridge => "bridge-contract-id",
            ContractKind::Subdomain => "subdomain-contract-id",
            ContractKind::Nft => "nft-contract-id",
        };
        String::from_str(s)
    }

    /// How this contract is named in messages.
    pub fn display_name(&self) -> (r: String)
        ensures
            r@ == display_name_spec(*self),
    {
        let s = match self {
            ContractKind::Registry => "a registry contract ID",
            ContractKind::Registrar => "a registrar contract ID",
            ContractKind::Resolver => "a resolver contract ID",
            ContractKind::Auction => "an auction contract ID",
            ContractKind::Bridge => "a bridge contract ID",
            ContractKind::Subdomain => "a subdomain contract ID",
            ContractKind::Nft => "an NFT contract ID",
        };
        String::from_str(s)
    }

    /// The environment variable that sets this contract's ID.
    pub fn env_var(&self) -> (r: String)
        ensures
            r@ == env_var_spec(*self),
    {
        let s = match self {
            ContractKind::Registry => "XLM_NS_REGISTRY_CONTRACT_ID",
            ContractKind::Registrar => "XLM_NS_REGISTRAR_CONTRACT_ID",
            ContractKind::Resolver => "XLM_NS_RESOLVER_CONTRACT_ID",
            ContractKind::Auction => "XLM_NS_AUCTION_CONTRACT_ID",
            ContractKind::Bridge => "XLM_NS_BRIDGE_CONTRACT_ID",
            ContractKind::Subdomain => "XLM_NS_SUBDOMAIN_CONTRACT_ID",
            ContractKind::Nft => "XLM_NS_NFT_CONTRACT_ID",
        };
        String::from_str(s)
    }
}

/// Contract IDs given on the command line.
pub struct ContractOverrides {
    pub registry_contract_id: Option<String>,
    pub registrar_contract_id: Option<String>,
    pub resolver_contract_id: Option<String>,
    pub auction_contract_id: Option<String>,
    pub bridge_contract_id: Option<String>,
    pub subdomain_contract_id: Option<String>,
    pub nft_contract_id: Option<String>,
}

impl Default for ContractOverrides {
    fn default() -> (r: Self)
        ensures
            r.registry_contract_id is None,
            r.registrar_contract_id is None,
            r.resolver_contract_id is None,
            r.auction_contract_id is None,
            r.bridge_contract_id is None,
            r.subdomain_contract_id is None,
            r.nft_contract_id is None,
    {
        ContractOverrides {
            registry_contract_id: None,
            registrar_contract_id: None,
            resolver_contract_id: None,
            auction_contract_id: None,
            bridge_contract_id: None,
            subdomain_contract_id: None,
            nft_contract_id: None,
        }
    }
}

/// `s` followed by `k` when `present`.
pub open spec fn push_if(s: Seq<ContractKind>, present: bool, k: ContractKind) -> Seq<ContractKind> {
    if present {
        s.push(k)
    } else {
        s
    }
}

impl ContractOverrides {
    /// The contracts given, in flag order.
    pub open spec fn provided(&self) -> Seq<ContractKind> {
        let s0 = Seq::<ContractKind>::empty();
        let s1 = push_if(s0, self.registry_contract_id is Some, ContractKind::Registry);
        let s2 = push_if(s1, self.registrar_contract_id is Some, ContractKind::Registrar);
        let s3 = push_if(s2, self.resolver_contract_id is Some, ContractKind::Resolver);
        let s4 = push_if(s3, self.auction_contract_id is Some, ContractKind::Auction);
        let s5 = push_if(s4, self.bridge_contract_id is Some, ContractKind::Bridge);
        let s6 = push_if(s5, self.subdomain_contract_id is Some, ContractKind::Subdomain);
        push_if(s6, self.nft_contract_id is Some, ContractKind::Nft)
    }

    /// The contracts given, in flag order.
    pub fn provided_kinds(&self) -> (r: Vec<ContractKind>)
        ensures
            r@ == self.provided(),
    {
        let mut r: Vec<ContractKind> = Vec::new();
        if self.registry_contract_id.is_some() {
            r.push(ContractKind::Registry);
        }
        if self.registrar_contract_id.is_some() {
            r.push(ContractKind::Registrar);
        }
        if self.resolver_contract_id.is_some() {
            r.push(ContractKind::Resolver);
        }
        if self.auction_contract_id.is_some() {
            r.push(ContractKind::Auction);
        }
        if self.bridge_contract_id.is_some() {
            r.push(ContractKind::Bridge);
        }
        if self.subdomain_contract_id.is_some() {
            r.push(ContractKind::Subdomain);
        }
        if self.nft_contract_id.is_some() {
            r.push(ContractKind::Nft);
        }
        r
    }
}

/// The resolved configuration of one network.
pub struct NetworkConfig {
    pub network: Network,
    pub rpc_url: String,
    pub network_passphrase: String,
    pub registry_contract_id: Option<String>,
    pub registrar_contract_id: Option<String>,
    pub resolver_contract_id: Option<String>,
    pub auction_contract_id: Option<String>,
    pub bridge_contract_id: Option<String>,
    pub subdomain_contract_id: Option<String>,
    pub nft_contract_id: Option<String>,
    pub config_path: Option<String>,
}

impl NetworkConfig {
    /// The configured ID of a contract.
    pub open spec fn contract_id_spec(&self, kind: ContractKind) -> Option<String> {
        match kind {
            ContractKind::Registry => self.registry_contract_id,
            ContractKind::Registrar => self.registrar_contract_id,
            ContractKind::Resolver => self.resolver_contract_id,
            ContractKind::Auction => self.auction_contract_id,
            ContractKind::Bridge => self.bridge_contract_id,
            ContractKind::Subdomain => self.subdomain_contract_id,
            ContractKind::Nft => self.nft_contract_id,
        }
    }

    /// The configured ID of a contract.
    pub fn contract_id(&self, kind: ContractKind) -> (r: Option<&String>)
        ensures
            r is Some == self.contract_id_spec(kind) is Some,
            r matches Some(s) ==> *s == self.contract_id_spec(kind)->0,
    {
        let id = match kind {
            ContractKind::Registry => &self.registry_contract_id,
            ContractKind::Registrar => &self.registrar_contract_id,
            ContractKind::Resolver => &self.resolver_contract_id,
            ContractKind::Auction => &self.auction_contract_id,
            ContractKind::Bridge => &self.bridge_contract_id,
            ContractKind::Subdomain => &self.subdomain_contract_id,
            ContractKind::Nft => &self.nft_contract_id,
        };
        match id {
            Some(s) => Some(s),
            None => None,
        }
    }
}

/// Storage migration subcommands.
pub enum MigrateCommands {
    Transform { from_version: u32, to_version: u32, in_file: String, out_file: String },
    Verify { source_file: String, target_file: String, strict: bool },
    DryRun { from_version: u32, to_version: u32, in_file: String },
    RollbackMetadata { contract_id: String, wasm_hash_out: String },
    Export { contract_id: String, out_file: String },
    Import { contract_id: String, file: String },
}

/// Text-record subcommands.
pub enum TextCommand {
    Get { name: String, key: String },
    Put { name: String, key: String, value: Option<String>, signer: Option<String> },
}

/// Auction subcommands.
#[allow(inconsistent_fields)]
pub enum AuctionCommands {
    Create { name: String, reserve: u64, duration: u64, signer: Option<String> },
    Bid { name: String, amount: u64, signer: Option<String> },
    BidInteractive {
        name: String,
        amount: Option<u64>,
        no_interactive: bool,
        watch: bool,
        signer: Option<String>,
    },
    Inspect { name: String },
    Settle { name: String, signer: Option<String> },
    Export { name: String, out: Option<String> },
    Import { name: String, file: String, signer: Option<String> },
}

/// Subdomain subcommands.
pub enum SubdomainCommands {
    RegisterParent { parent: String, owner: String },
    AddController { parent: String, controller: String },
    Create { label: String, parent: String, owner: String },
    Transfer { fqdn: String, new_owner: String },
}

/// Bridge subcommands.
pub enum BridgeCommands {
    Register { chain: String },
    Inspect { chain: String },
    Payload { name: String, chain: String },
    TestVectors,
}

/// NFT subcommands.
pub enum NftCommands {
    Inspect { token_id: String },
}

/// Configuration subcommands.
pub enum ConfigCommands {
    Init { path: Option<String>, network: Network, force: bool },
    Edit { path: Option<String>, network: Network },
    Validate { path: Option<String>, network: Network, fix: bool },
    Show { path: Option<String>, network: Network },
}

/// Bulk subcommands.
pub enum BulkCommands {
    Register { file: String },
    Renew { file: String },
}

/// The client's commands.
#[allow(inconsistent_fields)]
pub enum Commands {
    Migrate { command: MigrateCommands },
    Register { name: Option<String>, owner: Option<String>, interactive: bool, signer: Option<String> },
    Resolve { name: String },
    ReverseResolve { address: String },
    Text(TextCommand),
    Transfer { name: String, new_owner: String, signer: Option<String> },
    Renew { name: String, years: u64, signer: Option<String> },
    Auction(AuctionCommands),
    Completions,
    Bridge(BridgeCommands),
    Subdomain(SubdomainCommands),
    Nft(NftCommands),
    Config(ConfigCommands),
    Watch,
    Whois { name: String },
    Portfolio { owner: String, batch_size: usize, limit: Option<usize>, page: Option<usize> },
    RenewalCheck {
        owner: String,
        warn_days: u32,
        auto_renew: bool,
        batch_size: usize,
        limit: Option<usize>,
        page: Option<usize>,
    },
    Quote { name: String, years: u32 },
    Bulk(BulkCommands),
    Availability { name: String },
    Healthcheck,
}

/// Every contract kind, in flag order.
pub open spec fn all_kinds() -> Seq<ContractKind> {
    seq![
        ContractKind::Registry,
        ContractKind::Registrar,
        ContractKind::Resolver,
        ContractKind::Auction,
        ContractKind::Bridge,
        ContractKind::Subdomain,
        ContractKind::Nft,
    ]
}

/// The name a command reports, the contract flags it accepts, and the contracts it needs.
pub open spec fn policy(c: Commands) -> (Seq<char>, Seq<ContractKind>, Seq<ContractKind>) {
    match c {
        Commands::Register { .. } => (
            "register"@,
            seq![ContractKind::Registrar, ContractKind::Registry],
            seq![ContractKind::Registrar],
        ),
        Commands::Resolve { .. } => (
            "resolve"@,
            seq![ContractKind::Resolver, ContractKind::Registry],
            seq![ContractKind::Resolver],
        ),
        Commands::ReverseResolve { .. } => (
            "reverse-resolve"@,
            seq![ContractKind::Resolver, ContractKind::Registry],
            seq![ContractKind::Resolver],
        ),
        Commands::Text(_) => (
            "text"@,
            seq![ContractKind::Resolver, ContractKind::Registry],
            seq![ContractKind::Resolver],
        ),
        Commands::Transfer { .. } => (
            "transfer"@,
            seq![ContractKind::Registry],
            seq![ContractKind::Registry],
        ),
        Commands::Renew { .. } => (
            "renew"@,
            seq![ContractKind::Registrar, ContractKind::Registry],
            seq![ContractKind::Registrar],
        ),
        Commands::Auction(_) => (
            "auction"@,
            seq![ContractKind::Auction, ContractKind::Registry],
            seq![ContractKind::Auction],
        ),
        Commands::Completions => ("completions"@, Seq::empty(), Seq::empty()),
        Commands::Bridge(_) => (
            "bridge"@,
            seq![ContractKind::Bridge, ContractKind::Registry],
            seq![ContractKind::Bridge],
        ),
        Commands::Subdomain(_) => (
            "subdomain"@,
            seq![ContractKind::Subdomain, ContractKind::Registry],
            seq![ContractKind::Subdomain],
        ),
        Commands::Nft(_) => (
            "nft"@,
            seq![ContractKind::Nft, ContractKind::Registry],
            seq![ContractKind::Nft],
        ),
        Commands::Config(_) => ("config"@, Seq::empty(), Seq::empty()),
        Commands::Watch => ("watch"@, seq![ContractKind::Registry], Seq::empty()),
        Commands::Whois { .. } => (
            "whois"@,
            seq![ContractKind::Registry, ContractKind::Resolver],
            seq![ContractKind::Registry],
        ),
        Commands::Portfolio { .. } => (
            "portfolio"@,
            seq![ContractKind::Registry, ContractKind::Resolver],
            seq![ContractKind::Registry],
        ),
        Commands::RenewalCheck { .. } => (
            "renewal-check"@,
            seq![ContractKind::Registry, ContractKind::Resolver, ContractKind::Registrar],
            seq![ContractKind::Registry],
        ),
        Commands::Quote { .. } => (
            "quote"@,
            seq![ContractKind::Registrar, ContractKind::Registry],
            seq![ContractKind::Registrar],
        ),
        Commands::Availability { .. } => ("availability"@, seq![ContractKind::Registry], Seq::empty()),
        Commands::Migrate { .. } => ("migrate"@, Seq::empty(), Seq::empty()),
        Commands::Healthcheck => ("healthcheck"@, all_kinds(), Seq::empty()),
        Commands::Bulk(BulkCommands::Register { .. }) => (
            "bulk register"@,
            seq![ContractKind::Registrar, ContractKind::Registry],
            seq![ContractKind::Registrar],
        ),
        Commands::Bulk(BulkCommands::Renew { .. }) => (
            "bulk renew"@,
            seq![ContractKind::Registrar, ContractKind::Registry],
            seq![ContractKind::Registrar],
        ),
    }
}

fn kinds(a: &[ContractKind]) -> (r: Vec<ContractKind>)
    ensures
        r@ == a@,
{
    let mut r: Vec<ContractKind> = Vec::new();
    let mut i: usize = 0;
    while i < a.len()
        invariant
            i <= a@.len(),
            r@ == a@.take(i as int),
        decreases a@.len() - i,
    {
        r.push(a[i]);
        proof {
            assert(a@.take(i + 1) =~= a@.take(i as int).push(a@[i as int]));
        }
        i = i + 1;
    }
    assert(a@.take(a@.len() as int) =~= a@);
    r
}

/// The name a command reports, the contract flags it accepts, and the contracts it needs.
pub fn command_policy(c: &Commands) -> (r: (String, Vec<ContractKind>, Vec<ContractKind>))
    ensures
        r.0@ == policy(*c).0,
        r.1@ == policy(*c).1,
        r.2@ == policy(*c).2,
{
    let (name, allowed, required): (&str, Vec<ContractKind>, Vec<ContractKind>) = match c {
        Commands::Register { .. } => ("register", kinds(&[ContractKind::Registrar, ContractKind::Registry]), kinds(&[ContractKind::Registrar])),
        Commands::Resolve { .. } => ("resolve", kinds(&[ContractKind::Resolver, ContractKind::Registry]), kinds(&[ContractKind::Resolver])),
        Commands::ReverseResolve { .. } => (
            "reverse-resolve",
            kinds(&[ContractKind::Resolver, ContractKind::Registry]),
            kinds(&[ContractKind::Resolver]),
        ),
        Commands::Text(_) => ("text", kinds(&[ContractKind::Resolver, ContractKind::Registry]), kinds(&[ContractKind::Resolver])),
        Commands::Transfer { .. } => ("transfer", kinds(&[ContractKind::Registry]), kinds(&[ContractKind::Registry])),
        Commands::Renew { .. } => ("renew", kinds(&[ContractKind::Registrar, ContractKind::Registry]), kinds(&[ContractKind::Registrar])),
        Commands::Auction(_) => ("auction", kinds(&[ContractKind::Auction, ContractKind::Registry]), kinds(&[ContractKind::Auction])),
        Commands::Completions => ("completions", kinds(&[]), kinds(&[])),
        Commands::Bridge(_) => ("bridge", kinds(&[ContractKind::Bridge, ContractKind::Registry]), kinds(&[ContractKind::Bridge])),
        Commands::Subdomain(_) => ("subdomain", kinds(&[ContractKind::Subdomain, ContractKind::Registry]), kinds(&[ContractKind::Subdomain])),
        Commands::Nft(_) => ("nft", kinds(&[ContractKind::Nft, ContractKind::Registry]), kinds(&[ContractKind::Nft])),
        Commands::Config(_) => ("config", kinds(&[]), kinds(&[])),
        Commands::Watch => ("watch", kinds(&[ContractKind::Registry]), kinds(&[])),
        Commands::Whois { .. } => ("whois", kinds(&[ContractKind::Registry, ContractKind::Resolver]), kinds(&[ContractKind::Registry])),
        Commands::Portfolio { .. } => ("portfolio", kinds(&[ContractKind::Registry, ContractKind::Resolver]), kinds(&[ContractKind::Registry])),
        Commands::RenewalCheck { .. } => (
            "renewal-check",
            kinds(&[ContractKind::Registry, ContractKind::Resolver, ContractKind::Registrar]),
            kinds(&[ContractKind::Registry]),
        ),
        Commands::Quote { .. } => ("quote", kinds(&[ContractKind::Registrar, ContractKind::Registry]), kinds(&[ContractKind::Registrar])),
        Commands::Availability { .. } => ("availability", kinds(&[ContractKind::Registry]), kinds(&[])),
        Commands::Migrate { .. } => ("migrate", kinds(&[]), kinds(&[])),
        Commands::Healthcheck => (
            "healthcheck",
            kinds(&[ContractKind::Registry, ContractKind::Registrar, ContractKind::Resolver, ContractKind::Auction, ContractKind::Bridge, ContractKind::Subdomain, ContractKind::Nft]),
            kinds(&[]),
        ),
        Commands::Bulk(BulkCommands::Register { .. }) => (
            "bulk register",
            kinds(&[ContractKind::Registrar, ContractKind::Registry]),
            kinds(&[ContractKind::Registrar]),
        ),
        Commands::Bulk(BulkCommands::Renew { .. }) => (
            "bulk renew",
            kinds(&[ContractKind::Registrar, ContractKind::Registry]),
            kinds(&[ContractKind::Registrar]),
        ),
    };
    proof {
        assert(allowed@ =~= policy(*c).1);
        assert(required@ =~= policy(*c).2);
    }
    (String::from_str(name), allowed, required)
}

/// The first kind of `s` that `allowed` lacks.
pub open spec fn first_not_allowed(s: Seq<ContractKind>, allowed: Seq<ContractKind>) -> Option<ContractKind>
    decreases s.len(),
{
    if s.len() == 0 {
        None
    } else if !allowed.contains(s[0]) {
        Some(s[0])
    } else {
        first_not_allowed(s.drop_first(), allowed)
    }
}

/// The first kind of `required` that the configuration leaves unset.
pub open spec fn first_missing(required: Seq<ContractKind>, config: NetworkConfig) -> Option<ContractKind>
    decreases required.len(),
{
    if required.len() == 0 {
        None
    } else if config.contract_id_spec(required[0]) is None {
        Some(required[0])
    } else {
        first_missing(required.drop_first(), config)
    }
}

/// The message for a flag the command does not accept.
pub open spec fn not_allowed_message(k: ContractKind, command: Seq<char>) -> Seq<char> {
    "`--"@ + flag_name_spec(k) + "` cannot be used with `"@ + command + "`"@
}

/// The message for a contract the command needs but the configuration lacks.
pub open spec fn missing_message(k: ContractKind, command: Seq<char>) -> Seq<char> {
    "`"@ + command + "` requires "@ + display_name_spec(k) + ". Set `--"@ + flag_name_spec(k) + "`, `"@
        + env_var_spec(k) + "`, or the config file value."@
}

/// The verdict on a command's contract flags and configuration: a flag the command does
/// not accept is refused first, then a contract it needs but the configuration lacks.
pub open spec fn policy_result(c: Commands, overrides: ContractOverrides, config: NetworkConfig) -> Result<
    (),
    Seq<char>,
> {
    let (name, allowed, required) = policy(c);
    match first_not_allowed(overrides.provided(), allowed) {
        Some(k) => Err(not_allowed_message(k, name)),
        None => match first_missing(required, config) {
            Some(k) => Err(missing_message(k, name)),
            None => Ok(()),
        },
    }
}

fn contains_kind(s: &Vec<ContractKind>, k: ContractKind) -> (r: bool)
    ensures
        r == s@.contains(k),
{
    let mut i: usize = 0;
    while i < s.len()
        invariant
            i <= s@.len(),
            forall|j: int| 0 <= j < i ==> s@[j] != k,
        decreases s@.len() - i,
    {
        if s[i] == k {
            assert(s@[i as int] == k);
            return true;
        }
        i = i + 1;
    }
    false
}

fn append_str(s: &mut String, t: &str)
    ensures
        final(s)@ == old(s)@ + t@,
{
    s.append(t);
}

/// Checks that a command is given only the contract flags it accepts and that every
/// contract it needs is configured.
pub fn validate_contract_policy(command: &Commands, overrides: &ContractOverrides, config: &NetworkConfig) -> (r:
    Result<(), String>)
    ensures
        match r {
            Ok(()) => policy_result(*command, *overrides, *config) is Ok,
            Err(m) => policy_result(*command, *overrides, *config) == Err::<(), Seq<char>>(m@),
        },
{
    let (name, allowed, required) = command_policy(command);
    let provided = overrides.provided_kinds();
    assert(provided@.subrange(0, provided@.len() as int) =~= provided@);
    assert(required@.subrange(0, required@.len() as int) =~= required@);
    let mut i: usize = 0;
    while i < provided.len()
        invariant
            name@ == policy(*command).0,
            allowed@ == policy(*command).1,
            required@ == policy(*command).2,
            provided@ == overrides.provided(),
            i <= provided@.len(),
            first_not_allowed(provided@, allowed@) == first_not_allowed(
                provided@.subrange(i as int, provided@.len() as int),
                allowed@,
            ),
        decreases provided@.len() - i,
    {
        let k = provided[i];
        proof {
            let rest = provided@.subrange(i as int, provided@.len() as int);
            assert(rest[0] == k);
            assert(rest.drop_first() =~= provided@.subrange(i + 1, provided@.len() as int));
        }
        if !contains_kind(&allowed, k) {
            let mut msg = String::from_str("`--");
            append_str(&mut msg, k.flag_name().as_str());
            append_str(&mut msg, "` cannot be used with `");
            append_str(&mut msg, name.as_str());
            append_str(&mut msg, "`");
            proof {
                assert(first_not_allowed(provided@, allowed@) == Some(k));
                assert(msg@ == not_allowed_message(k, name@));
            }
            return Err(msg);
        }
        i = i + 1;
    }
    let mut j: usize = 0;
    while j < required.len()
        invariant
            name@ == policy(*command).0,
            allowed@ == policy(*command).1,
            required@ == policy(*command).2,
            provided@ == overrides.provided(),
            j <= required@.len(),
            first_not_allowed(provided@, allowed@) is None,
            first_missing(required@, *config) == first_missing(
                required@.subrange(j as int, required@.len() as int),
                *config,
            ),
        decreases required@.len() - j,
    {
        let k = required[j];
        proof {
            let rest = required@.subrange(j as int, required@.len() as int);
            assert(rest[0] == k);
            assert(rest.drop_first() =~= required@.subrange(j + 1, required@.len() as int));
        }
        if config.contract_id(k).is_none() {
            let mut msg = String::from_str("`");
            append_str(&mut msg, name.as_str());
            append_str(&mut msg, "` requires ");
            append_str(&mut msg, k.display_name().as_str());
            append_str(&mut msg, ". Set `--");
            append_str(&mut msg, k.flag_name().as_str());
            append_str(&mut msg, "`, `");
            append_str(&mut msg, k.env_var().as_str());
            append_str(&mut msg, "`, or the config file value.");
            proof {
                assert(first_missing(required@, *config) == Some(k));
                assert(msg@ == missing_message(k, name@));
            }
            return Err(msg);
        }
        j = j + 1;
    }
    Ok(())
}

/// The part of the system a failure comes from.
#[derive(Clone, Copy, Debug, PartialEq, Eq, Structural)]
pub enum ErrorDomain {
    Registry,
    Registrar,
    Resolver,
    Auction,
    Bridge,
    Subdomain,
    Nft,
    General,
}

/// What the subject of a failed command is.
#[derive(Clone, Copy, Debug, PartialEq, Eq, Structural)]
pub enum SubjectKind {
    Name,
    Address,
    Chain,
    TokenId,
    File,
    Unknown,
}

/// How a failed command is labelled in error reports.
pub struct ErrorContext {
    pub domain: ErrorDomain,
    pub subject: Option<String>,
    pub subject_kind: SubjectKind,
    pub command: String,
}

/// The label of a failed command: domain, subject, subject kind and command name.
pub open spec fn error_context_spec(c: Commands) -> (ErrorDomain, Option<Seq<char>>, SubjectKind, Seq<char>) {
    match c {
        Commands::Register { name, .. } => (
            ErrorDomain::Registrar,
            match name {
                Some(n) => Some(n@),
                None => None,
            },
            SubjectKind::Name,
            "register"@,
        ),
        Commands::Resolve { name } => (ErrorDomain::Resolver, Some(name@), SubjectKind::Name, "resolve"@),
        Commands::ReverseResolve { address } => (
            ErrorDomain::Resolver,
            Some(address@),
            SubjectKind::Address,
            "reverse-resolve"@,
        ),
        Commands::Text(TextCommand::Get { name, .. }) => (
            ErrorDomain::Resolver,
            Some(name@),
            SubjectKind::Name,
            "text"@,
        ),
        Commands::Text(TextCommand::Put { name, .. }) => (
            ErrorDomain::Resolver,
            Some(name@),
            SubjectKind::Name,
            "text"@,
        ),
        Commands::Transfer { name, .. } => (ErrorDomain::Registry, Some(name@), SubjectKind::Name, "transfer"@),
        Commands::Renew { name, .. } => (ErrorDomain::Registrar, Some(name@), SubjectKind::Name, "renew"@),
        Commands::Auction(sub) => (
            ErrorDomain::Auction,
            Some(auction_subject(sub)),
            SubjectKind::Name,
            "auction"@,
        ),
        Commands::Bridge(BridgeCommands::TestVectors) => (
            ErrorDomain::Bridge,
            None,
            SubjectKind::Unknown,
            "bridge"@,
        ),
        Commands::Bridge(BridgeCommands::Register { chain }) => (
            ErrorDomain::Bridge,
            Some(chain@),
            SubjectKind::Chain,
            "bridge"@,
        ),
        Commands::Bridge(BridgeCommands::Inspect { chain }) => (
            ErrorDomain::Bridge,
            Some(chain@),
            SubjectKind::Chain,
            "bridge"@,
        ),
        Commands::Bridge(BridgeCommands::Payload { chain, .. }) => (
            ErrorDomain::Bridge,
            Some(chain@),
            SubjectKind::Chain,
            "bridge"@,
        ),
        Commands::Subdomain(sub) => (
            ErrorDomain::Subdomain,
            Some(subdomain_subject(sub)),
            SubjectKind::Name,
            "subdomain"@,
        ),
        Commands::Nft(NftCommands::Inspect { token_id }) => (
            ErrorDomain::Nft,
            Some(token_id@),
            SubjectKind::TokenId,
            "nft"@,
        ),
        Commands::Config(_) => (ErrorDomain::General, None, SubjectKind::Unknown, "config"@),
        Commands::Watch => (ErrorDomain::Registry, None, SubjectKind::Unknown, "watch"@),
        Commands::Whois { name } => (ErrorDomain::Registry, Some(name@), SubjectKind::Name, "whois"@),
        Commands::Portfolio { owner, .. } => (
            ErrorDomain::Registry,
            Some(owner@),
            SubjectKind::Address,
            "portfolio"@,
        ),
        Commands::Quote { name, .. } => (ErrorDomain::Registrar, Some(name@), SubjectKind::Name, "quote"@),
        Commands::RenewalCheck { owner, .. } => (
            ErrorDomain::Registry,
            Some(owner@),
            SubjectKind::Address,
            "renewal-check"@,
        ),
        Commands::Bulk(BulkCommands::Register { file }) => (
            ErrorDomain::Registrar,
            Some(file@),
            SubjectKind::File,
            "bulk register"@,
        ),
        Commands::Bulk(BulkCommands::Renew { file }) => (
            ErrorDomain::Registrar,
            Some(file@),
            SubjectKind::File,
            "bulk renew"@,
        ),
        Commands::Availability { name } => (
            ErrorDomain::Registry,
            Some(name@),
            SubjectKind::Name,
            "availability"@,
        ),
        Commands::Healthcheck => (ErrorDomain::General, None, SubjectKind::Unknown, "healthcheck"@),
        Commands::Completions => (ErrorDomain::General, None, SubjectKind::Unknown, "completions"@),
        Commands::Migrate { .. } => (ErrorDomain::General, None, SubjectKind::Unknown, "migrate"@),
    }
}

/// The name an auction subcommand is about.
pub open spec fn auction_subject(sub: AuctionCommands) -> Seq<char> {
    match sub {
        AuctionCommands::Create { name, .. } => name@,
        AuctionCommands::Bid { name, .. } => name@,
        AuctionCommands::BidInteractive { name, .. } => name@,
        AuctionCommands::Inspect { name } => name@,
        AuctionCommands::Settle { name, .. } => name@,
        AuctionCommands::Export { name, .. } => name@,
        AuctionCommands::Import { name, .. } => name@,
    }
}

/// The name a subdomain subcommand is about; creation reports `label.parent`.
pub open spec fn subdomain_subject(sub: SubdomainCommands) -> Seq<char> {
    match sub {
        SubdomainCommands::RegisterParent { parent, .. } => parent@,
        SubdomainCommands::AddController { parent, .. } => parent@,
        SubdomainCommands::Create { label, parent, .. } => label@ + "."@ + parent@,
        SubdomainCommands::Transfer { fqdn, .. } => fqdn@,
    }
}

/// The label under which a failure of the command is reported.
pub fn error_context(command: &Commands) -> (r: ErrorContext)
    ensures
        r.domain == error_context_spec(*command).0,
        match r.subject {
            Some(s) => error_context_spec(*command).1 == Some(s@),
            None => error_context_spec(*command).1 is None,
        },
        r.subject_kind == error_context_spec(*command).2,
        r.command@ == error_context_spec(*command).3,
{
    let (domain, subject, subject_kind, cmd): (ErrorDomain, Option<String>, SubjectKind, &str) =
        match command {
        Commands::Register { name, .. } => (
            ErrorDomain::Registrar,
            match name {
                Some(n) => Some(n.clone()),
                None => None,
            },
            SubjectKind::Name,
            "register",
        ),
        Commands::Resolve { name } => (ErrorDomain::Resolver, Some(name.clone()), SubjectKind::Name, "resolve"),
        Commands::ReverseResolve { address } => (
            ErrorDomain::Resolver,
            Some(address.clone()),
            SubjectKind::Address,
            "reverse-resolve",
        ),
        Commands::Text(TextCommand::Get { name, .. }) => (
            ErrorDomain::Resolver,
            Some(name.clone()),
            SubjectKind::Name,
            "text",
        ),
        Commands::Text(TextCommand::Put { name, .. }) => (
            ErrorDomain::Resolver,
            Some(name.clone()),
            SubjectKind::Name,
            "text",
        ),
        Commands::Transfer { name, .. } => (
            ErrorDomain::Registry,
            Some(name.clone()),
            SubjectKind::Name,
            "transfer",
        ),
        Commands::Renew { name, .. } => (ErrorDomain::Registrar, Some(name.clone()), SubjectKind::Name, "renew"),
        Commands::Auction(sub) => {
            let name = match sub {
                AuctionCommands::Create { name, .. } => name,
                AuctionCommands::Bid { name, .. } => name,
                AuctionCommands::BidInteractive { name, .. } => name,
                AuctionCommands::Inspect { name } => name,
                AuctionCommands::Settle { name, .. } => name,
                AuctionCommands::Export { name, .. } => name,
                AuctionCommands::Import { name, .. } => name,
            };
            (ErrorDomain::Auction, Some(name.clone()), SubjectKind::Name, "auction")
        },
        Commands::Bridge(BridgeCommands::TestVectors) => (
            ErrorDomain::Bridge,
            None,
            SubjectKind::Unknown,
            "bridge",
        ),
        Commands::Bridge(BridgeCommands::Register { chain }) => (
            ErrorDomain::Bridge,
            Some(chain.clone()),
            SubjectKind::Chain,
            "bridge",
        ),
        Commands::Bridge(BridgeCommands::Inspect { chain }) => (
            ErrorDomain::Bridge,
            Some(chain.clone()),
            SubjectKind::Chain,
            "bridge",
        ),
        Commands::Bridge(BridgeCommands::Payload { chain, .. }) => (
            ErrorDomain::Bridge,
            Some(chain.clone()),
            SubjectKind::Chain,
            "bridge",
        ),
        Commands::Subdomain(sub) => {
            let subject = match sub {
                SubdomainCommands::RegisterParent { parent, .. } => parent.clone(),
                SubdomainCommands::AddController { parent, .. } => parent.clone(),
                SubdomainCommands::Create { label, parent, .. } => {
                    let mut s = label.clone();
                    append_str(&mut s, ".");
                    append_str(&mut s, parent.as_str());
                    s
                },
                SubdomainCommands::Transfer { fqdn, .. } => fqdn.clone(),
            };
            (ErrorDomain::Subdomain, Some(subject), SubjectKind::Name, "subdomain")
        },
        Commands::Nft(NftCommands::Inspect { token_id }) => (
            ErrorDomain::Nft,
            Some(token_id.clone()),
            SubjectKind::TokenId,
            "nft",
        ),
        Commands::Config(_) => (ErrorDomain::General, None, SubjectKind::Unknown, "config"),
        Commands::Watch => (ErrorDomain::Registry, None, SubjectKind::Unknown, "watch"),
        Commands::Whois { name } => (ErrorDomain::Registry, Some(name.clone()), SubjectKind::Name, "whois"),
        Commands::Portfolio { owner, .. } => (
            ErrorDomain::Registry,
            Some(owner.clone()),
            SubjectKind::Address,
            "portfolio",
        ),
        Commands::Quote { name, .. } => (ErrorDomain::Registrar, Some(name.clone()), SubjectKind::Name, "quote"),
        Commands::RenewalCheck { owner, .. } => (
            ErrorDomain::Registry,
            Some(owner.clone()),
            SubjectKind::Address,
            "renewal-check",
        ),
        Commands::Bulk(BulkCommands::Register { file }) => (
            ErrorDomain::Registrar,
            Some(file.clone()),
            SubjectKind::File,
            "bulk register",
        ),
        Commands::Bulk(BulkCommands::Renew { file }) => (
            ErrorDomain::Registrar,
            Some(file.clone()),
            SubjectKind::File,
            "bulk renew",
        ),
        Commands::Availability { name } => (
            ErrorDomain::Registry,
            Some(name.clone()),
            SubjectKind::Name,
            "availability",
        ),
        Commands::Healthcheck => (ErrorDomain::General, None, SubjectKind::Unknown, "healthcheck"),
        Commands::Completions => (ErrorDomain::General, None, SubjectKind::Unknown, "completions"),
        Commands::Migrate { .. } => (ErrorDomain::General, None, SubjectKind::Unknown, "migrate"),
    };
    ErrorContext { domain, subject, subject_kind, command: String::from_str(cmd) }
}

// ------------------------------------------------------------------
// Laws
// ------------------------------------------------------------------

proof fn lemma_first_not_allowed(s: Seq<ContractKind>, allowed: Seq<ContractKind>)
    ensures
        first_not_allowed(s, allowed) is None <==> (forall|i: int| 0 <= i < s.len() ==> allowed.contains(
            #[trigger] s[i],
        )),
        first_not_allowed(s, allowed) matches Some(k) ==> s.contains(k) && !allowed.contains(k),
    decreases s.len(),
{
    if s.len() > 0 {
        lemma_first_not_allowed(s.drop_first(), allowed);
        assert forall|i: int| 0 < i < s.len() implies #[trigger] s[i] == s.drop_first()[i - 1] by {}
        match first_not_allowed(s, allowed) {
            Some(k) => {
                if allowed.contains(s[0]) {
                    let j = choose|j: int| 0 <= j < s.drop_first().len() && s.drop_first()[j] == k;
                    assert(s[j + 1] == k);
                } else {
                    assert(s[0] == k);
                }
            },
            None => {},
        }
    }
}

proof fn lemma_first_missing(required: Seq<ContractKind>, config: NetworkConfig)
    ensures
        first_missing(required, config) is None <==> (forall|i: int|
            0 <= i < required.len() ==> (#[trigger] config.contract_id_spec(required[i])) is Some),
        first_missing(required, config) matches Some(k) ==> required.contains(k)
            && config.contract_id_spec(k) is None,
    decreases required.len(),
{
    if required.len() > 0 {
        lemma_first_missing(required.drop_first(), config);
        assert forall|i: int| 0 < i < required.len() implies #[trigger] required[i]
            == required.drop_first()[i - 1] by {}
        match first_missing(required, config) {
            Some(k) => {
                if config.contract_id_spec(required[0]) is Some {
                    let j = choose|j: int|
                        0 <= j < required.drop_first().len() && required.drop_first()[j] == k;
                    assert(required[j + 1] == k);
                } else {
                    assert(required[0] == k);
                }
            },
            None => {},
        }
    }
}

/// A command passes the contract policy exactly when every contract flag given is one
/// it accepts and every contract it needs is configured; a refusal names a flag that
/// was given and is not accepted, or a contract that is needed and not configured.
pub proof fn law_policy_accepts_exactly_allowed_and_configured(
    c: Commands,
    overrides: ContractOverrides,
    config: NetworkConfig,
)
    ensures
        policy_result(c, overrides, config) is Ok <==> ((forall|i: int|
            0 <= i < overrides.provided().len() ==> policy(c).1.contains(
                #[trigger] overrides.provided()[i],
            )) && (forall|i: int|
            0 <= i < policy(c).2.len() ==> (#[trigger] config.contract_id_spec(policy(c).2[i])) is Some)),
        first_not_allowed(overrides.provided(), policy(c).1) matches Some(k) ==> policy_result(
            c,
            overrides,
            config,
        ) == Err::<(), Seq<char>>(not_allowed_message(k, policy(c).0)) && overrides.provided().contains(k)
            && !policy(c).1.contains(k),
{
    lemma_first_not_allowed(overrides.provided(), policy(c).1);
    lemma_first_missing(policy(c).2, config);
}

/// The health check accepts any contract flags and needs no configured contract.
pub proof fn law_healthcheck_always_passes(overrides: ContractOverrides, config: NetworkConfig)
    ensures
        policy_result(Commands::Healthcheck, overrides, config) is Ok,
{
    let p = overrides.provided();
    lemma_first_not_allowed(p, all_kinds());
    assert forall|i: int| 0 <= i < p.len() implies all_kinds().contains(#[trigger] p[i]) by {
        let k = p[i];
        match k {
            ContractKind::Registry => assert(all_kinds()[0] == k),
            ContractKind::Registrar => assert(all_kinds()[1] == k),
            ContractKind::Resolver => assert(all_kinds()[2] == k),
            ContractKind::Auction => assert(all_kinds()[3] == k),
            ContractKind::Bridge => assert(all_kinds()[4] == k),
            ContractKind::Subdomain => assert(all_kinds()[5] == k),
            ContractKind::Nft => assert(all_kinds()[6] == k),
        }
    }
}

/// With no contract flags given, each command is accepted exactly when the one contract
/// it works through is configured: the registrar for registering, renewing, quoting and
/// bulk runs; the resolver for lookups and text records; the registry for transfers,
/// whois, portfolios and renewal checks; and the auction, bridge, subdomain or NFT
/// contract for their own commands. Completions, configuration, watching, availability,
/// migration and the health check need none.
pub proof fn law_commands_need_their_contracts(c: Commands, overrides: ContractOverrides, config: NetworkConfig)
    requires
        overrides.provided().len() == 0,
    ensures
        (c is Register || c is Renew || c is Quote || c is Bulk) ==> (policy_result(c, overrides, config) is Ok
            <==> config.registrar_contract_id is Some),
        (c is Resolve || c is ReverseResolve || c is Text) ==> (policy_result(c, overrides, config) is Ok
            <==> config.resolver_contract_id is Some),
        (c is Transfer || c is Whois || c is Portfolio || c is RenewalCheck) ==> (policy_result(
            c,
            overrides,
            config,
        ) is Ok <==> config.registry_contract_id is Some),
        c is Auction ==> (policy_result(c, overrides, config) is Ok <==> config.auction_contract_id is Some),
        c is Bridge ==> (policy_result(c, overrides, config) is Ok <==> config.bridge_contract_id is Some),
        c is Subdomain ==> (policy_result(c, overrides, config) is Ok <==> config.subdomain_contract_id is Some),
        c is Nft ==> (policy_result(c, overrides, config) is Ok <==> config.nft_contract_id is Some),
        (c is Completions || c is Config || c is Watch || c is Availability || c is Migrate || c is Healthcheck)
            ==> policy_result(c, overrides, config) is Ok,
{
    lemma_first_not_allowed(overrides.provided(), policy(c).1);
    lemma_first_missing(policy(c).2, config);
    let req = policy(c).2;
    if req.len() == 1 {
        assert(config.contract_id_spec(req[0]) is Some <==> (forall|i: int|
            0 <= i < req.len() ==> (#[trigger] config.contract_id_spec(req[i])) is Some));
    }
}

/// Whether a configuration sets every contract.
pub open spec fn all_configured(config: NetworkConfig) -> bool {
    &&& config.registry_contract_id is Some
    &&& config.registrar_contract_id is Some
    &&& config.resolver_contract_id is Some
    &&& config.auction_contract_id is Some
    &&& config.bridge_contract_id is Some
    &&& config.subdomain_contract_id is Some
    &&& config.nft_contract_id is Some
}

/// With every contract configured, a command is accepted exactly when each contract
/// flag given is one it takes: its own contract or the registry (the registry and
/// resolver for whois and portfolios, and the registrar as well for renewal checks);
/// the registry alone for transfers, watching and availability; none for completions,
/// configuration and migration; any for the health check.
pub proof fn law_commands_accept_their_flags(c: Commands, overrides: ContractOverrides, config: NetworkConfig)
    requires
        all_configured(config),
    ensures
        ({
            let p = overrides.provided();
            let ok = policy_result(c, overrides, config) is Ok;
            &&& (c is Register || c is Renew || c is Quote || c is Bulk) ==> (ok <==> forall|i: int|
                0 <= i < p.len() ==> #[trigger] p[i] == ContractKind::Registrar || p[i] == ContractKind::Registry)
            &&& (c is Resolve || c is ReverseResolve || c is Text) ==> (ok <==> forall|i: int|
                0 <= i < p.len() ==> #[trigger] p[i] == ContractKind::Resolver || p[i] == ContractKind::Registry)
            &&& (c is Transfer || c is Watch || c is Availability) ==> (ok <==> forall|i: int|
                0 <= i < p.len() ==> #[trigger] p[i] == ContractKind::Registry)
            &&& (c is Whois || c is Portfolio) ==> (ok <==> forall|i: int|
                0 <= i < p.len() ==> #[trigger] p[i] == ContractKind::Registry || p[i] == ContractKind::Resolver)
            &&& c is RenewalCheck ==> (ok <==> forall|i: int|
                0 <= i < p.len() ==> #[trigger] p[i] == ContractKind::Registry || p[i] == ContractKind::Resolver
                    || p[i] == ContractKind::Registrar)
            &&& c is Auction ==> (ok <==> forall|i: int|
                0 <= i < p.len() ==> #[trigger] p[i] == ContractKind::Auction || p[i] == ContractKind::Registry)
            &&& c is Bridge ==> (ok <==> forall|i: int|
                0 <= i < p.len() ==> #[trigger] p[i] == ContractKind::Bridge || p[i] == ContractKind::Registry)
            &&& c is Subdomain ==> (ok <==> forall|i: int|
                0 <= i < p.len() ==> #[trigger] p[i] == ContractKind::Subdomain || p[i] == ContractKind::Registry)
            &&& c is Nft ==> (ok <==> forall|i: int|
                0 <= i < p.len() ==> #[trigger] p[i] == ContractKind::Nft || p[i] == ContractKind::Registry)
            &&& (c is Completions || c is Config || c is Migrate) ==> (ok <==> p.len() == 0)
            &&& c is Healthcheck ==> ok
        }),
{
    let p = overrides.provided();
    let allowed = policy(c).1;
    lemma_first_not_allowed(p, allowed);
    lemma_first_missing(policy(c).2, config);
    assert forall|k: ContractKind| #[trigger] allowed.contains(k) <==> (exists|j: int| 0 <= j < allowed.len() && allowed[j] == k) by {}
    assert forall|k: ContractKind| #![trigger config.contract_id_spec(k)] config.contract_id_spec(k) is Some by {}
    if c is Healthcheck {
        law_healthcheck_always_passes(overrides, config);
    }
    if p.len() > 0 && allowed.len() == 0 {
        assert(!allowed.contains(p[0]));
    }
}

} // verus!
