//! The bridge: routes that carry name resolutions to other chains, and the
//! contents of the cross-chain messages sent along them.
//!
//! A call that fails leaves the bridge unchanged.
use vstd::prelude::*;
use crate::common::{
    ContractUpgraded, char_len, decode_target_version, spec_target_version, valid_chain_name, valid_fqdn,
    validate_chain_name, validate_fqdn, CONTRACT_VERSION,
};
use crate::strmap::{same_str, StrMap};

verus! {

/// Where messages for one chain go.
pub struct BridgeRoute {
    pub destination_chain: String,
    pub destination_resolver: String,
    pub gateway: String,
}

impl BridgeRoute {
    /// A field-by-field copy.
    pub fn copy(&self) -> (r: Self)
        ensures
            r == *self,
    {
        BridgeRoute {
            destination_chain: self.destination_chain.clone(),
            destination_resolver: self.destination_resolver.clone(),
            gateway: self.gateway.clone(),
        }
    }

    /// The route as mathematical values.
    pub open spec fn rv(&self) -> (Seq<char>, Seq<char>, Seq<char>) {
        (self.destination_chain@, self.destination_resolver@, self.gateway@)
    }
}

/// What a cross-chain message carries.
pub enum GmpMessage {
    /// Forward resolution of a name on the destination chain.
    Forward { name: String, destination_chain: String, resolver: String },
    /// Reverse resolution of an address to its primary name.
    Reverse { address: String, primary_name: String, destination_chain: String, resolver: String },
}

/// Errors of the bridge.
#[derive(Clone, Copy, Debug, PartialEq, Eq, Structural)]
pub enum BridgeError {
    Validation,
    UnsupportedChain,
    UpgradeFailed,
}

/// The built-in route of a supported chain.
pub open spec fn known_route(chain: Seq<char>) -> Option<(Seq<char>, Seq<char>, Seq<char>)> {
    if chain == "base"@ {
        Some(("base"@, "0xbaseResolver"@, "0xbaseGateway"@))
    } else if chain == "ethereum"@ {
        Some(("ethereum"@, "0xethResolver"@, "0xethGateway"@))
    } else if chain == "arbitrum"@ {
        Some(("arbitrum"@, "0xarbResolver"@, "0xarbGateway"@))
    } else {
        None
    }
}

/// The built-in route of a supported chain.
pub fn target_for_chain(chain: &String) -> (r: Option<BridgeRoute>)
    ensures
        match r {
            Some(route) => known_route(chain@) == Some(route.rv()),
            None => known_route(chain@) is None,
        },
{
    let base = String::from_str("base");
    let ethereum = String::from_str("ethereum");
    let arbitrum = String::from_str("arbitrum");
    if same_str(chain, &base) {
        Some(
            BridgeRoute {
                destination_chain: base,
                destination_resolver: String::from_str("0xbaseResolver"),
                gateway: String::from_str("0xbaseGateway"),
            },
        )
    } else if same_str(chain, &ethereum) {
        Some(
            BridgeRoute {
                destination_chain: ethereum,
                destination_resolver: String::from_str("0xethResolver"),
                gateway: String::from_str("0xethGateway"),
            },
        )
    } else if same_str(chain, &arbitrum) {
        Some(
            BridgeRoute {
                destination_chain: arbitrum,
                destination_resolver: String::from_str("0xarbResolver"),
                gateway: String::from_str("0xarbGateway"),
            },
        )
    } else {
        None
    }
}

/// Everything the bridge holds, as mathematical values.
pub struct BridgeView {
    /// Registered routes by chain.
    pub routes: Map<Seq<char>, (Seq<char>, Seq<char>, Seq<char>)>,
    pub admin: Option<Seq<char>>,
    pub version: Option<u32>,
    /// Every upgrade announced so far, oldest first.
    pub events: Seq<ContractUpgraded>,
}

spec fn routes_view(m: Map<Seq<char>, BridgeRoute>) -> Map<Seq<char>, (Seq<char>, Seq<char>, Seq<char>)> {
    Map::new(|k: Seq<char>| m.dom().contains(k), |k: Seq<char>| m[k].rv())
}

spec fn opt_seq(o: Option<String>) -> Option<Seq<char>> {
    match o {
        Some(s) => Some(s@),
        None => None,
    }
}

/// The bridge's state.
pub struct BridgeContract {
    routes: StrMap<BridgeRoute>,
    admin: Option<String>,
    version: Option<u32>,
    events: Vec<ContractUpgraded>,
}

impl View for BridgeContract {
    type V = BridgeView;

    closed spec fn view(&self) -> BridgeView {
        BridgeView {
            routes: routes_view(self.routes@),
            admin: opt_seq(self.admin),
            version: self.version,
            events: self.events@,
        }
    }
}

impl BridgeContract {
    /// A bridge with no routes.
    pub fn new() -> (r: Self)
        ensures
            r@.routes == Map::<Seq<char>, (Seq<char>, Seq<char>, Seq<char>)>::empty(),
            r@.admin is None,
            r@.version is None,
            r@.events == Seq::<ContractUpgraded>::empty(),
    {
        let r = BridgeContract { routes: StrMap::new(), admin: None, version: None, events: Vec::new() };
        assert(r@.routes =~= Map::<Seq<char>, (Seq<char>, Seq<char>, Seq<char>)>::empty());
        r
    }

    /// The version this code implements.
    pub fn version(&self) -> (r: u32)
        ensures
            r == CONTRACT_VERSION,
    {
        CONTRACT_VERSION
    }

    /// Sets the admin once.
    pub fn initialize(&mut self, admin: String) -> (r: Result<(), BridgeError>)
        ensures
            old(self)@.admin is Some ==> r == Err::<(), BridgeError>(BridgeError::Validation)
                && final(self)@ == old(self)@,
            old(self)@.admin is None ==> r is Ok && final(self)@ == (BridgeView {
                admin: Some(admin@),
                version: Some(CONTRACT_VERSION),
                ..old(self)@
            }),
    {
        if self.admin.is_some() {
            return Err(BridgeError::Validation);
        }
        self.admin = Some(admin);
        self.version = Some(CONTRACT_VERSION);
        Ok(())
    }

    /// The stored version, or the code's version when none is stored.
    pub fn get_version(&self) -> (r: u32)
        ensures
            r == match self@.version {
                Some(v) => v,
                None => CONTRACT_VERSION,
            },
    {
        match self.version {
            Some(v) => v,
            None => CONTRACT_VERSION,
        }
    }

    /// Moves the stored version to the one named by the migration data (admin only).
    pub fn upgrade(&mut self, migration_data: &Vec<u8>) -> (r: Result<(), BridgeError>)
        ensures
            old(self)@.admin is None ==> r == Err::<(), BridgeError>(BridgeError::UpgradeFailed)
                && final(self)@ == old(self)@,
            old(self)@.admin is Some ==> r is Ok && final(self)@ == (BridgeView {
                version: Some(spec_target_version(migration_data@)),
                events: old(self)@.events.push(
                    ContractUpgraded {
                        old_version: match old(self)@.version {
                            Some(v) => v,
                            None => CONTRACT_VERSION,
                        },
                        new_version: spec_target_version(migration_data@),
                        admin: old(self).admin_account(),
                    },
                ),
                ..old(self)@
            }),
    {
        if self.admin.is_none() {
            return Err(BridgeError::UpgradeFailed);
        }
        let old_version = self.get_version();
        let new_version = decode_target_version(migration_data);
        let admin = self.admin.clone().unwrap();
        self.version = Some(new_version);
        self.events.push(ContractUpgraded { old_version, new_version, admin });
        Ok(())
    }

    /// The admin's account (meaningful once initialized).
    pub closed spec fn admin_account(&self) -> String {
        self.admin.unwrap()
    }

    /// Every upgrade announced so far, oldest first.
    pub fn events(&self) -> (r: &Vec<ContractUpgraded>)
        ensures
            r@ == self@.events,
    {
        &self.events
    }

    /// Enables the built-in route of a supported chain.
    pub fn register_chain(&mut self, chain: &String) -> (r: Result<(), BridgeError>)
        ensures
            !valid_chain_name(chain@) ==> r == Err::<(), BridgeError>(BridgeError::Validation),
            valid_chain_name(chain@) && known_route(chain@) is None ==> r == Err::<(), BridgeError>(
                BridgeError::UnsupportedChain,
            ),
            r is Err ==> final(self)@ == old(self)@,
            valid_chain_name(chain@) && known_route(chain@) is Some ==> r is Ok && final(self)@ == (
            BridgeView {
                routes: old(self)@.routes.insert(chain@, known_route(chain@)->0),
                ..old(self)@
            }),
    {
        let ghost v0 = self@;
        if !validate_chain_name(chain) {
            return Err(BridgeError::Validation);
        }
        let route = match target_for_chain(chain) {
            Some(r) => r,
            None => {
                return Err(BridgeError::UnsupportedChain);
            },
        };
        proof {
            reveal_strlit("base");
            reveal_strlit("ethereum");
            reveal_strlit("arbitrum");
            reveal_strlit("0xbaseResolver");
            reveal_strlit("0xethResolver");
            reveal_strlit("0xarbResolver");
            reveal_strlit("0xbaseGateway");
            reveal_strlit("0xethGateway");
            reveal_strlit("0xarbGateway");
        }
        if char_len(&route.destination_chain) == 0 || char_len(&route.destination_resolver) == 0
            || char_len(&route.gateway) == 0 {
            return Err(BridgeError::Validation);
        }
        let ghost rv = route.rv();
        self.routes.insert(chain.clone(), route);
        assert(self@.routes =~= v0.routes.insert(chain@, rv));
        Ok(())
    }

    fn route_of(&self, chain: &String) -> (r: Option<BridgeRoute>)
        ensures
            match r {
                Some(route) => self@.routes.dom().contains(chain@) && self@.routes[chain@]
                    == route.rv(),
                None => !self@.routes.dom().contains(chain@),
            },
    {
        match self.routes.get(chain) {
            Some(r) => Some(r.copy()),
            None => None,
        }
    }

    /// The contents of a message that resolves a name on a registered chain.
    pub fn build_message(&self, name: &String, chain: &String) -> (r: Result<GmpMessage, BridgeError>)
        ensures
            !valid_fqdn(name@) || !valid_chain_name(chain@) ==> r == Err::<GmpMessage, BridgeError>(
                BridgeError::Validation,
            ),
            valid_fqdn(name@) && valid_chain_name(chain@) && !self@.routes.dom().contains(chain@)
                ==> r == Err::<GmpMessage, BridgeError>(BridgeError::UnsupportedChain),
            valid_fqdn(name@) && valid_chain_name(chain@) && self@.routes.dom().contains(chain@)
                ==> (r matches Ok(GmpMessage::Forward { name: n, destination_chain: d, resolver: res })
                && n@ == name@ && d@ == self@.routes[chain@].0 && res@ == self@.routes[chain@].1),
    {
        if !validate_fqdn(name) || !validate_chain_name(chain) {
            return Err(BridgeError::Validation);
        }
        match self.route_of(chain) {
            None => Err(BridgeError::UnsupportedChain),
            Some(route) => Ok(
                GmpMessage::Forward {
                    name: name.clone(),
                    destination_chain: route.destination_chain,
                    resolver: route.destination_resolver,
                },
            ),
        }
    }

    /// The contents of a message that resolves an address to its primary name on a
    /// registered chain.
    pub fn build_reverse_message(&self, address: &String, primary_name: &String, chain: &String) -> (r: Result<
        GmpMessage,
        BridgeError,
    >)
        ensures
            address@.len() == 0 || !valid_fqdn(primary_name@) || !valid_chain_name(chain@) ==> r
                == Err::<GmpMessage, BridgeError>(BridgeError::Validation),
            address@.len() > 0 && valid_fqdn(primary_name@) && valid_chain_name(chain@)
                && !self@.routes.dom().contains(chain@) ==> r == Err::<GmpMessage, BridgeError>(
                BridgeError::UnsupportedChain,
            ),
            address@.len() > 0 && valid_fqdn(primary_name@) && valid_chain_name(chain@)
                && self@.routes.dom().contains(chain@) ==> (r matches Ok(
                GmpMessage::Reverse { address: a, primary_name: p, destination_chain: d, resolver: res },
            ) && a@ == address@ && p@ == primary_name@ && d@ == self@.routes[chain@].0 && res@
                == self@.routes[chain@].1),
    {
        if char_len(address) == 0 || char_len(primary_name) == 0 {
            return Err(BridgeError::Validation);
        }
        if !validate_fqdn(primary_name) || !validate_chain_name(chain) {
            return Err(BridgeError::Validation);
        }
        match self.route_of(chain) {
            None => Err(BridgeError::UnsupportedChain),
            Some(route) => Ok(
                GmpMessage::Reverse {
                    address: address.clone(),
                    primary_name: primary_name.clone(),
                    destination_chain: route.destination_chain,
                    resolver: route.destination_resolver,
                },
            ),
        }
    }

    /// The registered route of a chain.
    pub fn route(&self, chain: &String) -> (r: Option<BridgeRoute>)
        ensures
            match r {
                Some(route) => self@.routes.dom().contains(chain@) && self@.routes[chain@]
                    == route.rv(),
                None => !self@.routes.dom().contains(chain@),
            },
    {
        self.route_of(chain)
    }
}

} // verus!
