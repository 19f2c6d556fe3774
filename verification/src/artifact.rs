//! The static description of a contract that an instance is made from: its
//! interface description, its bytecode template, and the addresses it is
//! known to live at, by network.

use crate::bytecode::bytecode_text;
use crate::types::Address;
use ethcontract_common::{Abi, Bytecode};
use vstd::hash_map::StringHashMap;
use vstd::prelude::*;
use vstd::string::StringExecFns;

verus! {

/// Where a contract lives on one network.
#[derive(Clone, Copy, Debug, PartialEq, Eq)]
pub struct Network {
    /// The address of the contract on the network.
    pub address: Address,
}

/// A contract artifact, already parsed.
pub struct Artifact {
    abi: Abi,
    bytecode: Bytecode,
    networks: StringHashMap<Network>,
}

impl Artifact {
    /// The interface description of the contract.
    pub closed spec fn interface(self) -> Abi {
        self.abi
    }

    /// The text of the bytecode template of the contract.
    pub closed spec fn template(self) -> Seq<char> {
        bytecode_text(self.bytecode)
    }

    /// The registered deployments of the contract, by network id.
    pub closed spec fn networks(self) -> Map<Seq<char>, Network> {
        self.networks@
    }

    /// An artifact with the given interface description and bytecode, known
    /// on no network.
    pub fn new(abi: Abi, bytecode: Bytecode) -> (artifact: Artifact)
        ensures
            artifact.interface() == abi,
            artifact.template() == bytecode_text(bytecode),
            artifact.networks() == Map::<Seq<char>, Network>::empty(),
    {
        Artifact { abi, bytecode, networks: StringHashMap::new() }
    }

    /// Registers the contract at `address` on the network `network_id`. An
    /// earlier registration for the same network is replaced.
    pub fn with_network(self, network_id: &str, address: Address) -> (artifact: Artifact)
        ensures
            artifact.interface() == self.interface(),
            artifact.template() == self.template(),
            artifact.networks() == self.networks().insert(network_id@, Network { address }),
    {
        let mut artifact = self;
        artifact.networks.insert(String::from_str(network_id), Network { address });
        artifact
    }

    /// Takes the artifact apart.
    pub(crate) fn into_parts(self) -> (parts: (Abi, Bytecode, StringHashMap<Network>))
        ensures
            parts.0 == self.interface(),
            bytecode_text(parts.1) == self.template(),
            parts.2@ == self.networks(),
    {
        (self.abi, self.bytecode, self.networks)
    }
}

/// What is needed to find a contract on the active network: its interface
/// description and its registered deployments.
pub struct Deployments {
    abi: Abi,
    networks: StringHashMap<Network>,
}

impl Deployments {
    /// The interface description of the contract.
    pub closed spec fn interface(self) -> Abi {
        self.abi
    }

    /// The registered deployments of the contract, by network id.
    pub closed spec fn networks(self) -> Map<Seq<char>, Network> {
        self.networks@
    }

    /// The deployment information of an artifact.
    pub fn new(artifact: Artifact) -> (deployments: Deployments)
        ensures
            deployments.interface() == artifact.interface(),
            deployments.networks() == artifact.networks(),
    {
        let (abi, _, networks) = artifact.into_parts();
        Deployments { abi, networks }
    }

    /// The registered address on the network `network_id`, together with the
    /// interface description; `None` where the contract is not registered on
    /// that network.
    pub(crate) fn locate(self, network_id: &str) -> (found: Option<(Abi, Address)>)
        ensures
            match found {
                Some((abi, address)) => {
                    &&& self.networks().dom().contains(network_id@)
                    &&& address == self.networks()[network_id@].address
                    &&& abi == self.interface()
                },
                None => !self.networks().dom().contains(network_id@),
            },
    {
        let address = match self.networks.get(network_id) {
            Some(network) => network.address,
            None => {
                return None;
            },
        };
        Some((self.abi, address))
    }
}

} // verus!
