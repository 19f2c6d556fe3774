//! A contract instance: an interface description bound to an address, with a
//! signature index that resolves a call to the exact function it names.

use crate::abi::{
    abi_event_named, abi_events, abi_function_names, abi_functions, abi_functions_named,
    encodable, encode_call, event_anonymous, event_topic, function_call_data, function_inputs,
    function_signature, input_kinds_of, signature_of,
};
use crate::tokens::{tokens_fit, weigh_all, Value};
use crate::artifact::{Artifact, Deployments};
use crate::bytecode::valid_library_name;
use crate::deploy::DeployBuilder;
use crate::errors::{AbiError, DeployError, LinkError, NetworkError};
use crate::event::{Cursor, EventBuilder, LogFilter, LogStream, DEFAULT_POLL_INTERVAL};
use crate::linker::{deploys, linked_through, links, Linker};
use crate::method::{CallParameters, MethodBuilder, MethodDefaults, ViewMethodBuilder};
use crate::types::Address;
use ethcontract_common::abi::Function;
use ethcontract_common::Abi;
use vstd::hash_map::StringHashMap;
use vstd::prelude::*;
use vstd::string::StringExecFns;

verus! {

/// Whether `(name, index)` locates a function in the table of `abi`.
pub open spec fn locates(abi: Abi, name: Seq<char>, index: int) -> bool {
    abi_functions(abi).dom().contains(name) && 0 <= index < abi_functions(abi)[name].len()
}

/// The function that `(name, index)` locates in the table of `abi`.
pub open spec fn function_at(abi: Abi, name: Seq<char>, index: int) -> Function
    recommends
        locates(abi, name, index),
{
    abi_functions(abi)[name][index]
}

/// Whether every entry of `index` leads to a function of `abi` that has the
/// entry's key as its signature.
pub open spec fn index_sound(index: Map<Seq<char>, (String, usize)>, abi: Abi) -> bool {
    forall|signature: Seq<char>| #[trigger]
        index.dom().contains(signature) ==> {
            &&& locates(abi, index[signature].0@, index[signature].1 as int)
            &&& function_signature(
                function_at(abi, index[signature].0@, index[signature].1 as int),
            ) == signature
        }
}

/// Whether `index` holds the signature of each of the first `limit` overloads
/// declared under `name`.
pub open spec fn index_covers(
    index: Map<Seq<char>, (String, usize)>,
    abi: Abi,
    name: Seq<char>,
    limit: int,
) -> bool {
    forall|i: int|
        0 <= i < limit && i < abi_functions(abi)[name].len() ==> index.dom().contains(
            #[trigger] function_signature(abi_functions(abi)[name][i]),
        )
}

/// Whether `index` holds the signature of every function of `abi`.
pub open spec fn index_complete(index: Map<Seq<char>, (String, usize)>, abi: Abi) -> bool {
    forall|name: Seq<char>, i: int|
        locates(abi, name, i) ==> index.dom().contains(
            #[trigger] function_signature(function_at(abi, name, i)),
        )
}

/// Whether no two functions of `abi` share a signature: the interface
/// description is well formed.
pub open spec fn signatures_distinct(abi: Abi) -> bool {
    forall|name: Seq<char>, i: int, other: Seq<char>, j: int|
        locates(abi, name, i) && locates(abi, other, j) && #[trigger] function_signature(
            function_at(abi, name, i),
        ) == #[trigger] function_signature(function_at(abi, other, j)) ==> name == other && i
            == j
}

/// A contract at an address. Resolves calls by signature and hands out the
/// builders that turn them into requests.
pub struct Instance<W> {
    web3: W,
    abi: Abi,
    address: Address,
    /// Parameters applied to every call built from this instance, unless the
    /// call sets its own.
    defaults: MethodDefaults,
    /// From the signature of each function to the name and the overload index
    /// under which the interface description holds it.
    methods: StringHashMap<(String, usize)>,
}

impl<W> Instance<W> {
    /// The transport handle of the instance.
    pub closed spec fn transport(self) -> W {
        self.web3
    }

    /// The interface description of the instance.
    pub closed spec fn interface(self) -> Abi {
        self.abi
    }

    /// The address the instance is bound to.
    pub closed spec fn location(self) -> Address {
        self.address
    }

    /// The signature index of the instance.
    pub closed spec fn index(self) -> Map<Seq<char>, (String, usize)> {
        self.methods@
    }

    /// The parameters applied to every call built from the instance.
    pub closed spec fn default_parameters(self) -> MethodDefaults {
        self.defaults
    }

    /// The invariant of an instance: its signature index holds every function
    /// of its interface description, each under its own signature, and nothing
    /// else.
    #[verifier::type_invariant]
    pub open spec fn wf(self) -> bool {
        &&& index_sound(self.index(), self.interface())
        &&& index_complete(self.index(), self.interface())
    }

    /// What a signature resolves to: the name and overload index of a
    /// function, or nothing.
    pub open spec fn resolves(self, signature: Seq<char>) -> Option<(Seq<char>, int)> {
        if self.index().dom().contains(signature) {
            Some((self.index()[signature].0@, self.index()[signature].1 as int))
        } else {
            None
        }
    }

    /// Whether `built` is what building a call of `signature` with `params`
    /// comes to: a builder where the signature resolves, the arguments have
    /// the shape of the function's inputs and the codec takes them; otherwise
    /// the error of the first of these that fails.
    pub open spec fn builds(
        self,
        signature: Seq<char>,
        params: Seq<Value>,
        built: Result<MethodBuilder<W>, AbiError>,
    ) -> bool where W: Clone {
        match built {
            Ok(builder) => {
                &&& self.resolves(signature) matches Some((name, index))
                &&& builder.function == function_at(self.interface(), name, index)
                &&& encodable(params, function_inputs(builder.function))
                &&& function_call_data(builder.function, params) == Some(builder.data@)
                &&& builder.address == self.location()
                &&& builder.parameters == CallParameters::unset().or_defaults(
                    self.default_parameters(),
                )
                &&& cloned(self.transport(), builder.web3)
            },
            Err(AbiError::InvalidName(name)) => {
                &&& self.resolves(signature) is None
                &&& name@ == signature
            },
            Err(AbiError::InvalidData) => {
                &&& self.resolves(signature) matches Some((name, index))
                &&& !encodable(params, function_inputs(function_at(self.interface(), name, index)))
            },
            Err(AbiError::Codec(_)) => {
                &&& self.resolves(signature) matches Some((name, index))
                &&& encodable(params, function_inputs(function_at(self.interface(), name, index)))
                &&& function_call_data(function_at(self.interface(), name, index), params)
                    is None
            },
        }
    }

    /// Binds `abi` to `address`, indexing every function of `abi` by its
    /// signature. Whether a matching contract lives at the address is not
    /// checked.
    pub fn at(web3: W, abi: Abi, address: Address) -> (instance: Self)
        ensures
            instance.wf(),
            instance.transport() == web3,
            instance.interface() == abi,
            instance.location() == address,
            instance.default_parameters() == MethodDefaults::unset(),
    {
        let names = abi_function_names(&abi);
        let mut methods: StringHashMap<(String, usize)> = StringHashMap::new();
        let mut n: usize = 0;
        while n < names.len()
            invariant
                n <= names.len(),
                index_sound(methods@, abi),
                forall|k: int|
                    0 <= k < names@.len() ==> abi_functions(abi).dom().contains(
                        #[trigger] names@[k]@,
                    ),
                forall|k: int|
                    0 <= k < n ==> index_covers(
                        methods@,
                        abi,
                        #[trigger] names@[k]@,
                        abi_functions(abi)[names@[k]@].len() as int,
                    ),
            decreases names.len() - n,
        {
            let overloads = abi_functions_named(&abi, names[n].as_str());
            let ghost name = names@[n as int]@;
            let mut i: usize = 0;
            while i < overloads.len()
                invariant
                    i <= overloads.len(),
                    n < names.len(),
                    name == names@[n as int]@,
                    abi_functions(abi).dom().contains(name),
                    overloads@ == abi_functions(abi)[name],
                    index_sound(methods@, abi),
                    index_covers(methods@, abi, name, i as int),
                    forall|k: int|
                        0 <= k < n ==> index_covers(
                            methods@,
                            abi,
                            #[trigger] names@[k]@,
                            abi_functions(abi)[names@[k]@].len() as int,
                        ),
                decreases overloads.len() - i,
            {
                let signature = signature_of(&overloads[i]);
                let owner = names[n].clone();
                methods.insert(signature, (owner, i));
                i += 1;
            }
            n += 1;
        }
        proof {
            assert forall|name: Seq<char>, i: int| locates(abi, name, i) implies methods@.dom()
                .contains(#[trigger] function_signature(function_at(abi, name, i))) by {
                let k = choose|k: int| 0 <= k < names@.len() && #[trigger] names@[k]@ == name;
                assert(index_covers(
                    methods@,
                    abi,
                    names@[k]@,
                    abi_functions(abi)[names@[k]@].len() as int,
                ));
            }
        }
        Instance { web3, abi, address, defaults: MethodDefaults::default(), methods }
    }

    /// Binds the interface description of a linked contract to the address it
    /// was deployed at.
    pub fn at_address(web3: W, address: Address, cx: Linker) -> (instance: Self)
        ensures
            instance.wf(),
            instance.transport() == web3,
            instance.interface() == cx.interface(),
            instance.location() == address,
            instance.default_parameters() == MethodDefaults::unset(),
    {
        let abi = cx.into_abi();
        Instance::at(web3, abi, address)
    }

    /// Binds the contract of `cx` to the address registered for the network
    /// `network_id`; `None` where the contract is not registered on that
    /// network. No other address is ever fallen back to.
    pub fn from_network(web3: W, network_id: &str, cx: Deployments) -> (found: Option<Self>)
        ensures
            match found {
                Some(instance) => {
                    &&& cx.networks().dom().contains(network_id@)
                    &&& instance.location() == cx.networks()[network_id@].address
                    &&& instance.interface() == cx.interface()
                    &&& instance.transport() == web3
                    &&& instance.default_parameters() == MethodDefaults::unset()
                    &&& instance.wf()
                },
                None => !cx.networks().dom().contains(network_id@),
            },
    {
        match cx.locate(network_id) {
            Some((abi, address)) => Some(Instance::at(web3, abi, address)),
            None => None,
        }
    }

    /// Prepares to find the contract of `artifact` on the network that the
    /// transport is connected to. The caller asks the transport for the
    /// network id and resolves the lookup with it.
    pub fn deployed(web3: W, artifact: Artifact) -> (lookup: NetworkLookup<W>)
        ensures
            lookup.web3 == web3,
            lookup.deployments.interface() == artifact.interface(),
            lookup.deployments.networks() == artifact.networks(),
    {
        NetworkLookup { web3, deployments: Deployments::new(artifact) }
    }

    /// Builds the deployment of the contract of `artifact` with the
    /// constructor arguments `params`, linking nothing.
    pub fn builder(web3: W, artifact: Artifact, params: Vec<Value>) -> (built: Result<
        DeployBuilder<W>,
        DeployError,
    >)
        ensures
            deploys(artifact.template(), artifact.interface(), params@, web3, built),
    {
        Linker::new(artifact).deploy(web3, params)
    }

    /// Links `libraries` into the contract of `artifact`, in their order, and
    /// builds its deployment with the constructor arguments `params`.
    ///
    /// The first library that cannot be linked ends the attempt with its link
    /// error. Where all are linked, the outcome is that of deploying the
    /// linked template.
    pub fn link_and_deploy(
        web3: W,
        artifact: Artifact,
        params: Vec<Value>,
        libraries: Vec<(String, Address)>,
    ) -> (built: Result<DeployBuilder<W>, DeployError>)
        ensures
            match built {
                Err(DeployError::Link(LinkError::InvalidName(name))) => exists|at: int|
                    {
                        &&& 0 <= at < libraries@.len()
                        &&& forall|k: int|
                            0 <= k < at ==> links(artifact.template(), libraries@, k)
                        &&& !#[trigger] links(artifact.template(), libraries@, at)
                        &&& !valid_library_name(libraries@[at].0@)
                        &&& name@ == libraries@[at].0@
                    },
                Err(DeployError::Link(LinkError::NotFound(name))) => exists|at: int|
                    {
                        &&& 0 <= at < libraries@.len()
                        &&& forall|k: int|
                            0 <= k < at ==> links(artifact.template(), libraries@, k)
                        &&& !#[trigger] links(artifact.template(), libraries@, at)
                        &&& valid_library_name(libraries@[at].0@)
                        &&& name@ == libraries@[at].0@
                    },
                _ => {
                    &&& forall|k: int|
                        0 <= k < libraries@.len() ==> links(artifact.template(), libraries@, k)
                    &&& deploys(
                        linked_through(
                            artifact.template(),
                            libraries@,
                            libraries@.len() as int,
                        ),
                        artifact.interface(),
                        params@,
                        web3,
                        built,
                    )
                },
            },
    {
        let ghost template = artifact.template();
        let mut linker = Linker::new(artifact);
        let mut at: usize = 0;
        while at < libraries.len()
            invariant
                at <= libraries.len(),
                template == artifact.template(),
                linker.template() == linked_through(template, libraries@, at as int),
                linker.interface() == artifact.interface(),
                forall|k: int| 0 <= k < at ==> links(template, libraries@, k),
            decreases libraries.len() - at,
        {
            linker = match linker.library(libraries[at].0.as_str(), libraries[at].1) {
                Ok(next) => next,
                Err(error) => {
                    assert(!links(template, libraries@, at as int));
                    return Err(DeployError::Link(error));
                },
            };
            at += 1;
        }
        linker.deploy(web3, params)
    }

    /// The interface description of the instance.
    pub fn abi(&self) -> (abi: &Abi)
        ensures
            *abi == self.interface(),
    {
        &self.abi
    }

    /// The address the instance is bound to.
    pub fn address(&self) -> (address: Address)
        ensures
            address == self.location(),
    {
        self.address
    }

    /// The parameters applied to every call built from the instance.
    pub fn defaults(&self) -> (defaults: MethodDefaults)
        ensures
            defaults == self.default_parameters(),
    {
        self.defaults
    }

    /// Replaces the parameters applied to every call built from now on.
    /// Nothing else of the instance changes.
    pub fn set_defaults(&mut self, defaults: MethodDefaults)
        ensures
            final(self).default_parameters() == defaults,
            final(self).transport() == old(self).transport(),
            final(self).interface() == old(self).interface(),
            final(self).location() == old(self).location(),
            final(self).index() == old(self).index(),
    {
        proof {
            use_type_invariant(&*self);
        }
        self.defaults = defaults;
    }
}

impl<W: Clone> Instance<W> {
    /// A copy of the transport handle of the instance.
    pub fn web3(&self) -> (web3: W)
        ensures
            cloned(self.transport(), web3),
    {
        self.web3.clone()
    }

    /// Resolves `signature` to a function of the interface description and
    /// encodes a call of it with `params`. The builder that comes back carries
    /// the encoded call and the defaults of the instance.
    ///
    /// Fails with `InvalidName` where the signature is unknown, with
    /// `InvalidData` where the arguments do not have the shape of the
    /// function's inputs, and with the codec's error where it refuses them.
    pub fn method(&self, signature: &str, params: Vec<Value>) -> (built: Result<
        MethodBuilder<W>,
        AbiError,
    >)
        ensures
            self.builds(signature@, params@, built),
    {
        proof {
            use_type_invariant(self);
        }
        let (name, index) = match self.methods.get(signature) {
            Some(entry) => (&entry.0, entry.1),
            None => {
                return Err(AbiError::InvalidName(String::from_str(signature)));
            },
        };
        let mut overloads = abi_functions_named(&self.abi, name.as_str());
        let function = overloads.remove(index);
        let kinds = input_kinds_of(&function);
        if !tokens_fit(&params, &kinds) || weigh_all(&params).is_none() {
            return Err(AbiError::InvalidData);
        }
        let data = match encode_call(&function, &params) {
            Ok(data) => data,
            Err(error) => {
                return Err(AbiError::Codec(error));
            },
        };
        Ok(
            MethodBuilder::new(self.web3.clone(), function, self.address, data).with_defaults(
                &self.defaults,
            ),
        )
    }

    /// Subscribes to the event declared under `name`: the builder that comes
    /// back asks for the logs of this contract that carry the topic of the
    /// event.
    ///
    /// Fails with `InvalidName` where the interface description declares no
    /// event under the name.
    pub fn event(&self, name: &str) -> (built: Result<EventBuilder<W>, AbiError>)
        ensures
            match built {
                Ok(builder) => {
                    &&& abi_events(self.interface()).dom().contains(name@)
                    &&& abi_events(self.interface())[name@].len() > 0
                    &&& builder.event == abi_events(self.interface())[name@][0]
                    &&& builder.filter.address == self.location()
                    &&& match builder.filter.topic {
                        Some(topic) => !event_anonymous(builder.event) && topic@ == event_topic(
                            builder.event,
                        ),
                        None => event_anonymous(builder.event),
                    }
                    &&& builder.from_block is None
                    &&& builder.poll_interval == DEFAULT_POLL_INTERVAL
                    &&& cloned(self.transport(), builder.web3)
                },
                Err(AbiError::InvalidName(unknown)) => {
                    &&& !(abi_events(self.interface()).dom().contains(name@) && abi_events(
                        self.interface(),
                    )[name@].len() > 0)
                    &&& unknown@ == name@
                },
                Err(_) => false,
            },
    {
        match abi_event_named(&self.abi, name) {
            Ok(event) => Ok(EventBuilder::new(self.web3.clone(), event, self.address)),
            Err(_) => Err(AbiError::InvalidName(String::from_str(name))),
        }
    }

    /// A stream of every log of this contract, whatever the event, polled at
    /// the default interval. It begins after the head of the chain that it
    /// sees first.
    pub fn all_events(&self) -> (stream: LogStream<W>)
        ensures
            stream.filter == (LogFilter { address: self.location(), topic: None }),
            stream.cursor == Cursor::start(DEFAULT_POLL_INTERVAL, None),
            cloned(self.transport(), stream.web3),
    {
        let filter = LogFilter { address: self.address, topic: None };
        LogStream::new(self.web3.clone(), filter, DEFAULT_POLL_INTERVAL)
    }

    /// Resolves and encodes as `method` does, for a call that can only be sent
    /// as a read-only query.
    pub fn view_method(&self, signature: &str, params: Vec<Value>) -> (built: Result<
        ViewMethodBuilder<W>,
        AbiError,
    >)
        ensures
            match built {
                Ok(view) => self.builds(signature@, params@, Ok(view.method)),
                Err(AbiError::InvalidName(name)) => self.builds(
                    signature@,
                    params@,
                    Err(AbiError::InvalidName(name)),
                ),
                Err(AbiError::InvalidData) => self.builds(
                    signature@,
                    params@,
                    Err(AbiError::InvalidData),
                ),
                Err(AbiError::Codec(error)) => self.builds(
                    signature@,
                    params@,
                    Err(AbiError::Codec(error)),
                ),
            },
    {
        match self.method(signature, params) {
            Ok(builder) => Ok(builder.view()),
            Err(error) => Err(error),
        }
    }
}

/// A lookup of a contract on the network that the transport is connected to,
/// waiting for the id of that network.
pub struct NetworkLookup<W> {
    /// The transport handle.
    pub web3: W,
    /// The registered deployments of the contract.
    pub deployments: Deployments,
}

impl<W> NetworkLookup<W> {
    /// Resolves the lookup with the id of the active network.
    ///
    /// Fails with `NotDeployed` where the contract is not registered on that
    /// network.
    pub fn resolve(self, network_id: &str) -> (found: Result<Instance<W>, NetworkError>)
        ensures
            match found {
                Ok(instance) => {
                    &&& self.deployments.networks().dom().contains(network_id@)
                    &&& instance.location() == self.deployments.networks()[network_id@].address
                    &&& instance.interface() == self.deployments.interface()
                    &&& instance.transport() == self.web3
                    &&& instance.default_parameters() == MethodDefaults::unset()
                    &&& instance.wf()
                },
                Err(NetworkError::NotDeployed(network)) => {
                    &&& !self.deployments.networks().dom().contains(network_id@)
                    &&& network@ == network_id@
                },
            },
    {
        match Instance::from_network(self.web3, network_id, self.deployments) {
            Some(instance) => Ok(instance),
            None => Err(NetworkError::NotDeployed(String::from_str(network_id))),
        }
    }
}

/// Round trip: in an instance over a well-formed interface description, the
/// signature of every function resolves back to that exact function.
pub proof fn lemma_signature_round_trip<W>(instance: Instance<W>, name: Seq<char>, index: int)
    requires
        instance.wf(),
        signatures_distinct(instance.interface()),
        locates(instance.interface(), name, index),
    ensures
        instance.resolves(function_signature(function_at(instance.interface(), name, index)))
            == Some((name, index)),
{
    let abi = instance.interface();
    let signature = function_signature(function_at(abi, name, index));
    assert(instance.index().dom().contains(signature));
    let found = instance.index()[signature];
    assert(locates(abi, found.0@, found.1 as int));
    assert(function_signature(function_at(abi, found.0@, found.1 as int)) == signature);
}

/// Whatever the interface description, a signature that resolves leads to a
/// function with that signature, and the signature of every function resolves.
pub proof fn lemma_resolution_sound<W>(instance: Instance<W>, signature: Seq<char>)
    requires
        instance.wf(),
    ensures
        instance.resolves(signature) matches Some((name, index)) ==> locates(
            instance.interface(),
            name,
            index,
        ) && function_signature(function_at(instance.interface(), name, index)) == signature,
        instance.resolves(signature) is None ==> forall|name: Seq<char>, index: int|
            locates(instance.interface(), name, index) ==> #[trigger] function_signature(
                function_at(instance.interface(), name, index),
            ) != signature,
{
}

} // verus!
