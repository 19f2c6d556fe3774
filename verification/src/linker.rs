//! Linking libraries into deployment bytecode, one library at a time.
//!
//! A linker starts from the bytecode template of an artifact. Each call of
//! `library` resolves the placeholders of one library and checks only that
//! link. Whether anything is left unresolved is checked once, when `deploy`
//! turns the template into the payload of a deployment.

use crate::abi::{
    abi_constructor, abi_constructor_of, constructor_arguments, constructor_inputs,
    constructor_kinds_of, encodable, encode_constructor,
};
use crate::tokens::{tokens_fit, weigh_all, Value};
use crate::artifact::Artifact;
use crate::bytecode::{
    address_hex, bytecode_text, code_of, decoded, first_placeholder, is_empty_code, is_template,
    is_template_text, is_valid_name, lemma_linked_leaves_none, library_of, link_library, occurs,
    placeholder, replaced, text_of, valid_library_name, absent,
};
use crate::deploy::DeployBuilder;
use crate::errors::{AbiError, DeployError, LinkError};
use crate::method::CallParameters;
use crate::types::Address;
use ethcontract_common::{Abi, Bytecode};
use vstd::string::StringExecFns;
use vstd::prelude::*;

verus! {

/// The encoding of constructor arguments under an interface description. An
/// interface description without a constructor takes no arguments, and they
/// add nothing to the payload.
pub open spec fn constructor_data(abi: Abi, tokens: Seq<Value>) -> Option<Seq<u8>> {
    match abi_constructor(abi) {
        Some(constructor) => if encodable(tokens, constructor_inputs(constructor)) {
            constructor_arguments(constructor, tokens)
        } else {
            None
        },
        None => if tokens.len() == 0 {
            Some(Seq::<u8>::empty())
        } else {
            None
        },
    }
}

/// Whether `built` is what deploying the template `template` of a contract
/// described by `abi` with the constructor arguments `tokens` comes to.
///
/// A builder comes back where there is code, the text is a template, no
/// placeholder is left and the arguments fit: its payload is the code
/// followed by the encoded arguments. Otherwise the first of these that fails
/// decides the error.
pub open spec fn deploys<W>(
    template: Seq<char>,
    abi: Abi,
    tokens: Seq<Value>,
    web3: W,
    built: Result<DeployBuilder<W>, DeployError>,
) -> bool {
    match built {
        Ok(builder) => {
            &&& template.len() > 0
            &&& is_template(template)
            &&& first_placeholder(template) is None
            &&& constructor_data(abi, tokens) matches Some(arguments)
            &&& builder.data@ == decoded(template) + arguments
            &&& builder.abi == abi
            &&& builder.web3 == web3
            &&& builder.parameters == CallParameters::unset()
        },
        Err(DeployError::EmptyBytecode) => template.len() == 0,
        Err(DeployError::Link(LinkError::Malformed)) => {
            &&& template.len() > 0
            &&& !is_template(template)
        },
        Err(DeployError::Link(error)) => {
            &&& is_template(template)
            &&& first_placeholder(template) matches Some(block)
            &&& error matches LinkError::UndefinedLibrary(library)
            &&& library@ == library_of(block)
        },
        Err(DeployError::NoConstructor) => {
            &&& template.len() > 0
            &&& is_template(template)
            &&& first_placeholder(template) is None
            &&& abi_constructor(abi) is None
            &&& tokens.len() > 0
        },
        Err(DeployError::Abi(error)) => {
            &&& template.len() > 0
            &&& is_template(template)
            &&& first_placeholder(template) is None
            &&& abi_constructor(abi) matches Some(constructor)
            &&& constructor_data(abi, tokens) is None
            &&& if encodable(tokens, constructor_inputs(constructor)) {
                error is Codec
            } else {
                error is InvalidData
            }
        },
        Err(_) => false,
    }
}

/// The template after the first `count` of `libraries` have been linked into
/// it, one after the other.
pub open spec fn linked_through(
    template: Seq<char>,
    libraries: Seq<(String, Address)>,
    count: int,
) -> Seq<char>
    decreases count,
{
    if count <= 0 {
        template
    } else {
        replaced(
            linked_through(template, libraries, count - 1),
            placeholder(libraries[count - 1].0@),
            address_hex(libraries[count - 1].1),
        )
    }
}

/// Whether the library at `at` can be linked once those before it are: its
/// name is valid and its placeholder still stands in the text.
pub open spec fn links(template: Seq<char>, libraries: Seq<(String, Address)>, at: int) -> bool {
    valid_library_name(libraries[at].0@) && occurs(
        linked_through(template, libraries, at),
        placeholder(libraries[at].0@),
    )
}

/// A contract on its way to deployment: its interface description and its
/// bytecode template, linked so far.
#[derive(Debug)]
pub struct Linker {
    abi: Abi,
    bytecode: Bytecode,
}

impl Linker {
    /// The interface description of the contract.
    pub closed spec fn interface(self) -> Abi {
        self.abi
    }

    /// The text of the bytecode template, as linked so far.
    pub closed spec fn template(self) -> Seq<char> {
        bytecode_text(self.bytecode)
    }

    /// A linker for the contract of `artifact`, with nothing linked yet.
    pub fn new(artifact: Artifact) -> (linker: Linker)
        ensures
            linker.interface() == artifact.interface(),
            linker.template() == artifact.template(),
    {
        let (abi, bytecode, _) = artifact.into_parts();
        Linker { abi, bytecode }
    }

    /// The interface description of the contract.
    pub fn abi(&self) -> (abi: &Abi)
        ensures
            *abi == self.interface(),
    {
        &self.abi
    }

    /// Gives up the linker for its interface description.
    pub(crate) fn into_abi(self) -> (abi: Abi)
        ensures
            abi == self.interface(),
    {
        self.abi
    }

    /// The bytecode template, as linked so far.
    pub fn bytecode(&self) -> (bytecode: &Bytecode)
        ensures
            bytecode_text(*bytecode) == self.template(),
    {
        &self.bytecode
    }

    /// Links the library `name` at `address`: every match of the placeholder
    /// of the library in the text is replaced by the address.
    ///
    /// Fails with `InvalidName` where the name cannot stand in a placeholder,
    /// and with `NotFound` where the placeholder of the library stands nowhere
    /// in the text.
    pub fn library(self, name: &str, address: Address) -> (next: Result<Linker, LinkError>)
        ensures
            match next {
                Ok(linker) => {
                    &&& valid_library_name(name@)
                    &&& occurs(self.template(), placeholder(name@))
                    &&& linker.template() == replaced(
                        self.template(),
                        placeholder(name@),
                        address_hex(address),
                    )
                    &&& linker.interface() == self.interface()
                },
                Err(LinkError::InvalidName(rejected)) => {
                    &&& !valid_library_name(name@)
                    &&& rejected@ == name@
                },
                Err(LinkError::NotFound(missing)) => {
                    &&& valid_library_name(name@)
                    &&& !occurs(self.template(), placeholder(name@))
                    &&& missing@ == name@
                },
                Err(_) => false,
            },
    {
        if !is_valid_name(name) {
            return Err(LinkError::InvalidName(String::from_str(name)));
        }
        let Linker { abi, mut bytecode } = self;
        if link_library(&mut bytecode, name, address) {
            Ok(Linker { abi, bytecode })
        } else {
            Err(LinkError::NotFound(String::from_str(name)))
        }
    }

    /// Finishes linking and builds the deployment of the contract with the
    /// constructor arguments `params`. The payload is the code that the
    /// template stands for, followed by the encoded arguments.
    ///
    /// Nothing is sent. While a placeholder is left the deployment fails with
    /// a link error: `UndefinedLibrary`, naming the library of the first one,
    /// or `Malformed` where linking has left text that is no template. It
    /// fails too where there is no code, and where the arguments do not fit
    /// the constructor.
    pub fn deploy<W>(self, web3: W, params: Vec<Value>) -> (built: Result<
        DeployBuilder<W>,
        DeployError,
    >)
        ensures
            first_placeholder(self.template()) is Some ==> built matches Err(
                DeployError::Link(_),
            ),
            first_placeholder(self.template()) is Some && is_template(self.template())
                ==> built matches Err(DeployError::Link(LinkError::UndefinedLibrary(_))),
            deploys(self.template(), self.interface(), params@, web3, built),
    {
        let Linker { abi, bytecode } = self;
        if is_empty_code(&bytecode) {
            return Err(DeployError::EmptyBytecode);
        }
        let text = text_of(&bytecode);
        if !is_template_text(text.as_str()) {
            return Err(DeployError::Link(LinkError::Malformed));
        }
        let code = match code_of(&bytecode) {
            Ok(code) => code,
            Err(library) => {
                return Err(DeployError::Link(LinkError::UndefinedLibrary(library)));
            },
        };
        let data = match abi_constructor_of(&abi) {
            Some(constructor) => {
                let kinds = constructor_kinds_of(&constructor);
                if !tokens_fit(&params, &kinds) || weigh_all(&params).is_none() {
                    return Err(DeployError::Abi(AbiError::InvalidData));
                }
                match encode_constructor(&constructor, code, &params) {
                    Ok(data) => data,
                    Err(error) => {
                        return Err(DeployError::Abi(AbiError::Codec(error)));
                    },
                }
            },
            None => {
                if params.len() > 0 {
                    return Err(DeployError::NoConstructor);
                }
                assert(code@ + Seq::<u8>::empty() =~= code@);
                code
            },
        };
        Ok(DeployBuilder::new(web3, abi, data))
    }
}

/// Linking a library twice: once a library is linked, linking it again, at
/// whatever address, fails with `NotFound`, since its placeholder stands
/// nowhere in the text. This holds where the text of the first address lacks
/// the last character of the placeholder, as for every library whose name
/// leaves room for padding.
pub proof fn lemma_relink_not_found(
    before: Linker,
    after: Linker,
    name: Seq<char>,
    address: Address,
)
    requires
        valid_library_name(name),
        absent(address_hex(address), placeholder(name).last()),
        after.template() == replaced(before.template(), placeholder(name), address_hex(address)),
    ensures
        !occurs(after.template(), placeholder(name)),
{
    lemma_linked_leaves_none(before.template(), name, address);
}

} // verus!
