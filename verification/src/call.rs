//! The delegated call: what an operation asks of the asset protocol, how the
//! protocol's wire format spells it, and what its outcome means.

use vstd::prelude::*;
use vstd::utf8::encode_utf8;
use mpl_core::instructions::{
    UpdatePluginV1, UpdatePluginV1InstructionArgs, UpdateV2, UpdateV2InstructionArgs,
};
use mpl_core::types::{FreezeDelegate, Plugin};
use crate::address::{core_program, Address};
use crate::derivation::SignerSeeds;
use crate::error::{CallFailure, GatewayError};

verus! {

/// What a delegated call changes on the asset.
#[derive(Clone, Debug, PartialEq, Eq)]
pub enum Payload {
    /// Set the asset's freeze flag.
    FreezeFlag { frozen: bool },
    /// Replace the asset's display name and content location.
    Metadata { new_name: String, new_uri: String },
}

/// One call into the asset protocol, signed by a collection authority through
/// its seeds.
#[derive(Clone, Debug, PartialEq, Eq)]
pub struct DelegatedCall {
    /// The program account handed over as the protocol.
    pub program: Address,
    /// The asset to change.
    pub asset: Address,
    /// The collection context, where the call carries one.
    pub collection: Option<Address>,
    /// The acting authority.
    pub authority: Option<Address>,
    /// Who pays for storage, where the call may allocate.
    pub payer: Option<Address>,
    /// The system context, where the call may allocate.
    pub system_program: Option<Address>,
    pub payload: Payload,
    /// The seeds that sign for `authority`.
    pub signer: SignerSeeds,
}

/// One account of an instruction, with the rights the instruction asks for.
#[derive(Clone, Copy, Debug, PartialEq, Eq)]
pub struct AccountMeta {
    pub address: Address,
    pub is_signer: bool,
    pub is_writable: bool,
}

/// A call in the protocol's wire format.
#[derive(Clone, Debug, PartialEq, Eq)]
pub struct Instruction {
    pub program_id: Address,
    pub accounts: Vec<AccountMeta>,
    pub data: Vec<u8>,
}

/// The mathematical content of an [`Instruction`].
pub struct InstructionView {
    pub program_id: Address,
    pub accounts: Seq<AccountMeta>,
    pub data: Seq<u8>,
}

impl View for Instruction {
    type V = InstructionView;

    open spec fn view(&self) -> InstructionView {
        InstructionView { program_id: self.program_id, accounts: self.accounts@, data: self.data@ }
    }
}

/// An account the instruction names.
pub open spec fn named(address: Address, is_signer: bool, is_writable: bool) -> AccountMeta {
    AccountMeta { address, is_signer, is_writable }
}

/// An optional account: where it is absent the wire format names the protocol's
/// own program in its place, read-only and unsigned.
pub open spec fn optional(account: Option<Address>, is_signer: bool, is_writable: bool) -> AccountMeta {
    match account {
        Some(address) => named(address, is_signer, is_writable),
        None => named(core_program(), false, false),
    }
}

/// A length as the four little-endian bytes of a `u32`.
pub open spec fn le32(n: nat) -> Seq<u8> {
    seq![
        (n % 256) as u8,
        (n / 256 % 256) as u8,
        (n / 65536 % 256) as u8,
        (n / 16777216 % 256) as u8,
    ]
}

/// A present string on the wire: the tag 1, the byte length, the UTF-8 bytes.
pub open spec fn present_string(s: Seq<char>) -> Seq<u8> {
    seq![1u8] + le32(encode_utf8(s).len()) + encode_utf8(s)
}

/// The wire form of a plugin update that sets the freeze flag: six accounts,
/// then the instruction's number 6, the freeze plugin's number 1 and the flag.
pub open spec fn plugin_update_wire(
    asset: Address,
    collection: Option<Address>,
    payer: Address,
    authority: Option<Address>,
    system_program: Address,
    frozen: bool,
) -> InstructionView {
    InstructionView {
        program_id: core_program(),
        accounts: seq![
            named(asset, false, true),
            optional(collection, false, true),
            named(payer, true, true),
            optional(authority, true, false),
            named(system_program, false, false),
            optional(None, false, false),
        ],
        data: seq![6u8, 1u8, if frozen { 1u8 } else { 0u8 }],
    }
}

/// The wire form of a metadata update: seven accounts, then the instruction's
/// number 30, the two strings as present, and an absent new update authority.
pub open spec fn metadata_update_wire(
    asset: Address,
    collection: Option<Address>,
    payer: Address,
    authority: Option<Address>,
    system_program: Address,
    new_name: Seq<char>,
    new_uri: Seq<char>,
) -> InstructionView {
    InstructionView {
        program_id: core_program(),
        accounts: seq![
            named(asset, false, true),
            optional(collection, false, true),
            named(payer, true, true),
            optional(authority, true, false),
            optional(None, false, true),
            named(system_program, false, false),
            optional(None, false, false),
        ],
        data: seq![30u8] + present_string(new_name) + present_string(new_uri) + seq![0u8],
    }
}

/// Calls `UpdatePluginV1::instruction` of `mpl_core` with the freeze plugin and
/// no log wrapper, and copies the instruction it returns. Trusted: that
/// instruction is `plugin_update_wire`, that is, it is addressed to the
/// protocol's program, names asset, collection, payer, authority, system
/// program and log wrapper in this order with the rights given there, and its
/// data are the borsh form of the instruction's number and the plugin.
#[verifier::external_body]
fn build_plugin_update(
    asset: &Address,
    collection: &Option<Address>,
    payer: &Address,
    authority: &Option<Address>,
    system_program: &Address,
    frozen: bool,
) -> (ix: Instruction)
    ensures
        ix@ == plugin_update_wire(*asset, *collection, *payer, *authority, *system_program, frozen),
{
    let accounts = UpdatePluginV1 {
        asset: asset.bytes.into(),
        collection: collection.map(|a| a.bytes.into()),
        payer: payer.bytes.into(),
        authority: authority.map(|a| a.bytes.into()),
        system_program: system_program.bytes.into(),
        log_wrapper: None,
    };
    let plugin = Plugin::FreezeDelegate(FreezeDelegate { frozen });
    let ix = accounts.instruction(UpdatePluginV1InstructionArgs { plugin });
    let metas = ix.accounts.iter().map(|m| AccountMeta { address: Address { bytes: m.pubkey.to_bytes() }, is_signer: m.is_signer, is_writable: m.is_writable });
    Instruction { program_id: Address { bytes: ix.program_id.to_bytes() }, accounts: metas.collect(), data: ix.data }
}

/// Calls `UpdateV2::instruction` of `mpl_core` with both strings present, no new
/// collection, no new update authority and no log wrapper, and copies the
/// instruction it returns. Trusted: that instruction is `metadata_update_wire`,
/// that is, it is addressed to the protocol's program, names asset,
/// collection, payer, authority, new collection, system program and log
/// wrapper in this order with the rights given there, and its data are the
/// borsh form of the instruction's number and the three optional arguments.
/// The encoder stops on a string of more than `u32::MAX` bytes, so such
/// strings are left out.
#[verifier::external_body]
fn build_metadata_update(
    asset: &Address,
    collection: &Option<Address>,
    payer: &Address,
    authority: &Option<Address>,
    system_program: &Address,
    new_name: String,
    new_uri: String,
) -> (ix: Instruction)
    requires
        encode_utf8(new_name@).len() <= u32::MAX,
        encode_utf8(new_uri@).len() <= u32::MAX,
    ensures
        ix@ == metadata_update_wire(
            *asset,
            *collection,
            *payer,
            *authority,
            *system_program,
            new_name@,
            new_uri@,
        ),
{
    let accounts = UpdateV2 {
        asset: asset.bytes.into(),
        collection: collection.map(|a| a.bytes.into()),
        payer: payer.bytes.into(),
        authority: authority.map(|a| a.bytes.into()),
        new_collection: None,
        system_program: system_program.bytes.into(),
        log_wrapper: None,
    };
    let args = UpdateV2InstructionArgs { new_name: Some(new_name), new_uri: Some(new_uri), new_update_authority: None };
    let ix = accounts.instruction(args);
    let metas = ix.accounts.iter().map(|m| AccountMeta { address: Address { bytes: m.pubkey.to_bytes() }, is_signer: m.is_signer, is_writable: m.is_writable });
    Instruction { program_id: Address { bytes: ix.program_id.to_bytes() }, accounts: metas.collect(), data: ix.data }
}

/// Whether a string's UTF-8 form fits the wire format's length field.
fn fits_wire(s: &String) -> (fits: bool)
    ensures
        fits == (encode_utf8(s@).len() <= u32::MAX),
{
    s.as_str().as_bytes().len() <= 0xffff_ffff
}

impl DelegatedCall {
    /// Whether the wire format can spell this call: it has a place for a payer
    /// and for the system context and leaves neither empty, and it counts a
    /// string's bytes in a `u32`.
    pub open spec fn encodable(self) -> bool {
        &&& self.payer is Some
        &&& self.system_program is Some
        &&& match self.payload {
            Payload::FreezeFlag { .. } => true,
            Payload::Metadata { new_name, new_uri } => {
                &&& encode_utf8(new_name@).len() <= u32::MAX
                &&& encode_utf8(new_uri@).len() <= u32::MAX
            },
        }
    }

    /// The call in the wire format. It is always addressed to the protocol's
    /// own program identity.
    pub open spec fn wire(self) -> InstructionView {
        match self.payload {
            Payload::FreezeFlag { frozen } => plugin_update_wire(
                self.asset,
                self.collection,
                self.payer->0,
                self.authority,
                self.system_program->0,
                frozen,
            ),
            Payload::Metadata { new_name, new_uri } => metadata_update_wire(
                self.asset,
                self.collection,
                self.payer->0,
                self.authority,
                self.system_program->0,
                new_name@,
                new_uri@,
            ),
        }
    }

    /// Encodes the call for the protocol, or returns `None` where the wire
    /// format cannot spell it.
    pub fn instruction(&self) -> (encoded: Option<Instruction>)
        ensures
            match encoded {
                Some(ix) => self.encodable() && ix@ == self.wire(),
                None => !self.encodable(),
            },
    {
        let payer = match self.payer {
            Some(payer) => payer,
            None => {
                return None;
            },
        };
        let system_program = match self.system_program {
            Some(system_program) => system_program,
            None => {
                return None;
            },
        };
        match &self.payload {
            Payload::FreezeFlag { frozen } => Some(
                build_plugin_update(
                    &self.asset,
                    &self.collection,
                    &payer,
                    &self.authority,
                    &system_program,
                    *frozen,
                ),
            ),
            Payload::Metadata { new_name, new_uri } => {
                if fits_wire(new_name) && fits_wire(new_uri) {
                    Some(
                        build_metadata_update(
                            &self.asset,
                            &self.collection,
                            &payer,
                            &self.authority,
                            &system_program,
                            new_name.clone(),
                            new_uri.clone(),
                        ),
                    )
                } else {
                    None
                }
            },
        }
    }
}

/// The calls that a decision hands to the host to issue: one, or none.
pub open spec fn issued_calls(decision: Result<DelegatedCall, GatewayError>) -> Seq<DelegatedCall> {
    match decision {
        Ok(call) => seq![call],
        Err(_) => Seq::empty(),
    }
}

/// What the host reports once it has carried a delegated call out.
#[derive(Clone, Copy, Debug, PartialEq, Eq, Structural)]
pub enum CallOutcome {
    /// The protocol accepted the call.
    Succeeded,
    /// The protocol turned the call down, with this code.
    Failed(u64),
}

/// The result of an operation whose delegated call ended in `outcome`.
pub open spec fn settled(outcome: CallOutcome) -> Result<(), GatewayError> {
    match outcome {
        CallOutcome::Succeeded => Ok(()),
        CallOutcome::Failed(code) => Err(
            GatewayError::ExternalCallFailed(CallFailure::Rejected(code)),
        ),
    }
}

/// Turns the outcome of the delegated call into the operation's result: a
/// failure is passed on with its code, nothing is retried.
pub fn settle(outcome: CallOutcome) -> (result: Result<(), GatewayError>)
    ensures
        result == settled(outcome),
{
    match outcome {
        CallOutcome::Succeeded => Ok(()),
        CallOutcome::Failed(code) => Err(
            GatewayError::ExternalCallFailed(CallFailure::Rejected(code)),
        ),
    }
}

} // verus!
