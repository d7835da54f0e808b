//! Pure instruction builders.
//!
//! An `Instruction` is the opaque operation descriptor this library hands to
//! the submission collaborator: which world-program operation to perform, who
//! pays, which derived account it targets, the seed fingerprint that the
//! on-ledger program verifies against the account, and the byte image to
//! store.  Builders never perform I/O.

use vstd::prelude::*;
use vstd::slice::slice_to_vec;

use crate::codec::push_all;

verus! {

/// The three world-program operations.
#[derive(Clone, Copy, Debug, PartialEq, Eq, Structural)]
pub enum IxKind {
    /// Allocate and initialize a derived account with a byte image.
    CreateWorld,
    /// Authorize the ephemeral layer's session authority over an account.
    DelegateAccount,
    /// Fully replace an account's byte image.
    WriteToWorld,
}

/// The mathematical content of an instruction.
pub struct IxModel {
    pub kind: IxKind,
    pub payer: Seq<u8>,
    pub address: Seq<u8>,
    pub seed_hash: Seq<u8>,
    pub data: Seq<u8>,
}

/// One operation descriptor, ready for submission.
#[derive(Debug, Clone, PartialEq, Eq)]
pub struct Instruction {
    pub kind: IxKind,
    pub payer: [u8; 32],
    pub address: [u8; 32],
    pub seed_hash: [u8; 32],
    pub data: Vec<u8>,
}

impl View for Instruction {
    type V = IxModel;

    open spec fn view(&self) -> IxModel {
        IxModel {
            kind: self.kind,
            payer: self.payer@,
            address: self.address@,
            seed_hash: self.seed_hash@,
            data: self.data@,
        }
    }
}

/// The views of a list of instructions.
pub open spec fn ix_models(ixs: Seq<Instruction>) -> Seq<IxModel> {
    ixs.map_values(|ix: Instruction| ix@)
}

/// The model of a create instruction.
pub open spec fn create_world_ix_model(
    payer: Seq<u8>,
    address: Seq<u8>,
    seed_hash: Seq<u8>,
    data: Seq<u8>,
) -> IxModel {
    IxModel { kind: IxKind::CreateWorld, payer, address, seed_hash, data }
}

/// The model of a delegate instruction.
pub open spec fn delegate_account_ix_model(
    payer: Seq<u8>,
    address: Seq<u8>,
    seed_hash: Seq<u8>,
    data: Seq<u8>,
) -> IxModel {
    IxModel { kind: IxKind::DelegateAccount, payer, address, seed_hash, data }
}

/// The model of a write instruction.
pub open spec fn write_to_world_ix_model(
    payer: Seq<u8>,
    address: Seq<u8>,
    seed_hash: Seq<u8>,
    data: Seq<u8>,
) -> IxModel {
    IxModel { kind: IxKind::WriteToWorld, payer, address, seed_hash, data }
}

/// Builds the instruction that allocates and initializes the derived account
/// at `address` with the byte image `data`, binding it to `seed_hash`.
pub fn create_world_ix(
    payer: [u8; 32],
    address: [u8; 32],
    seed_hash: [u8; 32],
    data: &[u8],
) -> (r: Instruction)
    ensures
        r@ == create_world_ix_model(payer@, address@, seed_hash@, data@),
{
    Instruction { kind: IxKind::CreateWorld, payer, address, seed_hash, data: slice_to_vec(data) }
}

/// Builds the instruction that authorizes the ephemeral layer's session
/// authority to accept writes for the account at `address`; it must follow a
/// confirmed create on the base layer and precede any write.
pub fn delegate_account_ix(
    payer: [u8; 32],
    address: [u8; 32],
    seed_hash: [u8; 32],
    data: &[u8],
) -> (r: Instruction)
    ensures
        r@ == delegate_account_ix_model(payer@, address@, seed_hash@, data@),
{
    Instruction {
        kind: IxKind::DelegateAccount,
        payer,
        address,
        seed_hash,
        data: slice_to_vec(data),
    }
}

/// Builds the instruction that fully replaces the byte image of the account
/// at `address`; only ever submitted against the ephemeral layer.
pub fn write_to_world_ix(
    payer: [u8; 32],
    address: [u8; 32],
    seed_hash: [u8; 32],
    data: &[u8],
) -> (r: Instruction)
    ensures
        r@ == write_to_world_ix_model(payer@, address@, seed_hash@, data@),
{
    Instruction { kind: IxKind::WriteToWorld, payer, address, seed_hash, data: slice_to_vec(data) }
}

/// The tag byte that leads an operation's on-ledger wire encoding.
pub open spec fn kind_tag(kind: IxKind) -> u8 {
    match kind {
        IxKind::CreateWorld => 0u8,
        IxKind::DelegateAccount => 1u8,
        IxKind::WriteToWorld => 2u8,
    }
}

/// The wire data of an instruction as the world program receives it: the
/// operation's tag byte, then the seed fingerprint, then the byte image.
pub fn onledger_data(ix: &Instruction) -> (r: Vec<u8>)
    ensures
        r@ == seq![kind_tag(ix@.kind)] + ix@.seed_hash + ix@.data,
{
    let tag: u8 = match ix.kind {
        IxKind::CreateWorld => 0u8,
        IxKind::DelegateAccount => 1u8,
        IxKind::WriteToWorld => 2u8,
    };
    let mut r: Vec<u8> = Vec::new();
    r.push(tag);
    push_all(&mut r, ix.seed_hash.as_slice());
    push_all(&mut r, ix.data.as_slice());
    proof {
        assert(r@ =~= seq![kind_tag(ix@.kind)] + ix@.seed_hash + ix@.data);
    }
    r
}

} // verus!
