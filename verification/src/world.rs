//! The layer router and facade.
//!
//! A `World` is the identity value of one created world record: its creator,
//! its seed fingerprint, and its derived address.  The facade functions
//! derive the target account, build the instructions, and route each
//! submission to its layer through an injected `LedgerPort`: create and
//! delegate go to the base layer, writes and reads go to the ephemeral layer,
//! where a delegated account's current copy lives.

use vstd::prelude::*;
use vstd::string::StringSliceAdditionalSpecFns;

use crate::codec::MojoState;
use crate::codec::StateLayout;
use crate::error::WorldError;
use crate::instructions::Instruction;
use crate::instructions::create_world_ix;
use crate::instructions::create_world_ix_model;
use crate::instructions::delegate_account_ix;
use crate::instructions::delegate_account_ix_model;
use crate::instructions::ix_models;
use crate::instructions::write_to_world_ix;
use crate::instructions::write_to_world_ix_model;
use crate::ledger::Layer;
use crate::ledger::LedgerPort;
use crate::ledger::all_ok;
use crate::ledger::apply_all;
use crate::ledger::lemma_apply_pair;
use crate::ledger::lemma_apply_single;
use crate::pda::MAX_NAME_LEN;
use crate::pda::fingerprint_of;
use crate::pda::world_address_of;

verus! {

/// The endpoint configuration the facade is constructed with: one URL per
/// layer, selected statically by layer — never discovered at run time.
#[derive(Debug, Clone, PartialEq, Eq)]
pub struct NetworkConfig {
    pub base_url: String,
    pub ephemeral_url: String,
}

impl NetworkConfig {
    /// A configuration from its two endpoint URLs.
    pub fn new(base_url: String, ephemeral_url: String) -> (r: Self)
        ensures
            r.base_url@ == base_url@,
            r.ephemeral_url@ == ephemeral_url@,
    {
        NetworkConfig { base_url, ephemeral_url }
    }

    /// The endpoint a submission on `layer` goes to.
    pub fn endpoint_url(&self, layer: Layer) -> (r: &String)
        ensures
            layer is BaseLayer ==> r@ == self.base_url@,
            layer is Ephemeral ==> r@ == self.ephemeral_url@,
    {
        match layer {
            Layer::BaseLayer => &self.base_url,
            Layer::Ephemeral => &self.ephemeral_url,
        }
    }
}

/// The identity of one world: its creator's address, the seed fingerprint of
/// (creator, name), and the derived world address.  Created once per
/// (creator, name) and immutable thereafter.
#[derive(Clone, Copy, Debug, PartialEq, Eq)]
pub struct World {
    pub creator: [u8; 32],
    pub seed: [u8; 32],
    pub address: [u8; 32],
}

/// The byte image stored in a world record's account: the creator's 32
/// address bytes followed by the 32 fingerprint bytes.
pub open spec fn world_record_bytes(creator: Seq<u8>, seed: Seq<u8>) -> Seq<u8> {
    creator + seed
}

/// Derives the world account of (payer, name) and builds the create
/// instruction that initializes it with the world record image.  Pure: the
/// caller submits the instruction on the base layer.
pub fn create_world_plan(payer: &[u8; 32], name: &str) -> (r: Result<
    (World, Instruction),
    WorldError,
>)
    ensures
        name.spec_bytes().len() > MAX_NAME_LEN ==> r == Err::<(World, Instruction), WorldError>(
            WorldError::InvalidNameLength(name.spec_bytes().len() as usize, MAX_NAME_LEN),
        ),
        name.spec_bytes().len() <= MAX_NAME_LEN ==> match world_address_of(
            payer@,
            name.spec_bytes(),
        ) {
            Some(addr) => r matches Ok(p) && p.0.creator@ == payer@ && p.0.seed@
                == fingerprint_of(payer@, name.spec_bytes()) && p.0.address@ == addr && p.1@
                == create_world_ix_model(
                payer@,
                addr,
                fingerprint_of(payer@, name.spec_bytes()),
                world_record_bytes(payer@, fingerprint_of(payer@, name.spec_bytes())),
            ),
            None => r == Err::<(World, Instruction), WorldError>(WorldError::DerivationFailure),
        },
{
    let (address, seed) = match crate::pda::derive(payer, name) {
        Ok(p) => p,
        Err(e) => {
            return Err(e);
        },
    };
    let mut record = MojoState::new();
    record.push_bytes(payer.as_slice());
    record.push_bytes(seed.as_slice());
    let ix = create_world_ix(*payer, address, seed, record.to_bytes());
    Ok((World { creator: *payer, seed, address }, ix))
}

/// Derives the state account of (payer, name) and builds the create and
/// delegate instructions that initialize it with `initial_state` and hand it
/// to the ephemeral layer.  Pure: the caller submits both on the base layer,
/// create first, delegate only once create confirms.
pub fn create_state_plan(payer: &[u8; 32], name: &str, initial_state: &MojoState) -> (r: Result<
    ([u8; 32], Instruction, Instruction),
    WorldError,
>)
    ensures
        name.spec_bytes().len() > MAX_NAME_LEN ==> r == Err::<
            ([u8; 32], Instruction, Instruction),
            WorldError,
        >(WorldError::InvalidNameLength(name.spec_bytes().len() as usize, MAX_NAME_LEN)),
        name.spec_bytes().len() <= MAX_NAME_LEN ==> match world_address_of(
            payer@,
            name.spec_bytes(),
        ) {
            Some(addr) => r matches Ok(p) && p.0@ == addr && p.1@ == create_world_ix_model(
                payer@,
                addr,
                fingerprint_of(payer@, name.spec_bytes()),
                initial_state@,
            ) && p.2@ == delegate_account_ix_model(
                payer@,
                addr,
                fingerprint_of(payer@, name.spec_bytes()),
                initial_state@,
            ),
            None => r == Err::<([u8; 32], Instruction, Instruction), WorldError>(
                WorldError::DerivationFailure,
            ),
        },
{
    let (address, seed) = match crate::pda::derive(payer, name) {
        Ok(p) => p,
        Err(e) => {
            return Err(e);
        },
    };
    let ix = create_world_ix(*payer, address, seed, initial_state.to_bytes());
    let delegate_ix = delegate_account_ix(*payer, address, seed, initial_state.to_bytes());
    Ok((address, ix, delegate_ix))
}

/// Derives the state account of (payer, name) and builds the full-replacement
/// write instruction.  Pure: the caller submits it on the ephemeral layer.
pub fn write_state_plan(payer: &[u8; 32], name: &str, new_state: &MojoState) -> (r: Result<
    ([u8; 32], Instruction),
    WorldError,
>)
    ensures
        name.spec_bytes().len() > MAX_NAME_LEN ==> r == Err::<([u8; 32], Instruction), WorldError>(
            WorldError::InvalidNameLength(name.spec_bytes().len() as usize, MAX_NAME_LEN),
        ),
        name.spec_bytes().len() <= MAX_NAME_LEN ==> match world_address_of(
            payer@,
            name.spec_bytes(),
        ) {
            Some(addr) => r matches Ok(p) && p.0@ == addr && p.1@ == write_to_world_ix_model(
                payer@,
                addr,
                fingerprint_of(payer@, name.spec_bytes()),
                new_state@,
            ),
            None => r == Err::<([u8; 32], Instruction), WorldError>(WorldError::DerivationFailure),
        },
{
    let (address, seed) = match crate::pda::derive(payer, name) {
        Ok(p) => p,
        Err(e) => {
            return Err(e);
        },
    };
    let ix = write_to_world_ix(*payer, address, seed, new_state.to_bytes());
    Ok((address, ix))
}

impl World {
    /// Creates the world record of (payer, name): derives its address and
    /// fingerprint, submits one create on the base layer, and returns the
    /// World identity.  No delegation: a world record is not meant for
    /// fast-path writes.  On any failure the ledger is unchanged.
    pub fn create_world<P: LedgerPort>(port: &mut P, payer: &[u8; 32], name: &str) -> (r: Result<
        World,
        WorldError,
    >)
        ensures
            name.spec_bytes().len() > MAX_NAME_LEN ==> r == Err::<World, WorldError>(
                WorldError::InvalidNameLength(name.spec_bytes().len() as usize, MAX_NAME_LEN),
            ),
            name.spec_bytes().len() <= MAX_NAME_LEN && world_address_of(
                payer@,
                name.spec_bytes(),
            ) is None ==> r == Err::<World, WorldError>(WorldError::DerivationFailure),
            r == Err::<World, WorldError>(WorldError::DerivationFailure) ==> name.spec_bytes().len()
                <= MAX_NAME_LEN && world_address_of(payer@, name.spec_bytes()) is None,
            r matches Err(e) ==> (e is InvalidNameLength ==> name.spec_bytes().len()
                > MAX_NAME_LEN),
            r is Err ==> final(port).model() == old(port).model(),
            r matches Ok(w) ==> ({
                let seed = fingerprint_of(payer@, name.spec_bytes());
                let cix = create_world_ix_model(
                    payer@,
                    w.address@,
                    seed,
                    world_record_bytes(payer@, seed),
                );
                &&& name.spec_bytes().len() <= MAX_NAME_LEN
                &&& w.creator@ == payer@
                &&& w.seed@ == seed
                &&& world_address_of(payer@, name.spec_bytes()) == Some(w.address@)
                &&& all_ok(old(port).model(), seq![cix], Layer::BaseLayer)
                &&& final(port).model() == apply_all(
                    old(port).model(),
                    seq![cix],
                    Layer::BaseLayer,
                )
            }),
    {
        let (world, ix) = match create_world_plan(payer, name) {
            Ok(p) => p,
            Err(e) => {
                return Err(e);
            },
        };
        let ghost cix = ix@;
        let mut ixs: Vec<Instruction> = Vec::new();
        ixs.push(ix);
        proof {
            assert(ix_models(ixs@) =~= seq![cix]);
        }
        match port.send_ixs(&ixs, Layer::BaseLayer) {
            Ok(_) => Ok(world),
            Err(e) => Err(e),
        }
    }

    /// Creates the state account of (payer, name) with the image of
    /// `initial_state` and hands it to the ephemeral layer: one create, then,
    /// only once create confirms, one delegate, both on the base layer.
    ///
    /// There is no rollback: if delegate fails after create confirmed, the
    /// account is left created but not delegated — the ledger then holds
    /// exactly the create — and the caller must resubmit the delegation.
    pub fn create_state<P: LedgerPort>(
        port: &mut P,
        payer: &[u8; 32],
        name: &str,
        initial_state: &MojoState,
    ) -> (r: Result<[u8; 32], WorldError>)
        ensures
            name.spec_bytes().len() > MAX_NAME_LEN ==> r == Err::<[u8; 32], WorldError>(
                WorldError::InvalidNameLength(name.spec_bytes().len() as usize, MAX_NAME_LEN),
            ),
            name.spec_bytes().len() <= MAX_NAME_LEN && world_address_of(
                payer@,
                name.spec_bytes(),
            ) is None ==> r == Err::<[u8; 32], WorldError>(WorldError::DerivationFailure),
            r == Err::<[u8; 32], WorldError>(WorldError::DerivationFailure) ==> name.spec_bytes().len()
                <= MAX_NAME_LEN && world_address_of(payer@, name.spec_bytes()) is None,
            r matches Err(e) ==> (e is InvalidNameLength ==> name.spec_bytes().len()
                > MAX_NAME_LEN),
            name.spec_bytes().len() > MAX_NAME_LEN || world_address_of(
                payer@,
                name.spec_bytes(),
            ) is None ==> final(port).model() == old(port).model(),
            r matches Ok(addr) ==> (match world_address_of(payer@, name.spec_bytes()) {
                Some(a) => ({
                    let seed = fingerprint_of(payer@, name.spec_bytes());
                    let cix = create_world_ix_model(payer@, a, seed, initial_state@);
                    let dix = delegate_account_ix_model(payer@, a, seed, initial_state@);
                    &&& addr@ == a
                    &&& all_ok(old(port).model(), seq![cix, dix], Layer::BaseLayer)
                    &&& final(port).model() == apply_all(
                        old(port).model(),
                        seq![cix, dix],
                        Layer::BaseLayer,
                    )
                }),
                None => false,
            }),
            r is Err ==> (match world_address_of(payer@, name.spec_bytes()) {
                Some(a) => ({
                    let seed = fingerprint_of(payer@, name.spec_bytes());
                    let cix = create_world_ix_model(payer@, a, seed, initial_state@);
                    ||| final(port).model() == old(port).model()
                    ||| (all_ok(old(port).model(), seq![cix], Layer::BaseLayer)
                        && final(port).model() == apply_all(
                        old(port).model(),
                        seq![cix],
                        Layer::BaseLayer,
                    ))
                }),
                None => final(port).model() == old(port).model(),
            }),
    {
        let (address, ix, delegate_ix) = match create_state_plan(payer, name, initial_state) {
            Ok(p) => p,
            Err(e) => {
                return Err(e);
            },
        };
        let ghost cix = ix@;
        let ghost dix = delegate_ix@;
        let ghost m0 = port.model();
        let mut create_ixs: Vec<Instruction> = Vec::new();
        create_ixs.push(ix);
        proof {
            assert(ix_models(create_ixs@) =~= seq![cix]);
        }
        match port.send_ixs(&create_ixs, Layer::BaseLayer) {
            Ok(_) => (),
            Err(e) => {
                return Err(e);
            },
        }
        let mut delegate_ixs: Vec<Instruction> = Vec::new();
        delegate_ixs.push(delegate_ix);
        proof {
            assert(ix_models(delegate_ixs@) =~= seq![dix]);
        }
        match port.send_ixs(&delegate_ixs, Layer::BaseLayer) {
            Ok(_) => {
                proof {
                    lemma_apply_single(m0, cix, Layer::BaseLayer);
                    lemma_apply_single(apply_all(m0, seq![cix], Layer::BaseLayer), dix,
                        Layer::BaseLayer);
                    lemma_apply_pair(m0, cix, dix, Layer::BaseLayer);
                }
                Ok(address)
            },
            Err(e) => Err(e),
        }
    }

    /// Fully replaces the state of (payer, name): derives the address and
    /// submits one write on the ephemeral layer, returning the confirmation
    /// id.  Assumes the account is delegated; a write against a never
    /// delegated account is rejected by the world program and surfaces as the
    /// submission's failure.  On any failure the ledger is unchanged.
    pub fn write_state<P: LedgerPort>(
        port: &mut P,
        payer: &[u8; 32],
        name: &str,
        new_state: &MojoState,
    ) -> (r: Result<u64, WorldError>)
        ensures
            name.spec_bytes().len() > MAX_NAME_LEN ==> r == Err::<u64, WorldError>(
                WorldError::InvalidNameLength(name.spec_bytes().len() as usize, MAX_NAME_LEN),
            ),
            name.spec_bytes().len() <= MAX_NAME_LEN && world_address_of(
                payer@,
                name.spec_bytes(),
            ) is None ==> r == Err::<u64, WorldError>(WorldError::DerivationFailure),
            r == Err::<u64, WorldError>(WorldError::DerivationFailure) ==> name.spec_bytes().len()
                <= MAX_NAME_LEN && world_address_of(payer@, name.spec_bytes()) is None,
            r matches Err(e) ==> (e is InvalidNameLength ==> name.spec_bytes().len()
                > MAX_NAME_LEN),
            r is Err ==> final(port).model() == old(port).model(),
            r is Ok ==> (match world_address_of(payer@, name.spec_bytes()) {
                Some(a) => ({
                    let wix = write_to_world_ix_model(
                        payer@,
                        a,
                        fingerprint_of(payer@, name.spec_bytes()),
                        new_state@,
                    );
                    &&& all_ok(old(port).model(), seq![wix], Layer::Ephemeral)
                    &&& final(port).model() == apply_all(
                        old(port).model(),
                        seq![wix],
                        Layer::Ephemeral,
                    )
                }),
                None => false,
            }),
    {
        let (_address, ix) = match write_state_plan(payer, name, new_state) {
            Ok(p) => p,
            Err(e) => {
                return Err(e);
            },
        };
        let ghost wix = ix@;
        let mut ixs: Vec<Instruction> = Vec::new();
        ixs.push(ix);
        proof {
            assert(ix_models(ixs@) =~= seq![wix]);
        }
        port.send_ixs(&ixs, Layer::Ephemeral)
    }

    /// Reads the current state of (owner, name): derives the address, fetches
    /// the raw bytes from the ephemeral endpoint — never the base layer,
    /// whose copy is frozen once the account is delegated — and decodes them
    /// by fixed-length prefix, ignoring any trailing bytes the environment
    /// appended.  Fails with `AccountTooSmall` when fewer bytes than the
    /// layout's fixed size came back.
    pub fn read_state<P: LedgerPort>(
        port: &P,
        owner: &[u8; 32],
        name: &str,
        layout: &StateLayout,
    ) -> (r: Result<MojoState, WorldError>)
        ensures
            name.spec_bytes().len() > MAX_NAME_LEN ==> r == Err::<MojoState, WorldError>(
                WorldError::InvalidNameLength(name.spec_bytes().len() as usize, MAX_NAME_LEN),
            ),
            name.spec_bytes().len() <= MAX_NAME_LEN && world_address_of(
                owner@,
                name.spec_bytes(),
            ) is None ==> r == Err::<MojoState, WorldError>(WorldError::DerivationFailure),
            r == Err::<MojoState, WorldError>(WorldError::DerivationFailure)
                ==> name.spec_bytes().len() <= MAX_NAME_LEN && world_address_of(
                owner@,
                name.spec_bytes(),
            ) is None,
            r matches Err(e) ==> (e is InvalidNameLength ==> name.spec_bytes().len()
                > MAX_NAME_LEN),
            r matches Err(e) ==> !(e is SizeMismatch),
            r matches Ok(v) ==> (match world_address_of(owner@, name.spec_bytes()) {
                Some(a) => ({
                    &&& port.model().contains_key(a)
                    &&& port.model()[a].lifecycle is Delegated
                    &&& v@.len() == layout.size()
                    &&& (port.model()[a].eph.len() >= layout.size() ==> v@
                        == port.model()[a].eph.take(layout.size() as int))
                }),
                None => false,
            }),
            r matches Err(e) ==> (e matches WorldError::AccountTooSmall(got, need) ==> got < need
                && need == layout.size()),
    {
        let (address, _seed) = match crate::pda::derive(owner, name) {
            Ok(p) => p,
            Err(e) => {
                return Err(e);
            },
        };
        let bytes = match port.get_account_bytes(&address, Layer::Ephemeral) {
            Ok(b) => b,
            Err(e) => {
                return Err(e);
            },
        };
        match layout.from_bytes(bytes.as_slice()) {
            Ok(v) => {
                proof {
                    let a = address@;
                    let eph = port.model()[a].eph;
                    if eph.len() >= layout.size() {
                        assert(v@ =~= eph.take(layout.size() as int));
                    }
                }
                Ok(v)
            },
            Err(e) => {
                match e {
                    WorldError::SizeMismatch(got, need) => Err(
                        WorldError::AccountTooSmall(got, need),
                    ),
                    other => Err(other),
                }
            },
        }
    }
}

} // verus!
