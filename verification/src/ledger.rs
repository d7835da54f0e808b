//! The two-tier ledger model, and an in-memory double of it.
//!
//! The model says what each world-program instruction does to the set of
//! derived accounts, per layer: create allocates on the base layer, delegate
//! hands the account to the ephemeral layer (whose copy then serves every
//! read and write), write replaces the ephemeral copy of a delegated account.
//! The double implements the model exactly and is injected into the facade in
//! place of a live endpoint.

use vstd::prelude::*;
use vstd::slice::slice_to_vec;

use crate::error::WorldError;
use crate::instructions::Instruction;
use crate::instructions::IxKind;
use crate::instructions::IxModel;
use crate::instructions::ix_models;

verus! {

/// Which of the two tiers a submission or fetch is routed to.
#[derive(Clone, Copy, Debug, PartialEq, Eq, Structural)]
pub enum Layer {
    /// The authoritative, slower ledger where accounts are created and
    /// delegated.
    BaseLayer,
    /// The fast execution environment that accepts delegated accounts for
    /// low-latency reads and writes.
    Ephemeral,
}

/// Where an account stands in its lifecycle.  An address absent from the
/// ledger is uninitialized; once present it is created, and delegation is the
/// one further transition.  A delegated account is writable; there is no
/// teardown transition.
#[derive(Clone, Copy, Debug, PartialEq, Eq, Structural)]
pub enum Lifecycle {
    /// Created on the base layer, not yet delegated.
    Created,
    /// Delegated to the ephemeral layer's session authority; writable there.
    Delegated,
}

/// The model of one derived account: its seed fingerprint, its byte image on
/// each layer, and its lifecycle stage.  After delegation the base copy is
/// frozen and the ephemeral copy serves reads and writes.
pub struct AccountModel {
    pub seed: Seq<u8>,
    pub base: Seq<u8>,
    pub eph: Seq<u8>,
    pub lifecycle: Lifecycle,
}

/// The model of the whole ledger: derived accounts by address.
pub type LedgerModel = Map<Seq<u8>, AccountModel>;

/// Whether the world program accepts `ix` on `layer` against ledger `m`:
/// create wants a fresh address on the base layer; delegate wants a created,
/// not yet delegated account with a matching fingerprint, on the base layer;
/// write wants a delegated account with a matching fingerprint, on the
/// ephemeral layer.
pub open spec fn can_apply(m: LedgerModel, ix: IxModel, layer: Layer) -> bool {
    match ix.kind {
        IxKind::CreateWorld => layer is BaseLayer && !m.contains_key(ix.address),
        IxKind::DelegateAccount => layer is BaseLayer && m.contains_key(ix.address)
            && m[ix.address].seed == ix.seed_hash && m[ix.address].lifecycle is Created,
        IxKind::WriteToWorld => layer is Ephemeral && m.contains_key(ix.address)
            && m[ix.address].seed == ix.seed_hash && m[ix.address].lifecycle is Delegated,
    }
}

/// What `ix` does to ledger `m` when accepted: create stores the image on the
/// base layer; delegate copies the base image to the ephemeral layer and
/// marks the account writable; write replaces the ephemeral image.
pub open spec fn apply_ix(m: LedgerModel, ix: IxModel, layer: Layer) -> LedgerModel {
    match ix.kind {
        IxKind::CreateWorld => m.insert(
            ix.address,
            AccountModel {
                seed: ix.seed_hash,
                base: ix.data,
                eph: Seq::empty(),
                lifecycle: Lifecycle::Created,
            },
        ),
        IxKind::DelegateAccount => m.insert(
            ix.address,
            AccountModel {
                seed: m[ix.address].seed,
                base: m[ix.address].base,
                eph: m[ix.address].base,
                lifecycle: Lifecycle::Delegated,
            },
        ),
        IxKind::WriteToWorld => m.insert(
            ix.address,
            AccountModel {
                seed: m[ix.address].seed,
                base: m[ix.address].base,
                eph: ix.data,
                lifecycle: m[ix.address].lifecycle,
            },
        ),
    }
}

/// Whether the whole list is accepted, each instruction against the ledger
/// the previous ones left.
pub open spec fn all_ok(m: LedgerModel, ixs: Seq<IxModel>, layer: Layer) -> bool
    decreases ixs.len(),
{
    if ixs.len() == 0 {
        true
    } else {
        can_apply(m, ixs[0], layer) && all_ok(apply_ix(m, ixs[0], layer), ixs.skip(1), layer)
    }
}

/// The ledger after the whole list, applied in order.
pub open spec fn apply_all(m: LedgerModel, ixs: Seq<IxModel>, layer: Layer) -> LedgerModel
    decreases ixs.len(),
{
    if ixs.len() == 0 {
        m
    } else {
        apply_all(apply_ix(m, ixs[0], layer), ixs.skip(1), layer)
    }
}

/// Law: an instruction touches no account but its own.  Whatever one
/// instruction does, every other address keeps exactly the record it had —
/// in particular, writing one named account never mutates another's bytes.
pub proof fn lemma_apply_frame(m: LedgerModel, ix: IxModel, layer: Layer, other: Seq<u8>)
    requires
        other != ix.address,
    ensures
        apply_ix(m, ix, layer).contains_key(other) == m.contains_key(other),
        m.contains_key(other) ==> apply_ix(m, ix, layer)[other] == m[other],
{
}

/// Law: create immediately followed by delegate is accepted on a fresh
/// address, and leaves the account delegated with the ephemeral copy holding
/// exactly the initial image — so a read of the ephemeral copy decoded by
/// fixed-length prefix returns the initial value byte for byte.
pub proof fn lemma_create_then_delegate(
    m: LedgerModel,
    payer: Seq<u8>,
    addr: Seq<u8>,
    seed: Seq<u8>,
    init: Seq<u8>,
)
    requires
        !m.contains_key(addr),
    ensures
        ({
            let ixs = seq![
                crate::instructions::create_world_ix_model(payer, addr, seed, init),
                crate::instructions::delegate_account_ix_model(payer, addr, seed, init),
            ];
            let m2 = apply_all(m, ixs, Layer::BaseLayer);
            &&& all_ok(m, ixs, Layer::BaseLayer)
            &&& m2.contains_key(addr)
            &&& m2[addr].lifecycle is Delegated
            &&& m2[addr].eph == init
            &&& m2[addr].seed == seed
        }),
{
    let create = crate::instructions::create_world_ix_model(payer, addr, seed, init);
    let delegate = crate::instructions::delegate_account_ix_model(payer, addr, seed, init);
    let ixs = seq![create, delegate];
    let rest = ixs.skip(1);
    let m1 = apply_ix(m, create, Layer::BaseLayer);
    let m2 = apply_ix(m1, delegate, Layer::BaseLayer);
    assert(rest =~= seq![delegate]);
    assert(rest.skip(1) =~= Seq::<IxModel>::empty());
    assert(apply_all(m, ixs, Layer::BaseLayer) == apply_all(m1, rest, Layer::BaseLayer));
    assert(apply_all(m1, rest, Layer::BaseLayer) == apply_all(m2, rest.skip(1), Layer::BaseLayer));
    assert(apply_all(m2, rest.skip(1), Layer::BaseLayer) == m2);
    assert(all_ok(m2, rest.skip(1), Layer::BaseLayer));
    assert(all_ok(m1, rest, Layer::BaseLayer));
    assert(all_ok(m, ixs, Layer::BaseLayer));
}

/// Law: the last confirmed write wins.  Writing `v1` then `v2` to a delegated
/// account is accepted and leaves the ephemeral copy holding exactly `v2`; if
/// `v1` and `v2` differ, the copy does not hold `v1`.
pub proof fn lemma_last_write_wins(
    m: LedgerModel,
    payer: Seq<u8>,
    addr: Seq<u8>,
    seed: Seq<u8>,
    v1: Seq<u8>,
    v2: Seq<u8>,
)
    requires
        m.contains_key(addr),
        m[addr].lifecycle is Delegated,
        m[addr].seed == seed,
    ensures
        ({
            let ixs = seq![
                crate::instructions::write_to_world_ix_model(payer, addr, seed, v1),
                crate::instructions::write_to_world_ix_model(payer, addr, seed, v2),
            ];
            let m2 = apply_all(m, ixs, Layer::Ephemeral);
            &&& all_ok(m, ixs, Layer::Ephemeral)
            &&& m2.contains_key(addr)
            &&& m2[addr].eph == v2
            &&& (v1 != v2 ==> m2[addr].eph != v1)
        }),
{
    let w1 = crate::instructions::write_to_world_ix_model(payer, addr, seed, v1);
    let w2 = crate::instructions::write_to_world_ix_model(payer, addr, seed, v2);
    let ixs = seq![w1, w2];
    let rest = ixs.skip(1);
    let m1 = apply_ix(m, w1, Layer::Ephemeral);
    let m2 = apply_ix(m1, w2, Layer::Ephemeral);
    assert(rest =~= seq![w2]);
    assert(rest.skip(1) =~= Seq::<IxModel>::empty());
    assert(apply_all(m, ixs, Layer::Ephemeral) == apply_all(m1, rest, Layer::Ephemeral));
    assert(apply_all(m1, rest, Layer::Ephemeral) == apply_all(m2, rest.skip(1), Layer::Ephemeral));
    assert(apply_all(m2, rest.skip(1), Layer::Ephemeral) == m2);
    assert(all_ok(m2, rest.skip(1), Layer::Ephemeral));
    assert(all_ok(m1, rest, Layer::Ephemeral));
    assert(all_ok(m, ixs, Layer::Ephemeral));
}

/// Snoc step of the list semantics: accepting and applying `p.push(x)` is
/// accepting and applying `p`, then `x` against the ledger `p` left.
pub proof fn lemma_apply_all_push(m: LedgerModel, p: Seq<IxModel>, x: IxModel, layer: Layer)
    ensures
        apply_all(m, p.push(x), layer) == apply_ix(apply_all(m, p, layer), x, layer),
        all_ok(m, p.push(x), layer) == (all_ok(m, p, layer) && can_apply(
            apply_all(m, p, layer),
            x,
            layer,
        )),
    decreases p.len(),
{
    let q = p.push(x);
    if p.len() == 0 {
        assert(q[0] == x);
        assert(q.skip(1) =~= Seq::<IxModel>::empty());
        let m1 = apply_ix(m, x, layer);
        assert(apply_all(m, q, layer) == apply_all(m1, q.skip(1), layer));
        assert(apply_all(m1, q.skip(1), layer) == m1);
        assert(all_ok(m1, q.skip(1), layer));
        assert(all_ok(m, q, layer) == can_apply(m, x, layer));
        assert(apply_all(m, p, layer) == m);
        assert(all_ok(m, p, layer));
    } else {
        assert(q[0] == p[0]);
        assert(q.skip(1) =~= p.skip(1).push(x));
        let m1 = apply_ix(m, p[0], layer);
        lemma_apply_all_push(m1, p.skip(1), x, layer);
        assert(apply_all(m, q, layer) == apply_all(m1, q.skip(1), layer));
        assert(apply_all(m, p, layer) == apply_all(m1, p.skip(1), layer));
        assert(all_ok(m, q, layer) == (can_apply(m, q[0], layer) && all_ok(
            m1,
            q.skip(1),
            layer,
        )));
        assert(all_ok(m, p, layer) == (can_apply(m, p[0], layer) && all_ok(
            m1,
            p.skip(1),
            layer,
        )));
    }
}

/// A one-instruction list is accepted and applied as that instruction is.
pub proof fn lemma_apply_single(m: LedgerModel, x: IxModel, layer: Layer)
    ensures
        apply_all(m, seq![x], layer) == apply_ix(m, x, layer),
        all_ok(m, seq![x], layer) == can_apply(m, x, layer),
{
    let q = seq![x];
    assert(q[0] == x);
    assert(q.skip(1) =~= Seq::<IxModel>::empty());
    let m1 = apply_ix(m, x, layer);
    assert(apply_all(m, q, layer) == apply_all(m1, q.skip(1), layer));
    assert(apply_all(m1, q.skip(1), layer) == m1);
    assert(all_ok(m1, q.skip(1), layer));
}

/// A two-instruction list is accepted and applied as the first then the
/// second are.
pub proof fn lemma_apply_pair(m: LedgerModel, x: IxModel, y: IxModel, layer: Layer)
    ensures
        apply_all(m, seq![x, y], layer) == apply_ix(apply_ix(m, x, layer), y, layer),
        all_ok(m, seq![x, y], layer) == (can_apply(m, x, layer) && can_apply(
            apply_ix(m, x, layer),
            y,
            layer,
        )),
{
    let q = seq![x, y];
    assert(q =~= seq![x].push(y));
    lemma_apply_all_push(m, seq![x], y, layer);
    lemma_apply_single(m, x, layer);
}

/// The record the double keeps for one derived account.
pub struct StoredAccount {
    pub address: [u8; 32],
    pub seed_hash: [u8; 32],
    pub base_bytes: Vec<u8>,
    pub eph_bytes: Vec<u8>,
    pub lifecycle: Lifecycle,
}

/// The model of one stored account.
pub open spec fn account_model(a: StoredAccount) -> AccountModel {
    AccountModel {
        seed: a.seed_hash@,
        base: a.base_bytes@,
        eph: a.eph_bytes@,
        lifecycle: a.lifecycle,
    }
}

/// Whether some stored account carries `addr`.
pub open spec fn has_addr(s: Seq<StoredAccount>, addr: Seq<u8>) -> bool {
    exists|i: int| 0 <= i < s.len() && s[i].address@ == addr
}

/// The index of the stored account carrying `addr` (meaningful under
/// `has_addr` and address uniqueness).
pub open spec fn idx_of(s: Seq<StoredAccount>, addr: Seq<u8>) -> int {
    choose|i: int| 0 <= i < s.len() && s[i].address@ == addr
}

/// No two stored accounts carry the same address.
pub open spec fn unique_addrs(s: Seq<StoredAccount>) -> bool {
    forall|i: int, j: int| 0 <= i < j < s.len() ==> s[i].address@ != s[j].address@
}

/// The ledger model a list of stored accounts stands for.
pub open spec fn accounts_map(s: Seq<StoredAccount>) -> LedgerModel {
    Map::new(
        |addr: Seq<u8>| has_addr(s, addr),
        |addr: Seq<u8>| account_model(s[idx_of(s, addr)]),
    )
}

/// Under uniqueness, the account at index `i` is the one `idx_of` picks for
/// its address, and the model maps that address to its record.
proof fn lemma_idx_of(s: Seq<StoredAccount>, i: int)
    requires
        unique_addrs(s),
        0 <= i < s.len(),
    ensures
        has_addr(s, s[i].address@),
        idx_of(s, s[i].address@) == i,
        accounts_map(s).contains_key(s[i].address@),
        accounts_map(s)[s[i].address@] == account_model(s[i]),
{
    let addr = s[i].address@;
    assert(has_addr(s, addr));
    let j = idx_of(s, addr);
    assert(0 <= j < s.len() && s[j].address@ == addr);
    if i < j {
        assert(false);
    }
    if j < i {
        assert(false);
    }
}

/// Absence of an address in the list is absence in the model.
proof fn lemma_no_addr(s: Seq<StoredAccount>, addr: Seq<u8>)
    requires
        !has_addr(s, addr),
    ensures
        !accounts_map(s).contains_key(addr),
{
}

/// Appending a fresh account keeps uniqueness and inserts its record.
proof fn lemma_map_push(s: Seq<StoredAccount>, a: StoredAccount)
    requires
        unique_addrs(s),
        !has_addr(s, a.address@),
    ensures
        unique_addrs(s.push(a)),
        accounts_map(s.push(a)) == accounts_map(s).insert(a.address@, account_model(a)),
{
    let s2 = s.push(a);
    assert forall|i: int, j: int| 0 <= i < j < s2.len() implies s2[i].address@ != s2[j].address@ by {
        if j == s.len() {
            assert(s2[i] == s[i]);
            if s[i].address@ == a.address@ {
                assert(has_addr(s, a.address@));
            }
        } else {
            assert(s2[i] == s[i] && s2[j] == s[j]);
        }
    }
    assert forall|addr: Seq<u8>| #[trigger] has_addr(s2, addr) implies has_addr(s, addr) || addr
        == a.address@ by {
        let i = choose|i: int| 0 <= i < s2.len() && s2[i].address@ == addr;
        if i < s.len() {
            assert(s2[i] == s[i]);
            assert(has_addr(s, addr));
        } else {
            assert(s2[i] == a);
        }
    }
    assert forall|addr: Seq<u8>| has_addr(s, addr) implies #[trigger] has_addr(s2, addr) by {
        let i = choose|i: int| 0 <= i < s.len() && s[i].address@ == addr;
        assert(s2[i] == s[i]);
    }
    assert(has_addr(s2, a.address@)) by {
        assert(s2[s.len() as int] == a);
    }
    assert forall|addr: Seq<u8>| #[trigger] has_addr(s2, addr) implies account_model(
        s2[idx_of(s2, addr)],
    ) == accounts_map(s).insert(a.address@, account_model(a))[addr] by {
        if addr == a.address@ {
            assert(s2[s.len() as int] == a);
            lemma_idx_of(s2, s.len() as int);
        } else {
            let i = choose|i: int| 0 <= i < s.len() && s[i].address@ == addr;
            assert(s2[i] == s[i]);
            lemma_idx_of(s2, i);
            lemma_idx_of(s, i);
        }
    }
    assert(accounts_map(s2) =~= accounts_map(s).insert(a.address@, account_model(a)));
}

/// Replacing the record at `i` by one with the same address keeps uniqueness
/// and updates that address's record.
proof fn lemma_map_update(s: Seq<StoredAccount>, i: int, a: StoredAccount)
    requires
        unique_addrs(s),
        0 <= i < s.len(),
        a.address@ == s[i].address@,
    ensures
        unique_addrs(s.update(i, a)),
        accounts_map(s.update(i, a)) == accounts_map(s).insert(a.address@, account_model(a)),
{
    let s2 = s.update(i, a);
    assert forall|p: int, q: int| 0 <= p < q < s2.len() implies s2[p].address@ != s2[q].address@ by {
        assert(s2[p].address@ == s[p].address@);
        assert(s2[q].address@ == s[q].address@);
    }
    assert forall|addr: Seq<u8>| #[trigger] has_addr(s2, addr) implies has_addr(s, addr) by {
        let k = choose|k: int| 0 <= k < s2.len() && s2[k].address@ == addr;
        assert(s2[k].address@ == s[k].address@);
    }
    assert forall|addr: Seq<u8>| #[trigger] has_addr(s, addr) implies has_addr(s2, addr) by {
        let k = choose|k: int| 0 <= k < s.len() && s[k].address@ == addr;
        assert(s2[k].address@ == s[k].address@);
    }
    assert forall|addr: Seq<u8>| #[trigger] has_addr(s2, addr) implies account_model(
        s2[idx_of(s2, addr)],
    ) == accounts_map(s).insert(a.address@, account_model(a))[addr] by {
        let k = choose|k: int| 0 <= k < s.len() && s[k].address@ == addr;
        assert(s2[k].address@ == addr);
        lemma_idx_of(s2, k);
        lemma_idx_of(s, k);
        if addr == a.address@ {
            if k != i {
                assert(s[k].address@ != s[i].address@);
                assert(false);
            }
            assert(s2[k] == a);
        } else {
            if k == i {
                assert(false);
            }
            assert(s2[k] == s[k]);
        }
    }
    lemma_idx_of(s, i);
    assert(has_addr(s, a.address@));
    assert(accounts_map(s2) =~= accounts_map(s).insert(a.address@, account_model(a)));
}

/// Two lists of equal length whose records agree address by address and model
/// by model stand for the same ledger.
proof fn lemma_map_congruence(s1: Seq<StoredAccount>, s2: Seq<StoredAccount>)
    requires
        unique_addrs(s1),
        s1.len() == s2.len(),
        forall|i: int|
            0 <= i < s1.len() ==> (#[trigger] s2[i]).address@ == s1[i].address@ && account_model(
                s2[i],
            ) == account_model(s1[i]),
    ensures
        unique_addrs(s2),
        accounts_map(s2) == accounts_map(s1),
{
    assert forall|p: int, q: int| 0 <= p < q < s2.len() implies s2[p].address@ != s2[q].address@ by {
        assert(s2[p].address@ == s1[p].address@);
        assert(s2[q].address@ == s1[q].address@);
    }
    assert forall|addr: Seq<u8>| #[trigger] has_addr(s1, addr) implies has_addr(s2, addr) by {
        let k = choose|k: int| 0 <= k < s1.len() && s1[k].address@ == addr;
        assert(s2[k].address@ == addr);
    }
    assert forall|addr: Seq<u8>| #[trigger] has_addr(s2, addr) implies has_addr(s1, addr) by {
        let k = choose|k: int| 0 <= k < s2.len() && s2[k].address@ == addr;
        assert(s1[k].address@ == addr);
    }
    assert forall|addr: Seq<u8>| #[trigger] has_addr(s1, addr) implies account_model(
        s1[idx_of(s1, addr)],
    ) == account_model(s2[idx_of(s2, addr)]) by {
        let k = choose|k: int| 0 <= k < s1.len() && s1[k].address@ == addr;
        lemma_idx_of(s1, k);
        assert(s2[k].address@ == addr);
        lemma_idx_of(s2, k);
    }
    assert(accounts_map(s2) =~= accounts_map(s1));
}

/// The port this library's facade talks to: one submission endpoint and one
/// account fetch per layer, with the ledger model as the shared abstraction.
/// The in-memory double below implements it exactly; a live endpoint stands
/// behind the same contract.
pub trait LedgerPort {
    /// The model of the ledger this port reaches.
    spec fn model(&self) -> LedgerModel;

    /// Atomically submits one transaction holding all given instructions to
    /// `layer`, blocking until confirmation, and returns a confirmation id.
    /// On confirmation the ledger has accepted and applied the whole list; on
    /// any failure it is unchanged.  Success is never owed: submission may
    /// fail for reasons outside the model.  Submission failures are reported
    /// in the submission taxonomy, never the input-validation or encoding
    /// ones: `InvalidNameLength` and `DerivationFailure` are the derivation's,
    /// `SizeMismatch` and `AccountTooSmall` the decoder's.
    fn send_ixs(&mut self, ixs: &Vec<Instruction>, layer: Layer) -> (r: Result<u64, WorldError>)
        ensures
            r is Ok ==> all_ok(old(self).model(), ix_models(ixs@), layer) && final(self).model()
                == apply_all(old(self).model(), ix_models(ixs@), layer),
            r is Err ==> final(self).model() == old(self).model(),
            r matches Err(e) ==> !(e is InvalidNameLength) && !(e is DerivationFailure) && !(
            e is SizeMismatch) && !(e is AccountTooSmall),
    ;

    /// Fetches the raw bytes of the account at `address` from `layer`.  Bytes
    /// come back only for an account the model holds — from the ephemeral
    /// layer only once it is delegated — and hold that account's image on
    /// that layer as a prefix; the environment may append trailing bytes.
    /// Fetch failures are reported in the submission taxonomy, never the
    /// input-validation or encoding ones: `InvalidNameLength` and
    /// `DerivationFailure` are the derivation's, `SizeMismatch` and
    /// `AccountTooSmall` the decoder's.
    fn get_account_bytes(&self, address: &[u8; 32], layer: Layer) -> (r: Result<
        Vec<u8>,
        WorldError,
    >)
        ensures
            r matches Err(e) ==> !(e is InvalidNameLength) && !(e is DerivationFailure) && !(
            e is SizeMismatch) && !(e is AccountTooSmall),
            r matches Ok(bytes) ==> match layer {
                Layer::BaseLayer => self.model().contains_key(address@)
                    && self.model()[address@].base.is_prefix_of(bytes@),
                Layer::Ephemeral => self.model().contains_key(address@) && (
                self.model()[address@].lifecycle is Delegated)
                    && self.model()[address@].eph.is_prefix_of(bytes@),
            },
    ;
}

/// Byte-for-byte equality of two addresses.
fn eq_bytes32(a: &[u8; 32], b: &[u8; 32]) -> (r: bool)
    ensures
        r == (a@ == b@),
{
    let mut i: usize = 0;
    while i < 32
        invariant
            i <= 32,
            forall|j: int| 0 <= j < i ==> a@[j] == b@[j],
        decreases 32 - i,
    {
        if a[i] != b[i] {
            return false;
        }
        i = i + 1;
    }
    proof {
        assert(a@ =~= b@);
    }
    true
}

/// The index of the stored account carrying `address`, if any.
fn find_account(accounts: &Vec<StoredAccount>, address: &[u8; 32]) -> (r: Option<usize>)
    ensures
        match r {
            Some(i) => i < accounts@.len() && accounts@[i as int].address@ == address@,
            None => !has_addr(accounts@, address@),
        },
{
    let mut i: usize = 0;
    while i < accounts.len()
        invariant
            i <= accounts@.len(),
            forall|j: int| 0 <= j < i ==> accounts@[j].address@ != address@,
        decreases accounts@.len() - i,
    {
        if eq_bytes32(&accounts[i].address, address) {
            return Some(i);
        }
        i = i + 1;
    }
    None
}

/// A field-for-field copy of one stored account.
fn clone_account(a: &StoredAccount) -> (r: StoredAccount)
    ensures
        r.address == a.address,
        account_model(r) == account_model(*a),
{
    StoredAccount {
        address: a.address,
        seed_hash: a.seed_hash,
        base_bytes: slice_to_vec(a.base_bytes.as_slice()),
        eph_bytes: slice_to_vec(a.eph_bytes.as_slice()),
        lifecycle: a.lifecycle,
    }
}

/// A record-for-record copy of the account list.
fn clone_accounts(accounts: &Vec<StoredAccount>) -> (r: Vec<StoredAccount>)
    ensures
        r@.len() == accounts@.len(),
        forall|i: int|
            0 <= i < r@.len() ==> (#[trigger] r@[i]).address@ == accounts@[i].address@
                && account_model(r@[i]) == account_model(accounts@[i]),
{
    let mut r: Vec<StoredAccount> = Vec::new();
    let mut i: usize = 0;
    while i < accounts.len()
        invariant
            i <= accounts@.len(),
            r@.len() == i,
            forall|j: int|
                0 <= j < i ==> (#[trigger] r@[j]).address@ == accounts@[j].address@
                    && account_model(r@[j]) == account_model(accounts@[j]),
        decreases accounts@.len() - i,
    {
        r.push(clone_account(&accounts[i]));
        i = i + 1;
    }
    r
}

/// Applies one instruction to the working account list, exactly when the
/// model accepts it; a refused instruction leaves the list untouched and
/// names why it was refused, in the submission taxonomy.
fn apply_one(work: &mut Vec<StoredAccount>, ix: &Instruction, layer: Layer) -> (r: Result<
    (),
    WorldError,
>)
    requires
        unique_addrs(old(work)@),
    ensures
        unique_addrs(final(work)@),
        (r is Ok) == can_apply(accounts_map(old(work)@), ix@, layer),
        r is Ok ==> accounts_map(final(work)@) == apply_ix(accounts_map(old(work)@), ix@, layer),
        r is Err ==> final(work)@ == old(work)@,
        r matches Err(e) ==> !(e is InvalidNameLength) && !(e is DerivationFailure) && !(
        e is SizeMismatch) && !(e is AccountTooSmall),
{
    let found = find_account(work, &ix.address);
    proof {
        if let Some(i) = found {
            lemma_idx_of(work@, i as int);
        } else {
            lemma_no_addr(work@, ix.address@);
        }
    }
    match ix.kind {
        IxKind::CreateWorld => {
            if layer != Layer::BaseLayer {
                return Err(WorldError::RpcError("create is a base-layer operation".to_owned()));
            }
            if found.is_some() {
                return Err(
                    WorldError::RpcError("an account already exists at the address".to_owned()),
                );
            }
            let acct = StoredAccount {
                address: ix.address,
                seed_hash: ix.seed_hash,
                base_bytes: slice_to_vec(ix.data.as_slice()),
                eph_bytes: Vec::new(),
                lifecycle: Lifecycle::Created,
            };
            proof {
                lemma_map_push(work@, acct);
            }
            work.push(acct);
            Ok(())
        },
        IxKind::DelegateAccount => {
            if layer != Layer::BaseLayer {
                return Err(WorldError::RpcError("delegate is a base-layer operation".to_owned()));
            }
            match found {
                None => Err(WorldError::AccountNotFound("no account at the address".to_owned())),
                Some(i) => {
                    if !eq_bytes32(&work[i].seed_hash, &ix.seed_hash) {
                        return Err(
                            WorldError::NotAuthorized("seed fingerprint mismatch".to_owned()),
                        );
                    }
                    if work[i].lifecycle != Lifecycle::Created {
                        return Err(
                            WorldError::RpcError("the account is already delegated".to_owned()),
                        );
                    }
                    let base_copy = slice_to_vec(work[i].base_bytes.as_slice());
                    let updated = StoredAccount {
                        address: ix.address,
                        seed_hash: ix.seed_hash,
                        base_bytes: slice_to_vec(work[i].base_bytes.as_slice()),
                        eph_bytes: base_copy,
                        lifecycle: Lifecycle::Delegated,
                    };
                    proof {
                        lemma_map_update(work@, i as int, updated);
                    }
                    let slot = &mut work[i];
                    *slot = updated;
                    Ok(())
                },
            }
        },
        IxKind::WriteToWorld => {
            if layer != Layer::Ephemeral {
                return Err(
                    WorldError::RpcError("write is an ephemeral-layer operation".to_owned()),
                );
            }
            match found {
                None => Err(WorldError::AccountNotFound("no account at the address".to_owned())),
                Some(i) => {
                    if !eq_bytes32(&work[i].seed_hash, &ix.seed_hash) {
                        return Err(
                            WorldError::NotAuthorized("seed fingerprint mismatch".to_owned()),
                        );
                    }
                    if work[i].lifecycle != Lifecycle::Delegated {
                        return Err(WorldError::NotDelegated);
                    }
                    let updated = StoredAccount {
                        address: ix.address,
                        seed_hash: ix.seed_hash,
                        base_bytes: slice_to_vec(work[i].base_bytes.as_slice()),
                        eph_bytes: slice_to_vec(ix.data.as_slice()),
                        lifecycle: work[i].lifecycle,
                    };
                    proof {
                        lemma_map_update(work@, i as int, updated);
                    }
                    let slot = &mut work[i];
                    *slot = updated;
                    Ok(())
                },
            }
        },
    }
}

/// An in-memory double of the two-tier ledger: it implements the port
/// contract exactly, account by account, and stands in for both endpoints in
/// tests and proofs.
pub struct LedgerDouble {
    accounts: Vec<StoredAccount>,
    next_tx: u64,
}

impl LedgerDouble {
    #[verifier::type_invariant]
    spec fn wf(self) -> bool {
        unique_addrs(self.accounts@)
    }

    /// An empty ledger: no account exists on either layer.
    pub fn new() -> (r: Self)
        ensures
            r.model() == Map::<Seq<u8>, AccountModel>::empty(),
    {
        let r = LedgerDouble { accounts: Vec::new(), next_tx: 0 };
        proof {
            assert(r.model() =~= Map::<Seq<u8>, AccountModel>::empty());
        }
        r
    }

    /// Test-double control: replaces the ephemeral copy of the account at
    /// `address` by arbitrary bytes, simulating whatever the external
    /// environment may leave there — a truncated image included.  Returns
    /// whether the account exists.
    pub fn set_ephemeral_bytes(&mut self, address: &[u8; 32], bytes: &[u8]) -> (r: bool)
        ensures
            r == old(self).model().contains_key(address@),
            r ==> final(self).model() == old(self).model().insert(
                address@,
                (AccountModel {
                    seed: old(self).model()[address@].seed,
                    base: old(self).model()[address@].base,
                    eph: bytes@,
                    lifecycle: old(self).model()[address@].lifecycle,
                }),
            ),
            !r ==> final(self).model() == old(self).model(),
    {
        proof {
            use_type_invariant(&*self);
        }
        let found = find_account(&self.accounts, address);
        proof {
            if let Some(i) = found {
                lemma_idx_of(self.accounts@, i as int);
            } else {
                lemma_no_addr(self.accounts@, address@);
            }
        }
        match found {
            None => false,
            Some(i) => {
                let updated = StoredAccount {
                    address: self.accounts[i].address,
                    seed_hash: self.accounts[i].seed_hash,
                    base_bytes: slice_to_vec(self.accounts[i].base_bytes.as_slice()),
                    eph_bytes: slice_to_vec(bytes),
                    lifecycle: self.accounts[i].lifecycle,
                };
                proof {
                    lemma_map_update(self.accounts@, i as int, updated);
                }
                let mut accounts: Vec<StoredAccount> = Vec::new();
                core::mem::swap(&mut accounts, &mut self.accounts);
                let slot = &mut accounts[i];
                *slot = updated;
                self.accounts = accounts;
                true
            },
        }
    }
}

impl LedgerPort for LedgerDouble {
    closed spec fn model(&self) -> LedgerModel {
        accounts_map(self.accounts@)
    }

    fn send_ixs(&mut self, ixs: &Vec<Instruction>, layer: Layer) -> (r: Result<u64, WorldError>) {
        proof {
            use_type_invariant(&*self);
        }
        let ghost m0 = accounts_map(self.accounts@);
        let ghost models = ix_models(ixs@);
        let mut work = clone_accounts(&self.accounts);
        proof {
            lemma_map_congruence(self.accounts@, work@);
            assert(models.take(0) =~= Seq::<IxModel>::empty());
        }
        let mut k: usize = 0;
        while k < ixs.len()
            invariant
                k <= ixs@.len(),
                models == ix_models(ixs@),
                unique_addrs(work@),
                all_ok(m0, models.take(k as int), layer),
                accounts_map(work@) == apply_all(m0, models.take(k as int), layer),
                *self == *old(self),
                m0 == accounts_map(self.accounts@),
            decreases ixs@.len() - k,
        {
            let step = apply_one(&mut work, &ixs[k], layer);
            if let Err(e) = step {
                return Err(e);
            }
            proof {
                assert(models[k as int] == ixs@[k as int]@);
                lemma_apply_all_push(m0, models.take(k as int), models[k as int], layer);
                assert(models.take(k + 1) =~= models.take(k as int).push(models[k as int]));
            }
            k = k + 1;
        }
        proof {
            assert(models.take(models.len() as int) =~= models);
        }
        self.accounts = work;
        let tx = self.next_tx;
        if self.next_tx < u64::MAX {
            self.next_tx = self.next_tx + 1;
        }
        Ok(tx)
    }

    fn get_account_bytes(&self, address: &[u8; 32], layer: Layer) -> (r: Result<
        Vec<u8>,
        WorldError,
    >) {
        proof {
            use_type_invariant(self);
        }
        let found = find_account(&self.accounts, address);
        proof {
            if let Some(i) = found {
                lemma_idx_of(self.accounts@, i as int);
            }
        }
        match found {
            None => Err(WorldError::AccountNotFound("no account at the address".to_owned())),
            Some(i) => {
                match layer {
                    Layer::BaseLayer => {
                        let bytes = slice_to_vec(self.accounts[i].base_bytes.as_slice());
                        proof {
                            assert(self.model()[address@].base.is_prefix_of(bytes@)) by {
                                assert(bytes@.take(bytes@.len() as int) =~= bytes@);
                            }
                        }
                        Ok(bytes)
                    },
                    Layer::Ephemeral => {
                        if self.accounts[i].lifecycle != Lifecycle::Delegated {
                            return Err(
                                WorldError::AccountNotFound(
                                    "the account is not delegated to the ephemeral layer".to_owned(),
                                ),
                            );
                        }
                        let bytes = slice_to_vec(self.accounts[i].eph_bytes.as_slice());
                        proof {
                            assert(self.model()[address@].eph.is_prefix_of(bytes@)) by {
                                assert(bytes@.take(bytes@.len() as int) =~= bytes@);
                            }
                        }
                        Ok(bytes)
                    },
                }
            },
        }
    }
}

} // verus!
