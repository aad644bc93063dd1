//! The factory core: the owner-gated provisioning protocol and the
//! append-only registry of confirmed child instances.
//!
//! A provisioning request is synchronous and never touches the registry: it
//! authorizes the caller, derives the child's address, and describes the
//! composite submission the execution substrate must run. The registry
//! changes only when the substrate later confirms a submission, through the
//! factory's own continuation entry point — and only on success.

use vstd::prelude::*;

use crate::account_id::{
    derive_sub_account_id, derived_id, valid_account_id, valid_segment, FactoryError,
    MAX_ACCOUNT_ID_LEN,
};

verus! {

/// Funding transferred from the factory's balance to every new child
/// instance, in the substrate's minimal units. Spent at submission time; a
/// failed or never-confirmed submission does not recover it.
pub const INITIAL_BALANCE: u128 = 3_000_000_000_000_000_000_000_000;

/// The composite submission handed to the execution substrate: create an
/// addressable unit at the derived address, grant it the requester's
/// credential, transfer the fixed funding amount, and install the fixed
/// payload.
#[derive(Debug)]
pub struct ProvisionRequest {
    /// The derived address of the child instance to create.
    pub sub_account_id: String,
    /// The fixed amount to transfer from the factory's balance.
    pub funding_amount: u128,
}

/// One step of the factory's observable history, used to state what the
/// protocol does to the registry over whole runs.
pub enum FactoryEvent {
    /// A synchronous provisioning request by some caller.
    Request { predecessor: Seq<char>, prefix: Seq<char> },
    /// An asynchronous confirmation from the substrate for the submission
    /// that was registered with `sub_account_id`.
    Confirm { sub_account_id: Seq<char>, success: bool },
}

/// The registry after a sequence of events has been processed in arrival
/// order: requests never touch it, a successful confirmation appends the
/// confirmed address, a failed one is discarded.
pub open spec fn registry_after(registry: Seq<Seq<char>>, events: Seq<FactoryEvent>) -> Seq<
    Seq<char>,
>
    decreases events.len(),
{
    if events.len() == 0 {
        registry
    } else {
        let earlier = registry_after(registry, events.drop_last());
        match events.last() {
            FactoryEvent::Request { .. } => earlier,
            FactoryEvent::Confirm { sub_account_id, success } => if success {
                earlier.push(sub_account_id)
            } else {
                earlier
            },
        }
    }
}

/// The addresses carried by the successful confirmations among `events`, in
/// arrival order.
pub open spec fn confirmed_addresses(events: Seq<FactoryEvent>) -> Seq<Seq<char>>
    decreases events.len(),
{
    if events.len() == 0 {
        Seq::empty()
    } else {
        let earlier = confirmed_addresses(events.drop_last());
        match events.last() {
            FactoryEvent::Request { .. } => earlier,
            FactoryEvent::Confirm { sub_account_id, success } => if success {
                earlier.push(sub_account_id)
            } else {
                earlier
            },
        }
    }
}

/// The factory: the sole authorized owner, and the append-only registry
/// mapping each index `0, 1, 2, ...` to a confirmed child address.
pub struct NFTFactory {
    nfts: Vec<String>,
    owner: String,
}

impl NFTFactory {
    /// The registry as a sequence: entry `i` is the address confirmed with
    /// index `i`. Indices are contiguous by construction.
    pub closed spec fn registry(&self) -> Seq<Seq<char>> {
        self.nfts.deep_view()
    }

    /// The identity of the sole caller authorized to provision.
    pub closed spec fn owner_id(&self) -> Seq<char> {
        self.owner@
    }

    /// Creates a factory owned by its creator, with an empty registry. The
    /// owner is immutable thereafter.
    pub fn new(owner: String) -> (factory: NFTFactory)
        ensures
            factory.owner_id() == owner@,
            factory.registry() =~= Seq::<Seq<char>>::empty(),
    {
        NFTFactory { nfts: Vec::new(), owner }
    }

    /// Restores a factory from its persisted state: the owner and the
    /// already-confirmed addresses in index order, as the substrate's
    /// durable storage recorded them (load-on-start).
    pub fn load(owner: String, nfts: Vec<String>) -> (factory: NFTFactory)
        ensures
            factory.owner_id() == owner@,
            factory.registry() == nfts.deep_view(),
    {
        NFTFactory { nfts, owner }
    }

    /// The owner's identity, as stored (save-on-mutation reads it back).
    pub fn owner(&self) -> (owner: &String)
        ensures
            owner@ == self.owner_id(),
    {
        &self.owner
    }

    /// The number of confirmed child instances.
    pub fn len(&self) -> (n: u64)
        ensures
            n == self.registry().len(),
    {
        self.nfts.len() as u64
    }

    /// Handles a provisioning request from `predecessor_account_id`, the
    /// factory itself running as `current_account_id`.
    ///
    /// Only the owner may provision: any other caller gets `Unauthorized`
    /// and nothing else happens. For the owner, the child's address is
    /// derived from the prefix; a prefix that does not compose into a valid
    /// address gets `InvalidIdentifier` before anything is submitted. On
    /// success the returned submission is what the substrate must execute.
    ///
    /// The factory state is untouched in every case: the registry changes
    /// only when the substrate confirms the submission.
    pub fn create_new_nft_contract(
        &self,
        predecessor_account_id: &String,
        current_account_id: &String,
        prefix: &String,
    ) -> (r: Result<ProvisionRequest, FactoryError>)
        requires
            valid_account_id(current_account_id@),
        ensures
            match r {
                Ok(req) => {
                    &&& predecessor_account_id@ == self.owner_id()
                    &&& valid_segment(prefix@)
                    &&& prefix@.len() + 1 + current_account_id@.len() <= MAX_ACCOUNT_ID_LEN
                    &&& req.sub_account_id@ == derived_id(prefix@, current_account_id@)
                    &&& valid_account_id(req.sub_account_id@)
                    &&& req.funding_amount == INITIAL_BALANCE
                },
                Err(FactoryError::Unauthorized) => predecessor_account_id@ != self.owner_id(),
                Err(FactoryError::InvalidIdentifier) => {
                    &&& predecessor_account_id@ == self.owner_id()
                    &&& (!valid_segment(prefix@) || prefix@.len() + 1 + current_account_id@.len()
                        > MAX_ACCOUNT_ID_LEN)
                },
            },
    {
        if !(self.owner == *predecessor_account_id) {
            return Err(FactoryError::Unauthorized);
        }
        match derive_sub_account_id(prefix.as_str(), current_account_id.as_str()) {
            Ok(sub_account_id) => Ok(
                ProvisionRequest { sub_account_id, funding_amount: INITIAL_BALANCE },
            ),
            Err(e) => Err(e),
        }
    }

    /// The confirmation continuation: the substrate invokes it exactly once
    /// per submission, carrying success or failure and the derived address
    /// as context.
    ///
    /// It is a privileged entry point: only the factory itself, acting on
    /// its own behalf as the registered continuation, may confirm — hence
    /// the invoking identity must equal the factory's own account, which
    /// the surrounding runtime establishes before dispatching here.
    ///
    /// A success appends the confirmed address at index `len()`, the only
    /// mutation of the registry anywhere; a failure leaves the factory
    /// exactly as it was.
    pub fn after_create_new_nft_contract(
        &mut self,
        predecessor_account_id: &String,
        current_account_id: &String,
        sub_account_id: String,
        success: bool,
    )
        requires
            predecessor_account_id@ == current_account_id@,
        ensures
            final(self).owner_id() == old(self).owner_id(),
            success ==> final(self).registry() =~= old(self).registry().push(sub_account_id@),
            !success ==> *final(self) == *old(self),
            final(self).registry() == registry_after(
                old(self).registry(),
                seq![FactoryEvent::Confirm { sub_account_id: sub_account_id@, success }],
            ),
    {
        let ghost sub_view = sub_account_id@;
        if success {
            self.nfts.push(sub_account_id);
            proof {
                assert(self.nfts.deep_view() =~= old(self).nfts.deep_view().push(sub_view));
            }
        }
        proof {
            let evs = seq![FactoryEvent::Confirm { sub_account_id: sub_view, success }];
            assert(evs.drop_last() =~= Seq::<FactoryEvent>::empty());
            assert(registry_after(old(self).registry(), evs.drop_last()) == old(self).registry());
            assert(evs.last() == FactoryEvent::Confirm { sub_account_id: sub_view, success });
            assert(self.registry() == registry_after(old(self).registry(), evs));
        }
    }

    /// A snapshot of all confirmed child addresses in registry-index order.
    /// Exactly the confirmed instances are listed: an address whose
    /// submission is still unconfirmed, or whose confirmation carried
    /// failure, never appears.
    pub fn get_nfts_contract_accounts(&self) -> (accounts: Vec<String>)
        ensures
            accounts.deep_view() == self.registry(),
    {
        let mut accounts: Vec<String> = Vec::new();
        let mut i: usize = 0;
        while i < self.nfts.len()
            invariant
                i <= self.nfts.len(),
                accounts@.len() == i,
                forall|j: int| 0 <= j < i ==> accounts@[j] == self.nfts@[j],
            decreases self.nfts.len() - i,
        {
            accounts.push(self.nfts[i].clone());
            i += 1;
        }
        proof {
            assert(accounts@ =~= self.nfts@);
        }
        accounts
    }

    /// A full snapshot of the registry: each confirmed address paired with
    /// its index, in ascending index order. The indices are exactly
    /// `0 .. len()`, contiguous and gap-free.
    pub fn to_ordered_sequence(&self) -> (entries: Vec<(u64, String)>)
        ensures
            entries@.len() == self.registry().len(),
            forall|i: int| 0 <= i < entries@.len() ==> (#[trigger] entries@[i]).0 == i
                && entries@[i].1@ == self.registry()[i],
    {
        let mut entries: Vec<(u64, String)> = Vec::new();
        let mut i: usize = 0;
        while i < self.nfts.len()
            invariant
                i <= self.nfts.len(),
                entries@.len() == i,
                forall|j: int| 0 <= j < i ==> (#[trigger] entries@[j]).0 == j
                    && entries@[j].1@ == self.nfts.deep_view()[j],
            decreases self.nfts.len() - i,
        {
            entries.push((i as u64, self.nfts[i].clone()));
            i += 1;
        }
        entries
    }
}

/// A provisioning request never mutates the registry, whoever made it: in
/// particular an unauthorized request leaves the factory's record exactly as
/// it was.
pub proof fn lemma_request_leaves_registry_unchanged(
    registry: Seq<Seq<char>>,
    predecessor: Seq<char>,
    prefix: Seq<char>,
)
    ensures
        registry_after(registry, seq![FactoryEvent::Request { predecessor, prefix }]) == registry,
{
    let evs = seq![FactoryEvent::Request { predecessor, prefix }];
    assert(evs.drop_last() =~= Seq::<FactoryEvent>::empty());
    assert(registry_after(registry, evs.drop_last()) == registry);
    assert(evs.last() == FactoryEvent::Request { predecessor, prefix });
    assert(registry_after(registry, evs) == registry);
}

/// Append-only and contiguous: however confirmations interleave with
/// requests and with each other, the registry ends up holding its prior
/// entries followed by exactly the successfully confirmed addresses, in
/// confirmation-arrival order. Indices are therefore assigned contiguously
/// from `0` with no gaps, and failed confirmations leave no trace.
pub proof fn lemma_registry_is_confirmed_successes(
    registry: Seq<Seq<char>>,
    events: Seq<FactoryEvent>,
)
    ensures
        registry_after(registry, events) =~= registry + confirmed_addresses(events),
    decreases events.len(),
{
    if events.len() == 0 {
        assert(registry + confirmed_addresses(events) =~= registry);
    } else {
        lemma_registry_is_confirmed_successes(registry, events.drop_last());
        assert(registry_after(registry, events) =~= registry + confirmed_addresses(events));
    }
}

/// Snapshot isolation: an address is listed after a run of the protocol if
/// and only if it was already listed at the start or some successful
/// confirmation carried it. A submitted but unconfirmed provisioning is
/// never visible to readers.
pub proof fn lemma_snapshot_isolation(
    registry: Seq<Seq<char>>,
    events: Seq<FactoryEvent>,
    address: Seq<char>,
)
    ensures
        registry_after(registry, events).contains(address) <==> (registry.contains(address)
            || confirmed_addresses(events).contains(address)),
{
    lemma_registry_is_confirmed_successes(registry, events);
    let combined = registry + confirmed_addresses(events);
    if registry.contains(address) {
        let i = choose|i: int| 0 <= i < registry.len() && registry[i] == address;
        assert(combined[i] == address);
    }
    if confirmed_addresses(events).contains(address) {
        let i = choose|i: int|
            0 <= i < confirmed_addresses(events).len() && confirmed_addresses(events)[i]
                == address;
        assert(combined[registry.len() + i] == address);
    }
    if combined.contains(address) {
        let i = choose|i: int| 0 <= i < combined.len() && combined[i] == address;
        if i < registry.len() {
            assert(registry[i] == address);
        } else {
            assert(confirmed_addresses(events)[i - registry.len()] == address);
        }
    }
}

} // verus!
