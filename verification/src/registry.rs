//! The sponsorship registry: one designated payer and the set of sponsored
//! calls, changed by the administrator alone.

use crate::names::{
    check_call_name, encode_call, encoded, id_fits, metadata_id, same_call_name, CallId,
    CallMetadata, RuntimeCallName,
};
use vstd::prelude::*;
use vstd::slice::slice_to_vec;

verus! {

/// What a deployment fixes once and for all.
#[derive(Clone, Copy, Debug, PartialEq, Eq)]
pub struct Config {
    /// The longest module name or call name that is accepted, in bytes.
    pub max_name_len: u32,
}

/// On whose authority an operation is asked for.
#[derive(Debug, PartialEq, Eq)]
pub enum RawOrigin<AccountId> {
    /// The administrator.
    Root,
    /// The holder of an account.
    Signed(AccountId),
    /// Nobody: the operation bears no signature.
    Unsigned,
}

/// Whether an operation is paid for by the usual fee rules.
#[derive(Clone, Copy, Debug, PartialEq, Eq)]
pub enum Pays {
    /// The usual fee is due.
    Yes,
    /// The operation is free of charge.
    No,
}

/// What a management operation lets the world know.
#[derive(Debug, PartialEq, Eq)]
pub enum Event<AccountId> {
    /// The designated payer was replaced.
    PayerKeyUpdated {
        /// The payer before, if there was one.
        old: Option<AccountId>,
        /// The payer from now on.
        new: AccountId,
    },
    /// A call was put on the list of sponsored calls.
    CallSponsored {
        /// The call's module name and call name.
        full_name: RuntimeCallName,
    },
    /// A call was taken off the list of sponsored calls.
    CallUnsponsored {
        /// The call's module name and call name.
        full_name: RuntimeCallName,
    },
}

/// What a management operation that went through hands back: the event to
/// emit, and how the operation is priced.
#[derive(Debug, PartialEq, Eq)]
pub struct Dispatched<AccountId> {
    /// The event that records the operation.
    pub event: Event<AccountId>,
    /// Management operations are free of charge.
    pub pays_fee: Pays,
}

/// Why an operation was refused. A refused operation changes nothing.
#[derive(Clone, Copy, Debug, PartialEq, Eq)]
pub enum Error {
    /// The caller of a management operation is not the administrator.
    BadOrigin,
    /// A module name or a call name is longer than the registry allows.
    NameTooLong,
    /// The account reference given to `set_payer_key` names no account.
    CannotLookup,
    /// The fee cannot be paid: a sponsored call without a payer, a ledger
    /// that refuses the withdrawal, or amounts that do not reconcile.
    PaymentInvalid,
}

/// Who pays and for what: the two questions that fee charging asks of a
/// registry.
pub trait Sponsorship<Call, AccountId> {
    /// The designated payer, if there is one.
    spec fn payer(&self) -> Option<AccountId>;

    /// Whether fees of `call` are charged to the designated payer.
    spec fn sponsors(&self, call: &Call) -> bool;

    /// The designated payer, if there is one.
    fn get_payer(&self) -> (payer: Option<AccountId>)
        ensures
            payer == self.payer(),
    ;

    /// Whether fees of `call` are charged to the designated payer.
    fn is_call_sponsored(&self, call: &Call) -> (sponsored: bool)
        ensures
            sponsored == self.sponsors(call),
    ;
}

/// The registry as a mathematical value.
pub struct Registry<AccountId> {
    /// The bound on both components of an identifier.
    pub max_name_len: u32,
    /// The designated payer, if there is one.
    pub payer: Option<AccountId>,
    /// The sponsored calls.
    pub sponsored: Set<CallId>,
}

impl<AccountId> Registry<AccountId> {
    /// A registry without payer and without sponsored calls.
    pub open spec fn empty(config: Config) -> Self {
        Registry { max_name_len: config.max_name_len, payer: None, sponsored: Set::empty() }
    }

    /// The registry with `new` as its payer.
    pub open spec fn set_payer(self, new: AccountId) -> Self {
        Registry { payer: Some(new), ..self }
    }

    /// The registry with `id` among its sponsored calls.
    pub open spec fn sponsor(self, id: CallId) -> Self {
        Registry { sponsored: self.sponsored.insert(id), ..self }
    }

    /// The registry without `id` among its sponsored calls.
    pub open spec fn unsponsor(self, id: CallId) -> Self {
        Registry { sponsored: self.sponsored.remove(id), ..self }
    }

    /// Every sponsored call is an identifier within the bound.
    pub open spec fn well_formed(self) -> bool {
        forall|id: CallId| self.sponsored.contains(id) ==> id_fits(id, self.max_name_len)
    }

    /// Whether `call` counts as sponsored. A call whose names fit the bound
    /// is sponsored exactly when its identifier is a member. A call with a
    /// name beyond the bound has no identifier and counts as sponsored.
    pub open spec fn sponsors(self, call: CallMetadata) -> bool {
        match encoded(call, self.max_name_len) {
            Some(id) => self.sponsored.contains(id),
            None => true,
        }
    }
}

/// Whether `id` is one of the identifiers in `calls`.
spec fn listed(calls: Seq<RuntimeCallName>, id: CallId) -> bool {
    exists|i: int| 0 <= i < calls.len() && (#[trigger] calls[i])@ == id
}

/// No identifier occurs twice in `calls`.
spec fn distinct(calls: Seq<RuntimeCallName>) -> bool {
    forall|i: int, j: int|
        0 <= i < j < calls.len() ==> (#[trigger] calls[i])@ != (#[trigger] calls[j])@
}

/// Appending an identifier lists it, and nothing else that was not listed.
proof fn lemma_listed_after_push(calls: Seq<RuntimeCallName>, kept: RuntimeCallName)
    ensures
        forall|id: CallId| listed(calls.push(kept), id) <==> (listed(calls, id) || id == kept@),
{
    let longer = calls.push(kept);
    assert forall|id: CallId| listed(longer, id) <==> (listed(calls, id) || id == kept@) by {
        if listed(calls, id) {
            let i = choose|i: int| 0 <= i < calls.len() && (#[trigger] calls[i])@ == id;
            assert(longer[i] == calls[i]);
        }
        if id == kept@ {
            assert(longer[calls.len() as int] == kept);
        }
        if listed(longer, id) {
            let i = choose|i: int| 0 <= i < longer.len() && (#[trigger] longer[i])@ == id;
            if i < calls.len() {
                assert(longer[i] == calls[i]);
            }
        }
    }
}

/// Removing the one place where an identifier is kept unlists it, and
/// nothing else.
proof fn lemma_listed_after_remove(calls: Seq<RuntimeCallName>, at: int)
    requires
        0 <= at < calls.len(),
        distinct(calls),
    ensures
        forall|id: CallId|
            listed(calls.remove(at), id) <==> (listed(calls, id) && id != calls[at]@),
{
    let shorter = calls.remove(at);
    assert forall|id: CallId| listed(shorter, id) <==> (listed(calls, id) && id != calls[at]@) by {
        if listed(calls, id) && id != calls[at]@ {
            let i = choose|i: int| 0 <= i < calls.len() && (#[trigger] calls[i])@ == id;
            if i < at {
                assert(shorter[i] == calls[i]);
            } else {
                assert(shorter[i - 1] == calls[i]);
            }
        }
        if listed(shorter, id) {
            let i = choose|i: int| 0 <= i < shorter.len() && (#[trigger] shorter[i])@ == id;
            if i < at {
                assert(shorter[i] == calls[i]);
            } else {
                assert(shorter[i] == calls[i + 1]);
            }
        }
    }
}

/// The sponsorship registry: the designated payer and the sponsored calls.
pub struct Pallet<AccountId> {
    config: Config,
    payer_key: Option<AccountId>,
    sponsored_calls: Vec<RuntimeCallName>,
}

impl<AccountId> View for Pallet<AccountId> {
    type V = Registry<AccountId>;

    closed spec fn view(&self) -> Registry<AccountId> {
        Registry {
            max_name_len: self.config.max_name_len,
            payer: self.payer_key,
            sponsored: Set::new(|id: CallId| listed(self.sponsored_calls@, id)),
        }
    }
}

impl<AccountId> Pallet<AccountId> {
    /// Every identifier kept fits the bound, and none is kept twice.
    #[verifier::type_invariant]
    spec fn inv(&self) -> bool {
        &&& forall|i: int|
            0 <= i < self.sponsored_calls@.len() ==> id_fits(
                (#[trigger] self.sponsored_calls@[i])@,
                self.config.max_name_len,
            )
        &&& distinct(self.sponsored_calls@)
    }

    /// What is kept fits the bound, so what is viewed does.
    proof fn lemma_view_well_formed(&self)
        requires
            self.inv(),
        ensures
            self@.well_formed(),
    {
        assert forall|id: CallId| self@.sponsored.contains(id) implies id_fits(
            id,
            self@.max_name_len,
        ) by {
            let i = choose|i: int|
                0 <= i < self.sponsored_calls@.len() && (#[trigger] self.sponsored_calls@[i])@ == id;
            assert(id_fits(self.sponsored_calls@[i]@, self.config.max_name_len));
        }
    }
}

impl<AccountId: Copy> Pallet<AccountId> {
    /// A registry with no payer and no sponsored call.
    pub fn new(config: Config) -> (pallet: Self)
        ensures
            pallet@ == Registry::<AccountId>::empty(config),
            pallet@.well_formed(),
    {
        let pallet = Pallet { config, payer_key: None, sponsored_calls: Vec::new() };
        assert(pallet@.sponsored =~= Set::empty());
        pallet
    }

    /// The longest module name or call name that this registry accepts, in
    /// bytes. It is fixed when the registry is made, and every sponsored call
    /// is within it.
    pub fn max_name_len(&self) -> (max: u32)
        ensures
            max == self@.max_name_len,
            self@.well_formed(),
    {
        proof {
            use_type_invariant(self);
            self.lemma_view_well_formed();
        }
        self.config.max_name_len
    }

    /// Where `full_name` is kept, if it is.
    fn position(&self, full_name: &RuntimeCallName) -> (found: Option<usize>)
        ensures
            match found {
                Some(i) => i < self.sponsored_calls@.len() && self.sponsored_calls@[i as int]@
                    == full_name@,
                None => !listed(self.sponsored_calls@, full_name@),
            },
    {
        let mut i: usize = 0;
        while i < self.sponsored_calls.len()
            invariant
                i <= self.sponsored_calls@.len(),
                forall|k: int| 0 <= k < i ==> (#[trigger] self.sponsored_calls@[k])@ != full_name@,
            decreases self.sponsored_calls@.len() - i,
        {
            if same_call_name(&self.sponsored_calls[i], full_name) {
                return Some(i);
            }
            i += 1;
        }
        None
    }

    /// Makes `payer` the designated payer, on the administrator's authority.
    ///
    /// `payer` is what looking up the caller's account reference gave:
    /// `None` where it names no account. The origin is checked first.
    pub fn set_payer_key(&mut self, origin: RawOrigin<AccountId>, payer: Option<AccountId>) -> (result:
        Result<Dispatched<AccountId>, Error>)
        ensures
            match (origin, payer) {
                (RawOrigin::Root, Some(new)) => {
                    &&& result == Ok::<Dispatched<AccountId>, Error>(
                        Dispatched {
                            event: Event::PayerKeyUpdated { old: old(self)@.payer, new },
                            pays_fee: Pays::No,
                        },
                    )
                    &&& final(self)@ == old(self)@.set_payer(new)
                },
                (RawOrigin::Root, None) => {
                    &&& result == Err::<Dispatched<AccountId>, Error>(Error::CannotLookup)
                    &&& final(self)@ == old(self)@
                },
                _ => {
                    &&& result == Err::<Dispatched<AccountId>, Error>(Error::BadOrigin)
                    &&& final(self)@ == old(self)@
                },
            },
            final(self)@.well_formed(),
    {
        proof {
            use_type_invariant(&*self);
            self.lemma_view_well_formed();
        }
        if !ensure_root(&origin) {
            return Err(Error::BadOrigin);
        }
        let new = match payer {
            Some(account) => account,
            None => {
                return Err(Error::CannotLookup);
            },
        };
        let event = Event::PayerKeyUpdated { old: self.payer_key, new };
        self.payer_key = Some(new);
        Ok(Dispatched { event, pays_fee: Pays::No })
    }

    /// Puts `full_name` on the list of sponsored calls, on the
    /// administrator's authority. A name that is on the list already stays
    /// there once; the event is emitted all the same.
    pub fn sponsor_call(&mut self, origin: RawOrigin<AccountId>, full_name: RuntimeCallName) -> (result:
        Result<Dispatched<AccountId>, Error>)
        ensures
            if !(origin is Root) {
                &&& result == Err::<Dispatched<AccountId>, Error>(Error::BadOrigin)
                &&& final(self)@ == old(self)@
            } else if !id_fits(full_name@, old(self)@.max_name_len) {
                &&& result == Err::<Dispatched<AccountId>, Error>(Error::NameTooLong)
                &&& final(self)@ == old(self)@
            } else {
                &&& result == Ok::<Dispatched<AccountId>, Error>(
                    Dispatched { event: Event::CallSponsored { full_name }, pays_fee: Pays::No },
                )
                &&& final(self)@ == old(self)@.sponsor(full_name@)
            },
            final(self)@.well_formed(),
    {
        proof {
            use_type_invariant(&*self);
            self.lemma_view_well_formed();
        }
        if !ensure_root(&origin) {
            return Err(Error::BadOrigin);
        }
        if !check_call_name(&full_name, self.config.max_name_len) {
            return Err(Error::NameTooLong);
        }
        if self.position(&full_name).is_none() {
            let kept = (slice_to_vec(full_name.0.as_slice()), slice_to_vec(full_name.1.as_slice()));
            assert(kept@ == full_name@);
            let mut calls: Vec<RuntimeCallName> = Vec::new();
            core::mem::swap(&mut self.sponsored_calls, &mut calls);
            calls.push(kept);
            self.sponsored_calls = calls;
            proof {
                lemma_listed_after_push(old(self).sponsored_calls@, kept);
            }
        }
        assert(self@.sponsored =~= old(self)@.sponsored.insert(full_name@));
        Ok(Dispatched { event: Event::CallSponsored { full_name }, pays_fee: Pays::No })
    }

    /// Takes `full_name` off the list of sponsored calls, on the
    /// administrator's authority. A name that is not on the list changes
    /// nothing; the event is emitted all the same.
    pub fn unsponsor_call(&mut self, origin: RawOrigin<AccountId>, full_name: RuntimeCallName) -> (result:
        Result<Dispatched<AccountId>, Error>)
        ensures
            if !(origin is Root) {
                &&& result == Err::<Dispatched<AccountId>, Error>(Error::BadOrigin)
                &&& final(self)@ == old(self)@
            } else if !id_fits(full_name@, old(self)@.max_name_len) {
                &&& result == Err::<Dispatched<AccountId>, Error>(Error::NameTooLong)
                &&& final(self)@ == old(self)@
            } else {
                &&& result == Ok::<Dispatched<AccountId>, Error>(
                    Dispatched { event: Event::CallUnsponsored { full_name }, pays_fee: Pays::No },
                )
                &&& final(self)@ == old(self)@.unsponsor(full_name@)
            },
            final(self)@.well_formed(),
    {
        proof {
            use_type_invariant(&*self);
            self.lemma_view_well_formed();
        }
        if !ensure_root(&origin) {
            return Err(Error::BadOrigin);
        }
        if !check_call_name(&full_name, self.config.max_name_len) {
            return Err(Error::NameTooLong);
        }
        if let Some(at) = self.position(&full_name) {
            let mut calls: Vec<RuntimeCallName> = Vec::new();
            core::mem::swap(&mut self.sponsored_calls, &mut calls);
            calls.remove(at);
            self.sponsored_calls = calls;
            proof {
                lemma_listed_after_remove(old(self).sponsored_calls@, at as int);
            }
        }
        assert(self@.sponsored =~= old(self)@.sponsored.remove(full_name@));
        Ok(Dispatched { event: Event::CallUnsponsored { full_name }, pays_fee: Pays::No })
    }
}

impl<AccountId: Copy> Sponsorship<CallMetadata, AccountId> for Pallet<AccountId> {
    open spec fn payer(&self) -> Option<AccountId> {
        self@.payer
    }

    open spec fn sponsors(&self, call: &CallMetadata) -> bool {
        self@.sponsors(*call)
    }

    fn get_payer(&self) -> (payer: Option<AccountId>) {
        self.payer_key
    }

    /// A call whose module name or function name is longer than the bound
    /// counts as sponsored, whatever the list holds.
    fn is_call_sponsored(&self, call: &CallMetadata) -> (sponsored: bool)
        ensures
            !id_fits(metadata_id(*call), self@.max_name_len) ==> sponsored,
            id_fits(metadata_id(*call), self@.max_name_len) ==> sponsored
                == self@.sponsored.contains(metadata_id(*call)),
    {
        match encode_call(call, self.config.max_name_len) {
            Some(full_name) => self.position(&full_name).is_some(),
            None => true,
        }
    }
}

/// Whether `origin` is the administrator.
pub fn ensure_root<AccountId>(origin: &RawOrigin<AccountId>) -> (is_root: bool)
    ensures
        is_root == (*origin is Root),
{
    match origin {
        RawOrigin::Root => true,
        _ => false,
    }
}

/// Sponsoring a call that is sponsored already changes nothing: the call is
/// a member once, however often it is sponsored.
pub proof fn lemma_sponsor_is_idempotent<AccountId>(registry: Registry<AccountId>, id: CallId)
    ensures
        registry.sponsor(id).sponsored.contains(id),
        registry.sponsor(id).sponsor(id) == registry.sponsor(id),
        registry.sponsored.contains(id) ==> registry.sponsor(id) == registry,
{
    assert(registry.sponsor(id).sponsor(id).sponsored =~= registry.sponsor(id).sponsored);
    if registry.sponsored.contains(id) {
        assert(registry.sponsor(id).sponsored =~= registry.sponsored);
    }
}

/// Sponsoring a call and then unsponsoring it leaves the call unsponsored,
/// and every other call as it was.
pub proof fn lemma_unsponsor_undoes_sponsor<AccountId>(
    registry: Registry<AccountId>,
    id: CallId,
    call: CallMetadata,
)
    ensures
        !registry.sponsor(id).unsponsor(id).sponsored.contains(id),
        encoded(call, registry.max_name_len) == Some(id) ==> !registry.sponsor(id).unsponsor(
            id,
        ).sponsors(call),
        encoded(call, registry.max_name_len) != Some(id) ==> registry.sponsor(id).unsponsor(
            id,
        ).sponsors(call) == registry.sponsors(call),
{
}

/// Where a call was not sponsored before, sponsoring and then unsponsoring
/// it gives back the registry as it was: every call is sponsored exactly
/// where it was before.
pub proof fn lemma_sponsor_round_trip<AccountId>(
    registry: Registry<AccountId>,
    id: CallId,
    call: CallMetadata,
)
    requires
        !registry.sponsored.contains(id),
    ensures
        registry.sponsor(id).unsponsor(id) == registry,
        registry.sponsor(id).unsponsor(id).sponsors(call) == registry.sponsors(call),
{
    assert(registry.sponsor(id).unsponsor(id).sponsored =~= registry.sponsored);
}

} // verus!
