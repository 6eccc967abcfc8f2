//! A standalone denylist: an administrator records addresses that must never
//! transact, and any caller can ask whether an address is clear.
//!
//! The contract's storage is held in [`DenylistGate`]: the administrator
//! (set once by `initialize`), the pause flag, one `Denied(address) -> true`
//! entry per denied address, and the log of events published since it was
//! last drained. Every operation that fails leaves all of it unchanged.
use vstd::prelude::*;

use crate::address::Address;
use crate::address_map::AddressMap;
use crate::pausable::require_not_paused;

verus! {

/// Why an operation of the denylist was refused.
#[derive(Clone, Copy, Debug, PartialEq, Eq, Structural)]
pub enum Error {
    NotInitialized,
    AlreadyInitialized,
    NotAuthorized,
    ContractPaused,
}

/// Published when an address is added to the denylist.
#[derive(Clone, Debug, PartialEq, Eq)]
pub struct DenyAdd {
    pub address: Address,
}

/// Published when an address is removed from the denylist.
#[derive(Clone, Debug, PartialEq, Eq)]
pub struct DenyRemove {
    pub address: Address,
}

/// Published when the administrator pauses the denylist.
#[derive(Clone, Debug, PartialEq, Eq)]
pub struct Paused {
    pub admin: Address,
}

/// Published when the administrator unpauses the denylist.
#[derive(Clone, Debug, PartialEq, Eq)]
pub struct Unpaused {
    pub admin: Address,
}

/// Any event the denylist publishes.
#[derive(Clone, Debug, PartialEq, Eq)]
pub enum GateEvent {
    DenyAdd(DenyAdd),
    DenyRemove(DenyRemove),
    Paused(Paused),
    Unpaused(Unpaused),
}

/// The abstract state of a gate.
pub struct GateState {
    pub admin: Option<Address>,
    pub paused: bool,
    /// The `Denied` entries, keyed by address.
    pub denied: Map<Seq<char>, bool>,
    /// Events published and not yet drained, oldest first.
    pub events: Seq<GateEvent>,
}

/// The outcome of checking `caller` against the stored administrator.
pub open spec fn admin_check(stored: Option<Address>, caller: Address) -> Result<(), Error> {
    match stored {
        None => Err(Error::NotInitialized),
        Some(a) => if a@ == caller@ {
            Ok(())
        } else {
            Err(Error::NotAuthorized)
        },
    }
}

/// The outcome of the checks made before changing the denylist: the pause
/// switch first, then the administrator.
pub open spec fn mutation_check(paused: bool, stored: Option<Address>, caller: Address) -> Result<
    (),
    Error,
> {
    if paused {
        Err(Error::ContractPaused)
    } else {
        admin_check(stored, caller)
    }
}

impl GateState {
    /// What every state of a gate satisfies: before `initialize` it is
    /// unpaused, denies nobody and has published nothing.
    pub open spec fn consistent(self) -> bool {
        self.admin is None ==> {
            &&& !self.paused
            &&& self.denied == Map::<Seq<char>, bool>::empty()
            &&& self.events == Seq::<GateEvent>::empty()
        }
    }

    /// The state of a gate that nobody has called yet.
    pub open spec fn fresh() -> GateState {
        GateState {
            admin: None,
            paused: false,
            denied: Map::empty(),
            events: Seq::empty(),
        }
    }

    /// Whether `address` is clear to transact, i.e. it has no `Denied`
    /// entry set to `true`.
    pub open spec fn is_clear(self, address: Seq<char>) -> bool {
        !(self.denied.contains_key(address) && self.denied[address])
    }

    /// The result and state of `initialize`.
    pub open spec fn initialize(self, admin: Address) -> (Result<(), Error>, GateState) {
        if self.admin is Some {
            (Err(Error::AlreadyInitialized), self)
        } else {
            (Ok(()), GateState { admin: Some(admin), ..self })
        }
    }

    /// The result and state of `add_to_denylist`.
    pub open spec fn add_to_denylist(self, admin: Address, address: Address) -> (
        Result<(), Error>,
        GateState,
    ) {
        match mutation_check(self.paused, self.admin, admin) {
            Err(e) => (Err(e), self),
            Ok(_) => (
                Ok(()),
                GateState {
                    denied: self.denied.insert(address@, true),
                    events: self.events.push(GateEvent::DenyAdd(DenyAdd { address })),
                    ..self
                },
            ),
        }
    }

    /// The result and state of `remove_from_denylist`.
    pub open spec fn remove_from_denylist(self, admin: Address, address: Address) -> (
        Result<(), Error>,
        GateState,
    ) {
        match mutation_check(self.paused, self.admin, admin) {
            Err(e) => (Err(e), self),
            Ok(_) => (
                Ok(()),
                GateState {
                    denied: self.denied.remove(address@),
                    events: self.events.push(GateEvent::DenyRemove(DenyRemove { address })),
                    ..self
                },
            ),
        }
    }

    /// The result and state of `pause`.
    pub open spec fn pause(self, admin: Address) -> (Result<(), Error>, GateState) {
        match admin_check(self.admin, admin) {
            Err(e) => (Err(e), self),
            Ok(_) => (
                Ok(()),
                GateState {
                    paused: true,
                    events: self.events.push(GateEvent::Paused(Paused { admin })),
                    ..self
                },
            ),
        }
    }

    /// The result and state of `unpause`.
    pub open spec fn unpause(self, admin: Address) -> (Result<(), Error>, GateState) {
        match admin_check(self.admin, admin) {
            Err(e) => (Err(e), self),
            Ok(_) => (
                Ok(()),
                GateState {
                    paused: false,
                    events: self.events.push(GateEvent::Unpaused(Unpaused { admin })),
                    ..self
                },
            ),
        }
    }
}

/// One change to the storage of a gate, or one event to publish.
#[derive(Debug, PartialEq, Eq)]
pub enum GateWrite {
    /// Store the administrator.
    Admin(Address),
    /// Set the pause switch.
    Paused(bool),
    /// Store `Denied(address) -> true`.
    Deny(Address),
    /// Delete the `Denied` entry of the address.
    Undeny(Address),
    /// Publish the event.
    Publish(GateEvent),
}

/// What an operation decides: whose authorization it demands (before
/// anything else happens), its result, and, on success, the writes to carry
/// out in order. A failed operation writes nothing.
#[derive(Debug, PartialEq, Eq)]
pub struct GateStep<R> {
    pub auth: Option<Address>,
    pub result: Result<R, Error>,
    pub writes: Vec<GateWrite>,
}

impl GateState {
    /// The state after one write.
    pub open spec fn apply(self, w: GateWrite) -> GateState {
        match w {
            GateWrite::Admin(a) => GateState { admin: Some(a), ..self },
            GateWrite::Paused(p) => GateState { paused: p, ..self },
            GateWrite::Deny(a) => GateState { denied: self.denied.insert(a@, true), ..self },
            GateWrite::Undeny(a) => GateState { denied: self.denied.remove(a@), ..self },
            GateWrite::Publish(e) => GateState { events: self.events.push(e), ..self },
        }
    }

    /// The state after the writes, in order.
    pub open spec fn apply_all(self, ws: Seq<GateWrite>) -> GateState
        decreases ws.len(),
    {
        if ws.len() == 0 {
            self
        } else {
            self.apply_all(ws.drop_last()).apply(ws.last())
        }
    }

    /// The state after a step: its writes if it succeeded, no change
    /// otherwise.
    pub open spec fn after<R>(self, step: GateStep<R>) -> GateState {
        if step.result is Ok {
            self.apply_all(step.writes@)
        } else {
            self
        }
    }
}

/// Checks `caller` against the stored administrator.
pub fn require_admin(stored: &Option<Address>, caller: &Address) -> (r: Result<(), Error>)
    ensures
        r == admin_check(*stored, *caller),
{
    match stored {
        None => Err(Error::NotInitialized),
        Some(a) => {
            if *a == *caller {
                Ok(())
            } else {
                Err(Error::NotAuthorized)
            }
        },
    }
}

/// Whether an address is clear, given its stored `Denied` entry.
pub fn clear_from_entry(entry: Option<bool>) -> (r: bool)
    ensures
        r == !(entry == Some(true)),
{
    match entry {
        Some(denied) => !denied,
        None => true,
    }
}

/// Decides `initialize`, given the stored administrator.
pub fn initialize_step(stored: &Option<Address>, admin: Address) -> (step: GateStep<()>)
    ensures
        step.auth == (if stored is Some { None } else { Some(admin) }),
        step.result == (if stored is Some { Err(Error::AlreadyInitialized) } else { Ok::<(), Error>(()) }),
        step.writes@ == (if stored is Some { Seq::empty() } else { seq![GateWrite::Admin(admin)] }),
{
    if stored.is_some() {
        return GateStep { auth: None, result: Err(Error::AlreadyInitialized), writes: Vec::new() };
    }
    let auth = Some(admin.clone());
    GateStep { auth, result: Ok(()), writes: vec![GateWrite::Admin(admin)] }
}

/// Decides `add_to_denylist`, given the pause switch and the stored
/// administrator: the pause switch is checked first, then the caller's
/// authorization is demanded and the caller compared to the administrator.
pub fn add_to_denylist_step(
    paused: bool,
    stored: &Option<Address>,
    admin: Address,
    address: Address,
) -> (step: GateStep<()>)
    ensures
        step.auth == (if paused { None } else { Some(admin) }),
        step.result == mutation_check(paused, *stored, admin),
        step.writes@ == (if step.result is Ok {
            seq![GateWrite::Deny(address), GateWrite::Publish(GateEvent::DenyAdd(DenyAdd { address }))]
        } else {
            Seq::empty()
        }),
{
    if let Err(e) = require_not_paused(paused, Error::ContractPaused) {
        return GateStep { auth: None, result: Err(e), writes: Vec::new() };
    }
    let auth = Some(admin.clone());
    if let Err(e) = require_admin(stored, &admin) {
        return GateStep { auth, result: Err(e), writes: Vec::new() };
    }
    let writes = vec![
        GateWrite::Deny(address.clone()),
        GateWrite::Publish(GateEvent::DenyAdd(DenyAdd { address })),
    ];
    GateStep { auth, result: Ok(()), writes }
}

/// Decides `remove_from_denylist`, in the same order as
/// `add_to_denylist_step`.
pub fn remove_from_denylist_step(
    paused: bool,
    stored: &Option<Address>,
    admin: Address,
    address: Address,
) -> (step: GateStep<()>)
    ensures
        step.auth == (if paused { None } else { Some(admin) }),
        step.result == mutation_check(paused, *stored, admin),
        step.writes@ == (if step.result is Ok {
            seq![
                GateWrite::Undeny(address),
                GateWrite::Publish(GateEvent::DenyRemove(DenyRemove { address })),
            ]
        } else {
            Seq::empty()
        }),
{
    if let Err(e) = require_not_paused(paused, Error::ContractPaused) {
        return GateStep { auth: None, result: Err(e), writes: Vec::new() };
    }
    let auth = Some(admin.clone());
    if let Err(e) = require_admin(stored, &admin) {
        return GateStep { auth, result: Err(e), writes: Vec::new() };
    }
    let writes = vec![
        GateWrite::Undeny(address.clone()),
        GateWrite::Publish(GateEvent::DenyRemove(DenyRemove { address })),
    ];
    GateStep { auth, result: Ok(()), writes }
}

/// Decides `pause` (when `paused` is `true`) or `unpause` (when it is
/// `false`), given the stored administrator: the caller's authorization is
/// demanded, then the caller compared to the administrator.
pub fn set_paused_step(stored: &Option<Address>, admin: Address, paused: bool) -> (step: GateStep<()>)
    ensures
        step.auth == Some(admin),
        step.result == admin_check(*stored, admin),
        step.writes@ == (if step.result is Ok {
            seq![
                GateWrite::Paused(paused),
                GateWrite::Publish(
                    if paused {
                        GateEvent::Paused(Paused { admin })
                    } else {
                        GateEvent::Unpaused(Unpaused { admin })
                    },
                ),
            ]
        } else {
            Seq::empty()
        }),
{
    let auth = Some(admin.clone());
    if let Err(e) = require_admin(stored, &admin) {
        return GateStep { auth, result: Err(e), writes: Vec::new() };
    }
    let event = if paused {
        GateEvent::Paused(Paused { admin })
    } else {
        GateEvent::Unpaused(Unpaused { admin })
    };
    GateStep { auth, result: Ok(()), writes: vec![GateWrite::Paused(paused), GateWrite::Publish(event)] }
}

/// The storage of a denylist gate, and its operations.
pub struct DenylistGate {
    admin: Option<Address>,
    paused: bool,
    denied: AddressMap<bool>,
    events: Vec<GateEvent>,
}

impl View for DenylistGate {
    type V = GateState;

    closed spec fn view(&self) -> GateState {
        GateState {
            admin: self.admin,
            paused: self.paused,
            denied: self.denied@,
            events: self.events@,
        }
    }
}

impl DenylistGate {
    /// The per-address store is well formed.
    closed spec fn maps_wf(&self) -> bool {
        self.denied.wf()
    }

    /// The storage is well formed, and its state is one the operations can
    /// reach: `consistent`.
    pub closed spec fn wf(&self) -> bool {
        self.maps_wf() && self@.consistent()
    }

    /// A well-formed model's state is consistent.
    pub proof fn lemma_wf_is_consistent(&self)
        requires
            self.wf(),
        ensures
            self@.consistent(),
    {
    }

    /// A gate with empty storage, before `initialize`.
    pub fn new() -> (r: DenylistGate)
        ensures
            r.wf(),
            r@ == GateState::fresh(),
    {
        DenylistGate { admin: None, paused: false, denied: AddressMap::new(), events: Vec::new() }
    }

    fn write(&mut self, w: GateWrite)
        requires
            old(self).maps_wf(),
        ensures
            final(self).maps_wf(),
            final(self)@ == old(self)@.apply(w),
    {
        match w {
            GateWrite::Admin(a) => {
                self.admin = Some(a);
            },
            GateWrite::Paused(p) => {
                self.paused = p;
            },
            GateWrite::Deny(a) => {
                self.denied.insert(a, true);
            },
            GateWrite::Undeny(a) => {
                self.denied.remove(&a);
            },
            GateWrite::Publish(e) => {
                self.events.push(e);
            },
        }
    }

    /// Carries out a step: its writes, in order, if it succeeded.
    fn commit<R>(&mut self, step: GateStep<R>) -> (r: Result<R, Error>)
        requires
            old(self).maps_wf(),
        ensures
            final(self).maps_wf(),
            r == step.result,
            final(self)@ == old(self)@.after(step),
    {
        let ghost ws = step.writes@;
        let ghost pre = self@;
        let GateStep { auth: _, result, mut writes } = step;
        if result.is_ok() {
            let n = writes.len();
            let mut k: usize = 0;
            while k < n
                invariant
                    n == ws.len(),
                    k <= n,
                    writes@ == ws.skip(k as int),
                    self.maps_wf(),
                    self@ == pre.apply_all(ws.take(k as int)),
                decreases n - k,
            {
                let w = writes.remove(0);
                self.write(w);
                proof {
                    assert(ws.take(k + 1).drop_last() =~= ws.take(k as int));
                    assert(writes@ =~= ws.skip(k + 1));
                }
                k = k + 1;
            }
            proof {
                assert(ws.take(n as int) =~= ws);
            }
        }
        result
    }

    /// One-time setup: stores `admin` as the only address allowed to update
    /// the denylist afterwards. Fails with `AlreadyInitialized` if an
    /// administrator is already stored.
    pub fn initialize(&mut self, admin: Address) -> (r: Result<(), Error>)
        requires
            old(self).wf(),
        ensures
            final(self).wf(),
            (r, final(self)@) == old(self)@.initialize(admin),
    {
        let step = initialize_step(&self.admin, admin);
        proof {
            reveal_with_fuel(GateState::apply_all, 2);
        }
        self.commit(step)
    }

    /// Adds `address` to the denylist. Administrator only; refused while
    /// paused. Publishes `DenyAdd`.
    pub fn add_to_denylist(&mut self, admin: Address, address: Address) -> (r: Result<(), Error>)
        requires
            old(self).wf(),
        ensures
            final(self).wf(),
            (r, final(self)@) == old(self)@.add_to_denylist(admin, address),
    {
        let step = add_to_denylist_step(self.paused, &self.admin, admin, address);
        proof {
            reveal_with_fuel(GateState::apply_all, 3);
        }
        self.commit(step)
    }

    /// Removes `address` from the denylist (a no-op on the list if it was
    /// not there). Administrator only; refused while paused. Publishes
    /// `DenyRemove`.
    pub fn remove_from_denylist(&mut self, admin: Address, address: Address) -> (r: Result<
        (),
        Error,
    >)
        requires
            old(self).wf(),
        ensures
            final(self).wf(),
            (r, final(self)@) == old(self)@.remove_from_denylist(admin, address),
    {
        let step = remove_from_denylist_step(self.paused, &self.admin, admin, address);
        proof {
            reveal_with_fuel(GateState::apply_all, 3);
        }
        self.commit(step)
    }

    /// The stored administrator.
    pub fn get_admin(&self) -> (r: Result<Address, Error>)
        ensures
            r == (match self@.admin {
                Some(a) => Ok(a),
                None => Err(Error::NotInitialized),
            }),
    {
        match &self.admin {
            Some(a) => Ok(a.clone()),
            None => Err(Error::NotInitialized),
        }
    }

    /// Whether `address` is clear to transact, i.e. it is not on the
    /// denylist. Unaffected by the pause switch.
    pub fn check(&self, address: Address) -> (r: bool)
        requires
            self.wf(),
        ensures
            r == self@.is_clear(address@),
    {
        let entry = match self.denied.get(&address) {
            Some(denied) => Some(*denied),
            None => None,
        };
        clear_from_entry(entry)
    }

    /// Pauses the denylist. Administrator only. Publishes `Paused`.
    pub fn pause(&mut self, admin: Address) -> (r: Result<(), Error>)
        requires
            old(self).wf(),
        ensures
            final(self).wf(),
            (r, final(self)@) == old(self)@.pause(admin),
    {
        let step = set_paused_step(&self.admin, admin, true);
        proof {
            reveal_with_fuel(GateState::apply_all, 3);
        }
        self.commit(step)
    }

    /// Unpauses the denylist. Administrator only. Publishes `Unpaused`.
    pub fn unpause(&mut self, admin: Address) -> (r: Result<(), Error>)
        requires
            old(self).wf(),
        ensures
            final(self).wf(),
            (r, final(self)@) == old(self)@.unpause(admin),
    {
        let step = set_paused_step(&self.admin, admin, false);
        proof {
            reveal_with_fuel(GateState::apply_all, 3);
        }
        self.commit(step)
    }

    /// Whether the denylist is paused.
    pub fn is_paused(&self) -> (r: bool)
        ensures
            r == self@.paused,
    {
        self.paused
    }

    /// Hands out the events published since the last call, oldest first,
    /// and forgets them.
    pub fn drain_events(&mut self) -> (r: Vec<GateEvent>)
        requires
            old(self).wf(),
        ensures
            final(self).wf(),
            r@ == old(self)@.events,
            final(self)@ == (GateState { events: Seq::empty(), ..old(self)@ }),
    {
        let mut drained: Vec<GateEvent> = Vec::new();
        std::mem::swap(&mut drained, &mut self.events);
        drained
    }
}

/// A gate nobody has called yet is not paused, has no administrator, and
/// every address is clear.
pub proof fn lemma_fresh_gate_is_clear(address: Seq<char>)
    ensures
        !GateState::fresh().paused,
        GateState::fresh().admin is None,
        GateState::fresh().is_clear(address),
{
}

/// `initialize` succeeds exactly once: it succeeds on a gate without an
/// administrator, and every later call fails with `AlreadyInitialized`
/// and changes nothing.
pub proof fn lemma_initialize_once(s: GateState, first: Address, second: Address)
    ensures
        s.admin is None ==> s.initialize(first).0 is Ok,
        s.initialize(first).0 is Ok ==> s.initialize(first).1.initialize(second) == (
            Err::<(), Error>(Error::AlreadyInitialized),
            s.initialize(first).1,
        ),
        s.admin is Some ==> s.initialize(first) == (Err::<(), Error>(Error::AlreadyInitialized), s),
{
}

/// A refused operation changes nothing: not the list, the administrator,
/// the pause switch, nor the published events.
pub proof fn lemma_refusal_changes_nothing(s: GateState, caller: Address, address: Address)
    ensures
        s.initialize(caller).0 is Err ==> s.initialize(caller).1 == s,
        s.add_to_denylist(caller, address).0 is Err ==> s.add_to_denylist(caller, address).1 == s,
        s.remove_from_denylist(caller, address).0 is Err ==> s.remove_from_denylist(
            caller,
            address,
        ).1 == s,
        s.pause(caller).0 is Err ==> s.pause(caller).1 == s,
        s.unpause(caller).0 is Err ==> s.unpause(caller).1 == s,
{
}

/// While paused, adding to and removing from the list are refused with
/// `ContractPaused`, whoever calls.
pub proof fn lemma_paused_blocks_mutations(s: GateState, caller: Address, address: Address)
    requires
        s.paused,
    ensures
        s.add_to_denylist(caller, address) == (Err::<(), Error>(Error::ContractPaused), s),
        s.remove_from_denylist(caller, address) == (Err::<(), Error>(Error::ContractPaused), s),
{
}

/// Only the stored administrator can change the list or the pause switch:
/// any other caller is refused.
pub proof fn lemma_only_admin_mutates(s: GateState, caller: Address, address: Address)
    requires
        !(s.admin matches Some(a) && a@ == caller@),
    ensures
        s.add_to_denylist(caller, address).0 is Err,
        s.remove_from_denylist(caller, address).0 is Err,
        s.pause(caller).0 is Err,
        s.unpause(caller).0 is Err,
        s.admin is Some && !s.paused ==> s.add_to_denylist(caller, address).0 == Err::<(), Error>(
            Error::NotAuthorized,
        ),
{
}

/// The administrator of an unpaused, initialized gate can always change
/// the list.
pub proof fn lemma_admin_may_mutate(s: GateState, address: Address)
    requires
        s.admin is Some,
        !s.paused,
    ensures
        s.add_to_denylist(s.admin.unwrap(), address).0 is Ok,
        s.remove_from_denylist(s.admin.unwrap(), address).0 is Ok,
        s.pause(s.admin.unwrap()).0 is Ok,
        s.unpause(s.admin.unwrap()).0 is Ok,
{
}

/// After a successful add, `address` is not clear; every other address
/// keeps its status.
pub proof fn lemma_add_denies_only_that_address(
    s: GateState,
    admin: Address,
    address: Address,
    other: Seq<char>,
)
    requires
        s.add_to_denylist(admin, address).0 is Ok,
    ensures
        !s.add_to_denylist(admin, address).1.is_clear(address@),
        other != address@ ==> s.add_to_denylist(admin, address).1.is_clear(other) == s.is_clear(
            other,
        ),
{
}

/// After a successful remove, `address` is clear; every other address keeps
/// its status.
pub proof fn lemma_remove_clears_only_that_address(
    s: GateState,
    admin: Address,
    address: Address,
    other: Seq<char>,
)
    requires
        s.remove_from_denylist(admin, address).0 is Ok,
    ensures
        s.remove_from_denylist(admin, address).1.is_clear(address@),
        other != address@ ==> s.remove_from_denylist(admin, address).1.is_clear(other)
            == s.is_clear(other),
{
}

/// An address without a `Denied` entry is clear, whatever else the denylist
/// holds.
pub proof fn lemma_untouched_address_is_clear(s: GateState, address: Seq<char>)
    requires
        !s.denied.contains_key(address),
    ensures
        s.is_clear(address),
{
}

/// Adding an address twice leaves the same list as adding it once; each
/// call publishes its own `DenyAdd`.
pub proof fn lemma_add_twice_is_idempotent(s: GateState, admin: Address, address: Address)
    requires
        s.add_to_denylist(admin, address).0 is Ok,
    ensures
        ({
            let t = s.add_to_denylist(admin, address).1;
            let u = t.add_to_denylist(admin, address).1;
            &&& t.add_to_denylist(admin, address).0 is Ok
            &&& u.denied == t.denied
            &&& u.events == s.events.push(GateEvent::DenyAdd(DenyAdd { address })).push(
                GateEvent::DenyAdd(DenyAdd { address }),
            )
        }),
{
    let t = s.add_to_denylist(admin, address).1;
    assert(t.denied.insert(address@, true) =~= t.denied);
}

/// Removing an address that is not on the list leaves the list as it was,
/// and still publishes `DenyRemove`.
pub proof fn lemma_remove_absent_is_noop(s: GateState, admin: Address, address: Address)
    requires
        s.remove_from_denylist(admin, address).0 is Ok,
        !s.denied.contains_key(address@),
    ensures
        s.remove_from_denylist(admin, address).1.denied == s.denied,
        s.remove_from_denylist(admin, address).1.events == s.events.push(
            GateEvent::DenyRemove(DenyRemove { address }),
        ),
{
    assert(s.denied.remove(address@) =~= s.denied);
}

/// Pausing and unpausing never change which addresses are clear: reads are
/// unaffected by the pause switch.
pub proof fn lemma_pause_keeps_the_list(s: GateState, admin: Address)
    ensures
        s.pause(admin).1.denied == s.denied,
        s.unpause(admin).1.denied == s.denied,
        s.pause(admin).1.admin == s.admin,
        s.unpause(admin).1.admin == s.admin,
{
}

/// Pausing then unpausing by the administrator leaves the denylist unpaused
/// with the list unchanged, having published `Paused` then `Unpaused`.
pub proof fn lemma_pause_unpause_round_trip(s: GateState, admin: Address)
    requires
        s.pause(admin).0 is Ok,
    ensures
        ({
            let t = s.pause(admin).1;
            let u = t.unpause(admin).1;
            &&& t.paused
            &&& t.unpause(admin).0 is Ok
            &&& !u.paused
            &&& u.denied == s.denied
            &&& u.admin == s.admin
            &&& u.events == s.events.push(GateEvent::Paused(Paused { admin })).push(
                GateEvent::Unpaused(Unpaused { admin }),
            )
        }),
{
}

/// Every successful change publishes exactly one event, appended after the
/// earlier ones.
pub proof fn lemma_success_publishes_one_event(s: GateState, caller: Address, address: Address)
    ensures
        s.add_to_denylist(caller, address).0 is Ok ==> s.add_to_denylist(caller, address).1.events
            == s.events.push(GateEvent::DenyAdd(DenyAdd { address })),
        s.remove_from_denylist(caller, address).0 is Ok ==> s.remove_from_denylist(
            caller,
            address,
        ).1.events == s.events.push(GateEvent::DenyRemove(DenyRemove { address })),
        s.pause(caller).0 is Ok ==> s.pause(caller).1.events == s.events.push(
            GateEvent::Paused(Paused { admin: caller }),
        ),
        s.unpause(caller).0 is Ok ==> s.unpause(caller).1.events == s.events.push(
            GateEvent::Unpaused(Unpaused { admin: caller }),
        ),
        s.initialize(caller).1.events == s.events,
{
}

/// Every change to the list or to the pause switch is authorized by the
/// stored administrator: when the checks before a change pass, the caller,
/// whose authorization the step demands, is the stored administrator (and,
/// for the list, the denylist is not paused).
pub proof fn lemma_changes_need_admin_authorization(
    paused: bool,
    stored: Option<Address>,
    caller: Address,
)
    ensures
        mutation_check(paused, stored, caller) is Ok ==> !paused && stored is Some
            && stored.unwrap()@ == caller@,
        admin_check(stored, caller) is Ok ==> stored is Some && stored.unwrap()@ == caller@,
{
}

/// A call on a gate, as it appears in a history of calls. Reads change
/// nothing and are left out.
pub enum GateCall {
    Initialize(Address),
    AddToDenylist(Address, Address),
    RemoveFromDenylist(Address, Address),
    Pause(Address),
    Unpause(Address),
    DrainEvents,
}

impl GateState {
    /// The result and state of one call.
    pub open spec fn call(self, c: GateCall) -> (Result<(), Error>, GateState) {
        match c {
            GateCall::Initialize(admin) => self.initialize(admin),
            GateCall::AddToDenylist(admin, address) => self.add_to_denylist(admin, address),
            GateCall::RemoveFromDenylist(admin, address) => self.remove_from_denylist(admin, address),
            GateCall::Pause(admin) => self.pause(admin),
            GateCall::Unpause(admin) => self.unpause(admin),
            GateCall::DrainEvents => (Ok(()), GateState { events: Seq::empty(), ..self }),
        }
    }

    /// The state after the calls, in order.
    pub open spec fn run(self, calls: Seq<GateCall>) -> GateState
        decreases calls.len(),
    {
        if calls.len() == 0 {
            self
        } else {
            self.run(calls.drop_last()).call(calls.last()).1
        }
    }

    /// Whether call `i` of `calls`, run from this state, succeeded.
    pub open spec fn succeeded(self, calls: Seq<GateCall>, i: int) -> bool {
        self.run(calls.take(i)).call(calls[i]).0 is Ok
    }
}

/// Whether `c` adds `address` to the denylist.
pub open spec fn adds(c: GateCall, address: Seq<char>) -> bool {
    c matches GateCall::AddToDenylist(_, a) && a@ == address
}

/// Whether `c` removes `address` from the denylist.
pub open spec fn removes(c: GateCall, address: Seq<char>) -> bool {
    c matches GateCall::RemoveFromDenylist(_, a) && a@ == address
}

/// Every call keeps a state consistent; so every state reached from a
/// fresh gate is consistent.
pub proof fn lemma_calls_keep_consistent(s: GateState, calls: Seq<GateCall>)
    requires
        s.consistent(),
    ensures
        s.run(calls).consistent(),
    decreases calls.len(),
{
    if calls.len() > 0 {
        lemma_calls_keep_consistent(s, calls.drop_last());
    }
}

/// A consistent gate without an administrator (no `initialize` has
/// succeeded yet) is unpaused with every address clear; `initialize` on it
/// succeeds and keeps it so, with `admin` as the only caller whose changes
/// are accepted.
pub proof fn lemma_initialize_from_uninitialized(
    s: GateState,
    admin: Address,
    caller: Address,
    address: Seq<char>,
)
    requires
        s.consistent(),
        s.admin is None,
    ensures
        !s.paused,
        s.is_clear(address),
        ({
            let (r, t) = s.initialize(admin);
            &&& r is Ok
            &&& t.admin == Some(admin)
            &&& !t.paused
            &&& t.is_clear(address)
            &&& (mutation_check(t.paused, t.admin, caller) is Ok <==> caller@ == admin@)
            &&& (admin_check(t.admin, caller) is Ok <==> caller@ == admin@)
        }),
{
}

/// How one call changes whether `address` is clear: a successful add of it
/// denies it, a successful remove of it clears it, and every other call
/// leaves its status alone.
pub proof fn lemma_call_keeps_status(s: GateState, c: GateCall, address: Seq<char>)
    ensures
        adds(c, address) && s.call(c).0 is Ok ==> !s.call(c).1.is_clear(address),
        removes(c, address) && s.call(c).0 is Ok ==> s.call(c).1.is_clear(address),
        !(adds(c, address) && s.call(c).0 is Ok) && !(removes(c, address) && s.call(c).0 is Ok)
            ==> s.call(c).1.is_clear(address) == s.is_clear(address),
{
}

/// The history of a gate's list: starting from a state where `address` is
/// clear (a fresh gate, say), `address` is clear after a run of calls
/// exactly when no call that added it succeeded, or a call that removed it
/// succeeded after the last one that did.
pub proof fn lemma_check_history(s: GateState, calls: Seq<GateCall>, address: Seq<char>)
    requires
        s.is_clear(address),
    ensures
        !s.run(calls).is_clear(address) <==> exists|i: int|
            0 <= i < calls.len() && #[trigger] gate_adds(s, calls, address, i) && forall|j: int|
                i < j < calls.len() ==> !#[trigger] gate_removes(s, calls, address, j),
{
    let status = |k: int| !s.run(calls.take(k)).is_clear(address);
    let on = |k: int| gate_adds(s, calls, address, k);
    let off = |k: int| gate_removes(s, calls, address, k);
    assert(calls.take(0) =~= Seq::<GateCall>::empty());
    assert forall|k: int|
        #![trigger on(k)]
        #![trigger off(k)]
        0 <= k < calls.len() implies {
            &&& !(on(k) && off(k))
            &&& on(k) ==> status(k + 1)
            &&& off(k) ==> !status(k + 1)
            &&& !on(k) && !off(k) ==> status(k + 1) == status(k)
        } by {
        assert(calls.take(k + 1).drop_last() =~= calls.take(k));
        assert(calls.take(k + 1).last() == calls[k]);
        lemma_call_keeps_status(s.run(calls.take(k)), calls[k], address);
    }
    let n = calls.len() as int;
    crate::history::lemma_last_switch(status, on, off, n);
    assert(calls.take(n) =~= calls);
    if status(n) {
        let i = choose|i: int| 0 <= i < n && #[trigger] on(i) && forall|j: int| i < j < n ==> !#[trigger] off(j);
        assert(gate_adds(s, calls, address, i));
        assert forall|j: int| i < j < n implies !#[trigger] gate_removes(s, calls, address, j) by {
            assert(!off(j));
        }
    } else if exists|i: int|
        0 <= i < n && #[trigger] gate_adds(s, calls, address, i) && forall|j: int|
            i < j < n ==> !#[trigger] gate_removes(s, calls, address, j) {
        let i = choose|i: int|
            0 <= i < n && #[trigger] gate_adds(s, calls, address, i) && forall|j: int|
                i < j < n ==> !#[trigger] gate_removes(s, calls, address, j);
        assert(on(i));
        assert forall|j: int| i < j < n implies !#[trigger] off(j) by {
            assert(!gate_removes(s, calls, address, j));
        }
    }
}

/// Whether call `i` of `calls`, run from `s`, is a successful add of
/// `address`.
pub open spec fn gate_adds(s: GateState, calls: Seq<GateCall>, address: Seq<char>, i: int) -> bool {
    adds(calls[i], address) && s.succeeded(calls, i)
}

/// Whether call `i` of `calls`, run from `s`, is a successful remove of
/// `address`.
pub open spec fn gate_removes(s: GateState, calls: Seq<GateCall>, address: Seq<char>, i: int) -> bool {
    removes(calls[i], address) && s.succeeded(calls, i)
}

/// How one call changes the pause switch: a successful `pause` sets it, a
/// successful `unpause` clears it, and every other call leaves it alone.
pub proof fn lemma_call_keeps_pause(s: GateState, c: GateCall)
    ensures
        c is Pause && s.call(c).0 is Ok ==> s.call(c).1.paused,
        c is Unpause && s.call(c).0 is Ok ==> !s.call(c).1.paused,
        !(c is Pause && s.call(c).0 is Ok) && !(c is Unpause && s.call(c).0 is Ok)
            ==> s.call(c).1.paused == s.paused,
{
}

/// Whether call `i` of `calls`, run from `s`, is a successful `pause`.
pub open spec fn gate_pauses(s: GateState, calls: Seq<GateCall>, i: int) -> bool {
    calls[i] is Pause && s.succeeded(calls, i)
}

/// Whether call `i` of `calls`, run from `s`, is a successful `unpause`.
pub open spec fn gate_unpauses(s: GateState, calls: Seq<GateCall>, i: int) -> bool {
    calls[i] is Unpause && s.succeeded(calls, i)
}

/// The history of a gate's pause switch: starting from an unpaused state (a
/// fresh gate, say), the denylist is paused after a run of calls exactly when a
/// `pause` succeeded and no `unpause` succeeded after the last one that did.
pub proof fn lemma_pause_history(s: GateState, calls: Seq<GateCall>)
    requires
        !s.paused,
    ensures
        s.run(calls).paused <==> exists|i: int|
            0 <= i < calls.len() && #[trigger] gate_pauses(s, calls, i) && forall|j: int|
                i < j < calls.len() ==> !#[trigger] gate_unpauses(s, calls, j),
{
    let status = |k: int| s.run(calls.take(k)).paused;
    let on = |k: int| gate_pauses(s, calls, k);
    let off = |k: int| gate_unpauses(s, calls, k);
    assert(calls.take(0) =~= Seq::<GateCall>::empty());
    assert forall|k: int|
        #![trigger on(k)]
        #![trigger off(k)]
        0 <= k < calls.len() implies {
            &&& !(on(k) && off(k))
            &&& on(k) ==> status(k + 1)
            &&& off(k) ==> !status(k + 1)
            &&& !on(k) && !off(k) ==> status(k + 1) == status(k)
        } by {
        assert(calls.take(k + 1).drop_last() =~= calls.take(k));
        assert(calls.take(k + 1).last() == calls[k]);
        lemma_call_keeps_pause(s.run(calls.take(k)), calls[k]);
    }
    let n = calls.len() as int;
    crate::history::lemma_last_switch(status, on, off, n);
    assert(calls.take(n) =~= calls);
    if status(n) {
        let i = choose|i: int| 0 <= i < n && #[trigger] on(i) && forall|j: int| i < j < n ==> !#[trigger] off(j);
        assert(gate_pauses(s, calls, i));
        assert forall|j: int| i < j < n implies !#[trigger] gate_unpauses(s, calls, j) by {
            assert(!off(j));
        }
    } else if exists|i: int|
        0 <= i < n && #[trigger] gate_pauses(s, calls, i) && forall|j: int|
            i < j < n ==> !#[trigger] gate_unpauses(s, calls, j) {
        let i = choose|i: int|
            0 <= i < n && #[trigger] gate_pauses(s, calls, i) && forall|j: int|
                i < j < n ==> !#[trigger] gate_unpauses(s, calls, j);
        assert(on(i));
        assert forall|j: int| i < j < n implies !#[trigger] off(j) by {
            assert(!gate_unpauses(s, calls, j));
        }
    }
}

/// The administrator of an initialized, unpaused gate can always change
/// the list, whatever it already holds: adding an address succeeds, denies
/// it and publishes one `DenyAdd`; removing it succeeds, whether or not it
/// was denied, clears it and publishes one `DenyRemove`. Pausing and
/// unpausing by the administrator succeed whatever the switch.
pub proof fn lemma_admin_always_changes_list(s: GateState, caller: Address, address: Address)
    requires
        s.admin matches Some(a) && a@ == caller@,
    ensures
        !s.paused ==> s.add_to_denylist(caller, address).0 == Ok::<(), Error>(()),
        !s.paused ==> !s.add_to_denylist(caller, address).1.is_clear(address@),
        !s.paused ==> s.add_to_denylist(caller, address).1.events == s.events.push(
            GateEvent::DenyAdd(DenyAdd { address }),
        ),
        !s.paused ==> s.remove_from_denylist(caller, address).0 == Ok::<(), Error>(()),
        !s.paused ==> s.remove_from_denylist(caller, address).1.is_clear(address@),
        !s.paused ==> s.remove_from_denylist(caller, address).1.events == s.events.push(
            GateEvent::DenyRemove(DenyRemove { address }),
        ),
        s.pause(caller).0 == Ok::<(), Error>(()),
        s.pause(caller).1.paused,
        s.unpause(caller).0 == Ok::<(), Error>(()),
        !s.unpause(caller).1.paused,
{
}

} // verus!
