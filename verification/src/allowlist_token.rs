//! A front for an existing token that only lets transfers through between
//! two allowlisted addresses.
//!
//! The contract's storage is held in [`AllowlistToken`]: the administrator
//! and the underlying token (both set once by `initialize`), the pause flag,
//! one `Allowed(address) -> true` entry per allowlisted address, the events
//! published since they were last drained, and the transfers handed on to
//! the underlying token since they were last drained. A transfer between
//! allowlisted parties is handed on; a transfer with a party that is not
//! allowlisted is answered `Ok(false)` and published as `Blocked`, so that
//! the attempt stays auditable; errors are kept for configuration failures
//! (the front is paused, or was never initialized). While paused, every
//! mutating operation is refused. Every operation that fails with an error
//! leaves all of the storage unchanged.
use vstd::prelude::*;

use crate::address::Address;
use crate::address_map::AddressMap;
use crate::pausable::require_not_paused;

verus! {

/// Why an operation of the allowlist front was refused.
#[derive(Clone, Copy, Debug, PartialEq, Eq, Structural)]
pub enum Error {
    NotInitialized,
    AlreadyInitialized,
    NotAuthorized,
    ContractPaused,
}

/// Published when an address is added to the allowlist.
#[derive(Clone, Debug, PartialEq, Eq)]
pub struct AllowAdd {
    pub address: Address,
}

/// Published when an address is removed from the allowlist.
#[derive(Clone, Debug, PartialEq, Eq)]
pub struct AllowRemove {
    pub address: Address,
}

/// Published when a transfer is refused because a party is not
/// allowlisted.
#[derive(Clone, Debug, PartialEq, Eq)]
pub struct Blocked {
    pub from: Address,
    pub to: Address,
    pub amount: i128,
}

/// Published when the administrator pauses the front.
#[derive(Clone, Debug, PartialEq, Eq)]
pub struct Paused {
    pub admin: Address,
}

/// Published when the administrator unpauses the front.
#[derive(Clone, Debug, PartialEq, Eq)]
pub struct Unpaused {
    pub admin: Address,
}

/// Any event the front publishes.
#[derive(Clone, Debug, PartialEq, Eq)]
pub enum AllowEvent {
    AllowAdd(AllowAdd),
    AllowRemove(AllowRemove),
    Blocked(Blocked),
    Paused(Paused),
    Unpaused(Unpaused),
}

/// A transfer handed on to the underlying token.
#[derive(Clone, Debug, PartialEq, Eq)]
pub struct TokenTransfer {
    pub token: Address,
    pub from: Address,
    pub to: Address,
    pub amount: i128,
}

/// Where a transfer goes once the pause switch has let it through.
#[derive(Clone, Debug, PartialEq, Eq)]
pub enum TransferRoute {
    /// A party is not allowlisted: the transfer is refused and published.
    Blocked,
    /// Both parties are allowlisted: the transfer is handed on to this
    /// token.
    Forward(Address),
}

/// The abstract state of an allowlist front.
pub struct AllowlistState {
    pub admin: Option<Address>,
    pub token: Option<Address>,
    pub paused: bool,
    /// The `Allowed` entries, keyed by address.
    pub allowed: Map<Seq<char>, bool>,
    /// Events published and not yet drained, oldest first.
    pub events: Seq<AllowEvent>,
    /// Transfers handed on and not yet drained, oldest first.
    pub forwarded: Seq<TokenTransfer>,
}

/// The outcome of checking `caller` against the stored administrator.
pub open spec fn admin_check(stored: Option<Address>, caller: Address) -> Result<(), Error> {
    match stored {
        None => Err(Error::NotInitialized),
        Some(a) => if a@ == caller@ {
            Ok(())
        } else {
            Err(Error::NotAuthorized)
        },
    }
}

/// The outcome of the checks made before changing the allowlist: the pause
/// switch first, then the administrator.
pub open spec fn mutation_check(paused: bool, stored: Option<Address>, caller: Address) -> Result<
    (),
    Error,
> {
    if paused {
        Err(Error::ContractPaused)
    } else {
        admin_check(stored, caller)
    }
}

/// Whether the `Allowed` entries admit `address`.
pub open spec fn admits(allowed: Map<Seq<char>, bool>, address: Seq<char>) -> bool {
    allowed.contains_key(address) && allowed[address]
}

/// The route of a transfer, given whether each party is allowlisted and
/// the stored token: refused with `NotInitialized` when no token is stored
/// (the front was never initialized); otherwise blocked unless both parties
/// are allowlisted, and handed on to the token when they are.
pub open spec fn route(from_allowed: bool, to_allowed: bool, token: Option<Address>) -> Result<
    TransferRoute,
    Error,
> {
    match token {
        None => Err(Error::NotInitialized),
        Some(t) => if !from_allowed || !to_allowed {
            Ok(TransferRoute::Blocked)
        } else {
            Ok(TransferRoute::Forward(t))
        },
    }
}

/// The allowlist after removing each of `addresses`.
pub open spec fn remove_all(allowed: Map<Seq<char>, bool>, addresses: Seq<Address>) -> Map<
    Seq<char>,
    bool,
>
    decreases addresses.len(),
{
    if addresses.len() == 0 {
        allowed
    } else {
        remove_all(allowed, addresses.drop_last()).remove(addresses.last()@)
    }
}

/// One `AllowRemove` per address, in order.
pub open spec fn removal_events(addresses: Seq<Address>) -> Seq<AllowEvent> {
    addresses.map_values(|a: Address| AllowEvent::AllowRemove(AllowRemove { address: a }))
}

impl AllowlistState {
    /// What every state of a front satisfies: the administrator and the
    /// token are stored together, and before `initialize` the front is
    /// unpaused, admits nobody, and has published and handed on nothing.
    pub open spec fn consistent(self) -> bool {
        &&& (self.admin is None <==> self.token is None)
        &&& self.admin is None ==> {
            &&& !self.paused
            &&& self.allowed == Map::<Seq<char>, bool>::empty()
            &&& self.events == Seq::<AllowEvent>::empty()
            &&& self.forwarded == Seq::<TokenTransfer>::empty()
        }
    }

    /// The state of a front that nobody has called yet.
    pub open spec fn fresh() -> AllowlistState {
        AllowlistState {
            admin: None,
            token: None,
            paused: false,
            allowed: Map::empty(),
            events: Seq::empty(),
            forwarded: Seq::empty(),
        }
    }

    /// Whether `address` is allowlisted.
    pub open spec fn is_allowed(self, address: Seq<char>) -> bool {
        admits(self.allowed, address)
    }

    /// The result and state of `initialize`.
    pub open spec fn initialize(self, admin: Address, token: Address) -> (
        Result<(), Error>,
        AllowlistState,
    ) {
        if self.admin is Some {
            (Err(Error::AlreadyInitialized), self)
        } else {
            (Ok(()), AllowlistState { admin: Some(admin), token: Some(token), ..self })
        }
    }

    /// The result and state of `add_to_allowlist`.
    pub open spec fn add_to_allowlist(self, admin: Address, address: Address) -> (
        Result<(), Error>,
        AllowlistState,
    ) {
        match mutation_check(self.paused, self.admin, admin) {
            Err(e) => (Err(e), self),
            Ok(_) => (
                Ok(()),
                AllowlistState {
                    allowed: self.allowed.insert(address@, true),
                    events: self.events.push(AllowEvent::AllowAdd(AllowAdd { address })),
                    ..self
                },
            ),
        }
    }

    /// The result and state of `remove_from_allowlist`.
    pub open spec fn remove_from_allowlist(self, admin: Address, address: Address) -> (
        Result<(), Error>,
        AllowlistState,
    ) {
        match mutation_check(self.paused, self.admin, admin) {
            Err(e) => (Err(e), self),
            Ok(_) => (
                Ok(()),
                AllowlistState {
                    allowed: self.allowed.remove(address@),
                    events: self.events.push(AllowEvent::AllowRemove(AllowRemove { address })),
                    ..self
                },
            ),
        }
    }

    /// Removing many addresses at once follows the logic of removing one:
    /// refused while paused, then administrator only.
    pub open spec fn remove_multiple_from_allowlist(self, admin: Address, addresses: Seq<Address>) -> (
        Result<(), Error>,
        AllowlistState,
    ) {
        match mutation_check(self.paused, self.admin, admin) {
            Err(e) => (Err(e), self),
            Ok(_) => (
                Ok(()),
                AllowlistState {
                    allowed: remove_all(self.allowed, addresses),
                    events: self.events + removal_events(addresses),
                    ..self
                },
            ),
        }
    }

    /// The result and state of `pause`.
    pub open spec fn pause(self, admin: Address) -> (Result<(), Error>, AllowlistState) {
        match admin_check(self.admin, admin) {
            Err(e) => (Err(e), self),
            Ok(_) => (
                Ok(()),
                AllowlistState {
                    paused: true,
                    events: self.events.push(AllowEvent::Paused(Paused { admin })),
                    ..self
                },
            ),
        }
    }

    /// The result and state of `unpause`.
    pub open spec fn unpause(self, admin: Address) -> (Result<(), Error>, AllowlistState) {
        match admin_check(self.admin, admin) {
            Err(e) => (Err(e), self),
            Ok(_) => (
                Ok(()),
                AllowlistState {
                    paused: false,
                    events: self.events.push(AllowEvent::Unpaused(Unpaused { admin })),
                    ..self
                },
            ),
        }
    }

    /// The result and state of `transfer`.
    pub open spec fn transfer(self, from: Address, to: Address, amount: i128) -> (
        Result<bool, Error>,
        AllowlistState,
    ) {
        if self.paused {
            (Err(Error::ContractPaused), self)
        } else {
            match route(self.is_allowed(from@), self.is_allowed(to@), self.token) {
                Err(e) => (Err(e), self),
                Ok(TransferRoute::Blocked) => (
                    Ok(false),
                    AllowlistState {
                        events: self.events.push(AllowEvent::Blocked(Blocked { from, to, amount })),
                        ..self
                    },
                ),
                Ok(TransferRoute::Forward(token)) => (
                    Ok(true),
                    AllowlistState {
                        forwarded: self.forwarded.push(TokenTransfer { token, from, to, amount }),
                        ..self
                    },
                ),
            }
        }
    }
}

/// One change to the storage of a front, one event to publish, or one
/// transfer to hand on to the underlying token.
#[derive(Debug, PartialEq, Eq)]
pub enum AllowWrite {
    /// Store the administrator.
    Admin(Address),
    /// Store the underlying token.
    Token(Address),
    /// Set the pause switch.
    Paused(bool),
    /// Store `Allowed(address) -> true`.
    Allow(Address),
    /// Delete the `Allowed` entry of the address.
    Disallow(Address),
    /// Publish the event.
    Publish(AllowEvent),
    /// Hand the transfer on to the underlying token.
    Forward(TokenTransfer),
}

/// What an operation decides: whose authorization it demands (before
/// anything else happens), its result, and, on success, the writes to carry
/// out in order. A failed operation writes nothing.
#[derive(Debug, PartialEq, Eq)]
pub struct AllowStep<R> {
    pub auth: Option<Address>,
    pub result: Result<R, Error>,
    pub writes: Vec<AllowWrite>,
}

/// The writes that remove each of `addresses` in turn, each removal
/// followed by its `AllowRemove`.
pub open spec fn removal_writes(addresses: Seq<Address>) -> Seq<AllowWrite>
    decreases addresses.len(),
{
    if addresses.len() == 0 {
        Seq::empty()
    } else {
        removal_writes(addresses.drop_last()) + seq![
            AllowWrite::Disallow(addresses.last()),
            AllowWrite::Publish(AllowEvent::AllowRemove(AllowRemove { address: addresses.last() })),
        ]
    }
}

impl AllowlistState {
    /// The state after one write.
    pub open spec fn apply(self, w: AllowWrite) -> AllowlistState {
        match w {
            AllowWrite::Admin(a) => AllowlistState { admin: Some(a), ..self },
            AllowWrite::Token(t) => AllowlistState { token: Some(t), ..self },
            AllowWrite::Paused(p) => AllowlistState { paused: p, ..self },
            AllowWrite::Allow(a) => AllowlistState { allowed: self.allowed.insert(a@, true), ..self },
            AllowWrite::Disallow(a) => AllowlistState { allowed: self.allowed.remove(a@), ..self },
            AllowWrite::Publish(e) => AllowlistState { events: self.events.push(e), ..self },
            AllowWrite::Forward(t) => AllowlistState { forwarded: self.forwarded.push(t), ..self },
        }
    }

    /// The state after the writes, in order.
    pub open spec fn apply_all(self, ws: Seq<AllowWrite>) -> AllowlistState
        decreases ws.len(),
    {
        if ws.len() == 0 {
            self
        } else {
            self.apply_all(ws.drop_last()).apply(ws.last())
        }
    }

    /// The state after a step: its writes if it succeeded, no change
    /// otherwise.
    pub open spec fn after<R>(self, step: AllowStep<R>) -> AllowlistState {
        if step.result is Ok {
            self.apply_all(step.writes@)
        } else {
            self
        }
    }
}

/// Carrying out two runs of writes one after the other is carrying out
/// their concatenation.
pub proof fn lemma_apply_all_concat(s: AllowlistState, a: Seq<AllowWrite>, b: Seq<AllowWrite>)
    ensures
        s.apply_all(a + b) == s.apply_all(a).apply_all(b),
    decreases b.len(),
{
    if b.len() == 0 {
        assert(a + b =~= a);
    } else {
        assert((a + b).drop_last() =~= a + b.drop_last());
        assert((a + b).last() == b.last());
        lemma_apply_all_concat(s, a, b.drop_last());
    }
}

/// Carrying out the removal writes of `addresses` removes them all and
/// publishes one `AllowRemove` each.
pub proof fn lemma_removal_writes(s: AllowlistState, addresses: Seq<Address>)
    ensures
        s.apply_all(removal_writes(addresses)) == (AllowlistState {
            allowed: remove_all(s.allowed, addresses),
            events: s.events + removal_events(addresses),
            ..s
        }),
    decreases addresses.len(),
{
    if addresses.len() == 0 {
        assert(s.events + removal_events(addresses) =~= s.events);
    } else {
        let init = addresses.drop_last();
        let last = addresses.last();
        let tail = seq![
            AllowWrite::Disallow(last),
            AllowWrite::Publish(AllowEvent::AllowRemove(AllowRemove { address: last })),
        ];
        lemma_removal_writes(s, init);
        lemma_apply_all_concat(s, removal_writes(init), tail);
        reveal_with_fuel(AllowlistState::apply_all, 3);
        assert(removal_events(addresses) =~= removal_events(init).push(
            AllowEvent::AllowRemove(AllowRemove { address: last }),
        ));
        assert(s.events + removal_events(addresses) =~= (s.events + removal_events(init)).push(
            AllowEvent::AllowRemove(AllowRemove { address: last }),
        ));
    }
}

/// Checks `caller` against the stored administrator.
pub fn require_admin(stored: &Option<Address>, caller: &Address) -> (r: Result<(), Error>)
    ensures
        r == admin_check(*stored, *caller),
{
    match stored {
        None => Err(Error::NotInitialized),
        Some(a) => {
            if *a == *caller {
                Ok(())
            } else {
                Err(Error::NotAuthorized)
            }
        },
    }
}

/// Whether an address is allowlisted, given its stored `Allowed` entry.
pub fn allowed_from_entry(entry: Option<bool>) -> (r: bool)
    ensures
        r == (entry == Some(true)),
{
    match entry {
        Some(allowed) => allowed,
        None => false,
    }
}

/// Decides where a transfer goes, given whether each party is allowlisted
/// and the stored token.
pub fn route_transfer(from_allowed: bool, to_allowed: bool, token: Option<Address>) -> (r: Result<
    TransferRoute,
    Error,
>)
    ensures
        r == route(from_allowed, to_allowed, token),
{
    match token {
        None => Err(Error::NotInitialized),
        Some(t) => {
            if !from_allowed || !to_allowed {
                Ok(TransferRoute::Blocked)
            } else {
                Ok(TransferRoute::Forward(t))
            }
        },
    }
}

/// Decides `initialize`, given the stored administrator.
pub fn initialize_step(stored: &Option<Address>, admin: Address, token: Address) -> (step: AllowStep<()>)
    ensures
        step.auth == (if stored is Some { None } else { Some(admin) }),
        step.result == (if stored is Some { Err(Error::AlreadyInitialized) } else { Ok::<(), Error>(()) }),
        step.writes@ == (if stored is Some {
            Seq::empty()
        } else {
            seq![AllowWrite::Admin(admin), AllowWrite::Token(token)]
        }),
{
    if stored.is_some() {
        return AllowStep { auth: None, result: Err(Error::AlreadyInitialized), writes: Vec::new() };
    }
    let auth = Some(admin.clone());
    AllowStep { auth, result: Ok(()), writes: vec![AllowWrite::Admin(admin), AllowWrite::Token(token)] }
}

/// Decides `add_to_allowlist`, given the pause switch and the stored
/// administrator: the pause switch is checked first, then the caller's
/// authorization is demanded and the caller compared to the administrator.
pub fn add_to_allowlist_step(
    paused: bool,
    stored: &Option<Address>,
    admin: Address,
    address: Address,
) -> (step: AllowStep<()>)
    ensures
        step.auth == (if paused { None } else { Some(admin) }),
        step.result == mutation_check(paused, *stored, admin),
        step.writes@ == (if step.result is Ok {
            seq![
                AllowWrite::Allow(address),
                AllowWrite::Publish(AllowEvent::AllowAdd(AllowAdd { address })),
            ]
        } else {
            Seq::empty()
        }),
{
    if let Err(e) = require_not_paused(paused, Error::ContractPaused) {
        return AllowStep { auth: None, result: Err(e), writes: Vec::new() };
    }
    let auth = Some(admin.clone());
    if let Err(e) = require_admin(stored, &admin) {
        return AllowStep { auth, result: Err(e), writes: Vec::new() };
    }
    let writes = vec![
        AllowWrite::Allow(address.clone()),
        AllowWrite::Publish(AllowEvent::AllowAdd(AllowAdd { address })),
    ];
    AllowStep { auth, result: Ok(()), writes }
}

/// Decides `remove_from_allowlist`, in the same order as
/// `add_to_allowlist_step`.
pub fn remove_from_allowlist_step(
    paused: bool,
    stored: &Option<Address>,
    admin: Address,
    address: Address,
) -> (step: AllowStep<()>)
    ensures
        step.auth == (if paused { None } else { Some(admin) }),
        step.result == mutation_check(paused, *stored, admin),
        step.writes@ == (if step.result is Ok {
            seq![
                AllowWrite::Disallow(address),
                AllowWrite::Publish(AllowEvent::AllowRemove(AllowRemove { address })),
            ]
        } else {
            Seq::empty()
        }),
{
    if let Err(e) = require_not_paused(paused, Error::ContractPaused) {
        return AllowStep { auth: None, result: Err(e), writes: Vec::new() };
    }
    let auth = Some(admin.clone());
    if let Err(e) = require_admin(stored, &admin) {
        return AllowStep { auth, result: Err(e), writes: Vec::new() };
    }
    let writes = vec![
        AllowWrite::Disallow(address.clone()),
        AllowWrite::Publish(AllowEvent::AllowRemove(AllowRemove { address })),
    ];
    AllowStep { auth, result: Ok(()), writes }
}

/// Decides `remove_multiple_from_allowlist`, given the pause switch and the
/// stored administrator, in the same order as removing one address: the
/// pause switch is checked first, then the caller's authorization is
/// demanded once and the caller compared to the administrator.
pub fn remove_multiple_from_allowlist_step(
    paused: bool,
    stored: &Option<Address>,
    admin: Address,
    addresses: Vec<Address>,
) -> (step: AllowStep<()>)
    ensures
        step.auth == (if paused { None } else { Some(admin) }),
        step.result == mutation_check(paused, *stored, admin),
        step.writes@ == (if step.result is Ok {
            removal_writes(addresses@)
        } else {
            Seq::empty()
        }),
{
    if let Err(e) = require_not_paused(paused, Error::ContractPaused) {
        return AllowStep { auth: None, result: Err(e), writes: Vec::new() };
    }
    let auth = Some(admin.clone());
    if let Err(e) = require_admin(stored, &admin) {
        return AllowStep { auth, result: Err(e), writes: Vec::new() };
    }
    let mut writes: Vec<AllowWrite> = Vec::new();
    let n = addresses.len();
    let mut i: usize = 0;
    while i < n
        invariant
            n == addresses@.len(),
            i <= n,
            writes@ == removal_writes(addresses@.take(i as int)),
        decreases n - i,
    {
        let address = addresses[i].clone();
        writes.push(AllowWrite::Disallow(address.clone()));
        writes.push(AllowWrite::Publish(AllowEvent::AllowRemove(AllowRemove { address })));
        proof {
            let taken = addresses@.take(i + 1);
            assert(taken.drop_last() =~= addresses@.take(i as int));
            assert(taken.last() == addresses@[i as int]);
            assert(writes@ =~= removal_writes(taken));
        }
        i = i + 1;
    }
    proof {
        assert(addresses@.take(n as int) =~= addresses@);
    }
    AllowStep { auth, result: Ok(()), writes }
}

/// Decides `pause` (when `paused` is `true`) or `unpause` (when it is
/// `false`), given the stored administrator.
pub fn set_paused_step(stored: &Option<Address>, admin: Address, paused: bool) -> (step: AllowStep<()>)
    ensures
        step.auth == Some(admin),
        step.result == admin_check(*stored, admin),
        step.writes@ == (if step.result is Ok {
            seq![
                AllowWrite::Paused(paused),
                AllowWrite::Publish(
                    if paused {
                        AllowEvent::Paused(Paused { admin })
                    } else {
                        AllowEvent::Unpaused(Unpaused { admin })
                    },
                ),
            ]
        } else {
            Seq::empty()
        }),
{
    let auth = Some(admin.clone());
    if let Err(e) = require_admin(stored, &admin) {
        return AllowStep { auth, result: Err(e), writes: Vec::new() };
    }
    let event = if paused {
        AllowEvent::Paused(Paused { admin })
    } else {
        AllowEvent::Unpaused(Unpaused { admin })
    };
    AllowStep {
        auth,
        result: Ok(()),
        writes: vec![AllowWrite::Paused(paused), AllowWrite::Publish(event)],
    }
}

/// Decides `transfer`, given the pause switch, whether each party is
/// allowlisted and the stored token: the pause switch is checked first,
/// then the sender's authorization is demanded and the transfer routed.
pub fn transfer_step(
    paused: bool,
    from_allowed: bool,
    to_allowed: bool,
    token: Option<Address>,
    from: Address,
    to: Address,
    amount: i128,
) -> (step: AllowStep<bool>)
    ensures
        step.auth == (if paused { None } else { Some(from) }),
        paused ==> step.result == Err::<bool, Error>(Error::ContractPaused) && step.writes@
            == Seq::<AllowWrite>::empty(),
        !paused ==> match route(from_allowed, to_allowed, token) {
            Err(e) => step.result == Err::<bool, Error>(e) && step.writes@ == Seq::<
                AllowWrite,
            >::empty(),
            Ok(TransferRoute::Blocked) => step.result == Ok::<bool, Error>(false) && step.writes@
                == seq![AllowWrite::Publish(AllowEvent::Blocked(Blocked { from, to, amount }))],
            Ok(TransferRoute::Forward(t)) => step.result == Ok::<bool, Error>(true) && step.writes@
                == seq![AllowWrite::Forward(TokenTransfer { token: t, from, to, amount })],
        },
{
    if let Err(e) = require_not_paused(paused, Error::ContractPaused) {
        return AllowStep { auth: None, result: Err(e), writes: Vec::new() };
    }
    let auth = Some(from.clone());
    match route_transfer(from_allowed, to_allowed, token) {
        Err(e) => AllowStep { auth, result: Err(e), writes: Vec::new() },
        Ok(TransferRoute::Blocked) => AllowStep {
            auth,
            result: Ok(false),
            writes: vec![AllowWrite::Publish(AllowEvent::Blocked(Blocked { from, to, amount }))],
        },
        Ok(TransferRoute::Forward(token)) => AllowStep {
            auth,
            result: Ok(true),
            writes: vec![AllowWrite::Forward(TokenTransfer { token, from, to, amount })],
        },
    }
}

/// The storage of an allowlist front, and its operations.
pub struct AllowlistToken {
    admin: Option<Address>,
    token: Option<Address>,
    paused: bool,
    allowed: AddressMap<bool>,
    events: Vec<AllowEvent>,
    forwarded: Vec<TokenTransfer>,
}

impl View for AllowlistToken {
    type V = AllowlistState;

    closed spec fn view(&self) -> AllowlistState {
        AllowlistState {
            admin: self.admin,
            token: self.token,
            paused: self.paused,
            allowed: self.allowed@,
            events: self.events@,
            forwarded: self.forwarded@,
        }
    }
}

impl AllowlistToken {
    /// The per-address store is well formed.
    closed spec fn maps_wf(&self) -> bool {
        self.allowed.wf()
    }

    /// The storage is well formed, and its state is one the operations can
    /// reach: `consistent`.
    pub closed spec fn wf(&self) -> bool {
        self.maps_wf() && self@.consistent()
    }

    /// A well-formed model's state is consistent.
    pub proof fn lemma_wf_is_consistent(&self)
        requires
            self.wf(),
        ensures
            self@.consistent(),
    {
    }

    /// A front with empty storage, before `initialize`.
    pub fn new() -> (r: AllowlistToken)
        ensures
            r.wf(),
            r@ == AllowlistState::fresh(),
    {
        AllowlistToken {
            admin: None,
            token: None,
            paused: false,
            allowed: AddressMap::new(),
            events: Vec::new(),
            forwarded: Vec::new(),
        }
    }

    fn write(&mut self, w: AllowWrite)
        requires
            old(self).maps_wf(),
        ensures
            final(self).maps_wf(),
            final(self)@ == old(self)@.apply(w),
    {
        match w {
            AllowWrite::Admin(a) => {
                self.admin = Some(a);
            },
            AllowWrite::Token(t) => {
                self.token = Some(t);
            },
            AllowWrite::Paused(p) => {
                self.paused = p;
            },
            AllowWrite::Allow(a) => {
                self.allowed.insert(a, true);
            },
            AllowWrite::Disallow(a) => {
                self.allowed.remove(&a);
            },
            AllowWrite::Publish(e) => {
                self.events.push(e);
            },
            AllowWrite::Forward(t) => {
                self.forwarded.push(t);
            },
        }
    }

    /// Carries out a step: its writes, in order, if it succeeded.
    fn commit<R>(&mut self, step: AllowStep<R>) -> (r: Result<R, Error>)
        requires
            old(self).maps_wf(),
        ensures
            final(self).maps_wf(),
            r == step.result,
            final(self)@ == old(self)@.after(step),
    {
        let ghost ws = step.writes@;
        let ghost pre = self@;
        let AllowStep { auth: _, result, mut writes } = step;
        if result.is_ok() {
            let n = writes.len();
            let mut k: usize = 0;
            while k < n
                invariant
                    n == ws.len(),
                    k <= n,
                    writes@ == ws.skip(k as int),
                    self.maps_wf(),
                    self@ == pre.apply_all(ws.take(k as int)),
                decreases n - k,
            {
                let w = writes.remove(0);
                self.write(w);
                proof {
                    assert(ws.take(k + 1).drop_last() =~= ws.take(k as int));
                    assert(writes@ =~= ws.skip(k + 1));
                }
                k = k + 1;
            }
            proof {
                assert(ws.take(n as int) =~= ws);
            }
        }
        result
    }

    /// One-time setup: `admin` may manage the allowlist; `token` is the
    /// underlying token that cleared transfers are handed on to. Fails with
    /// `AlreadyInitialized` if an administrator is already stored.
    pub fn initialize(&mut self, admin: Address, token: Address) -> (r: Result<(), Error>)
        requires
            old(self).wf(),
        ensures
            final(self).wf(),
            (r, final(self)@) == old(self)@.initialize(admin, token),
    {
        let step = initialize_step(&self.admin, admin, token);
        proof {
            reveal_with_fuel(AllowlistState::apply_all, 3);
        }
        self.commit(step)
    }

    /// Adds `address` to the allowlist. Administrator only; refused while
    /// paused. Publishes `AllowAdd`.
    pub fn add_to_allowlist(&mut self, admin: Address, address: Address) -> (r: Result<(), Error>)
        requires
            old(self).wf(),
        ensures
            final(self).wf(),
            (r, final(self)@) == old(self)@.add_to_allowlist(admin, address),
    {
        let step = add_to_allowlist_step(self.paused, &self.admin, admin, address);
        proof {
            reveal_with_fuel(AllowlistState::apply_all, 3);
        }
        self.commit(step)
    }

    /// Removes `address` from the allowlist. Administrator only; refused
    /// while paused. Publishes `AllowRemove`.
    pub fn remove_from_allowlist(&mut self, admin: Address, address: Address) -> (r: Result<
        (),
        Error,
    >)
        requires
            old(self).wf(),
        ensures
            final(self).wf(),
            (r, final(self)@) == old(self)@.remove_from_allowlist(admin, address),
    {
        let step = remove_from_allowlist_step(self.paused, &self.admin, admin, address);
        proof {
            reveal_with_fuel(AllowlistState::apply_all, 3);
        }
        self.commit(step)
    }

    /// Removes each of `addresses` from the allowlist, in order, publishing
    /// one `AllowRemove` per address. Administrator only; refused while
    /// paused.
    pub fn remove_multiple_from_allowlist(&mut self, admin: Address, addresses: Vec<Address>) -> (r:
        Result<(), Error>)
        requires
            old(self).wf(),
        ensures
            final(self).wf(),
            (r, final(self)@) == old(self)@.remove_multiple_from_allowlist(admin, addresses@),
    {
        let ghost list = addresses@;
        let step = remove_multiple_from_allowlist_step(self.paused, &self.admin, admin, addresses);
        proof {
            lemma_removal_writes(self@, list);
        }
        self.commit(step)
    }

    /// Whether `address` is currently allowlisted. Unaffected by the pause
    /// switch.
    pub fn is_allowed(&self, address: Address) -> (r: bool)
        requires
            self.wf(),
        ensures
            r == self@.is_allowed(address@),
    {
        let entry = match self.allowed.get(&address) {
            Some(allowed) => Some(*allowed),
            None => None,
        };
        allowed_from_entry(entry)
    }

    /// Pauses the front. Administrator only. Publishes `Paused`.
    pub fn pause(&mut self, admin: Address) -> (r: Result<(), Error>)
        requires
            old(self).wf(),
        ensures
            final(self).wf(),
            (r, final(self)@) == old(self)@.pause(admin),
    {
        let step = set_paused_step(&self.admin, admin, true);
        proof {
            reveal_with_fuel(AllowlistState::apply_all, 3);
        }
        self.commit(step)
    }

    /// Unpauses the front. Administrator only. Publishes `Unpaused`.
    pub fn unpause(&mut self, admin: Address) -> (r: Result<(), Error>)
        requires
            old(self).wf(),
        ensures
            final(self).wf(),
            (r, final(self)@) == old(self)@.unpause(admin),
    {
        let step = set_paused_step(&self.admin, admin, false);
        proof {
            reveal_with_fuel(AllowlistState::apply_all, 3);
        }
        self.commit(step)
    }

    /// Whether the front is paused.
    pub fn is_paused(&self) -> (r: bool)
        ensures
            r == self@.paused,
    {
        self.paused
    }

    /// Transfers `amount` from `from` to `to`. Refused with
    /// `ContractPaused` while paused. If a party is not allowlisted, the
    /// answer is `Ok(false)` and `Blocked` is published; otherwise the
    /// transfer is handed on to the underlying token and the answer is
    /// `Ok(true)`.
    pub fn transfer(&mut self, from: Address, to: Address, amount: i128) -> (r: Result<bool, Error>)
        requires
            old(self).wf(),
        ensures
            final(self).wf(),
            (r, final(self)@) == old(self)@.transfer(from, to, amount),
    {
        let from_allowed = self.is_allowed(from.clone());
        let to_allowed = self.is_allowed(to.clone());
        let token = match &self.token {
            Some(t) => Some(t.clone()),
            None => None,
        };
        let step = transfer_step(self.paused, from_allowed, to_allowed, token, from, to, amount);
        proof {
            reveal_with_fuel(AllowlistState::apply_all, 2);
        }
        self.commit(step)
    }

    /// Hands out the events published since the last call, oldest first,
    /// and forgets them.
    pub fn drain_events(&mut self) -> (r: Vec<AllowEvent>)
        requires
            old(self).wf(),
        ensures
            final(self).wf(),
            r@ == old(self)@.events,
            final(self)@ == (AllowlistState { events: Seq::empty(), ..old(self)@ }),
    {
        let mut drained: Vec<AllowEvent> = Vec::new();
        std::mem::swap(&mut drained, &mut self.events);
        drained
    }

    /// Hands out the transfers handed on to the underlying token since the
    /// last call, oldest first, and forgets them.
    pub fn drain_forwarded(&mut self) -> (r: Vec<TokenTransfer>)
        requires
            old(self).wf(),
        ensures
            final(self).wf(),
            r@ == old(self)@.forwarded,
            final(self)@ == (AllowlistState { forwarded: Seq::empty(), ..old(self)@ }),
    {
        let mut drained: Vec<TokenTransfer> = Vec::new();
        std::mem::swap(&mut drained, &mut self.forwarded);
        drained
    }
}

/// A front nobody has called yet is not paused and admits nobody.
pub proof fn lemma_fresh_front_admits_nobody(address: Seq<char>)
    ensures
        !AllowlistState::fresh().paused,
        !AllowlistState::fresh().is_allowed(address),
{
}

/// `initialize` succeeds exactly once: it succeeds on a front without an
/// administrator, and every later call fails with `AlreadyInitialized`
/// and changes nothing.
pub proof fn lemma_initialize_once(
    s: AllowlistState,
    admin: Address,
    token: Address,
    admin2: Address,
    token2: Address,
)
    ensures
        s.admin is None ==> s.initialize(admin, token).0 is Ok,
        s.initialize(admin, token).0 is Ok ==> s.initialize(admin, token).1.initialize(
            admin2,
            token2,
        ) == (Err::<(), Error>(Error::AlreadyInitialized), s.initialize(admin, token).1),
        s.admin is Some ==> s.initialize(admin, token) == (
            Err::<(), Error>(Error::AlreadyInitialized),
            s,
        ),
{
}

/// An operation that fails with an error changes nothing: not the list,
/// the configuration, the pause switch, the published events, nor the
/// transfers handed on.
pub proof fn lemma_error_changes_nothing(
    s: AllowlistState,
    caller: Address,
    address: Address,
    addresses: Seq<Address>,
    to: Address,
    amount: i128,
    token: Address,
)
    ensures
        s.initialize(caller, token).0 is Err ==> s.initialize(caller, token).1 == s,
        s.add_to_allowlist(caller, address).0 is Err ==> s.add_to_allowlist(caller, address).1
            == s,
        s.remove_from_allowlist(caller, address).0 is Err ==> s.remove_from_allowlist(
            caller,
            address,
        ).1 == s,
        s.remove_multiple_from_allowlist(caller, addresses).0 is Err
            ==> s.remove_multiple_from_allowlist(caller, addresses).1 == s,
        s.pause(caller).0 is Err ==> s.pause(caller).1 == s,
        s.unpause(caller).0 is Err ==> s.unpause(caller).1 == s,
        s.transfer(caller, to, amount).0 is Err ==> s.transfer(caller, to, amount).1 == s,
{
}

/// While paused, every mutating operation (adding, removing one address,
/// removing many at once, transferring) is refused with `ContractPaused`,
/// whoever calls, and changes nothing.
pub proof fn lemma_paused_blocks_mutations(
    s: AllowlistState,
    caller: Address,
    address: Address,
    addresses: Seq<Address>,
    to: Address,
    amount: i128,
)
    requires
        s.paused,
    ensures
        s.add_to_allowlist(caller, address) == (Err::<(), Error>(Error::ContractPaused), s),
        s.remove_from_allowlist(caller, address) == (Err::<(), Error>(Error::ContractPaused), s),
        s.remove_multiple_from_allowlist(caller, addresses) == (
            Err::<(), Error>(Error::ContractPaused),
            s,
        ),
        s.transfer(caller, to, amount) == (Err::<bool, Error>(Error::ContractPaused), s),
{
}

/// Only the stored administrator can change the list or the pause switch.
pub proof fn lemma_only_admin_mutates(
    s: AllowlistState,
    caller: Address,
    address: Address,
    addresses: Seq<Address>,
)
    requires
        !(s.admin matches Some(a) && a@ == caller@),
    ensures
        s.add_to_allowlist(caller, address).0 is Err,
        s.remove_from_allowlist(caller, address).0 is Err,
        s.remove_multiple_from_allowlist(caller, addresses).0 is Err,
        s.pause(caller).0 is Err,
        s.unpause(caller).0 is Err,
{
}

/// After a successful add, `address` is allowlisted; after a successful
/// remove it is not; every other address keeps its status.
pub proof fn lemma_add_remove_read_back(
    s: AllowlistState,
    admin: Address,
    address: Address,
    other: Seq<char>,
)
    ensures
        s.add_to_allowlist(admin, address).0 is Ok ==> s.add_to_allowlist(
            admin,
            address,
        ).1.is_allowed(address@),
        s.remove_from_allowlist(admin, address).0 is Ok ==> !s.remove_from_allowlist(
            admin,
            address,
        ).1.is_allowed(address@),
        other != address@ ==> s.add_to_allowlist(admin, address).1.is_allowed(other)
            == s.is_allowed(other),
        other != address@ ==> s.remove_from_allowlist(admin, address).1.is_allowed(other)
            == s.is_allowed(other),
{
}

/// What removing many addresses leaves: an address is allowlisted
/// afterwards exactly when it was before and is none of the removed ones.
pub proof fn lemma_remove_all(allowed: Map<Seq<char>, bool>, addresses: Seq<Address>, a: Seq<char>)
    ensures
        admits(remove_all(allowed, addresses), a) == (admits(allowed, a) && !(exists|i: int|
            0 <= i < addresses.len() && #[trigger] addresses[i]@ == a)),
    decreases addresses.len(),
{
    if addresses.len() > 0 {
        let init = addresses.drop_last();
        lemma_remove_all(allowed, init, a);
        if exists|i: int| 0 <= i < addresses.len() && #[trigger] addresses[i]@ == a {
            let i = choose|i: int| 0 <= i < addresses.len() && #[trigger] addresses[i]@ == a;
            if i < addresses.len() - 1 {
                assert(init[i]@ == a);
            }
        }
        if exists|i: int| 0 <= i < init.len() && #[trigger] init[i]@ == a {
            let i = choose|i: int| 0 <= i < init.len() && #[trigger] init[i]@ == a;
            assert(addresses[i]@ == a);
        }
    }
}

/// After a successful removal of many addresses, none of them is
/// allowlisted, every other address keeps its status, and one `AllowRemove`
/// per address was published in order.
pub proof fn lemma_remove_multiple_read_back(
    s: AllowlistState,
    admin: Address,
    addresses: Seq<Address>,
    a: Seq<char>,
)
    requires
        s.remove_multiple_from_allowlist(admin, addresses).0 is Ok,
    ensures
        ({
            let t = s.remove_multiple_from_allowlist(admin, addresses).1;
            &&& (forall|i: int| 0 <= i < addresses.len() ==> !t.is_allowed(#[trigger] addresses[i]@))
            &&& (forall|i: int| 0 <= i < addresses.len() ==> addresses[i]@ != a) ==> t.is_allowed(a)
                == s.is_allowed(a)
            &&& t.events.len() == s.events.len() + addresses.len()
            &&& forall|i: int|
                0 <= i < addresses.len() ==> t.events[s.events.len() + i] == AllowEvent::AllowRemove(
                    AllowRemove { address: #[trigger] addresses[i] },
                )
        }),
{
    let t = s.remove_multiple_from_allowlist(admin, addresses).1;
    assert forall|i: int| 0 <= i < addresses.len() implies !t.is_allowed(
        #[trigger] addresses[i]@,
    ) by {
        lemma_remove_all(s.allowed, addresses, addresses[i]@);
    }
    lemma_remove_all(s.allowed, addresses, a);
}

/// The pause switch never changes who is allowlisted, and transfers never
/// change the list or the configuration.
pub proof fn lemma_reads_unaffected(
    s: AllowlistState,
    admin: Address,
    from: Address,
    to: Address,
    amount: i128,
)
    ensures
        s.pause(admin).1.allowed == s.allowed,
        s.unpause(admin).1.allowed == s.allowed,
        s.transfer(from, to, amount).1.allowed == s.allowed,
        s.transfer(from, to, amount).1.admin == s.admin,
        s.transfer(from, to, amount).1.token == s.token,
        s.transfer(from, to, amount).1.paused == s.paused,
{
}

/// What a transfer does. Refused while paused; refused with
/// `NotInitialized`, with no event and nothing handed on, when no token is
/// stored; answered `Ok(false)` with a `Blocked` event, and nothing handed
/// on, when a party is not allowlisted; otherwise handed on to the stored
/// token exactly once and answered `Ok(true)`, with no event.
pub proof fn lemma_transfer_outcome(s: AllowlistState, from: Address, to: Address, amount: i128)
    requires
        !s.paused,
    ensures
        ({
            let (r, t) = s.transfer(from, to, amount);
            &&& s.token is None ==> r == Err::<bool, Error>(Error::NotInitialized) && t == s
            &&& (s.token is Some && (!s.is_allowed(from@) || !s.is_allowed(to@))) ==> {
                &&& r == Ok::<bool, Error>(false)
                &&& t.events == s.events.push(AllowEvent::Blocked(Blocked { from, to, amount }))
                &&& t.forwarded == s.forwarded
            }
            &&& (s.is_allowed(from@) && s.is_allowed(to@) && s.token is Some) ==> {
                &&& r == Ok::<bool, Error>(true)
                &&& t.forwarded == s.forwarded.push(
                    TokenTransfer { token: s.token.unwrap(), from, to, amount },
                )
                &&& t.events == s.events
            }
        }),
{
}

/// Only transfers between two allowlisted parties ever reach the underlying
/// token.
pub proof fn lemma_forwarded_parties_allowed(
    s: AllowlistState,
    from: Address,
    to: Address,
    amount: i128,
)
    requires
        s.transfer(from, to, amount).1.forwarded != s.forwarded,
    ensures
        s.is_allowed(from@),
        s.is_allowed(to@),
        !s.paused,
        s.transfer(from, to, amount).0 == Ok::<bool, Error>(true),
{
}

/// Pausing then unpausing by the administrator leaves the front unpaused
/// with the list unchanged.
pub proof fn lemma_pause_unpause_round_trip(s: AllowlistState, admin: Address)
    requires
        s.pause(admin).0 is Ok,
    ensures
        ({
            let t = s.pause(admin).1;
            let u = t.unpause(admin).1;
            &&& t.paused
            &&& t.unpause(admin).0 is Ok
            &&& !u.paused
            &&& u.allowed == s.allowed
            &&& u.events == s.events.push(AllowEvent::Paused(Paused { admin })).push(
                AllowEvent::Unpaused(Unpaused { admin }),
            )
        }),
{
}

/// Every change to the list or to the pause switch is authorized by the
/// stored administrator: when the checks before a change pass, the caller,
/// whose authorization the step demands, is the stored administrator (and,
/// for single additions and removals, the front is not paused).
pub proof fn lemma_changes_need_admin_authorization(
    paused: bool,
    stored: Option<Address>,
    caller: Address,
)
    ensures
        mutation_check(paused, stored, caller) is Ok ==> !paused && stored is Some
            && stored.unwrap()@ == caller@,
        admin_check(stored, caller) is Ok ==> stored is Some && stored.unwrap()@ == caller@,
{
}

/// A transfer fails with an error only for configuration reasons: while
/// paused, or when the front was never initialized (no token stored). On an
/// initialized, unpaused front a transfer with a party that is not
/// allowlisted always answers `Ok(false)`, so that its `Blocked` event
/// stands.
pub proof fn lemma_transfer_errors_are_configuration(
    s: AllowlistState,
    from: Address,
    to: Address,
    amount: i128,
)
    ensures
        s.transfer(from, to, amount).0 is Err ==> (s.paused && s.transfer(from, to, amount).0
            == Err::<bool, Error>(Error::ContractPaused)) || (!s.paused && s.token is None
            && s.transfer(from, to, amount).0 == Err::<bool, Error>(Error::NotInitialized)),
        !s.paused && s.token is Some && !(s.is_allowed(from@) && s.is_allowed(to@)) ==> s.transfer(
            from,
            to,
            amount,
        ).0 == Ok::<bool, Error>(false),
        !s.paused && s.token is None ==> s.transfer(from, to, amount) == (
            Err::<bool, Error>(Error::NotInitialized),
            s,
        ),
{
}

/// A call on a front, as it appears in a history of calls. Reads change
/// nothing and are left out.
pub enum AllowCall {
    Initialize(Address, Address),
    AddToAllowlist(Address, Address),
    RemoveFromAllowlist(Address, Address),
    RemoveMultipleFromAllowlist(Address, Seq<Address>),
    Pause(Address),
    Unpause(Address),
    Transfer(Address, Address, i128),
    DrainEvents,
    DrainForwarded,
}

impl AllowlistState {
    /// The result and state of one call; a call that answers a `bool`
    /// gives `Ok(())` when it answers at all.
    pub open spec fn call(self, c: AllowCall) -> (Result<(), Error>, AllowlistState) {
        match c {
            AllowCall::Initialize(admin, token) => self.initialize(admin, token),
            AllowCall::AddToAllowlist(admin, address) => self.add_to_allowlist(admin, address),
            AllowCall::RemoveFromAllowlist(admin, address) => self.remove_from_allowlist(
                admin,
                address,
            ),
            AllowCall::RemoveMultipleFromAllowlist(admin, addresses) => self.remove_multiple_from_allowlist(
                admin,
                addresses,
            ),
            AllowCall::Pause(admin) => self.pause(admin),
            AllowCall::Unpause(admin) => self.unpause(admin),
            AllowCall::Transfer(from, to, amount) => {
                let (r, t) = self.transfer(from, to, amount);
                (
                    match r {
                        Ok(_) => Ok(()),
                        Err(e) => Err(e),
                    },
                    t,
                )
            },
            AllowCall::DrainEvents => (Ok(()), AllowlistState { events: Seq::empty(), ..self }),
            AllowCall::DrainForwarded => (
                Ok(()),
                AllowlistState { forwarded: Seq::empty(), ..self },
            ),
        }
    }

    /// The state after the calls, in order.
    pub open spec fn run(self, calls: Seq<AllowCall>) -> AllowlistState
        decreases calls.len(),
    {
        if calls.len() == 0 {
            self
        } else {
            self.run(calls.drop_last()).call(calls.last()).1
        }
    }

    /// Whether call `i` of `calls`, run from this state, succeeded.
    pub open spec fn succeeded(self, calls: Seq<AllowCall>, i: int) -> bool {
        self.run(calls.take(i)).call(calls[i]).0 is Ok
    }
}

/// Whether `c` adds `address` to the allowlist.
pub open spec fn grants(c: AllowCall, address: Seq<char>) -> bool {
    c matches AllowCall::AddToAllowlist(_, a) && a@ == address
}

/// Whether `c` removes `address` from the allowlist, alone or among many.
pub open spec fn revokes(c: AllowCall, address: Seq<char>) -> bool {
    ||| c matches AllowCall::RemoveFromAllowlist(_, a) && a@ == address
    ||| c matches AllowCall::RemoveMultipleFromAllowlist(_, v) && exists|k: int|
        0 <= k < v.len() && #[trigger] v[k]@ == address
}

/// Whether call `i` of `calls`, run from `s`, is a successful add of
/// `address`.
pub open spec fn front_grants(s: AllowlistState, calls: Seq<AllowCall>, address: Seq<char>, i: int) -> bool {
    grants(calls[i], address) && s.succeeded(calls, i)
}

/// Whether call `i` of `calls`, run from `s`, is a successful removal of
/// `address`.
pub open spec fn front_revokes(s: AllowlistState, calls: Seq<AllowCall>, address: Seq<char>, i: int) -> bool {
    revokes(calls[i], address) && s.succeeded(calls, i)
}

/// Whether call `i` of `calls`, run from `s`, is a successful `pause`.
pub open spec fn front_pauses(s: AllowlistState, calls: Seq<AllowCall>, i: int) -> bool {
    calls[i] is Pause && s.succeeded(calls, i)
}

/// Whether call `i` of `calls`, run from `s`, is a successful `unpause`.
pub open spec fn front_unpauses(s: AllowlistState, calls: Seq<AllowCall>, i: int) -> bool {
    calls[i] is Unpause && s.succeeded(calls, i)
}

/// Every call keeps a state consistent; so every state reached from a
/// fresh front is consistent.
pub proof fn lemma_calls_keep_consistent(s: AllowlistState, calls: Seq<AllowCall>)
    requires
        s.consistent(),
    ensures
        s.run(calls).consistent(),
    decreases calls.len(),
{
    if calls.len() > 0 {
        lemma_calls_keep_consistent(s, calls.drop_last());
    }
}

/// A consistent front without an administrator (no `initialize` has
/// succeeded yet) is unpaused, admits nobody and refuses transfers with
/// `NotInitialized`; `initialize` on it succeeds and keeps it unpaused and
/// admitting nobody, with `admin` as the only caller whose changes are
/// accepted and `token` as the token cleared transfers go to.
pub proof fn lemma_initialize_from_uninitialized(
    s: AllowlistState,
    admin: Address,
    token: Address,
    caller: Address,
    address: Seq<char>,
    from: Address,
    to: Address,
    amount: i128,
)
    requires
        s.consistent(),
        s.admin is None,
    ensures
        !s.paused,
        !s.is_allowed(address),
        s.transfer(from, to, amount) == (Err::<bool, Error>(Error::NotInitialized), s),
        ({
            let (r, t) = s.initialize(admin, token);
            &&& r is Ok
            &&& t.admin == Some(admin)
            &&& t.token == Some(token)
            &&& !t.paused
            &&& !t.is_allowed(address)
            &&& (mutation_check(t.paused, t.admin, caller) is Ok <==> caller@ == admin@)
            &&& (admin_check(t.admin, caller) is Ok <==> caller@ == admin@)
        }),
{
}

/// How one call changes whether `address` is allowlisted: a successful add
/// of it admits it, a successful removal of it (alone or among many)
/// excludes it, and every other call leaves its status alone.
pub proof fn lemma_call_keeps_status(s: AllowlistState, c: AllowCall, address: Seq<char>)
    ensures
        !(grants(c, address) && revokes(c, address)),
        grants(c, address) && s.call(c).0 is Ok ==> s.call(c).1.is_allowed(address),
        revokes(c, address) && s.call(c).0 is Ok ==> !s.call(c).1.is_allowed(address),
        !(grants(c, address) && s.call(c).0 is Ok) && !(revokes(c, address) && s.call(c).0 is Ok)
            ==> s.call(c).1.is_allowed(address) == s.is_allowed(address),
{
    if let AllowCall::RemoveMultipleFromAllowlist(admin, v) = c {
        lemma_remove_all(s.allowed, v, address);
    }
}

/// How one call changes the pause switch: a successful `pause` sets it, a
/// successful `unpause` clears it, and every other call leaves it alone.
pub proof fn lemma_call_keeps_pause(s: AllowlistState, c: AllowCall)
    ensures
        c is Pause && s.call(c).0 is Ok ==> s.call(c).1.paused,
        c is Unpause && s.call(c).0 is Ok ==> !s.call(c).1.paused,
        !(c is Pause && s.call(c).0 is Ok) && !(c is Unpause && s.call(c).0 is Ok)
            ==> s.call(c).1.paused == s.paused,
{
}

/// The history of the allowlist: starting from a state where `address` is
/// not allowlisted (a fresh front, say), it is allowlisted after a run of
/// calls exactly when an add of it succeeded and no removal of it (alone or
/// among many) succeeded after the last one that did.
pub proof fn lemma_allowed_history(s: AllowlistState, calls: Seq<AllowCall>, address: Seq<char>)
    requires
        !s.is_allowed(address),
    ensures
        s.run(calls).is_allowed(address) <==> exists|i: int|
            0 <= i < calls.len() && #[trigger] front_grants(s, calls, address, i) && forall|j: int|
                i < j < calls.len() ==> !#[trigger] front_revokes(s, calls, address, j),
{
    let status = |k: int| s.run(calls.take(k)).is_allowed(address);
    let on = |k: int| front_grants(s, calls, address, k);
    let off = |k: int| front_revokes(s, calls, address, k);
    assert(calls.take(0) =~= Seq::<AllowCall>::empty());
    assert forall|k: int|
        #![trigger on(k)]
        #![trigger off(k)]
        0 <= k < calls.len() implies {
            &&& !(on(k) && off(k))
            &&& on(k) ==> status(k + 1)
            &&& off(k) ==> !status(k + 1)
            &&& !on(k) && !off(k) ==> status(k + 1) == status(k)
        } by {
        assert(calls.take(k + 1).drop_last() =~= calls.take(k));
        assert(calls.take(k + 1).last() == calls[k]);
        lemma_call_keeps_status(s.run(calls.take(k)), calls[k], address);
    }
    let n = calls.len() as int;
    crate::history::lemma_last_switch(status, on, off, n);
    assert(calls.take(n) =~= calls);
    if status(n) {
        let i = choose|i: int| 0 <= i < n && #[trigger] on(i) && forall|j: int| i < j < n ==> !#[trigger] off(j);
        assert(front_grants(s, calls, address, i));
        assert forall|j: int| i < j < n implies !#[trigger] front_revokes(s, calls, address, j) by {
            assert(!off(j));
        }
    } else if exists|i: int|
        0 <= i < n && #[trigger] front_grants(s, calls, address, i) && forall|j: int|
            i < j < n ==> !#[trigger] front_revokes(s, calls, address, j) {
        let i = choose|i: int|
            0 <= i < n && #[trigger] front_grants(s, calls, address, i) && forall|j: int|
                i < j < n ==> !#[trigger] front_revokes(s, calls, address, j);
        assert(on(i));
        assert forall|j: int| i < j < n implies !#[trigger] off(j) by {
            assert(!front_revokes(s, calls, address, j));
        }
    }
}

/// The history of the pause switch: starting from an unpaused state (a
/// fresh front, say), the front is paused after a run of calls exactly when
/// a `pause` succeeded and no `unpause` succeeded after the last one that
/// did.
pub proof fn lemma_pause_history(s: AllowlistState, calls: Seq<AllowCall>)
    requires
        !s.paused,
    ensures
        s.run(calls).paused <==> exists|i: int|
            0 <= i < calls.len() && #[trigger] front_pauses(s, calls, i) && forall|j: int|
                i < j < calls.len() ==> !#[trigger] front_unpauses(s, calls, j),
{
    let status = |k: int| s.run(calls.take(k)).paused;
    let on = |k: int| front_pauses(s, calls, k);
    let off = |k: int| front_unpauses(s, calls, k);
    assert(calls.take(0) =~= Seq::<AllowCall>::empty());
    assert forall|k: int|
        #![trigger on(k)]
        #![trigger off(k)]
        0 <= k < calls.len() implies {
            &&& !(on(k) && off(k))
            &&& on(k) ==> status(k + 1)
            &&& off(k) ==> !status(k + 1)
            &&& !on(k) && !off(k) ==> status(k + 1) == status(k)
        } by {
        assert(calls.take(k + 1).drop_last() =~= calls.take(k));
        assert(calls.take(k + 1).last() == calls[k]);
        lemma_call_keeps_pause(s.run(calls.take(k)), calls[k]);
    }
    let n = calls.len() as int;
    crate::history::lemma_last_switch(status, on, off, n);
    assert(calls.take(n) =~= calls);
    if status(n) {
        let i = choose|i: int| 0 <= i < n && #[trigger] on(i) && forall|j: int| i < j < n ==> !#[trigger] off(j);
        assert(front_pauses(s, calls, i));
        assert forall|j: int| i < j < n implies !#[trigger] front_unpauses(s, calls, j) by {
            assert(!off(j));
        }
    } else if exists|i: int|
        0 <= i < n && #[trigger] front_pauses(s, calls, i) && forall|j: int|
            i < j < n ==> !#[trigger] front_unpauses(s, calls, j) {
        let i = choose|i: int|
            0 <= i < n && #[trigger] front_pauses(s, calls, i) && forall|j: int|
                i < j < n ==> !#[trigger] front_unpauses(s, calls, j);
        assert(on(i));
        assert forall|j: int| i < j < n implies !#[trigger] off(j) by {
            assert(!front_unpauses(s, calls, j));
        }
    }
}

/// The administrator of an initialized, unpaused front can always change
/// the list, whatever it already holds: adding an address succeeds, leaves
/// it allowlisted and publishes one `AllowAdd`; removing it succeeds,
/// whether or not it was listed, leaves it off the list and publishes one
/// `AllowRemove`; removing many at once succeeds and leaves none of them
/// listed.
pub proof fn lemma_admin_always_changes_list(
    s: AllowlistState,
    caller: Address,
    address: Address,
    addresses: Seq<Address>,
)
    requires
        s.admin matches Some(a) && a@ == caller@,
        !s.paused,
    ensures
        s.add_to_allowlist(caller, address).0 == Ok::<(), Error>(()),
        s.add_to_allowlist(caller, address).1.is_allowed(address@),
        s.add_to_allowlist(caller, address).1.events == s.events.push(
            AllowEvent::AllowAdd(AllowAdd { address }),
        ),
        s.remove_from_allowlist(caller, address).0 == Ok::<(), Error>(()),
        !s.remove_from_allowlist(caller, address).1.is_allowed(address@),
        s.remove_from_allowlist(caller, address).1.events == s.events.push(
            AllowEvent::AllowRemove(AllowRemove { address }),
        ),
        s.remove_multiple_from_allowlist(caller, addresses).0 == Ok::<(), Error>(()),
        forall|i: int|
            0 <= i < addresses.len() ==> !s.remove_multiple_from_allowlist(
                caller,
                addresses,
            ).1.is_allowed(#[trigger] addresses[i]@),
{
    assert forall|i: int| 0 <= i < addresses.len() implies !s.remove_multiple_from_allowlist(
        caller,
        addresses,
    ).1.is_allowed(#[trigger] addresses[i]@) by {
        lemma_remove_all(s.allowed, addresses, addresses[i]@);
    }
}

/// The administrator of an initialized front can always pause and unpause
/// it, paused or not: `pause` leaves it paused and `unpause` unpaused.
pub proof fn lemma_admin_always_switches_pause(s: AllowlistState, caller: Address)
    requires
        s.admin matches Some(a) && a@ == caller@,
    ensures
        s.pause(caller).0 == Ok::<(), Error>(()),
        s.pause(caller).1.paused,
        s.unpause(caller).0 == Ok::<(), Error>(()),
        !s.unpause(caller).1.paused,
{
}

} // verus!
