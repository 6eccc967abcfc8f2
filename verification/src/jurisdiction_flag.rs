//! Jurisdiction flags: an issuer attaches a jurisdiction code (such as an
//! ISO 3166-1 alpha-2 country code) to an address, optionally until a given
//! ledger sequence number, and other contracts ask whether an address holds
//! one of a set of permitted codes.
//!
//! The contract's storage is held in [`JurisdictionFlag`]: the issuer (set
//! once by `initialize`), the pause flag, one `Jurisdiction(address)` entry
//! per flagged address, and the events published since they were last
//! drained; beside it stands the current ledger sequence number, which
//! decides whether a time-bound flag has expired. An expired flag reads as
//! unset; it stays in storage, and each read that meets it publishes
//! `JurisdictionExpired`. While paused, setting a flag (with or without
//! expiry) is refused; reads go on. Every operation that fails with an error
//! leaves all of the storage unchanged.
//!
//! Each address holds at most one flag, with one code: setting a flag
//! replaces the earlier one, and `is_permitted_jurisdiction` asks whether
//! that one code is among the permitted codes. A set of several codes per
//! address, with operations to add, remove and list them and a permission
//! check that matches any of them, is not provided.
use vstd::prelude::*;

use crate::address::Address;
use crate::address_map::AddressMap;
use crate::pausable::require_not_paused;

verus! {

/// Why an operation of the jurisdiction registry was refused.
#[derive(Clone, Copy, Debug, PartialEq, Eq, Structural)]
pub enum Error {
    NotInitialized,
    AlreadyInitialized,
    NotAuthorized,
    /// The list of allowed codes was empty: nothing could ever pass, which
    /// is taken as a caller's configuration mistake.
    EmptyAllowedCodes,
    ContractPaused,
}

/// A stored jurisdiction flag. `valid_until` is the last ledger sequence
/// number at which the flag still holds; `None` means it never expires.
#[derive(Clone, Debug, PartialEq, Eq)]
pub struct JurisdictionEntry {
    pub code: String,
    pub valid_until: Option<u32>,
}

/// Published when a flag without expiry is set; it carries the code alone.
#[derive(Clone, Debug, PartialEq, Eq)]
pub struct JurisdictionSet {
    pub address: Address,
    pub code: String,
}

/// Published when a flag with an expiry is set.
#[derive(Clone, Debug, PartialEq, Eq)]
pub struct JurisdictionSetUntil {
    pub address: Address,
    pub code: String,
    pub valid_until: u32,
}

/// Published when a read meets an expired flag.
#[derive(Clone, Debug, PartialEq, Eq)]
pub struct JurisdictionExpired {
    pub address: Address,
}

/// Published when the issuer pauses the registry.
#[derive(Clone, Debug, PartialEq, Eq)]
pub struct Paused {
    pub issuer: Address,
}

/// Published when the issuer unpauses the registry.
#[derive(Clone, Debug, PartialEq, Eq)]
pub struct Unpaused {
    pub issuer: Address,
}

/// Any event the registry publishes.
#[derive(Clone, Debug, PartialEq, Eq)]
pub enum JurisdictionEvent {
    JurisdictionSet(JurisdictionSet),
    JurisdictionSetUntil(JurisdictionSetUntil),
    JurisdictionExpired(JurisdictionExpired),
    Paused(Paused),
    Unpaused(Unpaused),
}

/// What a stored flag means at a given ledger sequence number.
#[derive(Clone, Debug, PartialEq, Eq)]
pub enum FlagStatus {
    /// No flag is stored.
    Unset,
    /// A flag is stored but its `valid_until` has passed.
    Expired,
    /// The flag holds this code.
    Active(String),
}

/// The abstract state of a jurisdiction registry.
pub struct JurisdictionState {
    pub issuer: Option<Address>,
    pub paused: bool,
    /// The `Jurisdiction` entries, keyed by address.
    pub entries: Map<Seq<char>, JurisdictionEntry>,
    /// The current ledger sequence number.
    pub ledger_sequence: u32,
    /// Events published and not yet drained, oldest first.
    pub events: Seq<JurisdictionEvent>,
}

/// The outcome of checking `caller` against the stored issuer.
pub open spec fn issuer_check(stored: Option<Address>, caller: Address) -> Result<(), Error> {
    match stored {
        None => Err(Error::NotInitialized),
        Some(a) => if a@ == caller@ {
            Ok(())
        } else {
            Err(Error::NotAuthorized)
        },
    }
}

/// The outcome of the checks made before setting a flag: the pause switch
/// first, then the issuer.
pub open spec fn mutation_check(paused: bool, stored: Option<Address>, caller: Address) -> Result<
    (),
    Error,
> {
    if paused {
        Err(Error::ContractPaused)
    } else {
        issuer_check(stored, caller)
    }
}

/// What `entry` means at ledger sequence number `ledger`: expired once the
/// ledger is strictly past `valid_until`.
pub open spec fn status(entry: Option<JurisdictionEntry>, ledger: u32) -> FlagStatus {
    match entry {
        None => FlagStatus::Unset,
        Some(e) => match e.valid_until {
            Some(v) => if ledger > v {
                FlagStatus::Expired
            } else {
                FlagStatus::Active(e.code)
            },
            None => FlagStatus::Active(e.code),
        },
    }
}

/// Whether `code` is one of `allowed`.
pub open spec fn listed(allowed: Seq<String>, code: String) -> bool {
    exists|i: int| 0 <= i < allowed.len() && #[trigger] allowed[i]@ == code@
}

/// The answer to a permission question, given the code the address holds:
/// an error for an empty list; otherwise whether the address holds a code
/// and it is listed.
pub open spec fn permission(code: Option<String>, allowed: Seq<String>) -> Result<bool, Error> {
    if allowed.len() == 0 {
        Err(Error::EmptyAllowedCodes)
    } else {
        match code {
            None => Ok(false),
            Some(c) => Ok(listed(allowed, c)),
        }
    }
}

impl JurisdictionState {
    /// What every state of a registry satisfies: before `initialize` it is
    /// unpaused, flags nobody and has published nothing.
    pub open spec fn consistent(self) -> bool {
        self.issuer is None ==> {
            &&& !self.paused
            &&& self.entries == Map::<Seq<char>, JurisdictionEntry>::empty()
            &&& self.events == Seq::<JurisdictionEvent>::empty()
        }
    }

    /// The state of a registry that nobody has called yet, at ledger
    /// sequence number `ledger`.
    pub open spec fn fresh(ledger: u32) -> JurisdictionState {
        JurisdictionState {
            issuer: None,
            paused: false,
            entries: Map::empty(),
            ledger_sequence: ledger,
            events: Seq::empty(),
        }
    }

    /// The stored entry for `address`, if any.
    pub open spec fn entry(self, address: Seq<char>) -> Option<JurisdictionEntry> {
        if self.entries.contains_key(address) {
            Some(self.entries[address])
        } else {
            None
        }
    }

    /// What the flag of `address` means now.
    pub open spec fn status_of(self, address: Seq<char>) -> FlagStatus {
        status(self.entry(address), self.ledger_sequence)
    }

    /// The result and state of `initialize`.
    pub open spec fn initialize(self, issuer: Address) -> (Result<(), Error>, JurisdictionState) {
        if self.issuer is Some {
            (Err(Error::AlreadyInitialized), self)
        } else {
            (Ok(()), JurisdictionState { issuer: Some(issuer), paused: false, ..self })
        }
    }

    /// The state after storing `entry` for `address` and publishing it.
    pub open spec fn store(self, address: Address, code: String, valid_until: Option<u32>) -> JurisdictionState {
        JurisdictionState {
            entries: self.entries.insert(address@, JurisdictionEntry { code, valid_until }),
            events: self.events.push(set_event(address, code, valid_until)),
            ..self
        }
    }

    /// The result and state of `set_jurisdiction`.
    pub open spec fn set_jurisdiction(self, issuer: Address, address: Address, code: String) -> (
        Result<(), Error>,
        JurisdictionState,
    ) {
        match mutation_check(self.paused, self.issuer, issuer) {
            Err(e) => (Err(e), self),
            Ok(_) => (Ok(()), self.store(address, code, None)),
        }
    }

    /// Setting a flag with an expiry is, like every mutating operation,
    /// refused while paused, then issuer only.
    pub open spec fn set_jurisdiction_until(
        self,
        issuer: Address,
        address: Address,
        code: String,
        valid_until: u32,
    ) -> (Result<(), Error>, JurisdictionState) {
        match mutation_check(self.paused, self.issuer, issuer) {
            Err(e) => (Err(e), self),
            Ok(_) => (Ok(()), self.store(address, code, Some(valid_until))),
        }
    }

    /// The answer and state of `get_jurisdiction`.
    pub open spec fn get_jurisdiction(self, address: Address) -> (Option<String>, JurisdictionState) {
        match self.status_of(address@) {
            FlagStatus::Unset => (None, self),
            FlagStatus::Expired => (
                None,
                JurisdictionState {
                    events: self.events.push(
                        JurisdictionEvent::JurisdictionExpired(JurisdictionExpired { address }),
                    ),
                    ..self
                },
            ),
            FlagStatus::Active(code) => (Some(code), self),
        }
    }

    /// The result and state of `is_permitted_jurisdiction`.
    pub open spec fn is_permitted_jurisdiction(self, address: Address, allowed: Seq<String>) -> (
        Result<bool, Error>,
        JurisdictionState,
    ) {
        if allowed.len() == 0 {
            (Err(Error::EmptyAllowedCodes), self)
        } else {
            let (code, after) = self.get_jurisdiction(address);
            (permission(code, allowed), after)
        }
    }

    /// The result and state of `pause`.
    pub open spec fn pause(self, issuer: Address) -> (Result<(), Error>, JurisdictionState) {
        match issuer_check(self.issuer, issuer) {
            Err(e) => (Err(e), self),
            Ok(_) => (
                Ok(()),
                JurisdictionState {
                    paused: true,
                    events: self.events.push(JurisdictionEvent::Paused(Paused { issuer })),
                    ..self
                },
            ),
        }
    }

    /// The result and state of `unpause`.
    pub open spec fn unpause(self, issuer: Address) -> (Result<(), Error>, JurisdictionState) {
        match issuer_check(self.issuer, issuer) {
            Err(e) => (Err(e), self),
            Ok(_) => (
                Ok(()),
                JurisdictionState {
                    paused: false,
                    events: self.events.push(JurisdictionEvent::Unpaused(Unpaused { issuer })),
                    ..self
                },
            ),
        }
    }
}

/// One change to the storage of a registry, or one event to publish.
#[derive(Debug, PartialEq, Eq)]
pub enum JurisdictionWrite {
    /// Store the issuer.
    Issuer(Address),
    /// Set the pause switch.
    Paused(bool),
    /// Store the entry as the flag of the address.
    Store(Address, JurisdictionEntry),
    /// Publish the event.
    Publish(JurisdictionEvent),
}

/// What an operation decides: whose authorization it demands (before
/// anything else happens), its result, and, on success, the writes to carry
/// out in order. A failed operation writes nothing.
#[derive(Debug, PartialEq, Eq)]
pub struct JurisdictionStep<R> {
    pub auth: Option<Address>,
    pub result: Result<R, Error>,
    pub writes: Vec<JurisdictionWrite>,
}

impl JurisdictionState {
    /// The state after one write.
    pub open spec fn apply(self, w: JurisdictionWrite) -> JurisdictionState {
        match w {
            JurisdictionWrite::Issuer(a) => JurisdictionState { issuer: Some(a), ..self },
            JurisdictionWrite::Paused(p) => JurisdictionState { paused: p, ..self },
            JurisdictionWrite::Store(a, e) => JurisdictionState {
                entries: self.entries.insert(a@, e),
                ..self
            },
            JurisdictionWrite::Publish(e) => JurisdictionState { events: self.events.push(e), ..self },
        }
    }

    /// The state after the writes, in order.
    pub open spec fn apply_all(self, ws: Seq<JurisdictionWrite>) -> JurisdictionState
        decreases ws.len(),
    {
        if ws.len() == 0 {
            self
        } else {
            self.apply_all(ws.drop_last()).apply(ws.last())
        }
    }

    /// The state after a step: its writes if it succeeded, no change
    /// otherwise.
    pub open spec fn after<R>(self, step: JurisdictionStep<R>) -> JurisdictionState {
        if step.result is Ok {
            self.apply_all(step.writes@)
        } else {
            self
        }
    }
}

/// The event published when a flag is set: `JurisdictionSet` without
/// expiry, `JurisdictionSetUntil` with one.
pub open spec fn set_event(address: Address, code: String, valid_until: Option<u32>) -> JurisdictionEvent {
    match valid_until {
        None => JurisdictionEvent::JurisdictionSet(JurisdictionSet { address, code }),
        Some(v) => JurisdictionEvent::JurisdictionSetUntil(
            JurisdictionSetUntil { address, code, valid_until: v },
        ),
    }
}

/// The writes that set a flag: the entry, then its event.
pub open spec fn flag_writes(address: Address, code: String, valid_until: Option<u32>) -> Seq<
    JurisdictionWrite,
> {
    seq![
        JurisdictionWrite::Store(address, JurisdictionEntry { code, valid_until }),
        JurisdictionWrite::Publish(set_event(address, code, valid_until)),
    ]
}

/// The writes of a read that meets the flag `status` of `address`: one
/// `JurisdictionExpired` if it has expired, nothing otherwise.
pub open spec fn read_writes(status: FlagStatus, address: Address) -> Seq<JurisdictionWrite> {
    if status is Expired {
        seq![
            JurisdictionWrite::Publish(
                JurisdictionEvent::JurisdictionExpired(JurisdictionExpired { address }),
            ),
        ]
    } else {
        Seq::empty()
    }
}

/// The code a flag status holds, if it holds one.
pub open spec fn held_code(status: FlagStatus) -> Option<String> {
    match status {
        FlagStatus::Active(c) => Some(c),
        _ => None,
    }
}

/// Checks `caller` against the stored issuer.
pub fn require_issuer(stored: &Option<Address>, caller: &Address) -> (r: Result<(), Error>)
    ensures
        r == issuer_check(*stored, *caller),
{
    match stored {
        None => Err(Error::NotInitialized),
        Some(a) => {
            if *a == *caller {
                Ok(())
            } else {
                Err(Error::NotAuthorized)
            }
        },
    }
}

/// What `entry` means at ledger sequence number `ledger`.
pub fn flag_status(entry: Option<&JurisdictionEntry>, ledger: u32) -> (r: FlagStatus)
    ensures
        r == status(
            match entry {
                Some(e) => Some(*e),
                None => None,
            },
            ledger,
        ),
{
    match entry {
        None => FlagStatus::Unset,
        Some(e) => {
            if let Some(v) = e.valid_until {
                if ledger > v {
                    return FlagStatus::Expired;
                }
            }
            FlagStatus::Active(e.code.clone())
        },
    }
}

/// Answers whether an address holding `code` (if any) is permitted by
/// `allowed_codes`: refused with `EmptyAllowedCodes` for an empty list,
/// `false` without a code, and otherwise whether the code is listed.
pub fn permitted(code: &Option<String>, allowed_codes: &Vec<String>) -> (r: Result<bool, Error>)
    ensures
        r == permission(*code, allowed_codes@),
{
    if allowed_codes.len() == 0 {
        return Err(Error::EmptyAllowedCodes);
    }
    match code {
        None => Ok(false),
        Some(c) => {
            let n = allowed_codes.len();
            let mut i: usize = 0;
            while i < n
                invariant
                    n == allowed_codes@.len(),
                    n > 0,
                    *code == Some(*c),
                    i <= n,
                    forall|j: int| 0 <= j < i ==> #[trigger] allowed_codes@[j]@ != c@,
                decreases n - i,
            {
                if allowed_codes[i] == *c {
                    proof {
                        assert(allowed_codes@[i as int]@ == c@);
                    }
                    return Ok(true);
                }
                i = i + 1;
            }
            Ok(false)
        },
    }
}

/// The writes that set a flag, as `flag_writes` states them.
fn flag_writes_exec(address: Address, code: String, valid_until: Option<u32>) -> (r: Vec<
    JurisdictionWrite,
>)
    ensures
        r@ == flag_writes(address, code, valid_until),
{
    let entry = JurisdictionEntry { code: code.clone(), valid_until };
    let event = match valid_until {
        None => JurisdictionEvent::JurisdictionSet(JurisdictionSet { address: address.clone(), code }),
        Some(v) => JurisdictionEvent::JurisdictionSetUntil(
            JurisdictionSetUntil { address: address.clone(), code, valid_until: v },
        ),
    };
    vec![JurisdictionWrite::Store(address, entry), JurisdictionWrite::Publish(event)]
}

/// Decides `initialize`, given the stored issuer; a new registry starts
/// unpaused.
pub fn initialize_step(stored: &Option<Address>, issuer: Address) -> (step: JurisdictionStep<()>)
    ensures
        step.auth == (if stored is Some { None } else { Some(issuer) }),
        step.result == (if stored is Some { Err(Error::AlreadyInitialized) } else { Ok::<(), Error>(()) }),
        step.writes@ == (if stored is Some {
            Seq::empty()
        } else {
            seq![JurisdictionWrite::Issuer(issuer), JurisdictionWrite::Paused(false)]
        }),
{
    if stored.is_some() {
        return JurisdictionStep {
            auth: None,
            result: Err(Error::AlreadyInitialized),
            writes: Vec::new(),
        };
    }
    let auth = Some(issuer.clone());
    JurisdictionStep {
        auth,
        result: Ok(()),
        writes: vec![JurisdictionWrite::Issuer(issuer), JurisdictionWrite::Paused(false)],
    }
}

/// Decides `set_jurisdiction`, given the pause switch and the stored
/// issuer: the pause switch is checked first, then the caller's
/// authorization is demanded and the caller compared to the issuer.
pub fn set_jurisdiction_step(
    paused: bool,
    stored: &Option<Address>,
    issuer: Address,
    address: Address,
    code: String,
) -> (step: JurisdictionStep<()>)
    ensures
        step.auth == (if paused { None } else { Some(issuer) }),
        step.result == mutation_check(paused, *stored, issuer),
        step.writes@ == (if step.result is Ok {
            flag_writes(address, code, None)
        } else {
            Seq::empty()
        }),
{
    if let Err(e) = require_not_paused(paused, Error::ContractPaused) {
        return JurisdictionStep { auth: None, result: Err(e), writes: Vec::new() };
    }
    let auth = Some(issuer.clone());
    if let Err(e) = require_issuer(stored, &issuer) {
        return JurisdictionStep { auth, result: Err(e), writes: Vec::new() };
    }
    JurisdictionStep { auth, result: Ok(()), writes: flag_writes_exec(address, code, None) }
}

/// Decides `set_jurisdiction_until`, given the pause switch and the stored
/// issuer, in the same order as `set_jurisdiction_step`.
pub fn set_jurisdiction_until_step(
    paused: bool,
    stored: &Option<Address>,
    issuer: Address,
    address: Address,
    code: String,
    valid_until: u32,
) -> (step: JurisdictionStep<()>)
    ensures
        step.auth == (if paused { None } else { Some(issuer) }),
        step.result == mutation_check(paused, *stored, issuer),
        step.writes@ == (if step.result is Ok {
            flag_writes(address, code, Some(valid_until))
        } else {
            Seq::empty()
        }),
{
    if let Err(e) = require_not_paused(paused, Error::ContractPaused) {
        return JurisdictionStep { auth: None, result: Err(e), writes: Vec::new() };
    }
    let auth = Some(issuer.clone());
    if let Err(e) = require_issuer(stored, &issuer) {
        return JurisdictionStep { auth, result: Err(e), writes: Vec::new() };
    }
    JurisdictionStep {
        auth,
        result: Ok(()),
        writes: flag_writes_exec(address, code, Some(valid_until)),
    }
}

/// The writes of a read, as `read_writes` states them.
fn read_writes_exec(status: &FlagStatus, address: Address) -> (r: Vec<JurisdictionWrite>)
    ensures
        r@ == read_writes(*status, address),
{
    match status {
        FlagStatus::Expired => vec![
            JurisdictionWrite::Publish(
                JurisdictionEvent::JurisdictionExpired(JurisdictionExpired { address }),
            ),
        ],
        _ => Vec::new(),
    }
}

/// Decides `get_jurisdiction`, given the stored flag of `address` and the
/// ledger sequence number: the code if the flag holds, `None` otherwise,
/// publishing `JurisdictionExpired` if it has expired.
pub fn get_jurisdiction_step(entry: Option<&JurisdictionEntry>, ledger: u32, address: Address) -> (step:
    JurisdictionStep<Option<String>>)
    ensures
        ({
            let st = status(
                match entry {
                    Some(e) => Some(*e),
                    None => None,
                },
                ledger,
            );
            &&& step.auth is None
            &&& step.result == Ok::<Option<String>, Error>(held_code(st))
            &&& step.writes@ == read_writes(st, address)
        }),
{
    let status = flag_status(entry, ledger);
    let writes = read_writes_exec(&status, address);
    let code = match status {
        FlagStatus::Active(c) => Some(c),
        _ => None,
    };
    JurisdictionStep { auth: None, result: Ok(code), writes }
}

/// Decides `is_permitted_jurisdiction`, given the stored flag of `address`
/// and the ledger sequence number: refused for an empty list; otherwise
/// reads the flag as `get_jurisdiction_step` does and answers whether the
/// code it holds is listed.
pub fn is_permitted_jurisdiction_step(
    entry: Option<&JurisdictionEntry>,
    ledger: u32,
    address: Address,
    allowed_codes: &Vec<String>,
) -> (step: JurisdictionStep<bool>)
    ensures
        ({
            let st = status(
                match entry {
                    Some(e) => Some(*e),
                    None => None,
                },
                ledger,
            );
            &&& step.auth is None
            &&& step.result == permission(held_code(st), allowed_codes@)
            &&& step.writes@ == (if allowed_codes@.len() == 0 {
                Seq::empty()
            } else {
                read_writes(st, address)
            })
        }),
{
    if allowed_codes.len() == 0 {
        return JurisdictionStep {
            auth: None,
            result: Err(Error::EmptyAllowedCodes),
            writes: Vec::new(),
        };
    }
    let status = flag_status(entry, ledger);
    let writes = read_writes_exec(&status, address);
    let code = match status {
        FlagStatus::Active(c) => Some(c),
        _ => None,
    };
    JurisdictionStep { auth: None, result: permitted(&code, allowed_codes), writes }
}

/// Decides `pause` (when `paused` is `true`) or `unpause` (when it is
/// `false`), given the stored issuer.
pub fn set_paused_step(stored: &Option<Address>, issuer: Address, paused: bool) -> (step:
    JurisdictionStep<()>)
    ensures
        step.auth == Some(issuer),
        step.result == issuer_check(*stored, issuer),
        step.writes@ == (if step.result is Ok {
            seq![
                JurisdictionWrite::Paused(paused),
                JurisdictionWrite::Publish(
                    if paused {
                        JurisdictionEvent::Paused(Paused { issuer })
                    } else {
                        JurisdictionEvent::Unpaused(Unpaused { issuer })
                    },
                ),
            ]
        } else {
            Seq::empty()
        }),
{
    let auth = Some(issuer.clone());
    if let Err(e) = require_issuer(stored, &issuer) {
        return JurisdictionStep { auth, result: Err(e), writes: Vec::new() };
    }
    let event = if paused {
        JurisdictionEvent::Paused(Paused { issuer })
    } else {
        JurisdictionEvent::Unpaused(Unpaused { issuer })
    };
    JurisdictionStep {
        auth,
        result: Ok(()),
        writes: vec![JurisdictionWrite::Paused(paused), JurisdictionWrite::Publish(event)],
    }
}

/// The storage of a jurisdiction registry, the current ledger sequence
/// number, and the registry's operations.
pub struct JurisdictionFlag {
    issuer: Option<Address>,
    paused: bool,
    entries: AddressMap<JurisdictionEntry>,
    ledger_sequence: u32,
    events: Vec<JurisdictionEvent>,
}

impl View for JurisdictionFlag {
    type V = JurisdictionState;

    closed spec fn view(&self) -> JurisdictionState {
        JurisdictionState {
            issuer: self.issuer,
            paused: self.paused,
            entries: self.entries@,
            ledger_sequence: self.ledger_sequence,
            events: self.events@,
        }
    }
}

impl JurisdictionFlag {
    /// The per-address store is well formed.
    closed spec fn maps_wf(&self) -> bool {
        self.entries.wf()
    }

    /// The storage is well formed, and its state is one the operations can
    /// reach: `consistent`.
    pub closed spec fn wf(&self) -> bool {
        self.maps_wf() && self@.consistent()
    }

    /// A well-formed model's state is consistent.
    pub proof fn lemma_wf_is_consistent(&self)
        requires
            self.wf(),
        ensures
            self@.consistent(),
    {
    }

    /// A registry with empty storage, before `initialize`, at ledger
    /// sequence number `ledger_sequence`.
    pub fn new(ledger_sequence: u32) -> (r: JurisdictionFlag)
        ensures
            r.wf(),
            r@ == JurisdictionState::fresh(ledger_sequence),
    {
        JurisdictionFlag {
            issuer: None,
            paused: false,
            entries: AddressMap::new(),
            ledger_sequence,
            events: Vec::new(),
        }
    }

    /// The current ledger sequence number.
    pub fn ledger_sequence(&self) -> (r: u32)
        ensures
            r == self@.ledger_sequence,
    {
        self.ledger_sequence
    }

    /// Moves the ledger to sequence number `sequence`.
    pub fn set_ledger_sequence(&mut self, sequence: u32)
        requires
            old(self).wf(),
        ensures
            final(self).wf(),
            final(self)@ == (JurisdictionState { ledger_sequence: sequence, ..old(self)@ }),
    {
        self.ledger_sequence = sequence;
    }

    fn write(&mut self, w: JurisdictionWrite)
        requires
            old(self).maps_wf(),
        ensures
            final(self).maps_wf(),
            final(self)@ == old(self)@.apply(w),
    {
        match w {
            JurisdictionWrite::Issuer(a) => {
                self.issuer = Some(a);
            },
            JurisdictionWrite::Paused(p) => {
                self.paused = p;
            },
            JurisdictionWrite::Store(a, e) => {
                self.entries.insert(a, e);
            },
            JurisdictionWrite::Publish(e) => {
                self.events.push(e);
            },
        }
    }

    /// Carries out a step: its writes, in order, if it succeeded.
    fn commit<R>(&mut self, step: JurisdictionStep<R>) -> (r: Result<R, Error>)
        requires
            old(self).maps_wf(),
        ensures
            final(self).maps_wf(),
            r == step.result,
            final(self)@ == old(self)@.after(step),
    {
        let ghost ws = step.writes@;
        let ghost pre = self@;
        let JurisdictionStep { auth: _, result, mut writes } = step;
        if result.is_ok() {
            let n = writes.len();
            let mut k: usize = 0;
            while k < n
                invariant
                    n == ws.len(),
                    k <= n,
                    writes@ == ws.skip(k as int),
                    self.maps_wf(),
                    self@ == pre.apply_all(ws.take(k as int)),
                decreases n - k,
            {
                let w = writes.remove(0);
                self.write(w);
                proof {
                    assert(ws.take(k + 1).drop_last() =~= ws.take(k as int));
                    assert(writes@ =~= ws.skip(k + 1));
                }
                k = k + 1;
            }
            proof {
                assert(ws.take(n as int) =~= ws);
            }
        }
        result
    }

    /// One-time setup: `issuer` is the only address allowed to set flags
    /// afterwards; the registry starts unpaused. Fails with
    /// `AlreadyInitialized` if an issuer is already stored.
    pub fn initialize(&mut self, issuer: Address) -> (r: Result<(), Error>)
        requires
            old(self).wf(),
        ensures
            final(self).wf(),
            (r, final(self)@) == old(self)@.initialize(issuer),
    {
        let step = initialize_step(&self.issuer, issuer);
        proof {
            reveal_with_fuel(JurisdictionState::apply_all, 3);
        }
        self.commit(step)
    }

    /// Attaches `code` to `address` with no expiry, replacing any earlier
    /// flag. Issuer only; refused while paused. Publishes
    /// `JurisdictionSet`.
    pub fn set_jurisdiction(&mut self, issuer: Address, address: Address, code: String) -> (r:
        Result<(), Error>)
        requires
            old(self).wf(),
        ensures
            final(self).wf(),
            (r, final(self)@) == old(self)@.set_jurisdiction(issuer, address, code),
    {
        let step = set_jurisdiction_step(self.paused, &self.issuer, issuer, address, code);
        proof {
            reveal_with_fuel(JurisdictionState::apply_all, 3);
        }
        self.commit(step)
    }

    /// Attaches `code` to `address` until ledger sequence number
    /// `valid_until` (inclusive), replacing any earlier flag. Issuer only;
    /// refused while paused. Publishes `JurisdictionSetUntil`.
    pub fn set_jurisdiction_until(
        &mut self,
        issuer: Address,
        address: Address,
        code: String,
        valid_until: u32,
    ) -> (r: Result<(), Error>)
        requires
            old(self).wf(),
        ensures
            final(self).wf(),
            (r, final(self)@) == old(self)@.set_jurisdiction_until(
                issuer,
                address,
                code,
                valid_until,
            ),
    {
        let step = set_jurisdiction_until_step(
            self.paused,
            &self.issuer,
            issuer,
            address,
            code,
            valid_until,
        );
        proof {
            reveal_with_fuel(JurisdictionState::apply_all, 3);
        }
        self.commit(step)
    }

    /// The code attached to `address`, or `None` if no flag is set or the
    /// flag has expired; meeting an expired flag publishes
    /// `JurisdictionExpired`. Unaffected by the pause switch.
    pub fn get_jurisdiction(&mut self, address: Address) -> (r: Option<String>)
        requires
            old(self).wf(),
        ensures
            final(self).wf(),
            (r, final(self)@) == old(self)@.get_jurisdiction(address),
    {
        let step = get_jurisdiction_step(self.entries.get(&address), self.ledger_sequence, address);
        proof {
            reveal_with_fuel(JurisdictionState::apply_all, 2);
        }
        match self.commit(step) {
            Ok(code) => code,
            Err(_) => None,
        }
    }

    /// Whether `address` holds an unexpired code that appears in
    /// `allowed_codes`. Refused with `EmptyAllowedCodes` when
    /// `allowed_codes` is empty. Unaffected by the pause switch.
    pub fn is_permitted_jurisdiction(&mut self, address: Address, allowed_codes: Vec<String>) -> (r:
        Result<bool, Error>)
        requires
            old(self).wf(),
        ensures
            final(self).wf(),
            (r, final(self)@) == old(self)@.is_permitted_jurisdiction(address, allowed_codes@),
    {
        let step = is_permitted_jurisdiction_step(
            self.entries.get(&address),
            self.ledger_sequence,
            address,
            &allowed_codes,
        );
        proof {
            reveal_with_fuel(JurisdictionState::apply_all, 2);
        }
        self.commit(step)
    }

    /// Pauses the registry. Issuer only. Publishes `Paused`.
    pub fn pause(&mut self, issuer: Address) -> (r: Result<(), Error>)
        requires
            old(self).wf(),
        ensures
            final(self).wf(),
            (r, final(self)@) == old(self)@.pause(issuer),
    {
        let step = set_paused_step(&self.issuer, issuer, true);
        proof {
            reveal_with_fuel(JurisdictionState::apply_all, 3);
        }
        self.commit(step)
    }

    /// Unpauses the registry. Issuer only. Publishes `Unpaused`.
    pub fn unpause(&mut self, issuer: Address) -> (r: Result<(), Error>)
        requires
            old(self).wf(),
        ensures
            final(self).wf(),
            (r, final(self)@) == old(self)@.unpause(issuer),
    {
        let step = set_paused_step(&self.issuer, issuer, false);
        proof {
            reveal_with_fuel(JurisdictionState::apply_all, 3);
        }
        self.commit(step)
    }

    /// Whether the registry is paused.
    pub fn is_paused(&self) -> (r: bool)
        ensures
            r == self@.paused,
    {
        self.paused
    }

    /// Hands out the events published since the last call, oldest first,
    /// and forgets them.
    pub fn drain_events(&mut self) -> (r: Vec<JurisdictionEvent>)
        requires
            old(self).wf(),
        ensures
            final(self).wf(),
            r@ == old(self)@.events,
            final(self)@ == (JurisdictionState { events: Seq::empty(), ..old(self)@ }),
    {
        let mut drained: Vec<JurisdictionEvent> = Vec::new();
        std::mem::swap(&mut drained, &mut self.events);
        drained
    }
}

/// A registry nobody has called yet is not paused and flags nobody.
pub proof fn lemma_fresh_registry_flags_nobody(ledger: u32, address: Seq<char>)
    ensures
        !JurisdictionState::fresh(ledger).paused,
        JurisdictionState::fresh(ledger).status_of(address) == FlagStatus::Unset,
{
}

/// `initialize` succeeds exactly once: it succeeds on a registry without an
/// issuer, and every later call fails with `AlreadyInitialized` and changes
/// nothing.
pub proof fn lemma_initialize_once(s: JurisdictionState, first: Address, second: Address)
    ensures
        s.issuer is None ==> s.initialize(first).0 is Ok,
        s.initialize(first).0 is Ok ==> s.initialize(first).1.initialize(second) == (
            Err::<(), Error>(Error::AlreadyInitialized),
            s.initialize(first).1,
        ),
        s.issuer is Some ==> s.initialize(first) == (Err::<(), Error>(Error::AlreadyInitialized), s),
{
}

/// An operation that fails with an error changes nothing.
pub proof fn lemma_error_changes_nothing(
    s: JurisdictionState,
    caller: Address,
    address: Address,
    code: String,
    valid_until: u32,
    allowed: Seq<String>,
)
    ensures
        s.initialize(caller).0 is Err ==> s.initialize(caller).1 == s,
        s.set_jurisdiction(caller, address, code).0 is Err ==> s.set_jurisdiction(
            caller,
            address,
            code,
        ).1 == s,
        s.set_jurisdiction_until(caller, address, code, valid_until).0 is Err
            ==> s.set_jurisdiction_until(caller, address, code, valid_until).1 == s,
        s.is_permitted_jurisdiction(address, allowed).0 is Err ==> s.is_permitted_jurisdiction(
            address,
            allowed,
        ).1 == s,
        s.pause(caller).0 is Err ==> s.pause(caller).1 == s,
        s.unpause(caller).0 is Err ==> s.unpause(caller).1 == s,
{
}

/// While paused, setting a flag, with or without expiry, is refused with
/// `ContractPaused`, whoever calls, and changes nothing.
pub proof fn lemma_paused_blocks_set(
    s: JurisdictionState,
    caller: Address,
    address: Address,
    code: String,
    valid_until: u32,
)
    requires
        s.paused,
    ensures
        s.set_jurisdiction(caller, address, code) == (Err::<(), Error>(Error::ContractPaused), s),
        s.set_jurisdiction_until(caller, address, code, valid_until) == (
            Err::<(), Error>(Error::ContractPaused),
            s,
        ),
{
}

/// Only the stored issuer can set flags or flip the pause switch.
pub proof fn lemma_only_issuer_mutates(
    s: JurisdictionState,
    caller: Address,
    address: Address,
    code: String,
    valid_until: u32,
)
    requires
        !(s.issuer matches Some(i) && i@ == caller@),
    ensures
        s.set_jurisdiction(caller, address, code).0 is Err,
        s.set_jurisdiction_until(caller, address, code, valid_until).0 is Err,
        s.pause(caller).0 is Err,
        s.unpause(caller).0 is Err,
{
}

/// After a successful `set_jurisdiction`, reading the flag of `address`
/// gives back `code` at every ledger sequence number, without publishing
/// anything; the flags of other addresses are unchanged.
pub proof fn lemma_set_then_get(
    s: JurisdictionState,
    issuer: Address,
    address: Address,
    code: String,
    ledger: u32,
    other: Seq<char>,
)
    requires
        s.set_jurisdiction(issuer, address, code).0 is Ok,
    ensures
        ({
            let t = JurisdictionState {
                ledger_sequence: ledger,
                ..s.set_jurisdiction(issuer, address, code).1
            };
            &&& t.get_jurisdiction(address) == (Some(code), t)
            &&& other != address@ ==> t.entry(other) == s.entry(other)
        }),
{
}

/// After a successful `set_jurisdiction_until`, reading the flag of
/// `address` gives back `code` up to and including ledger `valid_until`;
/// past it the read gives `None` and publishes `JurisdictionExpired`, and
/// the flag stays stored.
pub proof fn lemma_set_until_then_get(
    s: JurisdictionState,
    issuer: Address,
    address: Address,
    code: String,
    valid_until: u32,
    ledger: u32,
)
    requires
        s.set_jurisdiction_until(issuer, address, code, valid_until).0 is Ok,
    ensures
        ({
            let t = JurisdictionState {
                ledger_sequence: ledger,
                ..s.set_jurisdiction_until(issuer, address, code, valid_until).1
            };
            &&& ledger <= valid_until ==> t.get_jurisdiction(address) == (Some(code), t)
            &&& ledger > valid_until ==> t.get_jurisdiction(address) == (
                None::<String>,
                JurisdictionState {
                    events: t.events.push(
                        JurisdictionEvent::JurisdictionExpired(JurisdictionExpired { address }),
                    ),
                    ..t
                },
            )
            &&& t.get_jurisdiction(address).1.entries == t.entries
        }),
{
}

/// Expiry is for good: a flag that has expired at some ledger sequence
/// number is expired at every later one, and a flag that holds at some
/// ledger held at every earlier one.
pub proof fn lemma_expiry_is_monotone(entry: Option<JurisdictionEntry>, earlier: u32, later: u32)
    requires
        earlier <= later,
    ensures
        status(entry, earlier) == FlagStatus::Expired ==> status(entry, later)
            == FlagStatus::Expired,
        status(entry, later) is Active ==> status(entry, earlier) == status(entry, later),
{
}

/// Reads never change the stored flags, the issuer or the pause switch,
/// and give the same answer whether or not the registry is paused.
pub proof fn lemma_reads_unaffected_by_pause(
    s: JurisdictionState,
    address: Address,
    allowed: Seq<String>,
    paused: bool,
)
    ensures
        s.get_jurisdiction(address).1.entries == s.entries,
        s.get_jurisdiction(address).1.issuer == s.issuer,
        s.get_jurisdiction(address).1.paused == s.paused,
        s.get_jurisdiction(address).0 == (JurisdictionState { paused, ..s }).get_jurisdiction(
            address,
        ).0,
        s.is_permitted_jurisdiction(address, allowed).0 == (JurisdictionState {
            paused,
            ..s
        }).is_permitted_jurisdiction(address, allowed).0,
{
}

/// The permission answer: refused for an empty list; otherwise `true`
/// exactly when the address holds an unexpired code that is listed. In
/// particular an address with no flag, or an expired one, is never
/// permitted.
pub proof fn lemma_permission_answer(s: JurisdictionState, address: Address, allowed: Seq<String>)
    ensures
        allowed.len() == 0 ==> s.is_permitted_jurisdiction(address, allowed).0 == Err::<
            bool,
            Error,
        >(Error::EmptyAllowedCodes),
        allowed.len() > 0 ==> s.is_permitted_jurisdiction(address, allowed).0 == Ok::<bool, Error>(
            s.status_of(address@) matches FlagStatus::Active(c) && listed(allowed, c),
        ),
        allowed.len() > 0 && !(s.status_of(address@) is Active) ==> s.is_permitted_jurisdiction(
            address,
            allowed,
        ).0 == Ok::<bool, Error>(false),
{
}

/// Every flag set and every flip of the pause switch is authorized by the
/// stored issuer: when the checks pass, the caller, whose authorization the
/// step demands, is the stored issuer (and, for setting a flag, the registry
/// is not paused).
pub proof fn lemma_changes_need_issuer_authorization(
    paused: bool,
    stored: Option<Address>,
    caller: Address,
)
    ensures
        mutation_check(paused, stored, caller) is Ok ==> !paused && stored is Some
            && stored.unwrap()@ == caller@,
        issuer_check(stored, caller) is Ok ==> stored is Some && stored.unwrap()@ == caller@,
{
}

/// A consistent registry without an issuer (no `initialize` has succeeded
/// yet) is unpaused and flags nobody; `initialize` on it succeeds and leaves
/// it unpaused, flagging nobody, with `issuer` as the only caller whose
/// changes are accepted.
pub proof fn lemma_initialize_from_uninitialized(
    s: JurisdictionState,
    issuer: Address,
    caller: Address,
    address: Seq<char>,
)
    requires
        s.consistent(),
        s.issuer is None,
    ensures
        !s.paused,
        s.status_of(address) == FlagStatus::Unset,
        ({
            let (r, t) = s.initialize(issuer);
            &&& r is Ok
            &&& t.issuer == Some(issuer)
            &&& !t.paused
            &&& t.status_of(address) == FlagStatus::Unset
            &&& (mutation_check(t.paused, t.issuer, caller) is Ok <==> caller@ == issuer@)
            &&& (issuer_check(t.issuer, caller) is Ok <==> caller@ == issuer@)
        }),
{
}

/// The permission answer for a code, wherever it stands in a non-empty
/// list: a code equal to the element at any index `i` is permitted.
pub proof fn lemma_listed_code_is_permitted(code: String, allowed: Seq<String>, i: int)
    requires
        0 <= i < allowed.len(),
        allowed[i]@ == code@,
    ensures
        permission(Some(code), allowed) == Ok::<bool, Error>(true),
{
}

/// A code equal to no element of a non-empty list is not permitted, and
/// neither is the absence of a code.
pub proof fn lemma_unlisted_code_is_refused(code: String, allowed: Seq<String>)
    requires
        allowed.len() > 0,
        forall|i: int| 0 <= i < allowed.len() ==> (#[trigger] allowed[i])@ != code@,
    ensures
        permission(Some(code), allowed) == Ok::<bool, Error>(false),
        permission(None, allowed) == Ok::<bool, Error>(false),
{
}

/// `is_permitted_jurisdiction` on an address whose stored flag has not
/// expired (no expiry, or the ledger at most `valid_until`): `true` when
/// the flag's code equals the element at some index `i` of the list, and
/// `false` when it equals none of them.
pub proof fn lemma_active_flag_permission(
    s: JurisdictionState,
    address: Address,
    allowed: Seq<String>,
    i: int,
)
    requires
        s.entries.contains_key(address@),
        s.entries[address@].valid_until matches Some(v) ==> s.ledger_sequence <= v,
        allowed.len() > 0,
    ensures
        0 <= i < allowed.len() && allowed[i]@ == s.entries[address@].code@
            ==> s.is_permitted_jurisdiction(address, allowed) == (Ok::<bool, Error>(true), s),
        (forall|j: int|
            0 <= j < allowed.len() ==> (#[trigger] allowed[j])@ != s.entries[address@].code@)
            ==> s.is_permitted_jurisdiction(address, allowed) == (Ok::<bool, Error>(false), s),
{
}

/// The stored issuer of an initialized, unpaused registry can always set a
/// flag, whatever flag the address already holds: with `set_jurisdiction`
/// the address then holds `code` with no expiry; with
/// `set_jurisdiction_until` it holds `code` until `valid_until`, and a read
/// at any ledger up to `valid_until` gives back `code`. Pausing and
/// unpausing by the issuer succeed whatever the switch.
pub proof fn lemma_issuer_always_sets(
    s: JurisdictionState,
    caller: Address,
    address: Address,
    code: String,
    valid_until: u32,
    ledger: u32,
)
    requires
        s.issuer matches Some(i) && i@ == caller@,
    ensures
        !s.paused ==> s.set_jurisdiction(caller, address, code).0 == Ok::<(), Error>(()),
        !s.paused ==> s.set_jurisdiction(caller, address, code).1.entries[address@]
            == (JurisdictionEntry { code, valid_until: None }),
        !s.paused ==> s.set_jurisdiction_until(caller, address, code, valid_until).0 == Ok::<
            (),
            Error,
        >(()),
        !s.paused ==> s.set_jurisdiction_until(caller, address, code, valid_until).1.entries[address@]
            == (JurisdictionEntry { code, valid_until: Some(valid_until) }),
        !s.paused && ledger <= valid_until ==> (JurisdictionState {
            ledger_sequence: ledger,
            ..s.set_jurisdiction_until(caller, address, code, valid_until).1
        }).get_jurisdiction(address).0 == Some(code),
        s.pause(caller).0 == Ok::<(), Error>(()),
        s.pause(caller).1.paused,
        s.unpause(caller).0 == Ok::<(), Error>(()),
        !s.unpause(caller).1.paused,
{
}

} // verus!
