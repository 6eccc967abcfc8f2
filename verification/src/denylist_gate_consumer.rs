//! A minimal token that composes the denylist gate: before moving any
//! balance it asks a circuit breaker whether transfers are frozen, then asks
//! the denylist gate whether both parties are clear, and aborts the transfer if
//! either answer forbids it.
//!
//! The token's storage is held in [`ExampleToken`]: the addresses of the
//! gate and of the breaker (set once by `initialize`) and one
//! `Balance(address)` entry per funded address. The answers of the denylist gate and
//! of the breaker come from other contracts, so `transfer` takes them as
//! arguments and is verified for every value of them; `next_query` decides
//! which contract is asked what, and in which order, and `gate_answers`
//! gathers the replies. A transfer moves `amount` from the sender to the
//! recipient; a transfer to oneself leaves the balance as it was. Every
//! operation that fails with an error leaves the storage unchanged.
use vstd::prelude::*;

use crate::address::Address;
use crate::address_map::AddressMap;

verus! {

/// Why an operation of the token was refused.
#[derive(Clone, Copy, Debug, PartialEq, Eq, Structural)]
pub enum Error {
    NotInitialized,
    AlreadyInitialized,
    InsufficientBalance,
    DeniedByGate,
    FrozenByBreaker,
}

/// The answers the token gets from the contracts it consults before a
/// transfer.
#[derive(Clone, Copy, Debug, PartialEq, Eq, Structural)]
pub struct GateAnswers {
    /// Whether the breaker reports transfers as frozen.
    pub frozen: bool,
    /// Whether the denylist gate reports the sender as clear.
    pub from_clear: bool,
    /// Whether the denylist gate reports the recipient as clear; the denylist gate is only
    /// asked about the recipient when the sender is clear.
    pub to_clear: bool,
}

/// The abstract state of the token.
pub struct TokenState {
    pub gate: Option<Address>,
    pub breaker: Option<Address>,
    /// The `Balance` entries, keyed by address.
    pub balances: Map<Seq<char>, i128>,
}

/// The balance recorded for `address`, zero when there is none.
pub open spec fn balance_of(balances: Map<Seq<char>, i128>, address: Seq<char>) -> int {
    if balances.contains_key(address) {
        balances[address] as int
    } else {
        0
    }
}

/// Whether a value fits in an `i128`.
pub open spec fn fits_i128(x: int) -> bool {
    i128::MIN <= x <= i128::MAX
}

/// The recipient's balance after a transfer of `amount`: its earlier
/// balance plus `amount`, or, on a transfer to oneself, the sender's balance
/// as it was before the transfer.
pub open spec fn credited(from: Seq<char>, to: Seq<char>, from_balance: int, to_balance: int, amount: int) -> i128 {
    if from == to {
        from_balance as i128
    } else {
        (to_balance + amount) as i128
    }
}

/// Whether the new balances of a transfer that moves them fit in an
/// `i128`.
pub open spec fn fits_transfer(from: Seq<char>, to: Seq<char>, from_balance: int, to_balance: int, amount: int) -> bool {
    &&& fits_i128(from_balance - amount)
    &&& from != to ==> fits_i128(to_balance + amount)
}

impl TokenState {
    /// The state of a token that nobody has called yet.
    pub open spec fn fresh() -> TokenState {
        TokenState { gate: None, breaker: None, balances: Map::empty() }
    }

    /// The balance of `address`, zero when it was never funded.
    pub open spec fn balance(self, address: Seq<char>) -> int {
        balance_of(self.balances, address)
    }

    /// The result and state of `initialize`.
    pub open spec fn initialize(self, gate: Address, breaker: Address) -> (
        Result<(), Error>,
        TokenState,
    ) {
        if self.gate is Some {
            (Err(Error::AlreadyInitialized), self)
        } else {
            (Ok(()), TokenState { gate: Some(gate), breaker: Some(breaker), ..self })
        }
    }

    /// The state after `mint`.
    pub open spec fn mint(self, to: Address, amount: i128) -> TokenState {
        TokenState {
            balances: self.balances.insert(to@, (self.balance(to@) + amount) as i128),
            ..self
        }
    }

    /// Whether a transfer gets as far as moving balances.
    pub open spec fn transfer_moves(self, from: Address, amount: i128, answers: GateAnswers) -> bool {
        &&& self.gate is Some
        &&& self.breaker is Some
        &&& !answers.frozen
        &&& answers.from_clear
        &&& answers.to_clear
        &&& self.balance(from@) >= amount
    }

    /// The sender is debited, then the recipient credited; a transfer to
    /// oneself leaves the balance as it was.
    pub open spec fn transfer(self, from: Address, to: Address, amount: i128, answers: GateAnswers) -> (
        Result<(), Error>,
        TokenState,
    ) {
        if self.gate is None || self.breaker is None {
            (Err(Error::NotInitialized), self)
        } else if answers.frozen {
            (Err(Error::FrozenByBreaker), self)
        } else if !answers.from_clear || !answers.to_clear {
            (Err(Error::DeniedByGate), self)
        } else if self.balance(from@) < amount {
            (Err(Error::InsufficientBalance), self)
        } else {
            let from_balance = self.balance(from@);
            (
                Ok(()),
                TokenState {
                    balances: self.balances.insert(from@, (from_balance - amount) as i128).insert(
                        to@,
                        credited(from@, to@, from_balance, self.balance(to@), amount as int),
                    ),
                    ..self
                },
            )
        }
    }
}

/// One change to the storage of the token.
#[derive(Debug, PartialEq, Eq)]
pub enum TokenWrite {
    /// Store the address of the denylist gate.
    Gate(Address),
    /// Store the address of the circuit breaker.
    Breaker(Address),
    /// Store the balance of the address.
    Balance(Address, i128),
}

/// What an operation decides: whose authorization it demands (before
/// anything else happens), its result, and, on success, the writes to carry
/// out in order. A failed operation writes nothing.
#[derive(Debug, PartialEq, Eq)]
pub struct TokenStep {
    pub auth: Option<Address>,
    pub result: Result<(), Error>,
    pub writes: Vec<TokenWrite>,
}

impl TokenState {
    /// The state after one write.
    pub open spec fn apply(self, w: TokenWrite) -> TokenState {
        match w {
            TokenWrite::Gate(a) => TokenState { gate: Some(a), ..self },
            TokenWrite::Breaker(a) => TokenState { breaker: Some(a), ..self },
            TokenWrite::Balance(a, b) => TokenState { balances: self.balances.insert(a@, b), ..self },
        }
    }

    /// The state after the writes, in order.
    pub open spec fn apply_all(self, ws: Seq<TokenWrite>) -> TokenState
        decreases ws.len(),
    {
        if ws.len() == 0 {
            self
        } else {
            self.apply_all(ws.drop_last()).apply(ws.last())
        }
    }

    /// The state after a step: its writes if it succeeded, no change
    /// otherwise.
    pub open spec fn after(self, step: TokenStep) -> TokenState {
        if step.result is Ok {
            self.apply_all(step.writes@)
        } else {
            self
        }
    }
}

/// The balance recorded by a stored `Balance` entry, zero when there is
/// none.
pub fn balance_from_entry(entry: Option<i128>) -> (r: i128)
    ensures
        r == (match entry {
            Some(b) => b,
            None => 0,
        }),
{
    match entry {
        Some(b) => b,
        None => 0,
    }
}

/// Decides `initialize`, given the stored gate.
pub fn initialize_step(stored_gate: &Option<Address>, gate: Address, breaker: Address) -> (step:
    TokenStep)
    ensures
        step.auth is None,
        step.result == (if stored_gate is Some {
            Err(Error::AlreadyInitialized)
        } else {
            Ok::<(), Error>(())
        }),
        step.writes@ == (if stored_gate is Some {
            Seq::empty()
        } else {
            seq![TokenWrite::Gate(gate), TokenWrite::Breaker(breaker)]
        }),
{
    if stored_gate.is_some() {
        return TokenStep { auth: None, result: Err(Error::AlreadyInitialized), writes: Vec::new() };
    }
    TokenStep {
        auth: None,
        result: Ok(()),
        writes: vec![TokenWrite::Gate(gate), TokenWrite::Breaker(breaker)],
    }
}

/// Decides `mint`, given the recipient's balance.
pub fn mint_step(balance: i128, to: Address, amount: i128) -> (step: TokenStep)
    requires
        fits_i128(balance + amount),
    ensures
        step.auth is None,
        step.result == Ok::<(), Error>(()),
        step.writes@ == seq![TokenWrite::Balance(to, (balance + amount) as i128)],
{
    let new_balance = balance + amount;
    TokenStep { auth: None, result: Ok(()), writes: vec![TokenWrite::Balance(to, new_balance)] }
}

/// A question the token asks another contract before a transfer.
#[derive(Clone, Debug, PartialEq, Eq)]
pub enum Query {
    /// Ask the breaker at this address whether transfers are frozen.
    IsFrozen(Address),
    /// Ask the denylist gate at the first address whether the second is
    /// clear.
    Check(Address, Address),
}

/// The next question of a transfer from `from` to `to`, given the stored
/// gate and breaker and the replies so far, oldest first: none before
/// `initialize`; first the breaker; then, unless frozen, the denylist gate
/// about the sender; then, if the sender is clear, about the recipient.
pub open spec fn query_after(
    gate: Option<Address>,
    breaker: Option<Address>,
    from: Address,
    to: Address,
    replies: Seq<bool>,
) -> Option<Query> {
    match (gate, breaker) {
        (Some(g), Some(b)) => {
            if replies.len() == 0 {
                Some(Query::IsFrozen(b))
            } else if replies[0] {
                None
            } else if replies.len() == 1 {
                Some(Query::Check(g, from))
            } else if !replies[1] {
                None
            } else if replies.len() == 2 {
                Some(Query::Check(g, to))
            } else {
                None
            }
        },
        _ => None,
    }
}

/// The answers that the replies, oldest first, give: the breaker's, then
/// the denylist gate's about the sender, then about the recipient; a party
/// that was not asked about counts as not clear.
pub open spec fn answers_of(replies: Seq<bool>) -> GateAnswers {
    let frozen = replies.len() >= 1 && replies[0];
    let from_clear = !frozen && replies.len() >= 2 && replies[1];
    let to_clear = from_clear && replies.len() >= 3 && replies[2];
    GateAnswers { frozen, from_clear, to_clear }
}

/// Decides which contract a transfer asks next, and what, given the
/// replies so far; `None` once nothing more is to be asked.
pub fn next_query(
    gate: &Option<Address>,
    breaker: &Option<Address>,
    from: &Address,
    to: &Address,
    replies: &Vec<bool>,
) -> (r: Option<Query>)
    ensures
        r == query_after(*gate, *breaker, *from, *to, replies@),
{
    match (gate, breaker) {
        (Some(g), Some(b)) => {
            let n = replies.len();
            if n == 0 {
                Some(Query::IsFrozen(b.clone()))
            } else if replies[0] {
                None
            } else if n == 1 {
                Some(Query::Check(g.clone(), from.clone()))
            } else if !replies[1] {
                None
            } else if n == 2 {
                Some(Query::Check(g.clone(), to.clone()))
            } else {
                None
            }
        },
        _ => None,
    }
}

/// Gathers the replies to the questions of `next_query` into the answers
/// that `transfer` takes.
pub fn gate_answers(replies: &Vec<bool>) -> (r: GateAnswers)
    ensures
        r == answers_of(replies@),
{
    let n = replies.len();
    let frozen = n >= 1 && replies[0];
    let from_clear = !frozen && n >= 2 && replies[1];
    let to_clear = from_clear && n >= 3 && replies[2];
    GateAnswers { frozen, from_clear, to_clear }
}

/// Whether a transfer, given its inputs, gets as far as moving balances.
pub open spec fn moves(configured: bool, answers: GateAnswers, from_balance: i128, amount: i128) -> bool {
    configured && !answers.frozen && answers.from_clear && answers.to_clear && from_balance
        >= amount
}

/// Whether a transfer, given its inputs, gets as far as moving balances;
/// only then must its new balances fit in an `i128`.
pub fn transfer_moves(configured: bool, answers: GateAnswers, from_balance: i128, amount: i128) -> (r:
    bool)
    ensures
        r == moves(configured, answers, from_balance, amount),
{
    configured && !answers.frozen && answers.from_clear && answers.to_clear && from_balance >= amount
}

/// Whether the new balances of a transfer that moves them fit in an
/// `i128`.
pub fn transfer_fits(from: &Address, to: &Address, from_balance: i128, to_balance: i128, amount: i128) -> (r:
    bool)
    ensures
        r == fits_transfer(from@, to@, from_balance as int, to_balance as int, amount as int),
{
    from_balance.checked_sub(amount).is_some() && (*from == *to || to_balance.checked_add(
        amount,
    ).is_some())
}

/// Decides `transfer`, given whether the denylist gate and the breaker are stored,
/// their answers, and both balances read before anything is written: the
/// sender's authorization is demanded first; then the transfer is refused
/// with `NotInitialized`, `FrozenByBreaker`, `DeniedByGate` or
/// `InsufficientBalance`, in that order; otherwise the sender's new balance
/// is written, then the recipient's (on a transfer to oneself, the balance
/// as it was).
pub fn transfer_step(
    configured: bool,
    answers: GateAnswers,
    from_balance: i128,
    to_balance: i128,
    from: Address,
    to: Address,
    amount: i128,
) -> (step: TokenStep)
    requires
        moves(configured, answers, from_balance, amount) ==> fits_transfer(
            from@,
            to@,
            from_balance as int,
            to_balance as int,
            amount as int,
        ),
    ensures
        step.auth == Some(from),
        step.result == (if !configured {
            Err(Error::NotInitialized)
        } else if answers.frozen {
            Err(Error::FrozenByBreaker)
        } else if !answers.from_clear || !answers.to_clear {
            Err(Error::DeniedByGate)
        } else if from_balance < amount {
            Err(Error::InsufficientBalance)
        } else {
            Ok::<(), Error>(())
        }),
        step.writes@ == (if step.result is Ok {
            seq![
                TokenWrite::Balance(from, (from_balance - amount) as i128),
                TokenWrite::Balance(to, credited(from@, to@, from_balance as int, to_balance as int, amount as int)),
            ]
        } else {
            Seq::empty()
        }),
{
    let auth = Some(from.clone());
    if !configured {
        return TokenStep { auth, result: Err(Error::NotInitialized), writes: Vec::new() };
    }
    if answers.frozen {
        return TokenStep { auth, result: Err(Error::FrozenByBreaker), writes: Vec::new() };
    }
    if !answers.from_clear || !answers.to_clear {
        return TokenStep { auth, result: Err(Error::DeniedByGate), writes: Vec::new() };
    }
    if from_balance < amount {
        return TokenStep { auth, result: Err(Error::InsufficientBalance), writes: Vec::new() };
    }
    let new_from_balance = from_balance - amount;
    let new_to_balance = if from == to {
        from_balance
    } else {
        to_balance + amount
    };
    let writes = vec![TokenWrite::Balance(from, new_from_balance), TokenWrite::Balance(to, new_to_balance)];
    TokenStep { auth, result: Ok(()), writes }
}

/// The storage of the token, and its operations.
pub struct ExampleToken {
    gate: Option<Address>,
    breaker: Option<Address>,
    balances: AddressMap<i128>,
}

impl View for ExampleToken {
    type V = TokenState;

    closed spec fn view(&self) -> TokenState {
        TokenState { gate: self.gate, breaker: self.breaker, balances: self.balances@ }
    }
}

impl ExampleToken {
    /// The storage is well formed.
    pub closed spec fn wf(&self) -> bool {
        self.balances.wf()
    }

    /// A token with empty storage, before `initialize`.
    pub fn new() -> (r: ExampleToken)
        ensures
            r.wf(),
            r@ == TokenState::fresh(),
    {
        ExampleToken { gate: None, breaker: None, balances: AddressMap::new() }
    }

    fn write(&mut self, w: TokenWrite)
        requires
            old(self).wf(),
        ensures
            final(self).wf(),
            final(self)@ == old(self)@.apply(w),
    {
        match w {
            TokenWrite::Gate(a) => {
                self.gate = Some(a);
            },
            TokenWrite::Breaker(a) => {
                self.breaker = Some(a);
            },
            TokenWrite::Balance(a, b) => {
                self.balances.insert(a, b);
            },
        }
    }

    /// Carries out a step: its writes, in order, if it succeeded.
    fn commit(&mut self, step: TokenStep) -> (r: Result<(), Error>)
        requires
            old(self).wf(),
        ensures
            final(self).wf(),
            r == step.result,
            final(self)@ == old(self)@.after(step),
    {
        let ghost ws = step.writes@;
        let ghost pre = self@;
        let TokenStep { auth: _, result, mut writes } = step;
        if result.is_ok() {
            let n = writes.len();
            let mut k: usize = 0;
            while k < n
                invariant
                    n == ws.len(),
                    k <= n,
                    writes@ == ws.skip(k as int),
                    self.wf(),
                    self@ == pre.apply_all(ws.take(k as int)),
                decreases n - k,
            {
                let w = writes.remove(0);
                self.write(w);
                proof {
                    assert(ws.take(k + 1).drop_last() =~= ws.take(k as int));
                    assert(writes@ =~= ws.skip(k + 1));
                }
                k = k + 1;
            }
            proof {
                assert(ws.take(n as int) =~= ws);
            }
        }
        result
    }

    /// One-time setup: `gate` is a denylist gate and `breaker` a circuit
    /// breaker, both consulted on every transfer. Fails with
    /// `AlreadyInitialized` if a gate is already stored.
    pub fn initialize(&mut self, gate: Address, breaker: Address) -> (r: Result<(), Error>)
        requires
            old(self).wf(),
        ensures
            final(self).wf(),
            (r, final(self)@) == old(self)@.initialize(gate, breaker),
    {
        let step = initialize_step(&self.gate, gate, breaker);
        proof {
            reveal_with_fuel(TokenState::apply_all, 3);
        }
        self.commit(step)
    }

    /// The balance of `address`, zero when it was never funded.
    pub fn balance(&self, address: Address) -> (r: i128)
        requires
            self.wf(),
        ensures
            r == self@.balance(address@),
    {
        let entry = match self.balances.get(&address) {
            Some(b) => Some(*b),
            None => None,
        };
        balance_from_entry(entry)
    }

    /// Funds `to` with `amount` more.
    pub fn mint(&mut self, to: Address, amount: i128)
        requires
            old(self).wf(),
            fits_i128(old(self)@.balance(to@) + amount),
        ensures
            final(self).wf(),
            final(self)@ == old(self)@.mint(to, amount),
    {
        let balance = self.balance(to.clone());
        let step = mint_step(balance, to, amount);
        proof {
            reveal_with_fuel(TokenState::apply_all, 2);
        }
        let _ = self.commit(step);
    }

    /// Transfers `amount` from `from` to `to`, given the breaker's and the
    /// gate's answers. Refused with `NotInitialized` before `initialize`,
    /// `FrozenByBreaker` while frozen, `DeniedByGate` if a party is not
    /// clear, and `InsufficientBalance` if `from` holds less than `amount`.
    pub fn transfer(&mut self, from: Address, to: Address, amount: i128, answers: GateAnswers) -> (r:
        Result<(), Error>)
        requires
            old(self).wf(),
            old(self)@.transfer_moves(from, amount, answers) ==> fits_transfer(
                from@,
                to@,
                old(self)@.balance(from@),
                old(self)@.balance(to@),
                amount as int,
            ),
        ensures
            final(self).wf(),
            (r, final(self)@) == old(self)@.transfer(from, to, amount, answers),
    {
        let configured = self.gate.is_some() && self.breaker.is_some();
        let from_balance = self.balance(from.clone());
        let to_balance = self.balance(to.clone());
        let step = transfer_step(configured, answers, from_balance, to_balance, from, to, amount);
        proof {
            reveal_with_fuel(TokenState::apply_all, 3);
        }
        self.commit(step)
    }
}

/// A token nobody has called yet holds no balance.
pub proof fn lemma_fresh_token_is_empty(address: Seq<char>)
    ensures
        TokenState::fresh().balance(address) == 0,
{
}

/// `initialize` succeeds exactly once.
pub proof fn lemma_initialize_once(s: TokenState, gate: Address, breaker: Address, gate2: Address, breaker2: Address)
    ensures
        s.gate is None ==> s.initialize(gate, breaker).0 is Ok,
        s.initialize(gate, breaker).0 is Ok ==> s.initialize(gate, breaker).1.initialize(
            gate2,
            breaker2,
        ) == (Err::<(), Error>(Error::AlreadyInitialized), s.initialize(gate, breaker).1),
{
}

/// Minting adds exactly `amount` to the recipient and touches no other
/// balance.
pub proof fn lemma_mint_credits(s: TokenState, to: Address, amount: i128, other: Seq<char>)
    requires
        fits_i128(s.balance(to@) + amount),
    ensures
        s.mint(to, amount).balance(to@) == s.balance(to@) + amount,
        other != to@ ==> s.mint(to, amount).balance(other) == s.balance(other),
{
}

/// A refused transfer moves nothing; the breaker is asked before the denylist gate,
/// so a frozen token refuses even transfers the denylist gate would deny.
pub proof fn lemma_refused_transfer_moves_nothing(
    s: TokenState,
    from: Address,
    to: Address,
    amount: i128,
    answers: GateAnswers,
)
    ensures
        s.transfer(from, to, amount, answers).0 is Err ==> s.transfer(from, to, amount, answers).1
            == s,
        s.gate is Some && s.breaker is Some && answers.frozen ==> s.transfer(
            from,
            to,
            amount,
            answers,
        ).0 == Err::<(), Error>(Error::FrozenByBreaker),
        s.gate is Some && s.breaker is Some && !answers.frozen && !(answers.from_clear
            && answers.to_clear) ==> s.transfer(from, to, amount, answers).0 == Err::<(), Error>(
            Error::DeniedByGate,
        ),
        s.transfer(from, to, amount, answers).0 is Ok <==> s.transfer_moves(from, amount, answers),
{
}

/// A transfer between two different addresses conserves their combined
/// balance: the sender loses `amount`, the recipient gains it, and every
/// other balance is unchanged.
pub proof fn lemma_transfer_conserves(
    s: TokenState,
    from: Address,
    to: Address,
    amount: i128,
    answers: GateAnswers,
    other: Seq<char>,
)
    requires
        s.transfer(from, to, amount, answers).0 is Ok,
        from@ != to@,
        fits_i128(s.balance(from@) - amount),
        fits_i128(s.balance(to@) + amount),
    ensures
        ({
            let t = s.transfer(from, to, amount, answers).1;
            &&& t.balance(from@) == s.balance(from@) - amount
            &&& t.balance(to@) == s.balance(to@) + amount
            &&& t.balance(from@) + t.balance(to@) == s.balance(from@) + s.balance(to@)
            &&& other != from@ && other != to@ ==> t.balance(other) == s.balance(other)
        }),
{
}

/// A successful transfer to oneself changes no balance.
pub proof fn lemma_self_transfer_changes_nothing(
    s: TokenState,
    from: Address,
    to: Address,
    amount: i128,
    answers: GateAnswers,
    other: Seq<char>,
)
    requires
        s.transfer(from, to, amount, answers).0 is Ok,
        from@ == to@,
        fits_i128(s.balance(from@) - amount),
    ensures
        s.transfer(from, to, amount, answers).1.balance(other) == s.balance(other),
{
}

/// When every reply answers a question that `next_query` asked and nothing
/// is left to ask, the breaker was asked first; the denylist gate was asked
/// about nobody if the breaker reported transfers as frozen; and the replies
/// clear a transfer only when the denylist gate was asked about the sender,
/// then about the recipient, and cleared both.
pub proof fn lemma_consultation_order(
    gate: Option<Address>,
    breaker: Option<Address>,
    from: Address,
    to: Address,
    replies: Seq<bool>,
)
    requires
        gate is Some,
        breaker is Some,
        forall|k: int|
            0 <= k < replies.len() ==> (#[trigger] query_after(
                gate,
                breaker,
                from,
                to,
                replies.take(k),
            )) is Some,
        query_after(gate, breaker, from, to, replies) is None,
    ensures
        replies.len() >= 1,
        query_after(gate, breaker, from, to, replies.take(0)) == Some(Query::IsFrozen(breaker->0)),
        answers_of(replies).frozen ==> replies.len() == 1,
        answers_of(replies).from_clear && answers_of(replies).to_clear ==> {
            &&& !answers_of(replies).frozen
            &&& replies.len() == 3
            &&& query_after(gate, breaker, from, to, replies.take(1)) == Some(
                Query::Check(gate->0, from),
            )
            &&& query_after(gate, breaker, from, to, replies.take(2)) == Some(
                Query::Check(gate->0, to),
            )
        },
{
    let first = replies.take(0);
    assert(first =~= Seq::<bool>::empty());
    if replies.len() >= 2 {
        let one = replies.take(1);
        assert(query_after(gate, breaker, from, to, one) is Some);
        assert(one[0] == replies[0]);
    }
    if replies.len() >= 3 {
        let two = replies.take(2);
        assert(query_after(gate, breaker, from, to, two) is Some);
        assert(two[0] == replies[0] && two[1] == replies[1]);
    }
    if replies.len() >= 4 {
        let three = replies.take(3);
        assert(query_after(gate, breaker, from, to, three) is Some);
        assert(three.len() == 3);
    }
}

/// On an initialized token whose breaker is not frozen and whose gate
/// clears both parties, a transfer succeeds exactly when the sender holds
/// at least `amount`, its whole balance included, and is refused with
/// `InsufficientBalance` exactly when it holds less. Between two different
/// addresses it moves `amount` from one to the other; to oneself it changes
/// nothing.
pub proof fn lemma_cleared_transfer_outcome(
    s: TokenState,
    from: Address,
    to: Address,
    amount: i128,
    answers: GateAnswers,
)
    requires
        s.gate is Some,
        s.breaker is Some,
        !answers.frozen,
        answers.from_clear,
        answers.to_clear,
    ensures
        s.balance(from@) >= amount ==> s.transfer(from, to, amount, answers).0 == Ok::<(), Error>(()),
        s.balance(from@) < amount ==> s.transfer(from, to, amount, answers) == (
            Err::<(), Error>(Error::InsufficientBalance),
            s,
        ),
        s.balance(from@) >= amount && from@ != to@ && fits_i128(s.balance(from@) - amount)
            && fits_i128(s.balance(to@) + amount) ==> {
            let t = s.transfer(from, to, amount, answers).1;
            &&& t.balance(from@) == s.balance(from@) - amount
            &&& t.balance(to@) == s.balance(to@) + amount
        },
        s.balance(from@) >= amount && from@ == to@ ==> s.transfer(from, to, amount, answers).1.balance(
            from@,
        ) == s.balance(from@),
{
}

/// Before `initialize` (no gate or no breaker stored) every transfer is
/// refused with `NotInitialized` and changes nothing, whatever the answers
/// and balances.
pub proof fn lemma_uninitialized_transfer_refused(
    s: TokenState,
    from: Address,
    to: Address,
    amount: i128,
    answers: GateAnswers,
)
    requires
        s.gate is None || s.breaker is None,
    ensures
        s.transfer(from, to, amount, answers) == (Err::<(), Error>(Error::NotInitialized), s),
{
}

} // verus!
