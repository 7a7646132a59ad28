use crate::address::addr_in;
use crate::address::contains_address;
use crate::address::Address;
use crate::error::CustomError;
use crate::time_bound::check_time_bound;
use crate::time_bound::time_bound_holds;
use crate::time_bound::TimeBound;
use vstd::prelude::*;

verus! {

/// The most claimants a single escrow record may name.
pub const MAX_CLAIMANTS: usize = 10;

/// The two entries of an instance's persistent key space: the one-way
/// "already used" latch, and the escrow record itself.
#[derive(Debug, Clone, Copy, PartialEq, Eq, Structural)]
pub enum DataKey {
    Init,
    Balance,
}

/// The escrow record: the asset and amount held in custody, the ordered
/// list of claimants allowed to withdraw it, and the time predicate
/// gating the claim. Created once by a deposit, deleted on settlement.
#[derive(Debug)]
pub struct ClaimableBalance {
    pub token: Address,
    pub amount: i128,
    pub claimants: Vec<Address>,
    pub time_bound: TimeBound,
}

/// The mathematical content of an escrow record.
#[verifier::ext_equal]
pub ghost struct RecordView {
    pub token: Seq<u8>,
    pub amount: int,
    pub claimants: Seq<Seq<u8>>,
    pub time_bound: TimeBound,
}

impl View for ClaimableBalance {
    type V = RecordView;

    open spec fn view(&self) -> RecordView {
        RecordView {
            token: self.token@,
            amount: self.amount as int,
            claimants: self.claimants.deep_view(),
            time_bound: self.time_bound,
        }
    }
}

impl RecordView {
    /// A record never names more claimants than an instance accepts.
    pub open spec fn well_formed(self) -> bool {
        self.claimants.len() <= MAX_CLAIMANTS
    }
}

/// A party to an asset transfer: an external account, or the escrow
/// instance's own custody.
#[derive(Debug)]
pub enum TransferParty {
    Account(Address),
    Custody,
}

/// The mathematical content of a transfer party.
pub ghost enum PartyView {
    Account(Seq<u8>),
    Custody,
}

impl View for TransferParty {
    type V = PartyView;

    open spec fn view(&self) -> PartyView {
        match *self {
            TransferParty::Account(a) => PartyView::Account(a@),
            TransferParty::Custody => PartyView::Custody,
        }
    }
}

/// The one asset movement a successful operation requires of the
/// environment: move `amount` of `token` from `from` to `to`. The
/// environment must commit this transfer and the state change it came
/// with together, or neither.
#[derive(Debug)]
pub struct TransferAction {
    pub token: Address,
    pub amount: i128,
    pub from: TransferParty,
    pub to: TransferParty,
}

/// The mathematical content of a transfer action.
#[verifier::ext_equal]
pub ghost struct ActionView {
    pub token: Seq<u8>,
    pub amount: int,
    pub from: PartyView,
    pub to: PartyView,
}

impl View for TransferAction {
    type V = ActionView;

    open spec fn view(&self) -> ActionView {
        ActionView {
            token: self.token@,
            amount: self.amount as int,
            from: self.from@,
            to: self.to@,
        }
    }
}

/// The lifecycle of an instance, as one explicit tri-state: never
/// deposited into; holding an open record; or settled, with the record
/// gone but the instance used up for good.
#[derive(Debug)]
pub enum EscrowState {
    NeverInitialized,
    Open(ClaimableBalance),
    Settled,
}

/// The mathematical content of an instance's state.
#[verifier::ext_equal]
pub ghost enum StateView {
    NeverInitialized,
    Open(RecordView),
    Settled,
}

impl View for EscrowState {
    type V = StateView;

    open spec fn view(&self) -> StateView {
        match *self {
            EscrowState::NeverInitialized => StateView::NeverInitialized,
            EscrowState::Open(b) => StateView::Open(b@),
            EscrowState::Settled => StateView::Settled,
        }
    }
}

impl StateView {
    /// Whether the instance has ever accepted a deposit: the one-way
    /// latch that no later operation clears.
    pub open spec fn initialized(self) -> bool {
        !(self is NeverInitialized)
    }

    /// Every state an instance can reach keeps its record well-formed.
    pub open spec fn inv(self) -> bool {
        self matches StateView::Open(r) ==> r.well_formed()
    }
}

/// Which entries of the persistent key space are present in each state:
/// the latch from the first accepted deposit on, the record only while
/// the escrow is open.
pub open spec fn key_present(s: StateView, key: DataKey) -> bool {
    match key {
        DataKey::Init => s.initialized(),
        DataKey::Balance => s is Open,
    }
}

/// What a deposit does to the state, and what it returns: the next
/// state, and either the transfer the environment owes or the reason
/// the deposit was refused. Checked in order: the claimant bound first,
/// the single-use latch second; a valid deposit opens the record
/// verbatim and owes a transfer of the amount into custody.
pub open spec fn spec_deposit(
    s: StateView,
    from: Seq<u8>,
    token: Seq<u8>,
    amount: int,
    claimants: Seq<Seq<u8>>,
    time_bound: TimeBound,
) -> (StateView, Result<ActionView, CustomError>) {
    if claimants.len() > MAX_CLAIMANTS {
        (s, Err(CustomError::TooManyClaimants))
    } else if s.initialized() {
        (s, Err(CustomError::AlreadyInitialized))
    } else {
        (
            StateView::Open(RecordView { token, amount, claimants, time_bound }),
            Ok(
                ActionView {
                    token,
                    amount,
                    from: PartyView::Account(from),
                    to: PartyView::Custody,
                },
            ),
        )
    }
}

/// What a claim does to the state, and what it returns. Checked in
/// order: a record must be present, its time bound must hold at `now`,
/// and the caller must be listed; a valid claim settles the instance
/// and owes a transfer of the whole recorded amount out of custody to
/// the claimant.
pub open spec fn spec_claim(s: StateView, claimant: Seq<u8>, now: u64) -> (
    StateView,
    Result<ActionView, CustomError>,
) {
    match s {
        StateView::Open(r) => {
            if !time_bound_holds(r.time_bound, now) {
                (s, Err(CustomError::TimePredicateNotFulfilled))
            } else if !addr_in(r.claimants, claimant) {
                (s, Err(CustomError::ClaimantNotAllowed))
            } else {
                (
                    StateView::Settled,
                    Ok(
                        ActionView {
                            token: r.token,
                            amount: r.amount,
                            from: PartyView::Custody,
                            to: PartyView::Account(claimant),
                        },
                    ),
                )
            }
        },
        _ => (s, Err(CustomError::NoActiveBalance)),
    }
}

/// The mathematical content of an operation's result.
pub open spec fn result_view(r: Result<TransferAction, CustomError>) -> Result<
    ActionView,
    CustomError,
> {
    match r {
        Ok(a) => Ok(a@),
        Err(e) => Err(e),
    }
}

/// One escrow instance: its whole lifecycle state, owned explicitly so
/// the environment can load it before an operation and persist it after,
/// all-or-nothing.
#[derive(Debug)]
pub struct ClaimableBalanceContract {
    pub state: EscrowState,
}

impl View for ClaimableBalanceContract {
    type V = StateView;

    open spec fn view(&self) -> StateView {
        self.state@
    }
}

impl ClaimableBalanceContract {
    /// A fresh instance that has never accepted a deposit.
    pub fn new() -> (r: Self)
        ensures
            r@ == StateView::NeverInitialized,
            r@.inv(),
    {
        ClaimableBalanceContract { state: EscrowState::NeverInitialized }
    }

    /// Whether the instance has ever accepted a deposit; mirrors a
    /// presence test of the latch entry.
    pub fn is_initialized(&self) -> (r: bool)
        ensures
            r == self@.initialized(),
    {
        match &self.state {
            EscrowState::NeverInitialized => false,
            _ => true,
        }
    }

    /// Whether the given entry of the persistent key space is present.
    pub fn has_entry(&self, key: DataKey) -> (r: bool)
        ensures
            r == key_present(self@, key),
    {
        match key {
            DataKey::Init => self.is_initialized(),
            DataKey::Balance => match &self.state {
                EscrowState::Open(_) => true,
                _ => false,
            },
        }
    }

    /// The open record, if the escrow is open.
    pub fn balance(&self) -> (r: Option<&ClaimableBalance>)
        ensures
            match r {
                Some(b) => self@ == StateView::Open(b@),
                None => !(self@ is Open),
            },
    {
        match &self.state {
            EscrowState::Open(b) => Some(b),
            _ => None,
        }
    }

    /// Accept the single deposit this instance will ever hold.
    ///
    /// Refused with `TooManyClaimants` when the claimant list is over
    /// the bound, else with `AlreadyInitialized` when the latch is
    /// already set; a refusal changes nothing. Otherwise the record is
    /// stored verbatim, the latch is set for good, and the returned
    /// action directs `amount` of `token` from the depositor `from`
    /// into custody.
    pub fn deposit(
        &mut self,
        from: Address,
        token: Address,
        amount: i128,
        claimants: Vec<Address>,
        time_bound: TimeBound,
    ) -> (r: Result<TransferAction, CustomError>)
        ensures
            (final(self)@, result_view(r)) == spec_deposit(
                old(self)@,
                from@,
                token@,
                amount as int,
                claimants.deep_view(),
                time_bound,
            ),
            r is Err ==> final(self)@ == old(self)@,
            r is Ok <==> claimants@.len() <= MAX_CLAIMANTS && !old(self)@.initialized(),
            old(self)@.inv() ==> final(self)@.inv(),
    {
        if claimants.len() > MAX_CLAIMANTS {
            return Err(CustomError::TooManyClaimants);
        }
        if self.is_initialized() {
            return Err(CustomError::AlreadyInitialized);
        }
        let action = TransferAction {
            token: token.clone(),
            amount,
            from: TransferParty::Account(from),
            to: TransferParty::Custody,
        };
        self.state = EscrowState::Open(
            ClaimableBalance { token, amount, claimants, time_bound },
        );
        Ok(action)
    }

    /// Settle the escrow toward the claimant `claimant` at time `now`.
    ///
    /// Refused with `NoActiveBalance` when no record is present, else
    /// with `TimePredicateNotFulfilled` when the record's time bound
    /// does not hold at `now`, else with `ClaimantNotAllowed` when the
    /// claimant is not listed; a refusal changes nothing. Otherwise the
    /// record is deleted, the latch stays set, and the returned action
    /// directs the whole recorded amount of the recorded token out of
    /// custody to the claimant.
    pub fn claim(&mut self, claimant: Address, now: u64) -> (r: Result<
        TransferAction,
        CustomError,
    >)
        ensures
            (final(self)@, result_view(r)) == spec_claim(old(self)@, claimant@, now),
            r is Err ==> final(self)@ == old(self)@,
            r is Ok <==> (old(self)@ matches StateView::Open(rec)
                && time_bound_holds(rec.time_bound, now) && addr_in(rec.claimants, claimant@)),
            old(self)@.inv() ==> final(self)@.inv(),
    {
        match &self.state {
            EscrowState::Open(balance) => {
                if !check_time_bound(&balance.time_bound, now) {
                    return Err(CustomError::TimePredicateNotFulfilled);
                }
                if !contains_address(&balance.claimants, &claimant) {
                    return Err(CustomError::ClaimantNotAllowed);
                }
                let action = TransferAction {
                    token: balance.token.clone(),
                    amount: balance.amount,
                    from: TransferParty::Custody,
                    to: TransferParty::Account(claimant),
                };
                self.state = EscrowState::Settled;
                Ok(action)
            },
            _ => Err(CustomError::NoActiveBalance),
        }
    }
}

} // verus!
