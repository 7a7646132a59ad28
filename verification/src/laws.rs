use crate::address::addr_in;
use crate::error::CustomError;
use crate::escrow::key_present;
use crate::escrow::spec_claim;
use crate::escrow::spec_deposit;
use crate::escrow::ActionView;
use crate::escrow::DataKey;
use crate::escrow::PartyView;
use crate::escrow::RecordView;
use crate::escrow::StateView;
use crate::escrow::MAX_CLAIMANTS;
use crate::time_bound::time_bound_holds;
use crate::time_bound::TimeBound;
use vstd::prelude::*;

verus! {

/// A deposit on a never-initialized instance with an allowed claimant
/// list succeeds: the record is stored verbatim, the latch becomes set,
/// and the owed transfer moves the deposited amount of the deposited
/// token from the depositor into custody.
pub proof fn lemma_deposit_fresh_succeeds(
    from: Seq<u8>,
    token: Seq<u8>,
    amount: int,
    claimants: Seq<Seq<u8>>,
    time_bound: TimeBound,
)
    requires
        claimants.len() <= MAX_CLAIMANTS,
    ensures
        ({
            let (s1, r1) = spec_deposit(
                StateView::NeverInitialized,
                from,
                token,
                amount,
                claimants,
                time_bound,
            );
            &&& s1 == StateView::Open(RecordView { token, amount, claimants, time_bound })
            &&& s1.initialized()
            &&& key_present(s1, DataKey::Init)
            &&& key_present(s1, DataKey::Balance)
            &&& r1 == Ok::<ActionView, CustomError>(
                ActionView {
                    token,
                    amount,
                    from: PartyView::Account(from),
                    to: PartyView::Custody,
                },
            )
        }),
{
}

/// A deposit naming more claimants than the bound is refused
/// `TooManyClaimants` and changes nothing, whatever state the instance
/// is in.
pub proof fn lemma_too_many_claimants(
    s: StateView,
    from: Seq<u8>,
    token: Seq<u8>,
    amount: int,
    claimants: Seq<Seq<u8>>,
    time_bound: TimeBound,
)
    requires
        claimants.len() > MAX_CLAIMANTS,
    ensures
        spec_deposit(s, from, token, amount, claimants, time_bound) == (
            s,
            Err::<ActionView, CustomError>(CustomError::TooManyClaimants),
        ),
{
}

/// Once an instance has accepted a deposit, every later deposit attempt
/// with an allowed claimant list is refused `AlreadyInitialized` and
/// changes nothing — whether or not the escrow was settled in between.
pub proof fn lemma_second_deposit_fails(
    s: StateView,
    from: Seq<u8>,
    token: Seq<u8>,
    amount: int,
    claimants: Seq<Seq<u8>>,
    time_bound: TimeBound,
)
    requires
        s.initialized(),
        claimants.len() <= MAX_CLAIMANTS,
    ensures
        spec_deposit(s, from, token, amount, claimants, time_bound) == (
            s,
            Err::<ActionView, CustomError>(CustomError::AlreadyInitialized),
        ),
{
}

/// Initialization is one-way: no operation ever clears the latch.
pub proof fn lemma_latch_one_way(
    s: StateView,
    from: Seq<u8>,
    token: Seq<u8>,
    amount: int,
    claimants: Seq<Seq<u8>>,
    time_bound: TimeBound,
    claimant: Seq<u8>,
    now: u64,
)
    requires
        s.initialized(),
    ensures
        spec_deposit(s, from, token, amount, claimants, time_bound).0.initialized(),
        spec_claim(s, claimant, now).0.initialized(),
{
}

/// A claim against an instance with no open record — never deposited
/// into, or already settled — is refused `NoActiveBalance` and changes
/// nothing.
pub proof fn lemma_claim_without_record_fails(s: StateView, claimant: Seq<u8>, now: u64)
    requires
        !(s is Open),
    ensures
        spec_claim(s, claimant, now) == (
            s,
            Err::<ActionView, CustomError>(CustomError::NoActiveBalance),
        ),
{
}

/// A claim whose time bound does not hold at `now` is refused
/// `TimePredicateNotFulfilled` and changes nothing: for a `Before`
/// bound once `now` is past the timestamp, for an `After` bound while
/// `now` has not reached it.
pub proof fn lemma_time_predicate_not_fulfilled(
    r: RecordView,
    claimant: Seq<u8>,
    now: u64,
)
    requires
        !time_bound_holds(r.time_bound, now),
    ensures
        spec_claim(StateView::Open(r), claimant, now) == (
            StateView::Open(r),
            Err::<ActionView, CustomError>(CustomError::TimePredicateNotFulfilled),
        ),
{
}

/// A claim by a party the record does not list is refused
/// `ClaimantNotAllowed` and changes nothing, even when the time
/// predicate holds.
pub proof fn lemma_claimant_not_allowed(r: RecordView, claimant: Seq<u8>, now: u64)
    requires
        time_bound_holds(r.time_bound, now),
        !addr_in(r.claimants, claimant),
    ensures
        spec_claim(StateView::Open(r), claimant, now) == (
            StateView::Open(r),
            Err::<ActionView, CustomError>(CustomError::ClaimantNotAllowed),
        ),
{
}

/// A refused operation owes no transfer and changes nothing: the only
/// paths that move funds are a successful deposit and a successful
/// claim.
pub proof fn lemma_refusal_changes_nothing(
    s: StateView,
    from: Seq<u8>,
    token: Seq<u8>,
    amount: int,
    claimants: Seq<Seq<u8>>,
    time_bound: TimeBound,
    claimant: Seq<u8>,
    now: u64,
)
    ensures
        spec_deposit(s, from, token, amount, claimants, time_bound).1 is Err ==> spec_deposit(
            s,
            from,
            token,
            amount,
            claimants,
            time_bound,
        ).0 == s,
        spec_claim(s, claimant, now).1 is Err ==> spec_claim(s, claimant, now).0 == s,
{
}

/// Value conservation for the one successful path: depositing into a
/// fresh instance and then claiming under a holding time bound by a
/// listed claimant moves exactly the deposited amount of the deposited
/// token into custody and then out to that claimant, and settles the
/// instance.
pub proof fn lemma_value_conservation(
    from: Seq<u8>,
    token: Seq<u8>,
    amount: int,
    claimants: Seq<Seq<u8>>,
    time_bound: TimeBound,
    claimant: Seq<u8>,
    now: u64,
)
    requires
        claimants.len() <= MAX_CLAIMANTS,
        time_bound_holds(time_bound, now),
        addr_in(claimants, claimant),
    ensures
        ({
            let (s1, r1) = spec_deposit(
                StateView::NeverInitialized,
                from,
                token,
                amount,
                claimants,
                time_bound,
            );
            let (s2, r2) = spec_claim(s1, claimant, now);
            &&& r1 == Ok::<ActionView, CustomError>(
                ActionView {
                    token,
                    amount,
                    from: PartyView::Account(from),
                    to: PartyView::Custody,
                },
            )
            &&& r2 == Ok::<ActionView, CustomError>(
                ActionView {
                    token,
                    amount,
                    from: PartyView::Custody,
                    to: PartyView::Account(claimant),
                },
            )
            &&& s2 == StateView::Settled
        }),
{
}

/// At most one claim ever succeeds: a successful claim settles the
/// instance, and every later claim is refused with the missing-record
/// error.
pub proof fn lemma_at_most_one_claim(
    s: StateView,
    claimant1: Seq<u8>,
    now1: u64,
    claimant2: Seq<u8>,
    now2: u64,
)
    ensures
        ({
            let (s1, r1) = spec_claim(s, claimant1, now1);
            let (s2, r2) = spec_claim(s1, claimant2, now2);
            r1 is Ok ==> {
                &&& s1 == StateView::Settled
                &&& r2 == Err::<ActionView, CustomError>(CustomError::NoActiveBalance)
                &&& s2 == s1
            }
        }),
{
}

/// A settled instance is terminal: after a successful claim, a further
/// claim is refused for want of a record, and a further deposit with an
/// allowed claimant list is refused `AlreadyInitialized`.
pub proof fn lemma_settled_is_terminal(
    s: StateView,
    claimant1: Seq<u8>,
    now1: u64,
    from: Seq<u8>,
    token: Seq<u8>,
    amount: int,
    claimants: Seq<Seq<u8>>,
    time_bound: TimeBound,
    claimant2: Seq<u8>,
    now2: u64,
)
    requires
        claimants.len() <= MAX_CLAIMANTS,
    ensures
        ({
            let (s1, r1) = spec_claim(s, claimant1, now1);
            r1 is Ok ==> {
                &&& spec_claim(s1, claimant2, now2) == (
                    s1,
                    Err::<ActionView, CustomError>(CustomError::NoActiveBalance),
                )
                &&& spec_deposit(s1, from, token, amount, claimants, time_bound) == (
                    s1,
                    Err::<ActionView, CustomError>(CustomError::AlreadyInitialized),
                )
            }
        }),
{
}

/// Both operations preserve the state invariant: every record a
/// reachable state holds is well-formed.
pub proof fn lemma_inv_preserved(
    s: StateView,
    from: Seq<u8>,
    token: Seq<u8>,
    amount: int,
    claimants: Seq<Seq<u8>>,
    time_bound: TimeBound,
    claimant: Seq<u8>,
    now: u64,
)
    requires
        s.inv(),
    ensures
        spec_deposit(s, from, token, amount, claimants, time_bound).0.inv(),
        spec_claim(s, claimant, now).0.inv(),
{
}

/// Whenever the record entry is present the latch entry is present;
/// the converse fails exactly in the settled state.
pub proof fn lemma_record_implies_latch(s: StateView)
    ensures
        key_present(s, DataKey::Balance) ==> key_present(s, DataKey::Init),
{
}

} // verus!
