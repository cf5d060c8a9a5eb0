//! The runtime: one instance of each pallet, the routing of calls to them,
//! and the execution of blocks.

use vstd::prelude::*;
use crate::balances;
use crate::proof_of_existence;
use crate::support::{Dispatch, DispatchResult};
use crate::system;
use crate::system::{bump_nonce, nonce_of, SystemState};
use crate::types::{AccountId, Balance, Block, BlockNumber, Extrinsic, Nonce};

verus! {

/// The refusal of a block whose header does not carry the next block number.
pub const BLOCK_NUMBER_MISMATCH: &'static str = "block number does not match what is expected";

/// Everything the runtime holds, as mathematical values.
pub struct RuntimeState {
    /// The block number and the nonces.
    pub system: SystemState,
    /// The stored balances, by account.
    pub balances: Map<Seq<char>, Balance>,
    /// The owner of each claimed piece of content.
    pub claims: Map<Seq<char>, Seq<char>>,
}

/// The runtime.  It owns every pallet and is the only way to their state.
#[derive(Debug)]
pub struct Runtime {
    /// Block number and nonces.
    pub system: system::Pallet,
    /// Funds per account.
    pub balances: balances::Pallet,
    /// Claims on content.
    pub proof_of_existence: proof_of_existence::Pallet,
}

impl View for Runtime {
    type V = RuntimeState;

    open spec fn view(&self) -> RuntimeState {
        RuntimeState {
            system: self.system@,
            balances: self.balances@,
            claims: self.proof_of_existence@,
        }
    }
}

/// Every call that an extrinsic can carry, tagged by the pallet it is for.
#[derive(Debug)]
pub enum RuntimeCall {
    /// A call of the balances pallet.
    Balances(balances::Call),
    /// A call of the proof-of-existence pallet.
    ProofOfExistence(proof_of_existence::Call),
}

/// One extrinsic that was refused while its block was executed.
#[derive(Debug, PartialEq, Eq)]
pub struct ExtrinsicFailure {
    /// The number of the block.
    pub block_number: BlockNumber,
    /// The place of the extrinsic in the block, counted from zero.
    pub index: usize,
    /// The reason the pallet gave.
    pub error: &'static str,
}

/// A refused extrinsic, as mathematical values.
pub struct FailureView {
    /// The number of the block.
    pub block_number: BlockNumber,
    /// The place of the extrinsic in the block, counted from zero.
    pub index: nat,
    /// The reason the pallet gave.
    pub error: Seq<char>,
}

impl View for ExtrinsicFailure {
    type V = FailureView;

    open spec fn view(&self) -> FailureView {
        FailureView {
            block_number: self.block_number,
            index: self.index as nat,
            error: self.error@,
        }
    }
}

/// What executing a block gives: the extrinsics that were refused, in block
/// order, or the reason the block as a whole was refused.
pub type BlockResult = Result<Vec<ExtrinsicFailure>, &'static str>;

/// The views of a list of failures, in the same order.
pub open spec fn failure_views(report: Seq<ExtrinsicFailure>) -> Seq<FailureView> {
    Seq::new(report.len(), |i: int| report[i]@)
}

/// Why the runtime refuses `call` from `caller`, if it does: the reason of
/// the pallet that the call is for.
pub open spec fn dispatch_error(s: RuntimeState, caller: Seq<char>, call: RuntimeCall) -> Option<
    Seq<char>,
> {
    match call {
        RuntimeCall::Balances(c) => balances::dispatch_error(s.balances, caller, c),
        RuntimeCall::ProofOfExistence(c) => proof_of_existence::dispatch_error(
            s.claims,
            caller,
            c,
        ),
    }
}

/// The state after `call` from `caller` has been dispatched: the pallet that
/// the call is for has handled it, and nothing else has changed.
pub open spec fn dispatch_state(s: RuntimeState, caller: Seq<char>, call: RuntimeCall)
    -> RuntimeState {
    match call {
        RuntimeCall::Balances(c) => RuntimeState {
            balances: balances::dispatch_balances(s.balances, caller, c),
            ..s
        },
        RuntimeCall::ProofOfExistence(c) => RuntimeState {
            claims: proof_of_existence::dispatch_claims(s.claims, caller, c),
            ..s
        },
    }
}

/// The state once the caller of an extrinsic has been counted, before the
/// call is dispatched.
pub open spec fn count_caller(s: RuntimeState, caller: Seq<char>) -> RuntimeState {
    RuntimeState {
        system: SystemState {
            block_number: s.system.block_number,
            nonces: bump_nonce(s.system.nonces, caller),
        },
        ..s
    }
}

/// Why the extrinsic `e`, executed in state `s`, is refused, if it is.
pub open spec fn extrinsic_error(s: RuntimeState, e: Extrinsic) -> Option<Seq<char>> {
    dispatch_error(count_caller(s, e.caller@), e.caller@, e.call)
}

/// The state after the extrinsic `e` has been executed in state `s`: its
/// caller is counted, then its call is dispatched.
pub open spec fn run_extrinsic(s: RuntimeState, e: Extrinsic) -> RuntimeState {
    dispatch_state(count_caller(s, e.caller@), e.caller@, e.call)
}

/// The state after the extrinsics `es` have been executed in order, starting
/// from `s`.
pub open spec fn run_extrinsics(s: RuntimeState, es: Seq<Extrinsic>) -> RuntimeState
    decreases es.len(),
{
    if es.len() == 0 {
        s
    } else {
        run_extrinsic(run_extrinsics(s, es.drop_last()), es.last())
    }
}

/// The refused ones among the extrinsics `es`, executed in order from `s` as
/// part of block `block_number`: each with its place and the reason.
pub open spec fn failures(s: RuntimeState, es: Seq<Extrinsic>, block_number: BlockNumber) -> Seq<
    FailureView,
>
    decreases es.len(),
{
    if es.len() == 0 {
        Seq::empty()
    } else {
        let earlier = failures(s, es.drop_last(), block_number);
        match extrinsic_error(run_extrinsics(s, es.drop_last()), es.last()) {
            Some(error) => earlier.push(
                FailureView { block_number, index: (es.len() - 1) as nat, error },
            ),
            None => earlier,
        }
    }
}

/// The number of extrinsics among `es` that `who` submitted.
pub open spec fn count_calls(es: Seq<Extrinsic>, who: Seq<char>) -> nat
    decreases es.len(),
{
    if es.len() == 0 {
        0
    } else {
        count_calls(es.drop_last(), who) + if es.last().caller@ == who {
            1nat
        } else {
            0nat
        }
    }
}

/// No nonce, increased by the number of extrinsics among `es` that its
/// account submitted, passes the largest value of its type.
pub open spec fn nonces_fit(nonces: Map<Seq<char>, Nonce>, es: Seq<Extrinsic>) -> bool {
    forall|who: Seq<char>| nonce_of(nonces, who) + #[trigger] count_calls(es, who) <= Nonce::MAX
}

/// The state once a block has been started: the block number has advanced.
pub open spec fn begin_block(s: RuntimeState) -> RuntimeState
    recommends
        s.system.block_number < BlockNumber::MAX,
{
    RuntimeState {
        system: SystemState {
            block_number: (s.system.block_number + 1) as BlockNumber,
            nonces: s.system.nonces,
        },
        ..s
    }
}

/// The header of `block` carries the number that follows the current one.
pub open spec fn is_next_block(s: RuntimeState, block: Block) -> bool {
    block.header.block_number == s.system.block_number + 1
}

/// The state after `block` has been executed in state `s`.  The block is
/// started in any case; its extrinsics run only if its number is the next one.
pub open spec fn block_state(s: RuntimeState, block: Block) -> RuntimeState {
    if is_next_block(s, block) {
        run_extrinsics(begin_block(s), block.extrinsics@)
    } else {
        begin_block(s)
    }
}

/// Executing one more extrinsic extends the state and the list of failures
/// by that extrinsic's outcome.
proof fn lemma_next_extrinsic(s: RuntimeState, es: Seq<Extrinsic>, i: int, block_number: BlockNumber)
    requires
        0 <= i < es.len(),
    ensures
        run_extrinsics(s, es.take(i + 1)) == run_extrinsic(run_extrinsics(s, es.take(i)), es[i]),
        failures(s, es.take(i + 1), block_number) == match extrinsic_error(
            run_extrinsics(s, es.take(i)),
            es[i],
        ) {
            Some(error) => failures(s, es.take(i), block_number).push(
                FailureView { block_number, index: i as nat, error },
            ),
            None => failures(s, es.take(i), block_number),
        },
{
    assert(es.take(i + 1).drop_last() == es.take(i));
}

/// A prefix of `es` holds no more extrinsics of `who` than `es` does, and
/// at least one less where the extrinsic right after the prefix is of `who`.
proof fn lemma_count_prefix(es: Seq<Extrinsic>, i: int, who: Seq<char>)
    requires
        0 <= i <= es.len(),
    ensures
        count_calls(es.take(i), who) <= count_calls(es, who),
        i < es.len() && es[i].caller@ == who ==> count_calls(es.take(i), who) < count_calls(
            es,
            who,
        ),
    decreases es.len(),
{
    if i == es.len() {
        assert(es.take(i) == es);
    } else {
        assert(es.take(i) == es.drop_last().take(i));
        if i < es.len() - 1 {
            lemma_count_prefix(es.drop_last(), i, who);
        }
    }
}

/// An account that submitted one of `es` is the caller of one of them.
proof fn lemma_counted_caller(es: Seq<Extrinsic>, who: Seq<char>)
    requires
        count_calls(es, who) > 0,
    ensures
        exists|i: int| 0 <= i < es.len() && (#[trigger] es[i]).caller@ == who,
    decreases es.len(),
{
    if es.last().caller@ != who {
        lemma_counted_caller(es.drop_last(), who);
        let i = choose|i: int|
            0 <= i < es.drop_last().len() && (#[trigger] es.drop_last()[i]).caller@ == who;
        assert(es[i].caller@ == who);
    }
}

/// While the nonces fit, the nonce of `who` after the first `i` of `es` is
/// its nonce before them plus the number of them that it submitted.
proof fn lemma_nonce_after_prefix(s: RuntimeState, es: Seq<Extrinsic>, i: int, who: Seq<char>)
    requires
        nonces_fit(s.system.nonces, es),
        0 <= i <= es.len(),
    ensures
        nonce_of(run_extrinsics(s, es.take(i)).system.nonces, who) == nonce_of(
            s.system.nonces,
            who,
        ) + count_calls(es.take(i), who),
    decreases i,
{
    if i > 0 {
        let caller = es[i - 1].caller@;
        assert(es.take(i).drop_last() == es.take(i - 1));
        lemma_nonce_after_prefix(s, es, i - 1, who);
        lemma_nonce_after_prefix(s, es, i - 1, caller);
        lemma_count_prefix(es, i - 1, caller);
    }
}

/// The block can be executed in state `s` without a counter running over:
/// the block number has room for one more, and, where the extrinsics of the
/// block will run, so has the nonce of every caller for each of its
/// extrinsics.
pub open spec fn block_fits(s: RuntimeState, block: Block) -> bool {
    &&& s.system.block_number < BlockNumber::MAX
    &&& is_next_block(s, block) ==> nonces_fit(s.system.nonces, block.extrinsics@)
}

/// The extrinsics of `block` that are refused when it is executed in state
/// `s`, given that its number is the next one.
pub open spec fn block_failures(s: RuntimeState, block: Block) -> Seq<FailureView> {
    failures(begin_block(s), block.extrinsics@, block.header.block_number)
}

impl Runtime {
    /// A runtime at block zero, with no nonces, balances or claims.
    pub fn new() -> (r: Self)
        ensures
            r@.system.block_number == 0,
            r@.system.nonces == Map::<Seq<char>, Nonce>::empty(),
            r@.balances == Map::<Seq<char>, Balance>::empty(),
            r@.claims == Map::<Seq<char>, Seq<char>>::empty(),
    {
        Runtime {
            system: system::Pallet::new(),
            balances: balances::Pallet::new(),
            proof_of_existence: proof_of_existence::Pallet::new(),
        }
    }

    /// Executes one extrinsic: counts its caller, then dispatches its call.
    fn execute_extrinsic(&mut self, extrinsic: Extrinsic) -> (r: DispatchResult)
        requires
            nonce_of(old(self)@.system.nonces, extrinsic.caller@) < Nonce::MAX,
        ensures
            final(self)@ == run_extrinsic(old(self)@, extrinsic),
            match r {
                Ok(_) => extrinsic_error(old(self)@, extrinsic) is None,
                Err(e) => extrinsic_error(old(self)@, extrinsic) == Some(e@),
            },
    {
        let Extrinsic { caller, call } = extrinsic;
        self.system.inc_nonce(&caller);
        self.dispatch(caller, call)
    }

    /// Whether counting the callers of `extrinsics` keeps every nonce within
    /// its type.
    fn nonces_have_room(&self, extrinsics: &Vec<Extrinsic>) -> (ok: bool)
        ensures
            ok == nonces_fit(self@.system.nonces, extrinsics@),
    {
        let ghost es = extrinsics@;
        let ghost nonces = self@.system.nonces;
        let n = extrinsics.len();
        let mut i: usize = 0;
        while i < n
            invariant
                n == es.len(),
                es == extrinsics@,
                nonces == self@.system.nonces,
                i <= n,
                forall|k: int|
                    0 <= k < i ==> nonce_of(nonces, (#[trigger] es[k]).caller@) + count_calls(
                        es,
                        es[k].caller@,
                    ) <= Nonce::MAX,
            decreases n - i,
        {
            let who = &extrinsics[i].caller;
            let room = Nonce::MAX - self.system.get_nonce(who);
            let mut seen: Nonce = 0;
            let mut j: usize = 0;
            while j < n
                invariant
                    n == es.len(),
                    es == extrinsics@,
                    j <= n,
                    seen == count_calls(es.take(j as int), who@),
                    seen <= room,
                    room == Nonce::MAX - nonce_of(nonces, who@),
                    nonces == self@.system.nonces,
                decreases n - j,
            {
                proof {
                    assert(es.take(j + 1).drop_last() == es.take(j as int));
                }
                if extrinsics[j].caller == *who {
                    if seen == room {
                        proof {
                            lemma_count_prefix(es, j + 1, who@);
                        }
                        return false;
                    }
                    seen = seen + 1;
                }
                j = j + 1;
            }
            proof {
                assert(es.take(n as int) == es);
            }
            i = i + 1;
        }
        proof {
            assert forall|who: Seq<char>|
                nonce_of(nonces, who) + #[trigger] count_calls(es, who) <= Nonce::MAX by {
                if count_calls(es, who) > 0 {
                    lemma_counted_caller(es, who);
                }
            }
        }
        true
    }

    /// Whether `block` can be executed without a counter running over.
    pub fn can_execute(&self, block: &Block) -> (ok: bool)
        ensures
            ok == block_fits(self@, *block),
    {
        let current = self.system.block_number();
        if current == BlockNumber::MAX {
            false
        } else if block.header.block_number != current + 1 {
            true
        } else {
            self.nonces_have_room(&block.extrinsics)
        }
    }

    /// Executes `block`.
    ///
    /// The block number advances first.  A block whose header does not carry
    /// the new number is refused as a whole: none of its extrinsics runs.
    /// Otherwise each extrinsic runs in order: its caller's nonce goes up by
    /// one, then its call is dispatched.  A refused extrinsic is put on the
    /// returned list and changes nothing beyond the nonce; the extrinsics
    /// before and after it are not affected.
    ///
    /// No counter wraps: the block must fit, which `can_execute` tells.
    pub fn execute_block(&mut self, block: Block) -> (r: BlockResult)
        requires
            block_fits(old(self)@, block),
        ensures
            final(self)@ == block_state(old(self)@, block),
            match r {
                Ok(report) => is_next_block(old(self)@, block) && failure_views(report@)
                    == block_failures(old(self)@, block),
                Err(e) => !is_next_block(old(self)@, block) && e@ == BLOCK_NUMBER_MISMATCH@,
            },
    {
        self.system.inc_block_number();
        let number = block.header.block_number;
        if number != self.system.block_number() {
            return Err(BLOCK_NUMBER_MISMATCH);
        }
        let ghost start = self@;
        let ghost es = block.extrinsics@;
        assert(es.len() == block.extrinsics.len());
        let mut report: Vec<ExtrinsicFailure> = Vec::new();
        let mut index: usize = 0;
        for extrinsic in iter: block.extrinsics
            invariant
                iter.seq() == es,
                index == iter.index(),
                es.len() <= usize::MAX,
                nonces_fit(start.system.nonces, es),
                self@ == run_extrinsics(start, es.take(index as int)),
                failure_views(report@) == failures(start, es.take(index as int), number),
        {
            proof {
                lemma_next_extrinsic(start, es, index as int, number);
                lemma_nonce_after_prefix(start, es, index as int, extrinsic.caller@);
                lemma_count_prefix(es, index as int, extrinsic.caller@);
            }
            if let Err(error) = self.execute_extrinsic(extrinsic) {
                report.push(ExtrinsicFailure { block_number: number, index, error });
            }
            index = index + 1;
        }
        proof {
            assert(es.take(es.len() as int) == es);
        }
        Ok(report)
    }
}

impl Dispatch for Runtime {
    type Caller = AccountId;

    type Call = RuntimeCall;

    /// Routes `call` to the pallet it is for and hands back that pallet's
    /// answer.
    fn dispatch(&mut self, caller: AccountId, call: RuntimeCall) -> (r: DispatchResult)
        ensures
            final(self)@ == dispatch_state(old(self)@, caller@, call),
            match r {
                Ok(_) => dispatch_error(old(self)@, caller@, call) is None,
                Err(e) => dispatch_error(old(self)@, caller@, call) == Some(e@),
            },
    {
        match call {
            RuntimeCall::Balances(c) => self.balances.dispatch(caller, c),
            RuntimeCall::ProofOfExistence(c) => self.proof_of_existence.dispatch(caller, c),
        }
    }
}

/// Executing extrinsics never touches the block number.
pub proof fn lemma_extrinsics_keep_block_number(s: RuntimeState, es: Seq<Extrinsic>)
    ensures
        run_extrinsics(s, es).system.block_number == s.system.block_number,
    decreases es.len(),
{
    if es.len() > 0 {
        lemma_extrinsics_keep_block_number(s, es.drop_last());
    }
}

/// Executing a block advances the block number by exactly one, whether the
/// block is refused or not and whatever becomes of its extrinsics.
pub proof fn lemma_block_advances_once(s: RuntimeState, block: Block)
    requires
        s.system.block_number < BlockNumber::MAX,
    ensures
        block_state(s, block).system.block_number == s.system.block_number + 1,
{
    lemma_extrinsics_keep_block_number(begin_block(s), block.extrinsics@);
}

/// A block whose header does not carry the next number counts no caller and
/// dispatches no call: nonces, balances and claims stay as they were.
pub proof fn lemma_wrong_number_runs_nothing(s: RuntimeState, block: Block)
    requires
        !is_next_block(s, block),
    ensures
        block_state(s, block).system.nonces == s.system.nonces,
        block_state(s, block).balances == s.balances,
        block_state(s, block).claims == s.claims,
{
}

/// A block with the next number, once executed, has raised the nonce of every
/// account by the number of extrinsics that the account submitted in it,
/// whether they were accepted or refused.
pub proof fn lemma_block_counts_every_extrinsic(s: RuntimeState, block: Block, who: Seq<char>)
    requires
        block_fits(s, block),
        is_next_block(s, block),
    ensures
        nonce_of(block_state(s, block).system.nonces, who) == nonce_of(s.system.nonces, who)
            + count_calls(block.extrinsics@, who),
{
    let es = block.extrinsics@;
    lemma_nonce_after_prefix(begin_block(s), es, es.len() as int, who);
    assert(es.take(es.len() as int) == es);
}

/// A refused extrinsic counts its caller and changes nothing else.
pub proof fn lemma_refused_extrinsic_only_counts(s: RuntimeState, e: Extrinsic)
    requires
        extrinsic_error(s, e) is Some,
    ensures
        run_extrinsic(s, e) == count_caller(s, e.caller@),
{
}

/// In a block of two extrinsics of which the first is refused and the second
/// accepted, both callers are counted and only the second call takes effect.
pub proof fn lemma_refused_then_accepted(s: RuntimeState, block: Block)
    requires
        is_next_block(s, block),
        block.extrinsics@.len() == 2,
        extrinsic_error(begin_block(s), block.extrinsics@[0]) is Some,
        extrinsic_error(
            count_caller(begin_block(s), block.extrinsics@[0].caller@),
            block.extrinsics@[1],
        ) is None,
    ensures
        ({
            let first = block.extrinsics@[0];
            let second = block.extrinsics@[1];
            let counted = count_caller(
                count_caller(begin_block(s), first.caller@),
                second.caller@,
            );
            &&& block_state(s, block) == dispatch_state(counted, second.caller@, second.call)
            &&& block_failures(s, block).len() == 1
            &&& block_failures(s, block)[0].index == 0
        }),
{
    let es = block.extrinsics@;
    let number = block.header.block_number;
    lemma_next_extrinsic(begin_block(s), es, 0, number);
    lemma_next_extrinsic(begin_block(s), es, 1, number);
}

/// In a block of two extrinsics of which the first is accepted and the
/// second refused, both callers are counted and only the first call takes
/// effect.
pub proof fn lemma_accepted_then_refused(s: RuntimeState, block: Block)
    requires
        is_next_block(s, block),
        block.extrinsics@.len() == 2,
        extrinsic_error(begin_block(s), block.extrinsics@[0]) is None,
        extrinsic_error(
            run_extrinsic(begin_block(s), block.extrinsics@[0]),
            block.extrinsics@[1],
        ) is Some,
    ensures
        ({
            let first = block.extrinsics@[0];
            let second = block.extrinsics@[1];
            let counted = count_caller(begin_block(s), first.caller@);
            &&& block_state(s, block) == count_caller(
                dispatch_state(counted, first.caller@, first.call),
                second.caller@,
            )
            &&& block_failures(s, block).len() == 1
            &&& block_failures(s, block)[0].index == 1
        }),
{
    let es = block.extrinsics@;
    let number = block.header.block_number;
    lemma_next_extrinsic(begin_block(s), es, 0, number);
    lemma_next_extrinsic(begin_block(s), es, 1, number);
}

} // verus!
