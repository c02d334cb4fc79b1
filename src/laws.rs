use vstd::prelude::*;

use crate::contract::{
    dispatch_error, is_authentic, vote_error, voted_poll, voting_closed, ContractError, Instruction,
    PrivContractHandleMsg,
};
use crate::state::{ledger_wf, new_poll, Gateway, PollView};

verus! {

/// One creation request: uri, block time, validity.
pub type CreateRequest = (Seq<char>, u64, u64);

/// Counter and ledger after `reqs` are applied in order by `try_create_poll`,
/// each step appending `new_poll(count, ..)` and advancing the counter.
pub open spec fn apply_creations(count: u64, polls: Seq<PollView>, reqs: Seq<CreateRequest>) -> (u64, Seq<PollView>)
    decreases reqs.len(),
{
    if reqs.len() == 0 {
        (count, polls)
    } else {
        let (c, ps) = apply_creations(count, polls, reqs.drop_last());
        let (uri, now, validity) = reqs.last();
        ((c + 1) as u64, ps.push(new_poll(c, uri, now, validity)))
    }
}

/// Poll ids are handed out as 0, 1, 2, ... in call order: from an empty ledger,
/// the `i`-th creation is given id `i` (the counter before it), the poll stored at
/// index `i` carries that id and the `i`-th request's fields, and the counter ends
/// equal to the number of creations.
pub proof fn lemma_sequential_ids(reqs: Seq<CreateRequest>)
    requires
        reqs.len() < u64::MAX,
    ensures
        forall|i: int| 0 <= i <= reqs.len() ==> (#[trigger] apply_creations(0, Seq::empty(), reqs.take(i))).0 == i,
        apply_creations(0, Seq::empty(), reqs).0 == reqs.len(),
        apply_creations(0, Seq::empty(), reqs).1.len() == reqs.len(),
        forall|i: int| 0 <= i < reqs.len() ==> {
            let p = #[trigger] apply_creations(0, Seq::empty(), reqs).1[i];
            &&& p.id == i
            &&& p.uri == reqs[i].0
            &&& p.created_at == reqs[i].1
            &&& p.validity == reqs[i].2
        },
        ledger_wf(apply_creations(0, Seq::empty(), reqs).0, apply_creations(0, Seq::empty(), reqs).1),
    decreases reqs.len(),
{
    if reqs.len() > 0 {
        let prev = reqs.drop_last();
        lemma_sequential_ids(prev);
        assert forall|i: int| 0 <= i <= reqs.len() implies (#[trigger] apply_creations(0, Seq::empty(), reqs.take(i))).0 == i by {
            if i < reqs.len() {
                assert(reqs.take(i) =~= prev.take(i));
            } else {
                assert(reqs.take(i) =~= reqs);
            }
        }
        let (c, ps) = apply_creations(0, Seq::empty(), prev);
        let q = apply_creations(0, Seq::empty(), reqs).1;
        assert forall|i: int| 0 <= i < reqs.len() implies {
            let p = #[trigger] q[i];
            &&& p.id == i
            &&& p.uri == reqs[i].0
            &&& p.created_at == reqs[i].1
            &&& p.validity == reqs[i].2
        } by {
            if i < prev.len() {
                assert(q[i] == ps[i]);
                assert(prev[i] == reqs[i]);
            }
        }
        assert forall|i: int| 0 <= i < q.len() implies crate::state::tally_wf((#[trigger] q[i]).tally) by {
            if i < prev.len() {
                assert(q[i] == ps[i]);
            }
        }
    } else {
        assert forall|i: int| 0 <= i <= reqs.len() implies (#[trigger] apply_creations(0, Seq::empty(), reqs.take(i))).0 == i by {
            assert(reqs.take(i) =~= reqs);
        }
    }
}

/// Once a vote by `voter` on poll `poll_id` succeeds, the voter is recorded on that
/// poll, and a second vote by the same voter, with any option, fails with
/// `AlreadyVoted` for as long as the window is open (after it closes the vote
/// fails with `VotingEnded` first).
pub proof fn lemma_no_double_vote(
    poll_count: u64,
    polls: Seq<PollView>,
    now: u64,
    poll_id: u64,
    voter: u64,
    option: u64,
    later: u64,
    second_option: u64,
)
    requires
        vote_error(poll_count, polls, now, (poll_id, voter, option)) is None,
        !voting_closed(polls[poll_id as int], later),
    ensures
        ({
            let after = polls.update(poll_id as int, voted_poll(polls[poll_id as int], voter, option));
            &&& after[poll_id as int].voted.contains(voter)
            &&& vote_error(poll_count, after, later, (poll_id, voter, second_option)) == Some(
                ContractError::AlreadyVoted,
            )
        }),
{
}

/// A recorded voter stays recorded: appending a poll or recording any other
/// successful vote keeps every earlier voter of every poll.
pub proof fn lemma_voted_is_permanent(
    polls: Seq<PollView>,
    poll_id: int,
    voter: u64,
    new: PollView,
    target: u64,
    other_voter: u64,
    other_option: u64,
)
    requires
        0 <= poll_id < polls.len(),
        polls[poll_id].voted.contains(voter),
    ensures
        polls.push(new)[poll_id].voted.contains(voter),
        target < polls.len() ==> polls.update(
            target as int,
            voted_poll(polls[target as int], other_voter, other_option),
        )[poll_id].voted.contains(voter),
{
}

/// A vote on a poll whose window has passed (`now > created_at + validity`) fails
/// with `VotingEnded`.
pub proof fn lemma_vote_after_window(poll_count: u64, polls: Seq<PollView>, now: u64, poll_id: u64, voter: u64, option: u64)
    requires
        poll_id < poll_count,
        poll_id < polls.len(),
        now > polls[poll_id as int].created_at + polls[poll_id as int].validity,
    ensures
        vote_error(poll_count, polls, now, (poll_id, voter, option)) == Some(ContractError::VotingEnded),
{
}

/// A vote naming a poll id at or past the counter fails with `InvalidPollId`.
pub proof fn lemma_vote_past_count(poll_count: u64, polls: Seq<PollView>, now: u64, poll_id: u64, voter: u64, option: u64)
    requires
        poll_id >= poll_count,
    ensures
        vote_error(poll_count, polls, now, (poll_id, voter, option)) == Some(ContractError::InvalidPollId),
{
}

/// An instruction whose signature does not verify against the gateway's key is
/// refused with `Unauthorized`, whatever its tag and payload.
pub proof fn lemma_unsigned_rejected(gateway: &Gateway, msg: &PrivContractHandleMsg, decoded: Option<Instruction>)
    requires
        !is_authentic(gateway, msg),
    ensures
        dispatch_error(gateway, msg, decoded) == Some(ContractError::Unauthorized),
{
}

} // verus!
