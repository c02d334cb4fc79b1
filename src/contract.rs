use std::collections::HashMap;
use vstd::prelude::*;

use crate::auth::{check_pubkey_format, pubkey_format_ok, secp256k1_valid, verify_signature};
use crate::state::{ledger_wf, new_poll, Gateway, Poll, PollView, Polls};

verus! {

broadcast use vstd::std_specs::hash::group_hash_axioms;

/// Why an instruction or a query was refused.
#[derive(PartialEq, Eq, Structural, Clone, Copy, Debug)]
pub enum ContractError {
    Unauthorized,
    DecodeError,
    UnsupportedOperation,
    InvalidPollId,
    PollNotFound,
    VotingEnded,
    AlreadyVoted,
    InvalidGatewayKey,
    StorageFailure,
}

impl ContractError {
    /// The text of each error.
    pub open spec fn message_spec(&self) -> Seq<char> {
        match self {
            ContractError::Unauthorized => "Unauthorized"@,
            ContractError::DecodeError => "Malformed input"@,
            ContractError::UnsupportedOperation => "invalid handle"@,
            ContractError::InvalidPollId => "Invalid poll id"@,
            ContractError::PollNotFound => "Poll not found"@,
            ContractError::VotingEnded => "Voting has ended"@,
            ContractError::AlreadyVoted => "Already voted"@,
            ContractError::InvalidGatewayKey => "Invalid gateway key"@,
            ContractError::StorageFailure => "Storage failure"@,
        }
    }

    /// The message reported to the caller.
    pub fn message(&self) -> (r: String)
        ensures
            r@ == self.message_spec(),
    {
        match self {
            ContractError::Unauthorized => "Unauthorized".to_owned(),
            ContractError::DecodeError => "Malformed input".to_owned(),
            ContractError::UnsupportedOperation => "invalid handle".to_owned(),
            ContractError::InvalidPollId => "Invalid poll id".to_owned(),
            ContractError::PollNotFound => "Poll not found".to_owned(),
            ContractError::VotingEnded => "Voting has ended".to_owned(),
            ContractError::AlreadyVoted => "Already voted".to_owned(),
            ContractError::InvalidGatewayKey => "Invalid gateway key".to_owned(),
            ContractError::StorageFailure => "Storage failure".to_owned(),
        }
    }
}

/// Payload of a poll creation.
pub struct CreatePollInput {
    pub poll_uri: String,
    pub validity: u64,
}

/// Payload of a vote: the poll, the voter's identifier and the chosen option.
pub struct VoteInput {
    pub poll_id: u64,
    pub farcaster_id: u64,
    pub vote: u64,
}

/// The poll as it stands after a successful vote by `voter` for `option`.
pub open spec fn voted_poll(p: PollView, voter: u64, option: u64) -> PollView {
    PollView {
        tally: p.tally.insert(
            option,
            if p.tally.contains_key(option) {
                (p.tally[option] + 1) as u64
            } else {
                1
            },
        ),
        voted: p.voted.insert(voter),
        ..p
    }
}

/// Voting on `p` is closed at time `now`.
pub open spec fn voting_closed(p: PollView, now: u64) -> bool {
    now > p.created_at + p.validity
}

/// The tally of `option` on poll `poll_id` can still grow by one.
pub open spec fn tally_has_room(polls: Seq<PollView>, poll_id: u64, option: u64) -> bool {
    poll_id < polls.len() && polls[poll_id as int].tally.contains_key(option)
        ==> polls[poll_id as int].tally[option] < u64::MAX
}

/// The error a vote meets, if any, checked in order: id past the counter,
/// id past the ledger, window closed, voter already recorded.
pub open spec fn vote_error(poll_count: u64, polls: Seq<PollView>, now: u64, input: (u64, u64, u64)) -> Option<ContractError> {
    let (poll_id, voter, option) = input;
    if poll_id >= poll_count {
        Some(ContractError::InvalidPollId)
    } else if poll_id >= polls.len() {
        Some(ContractError::PollNotFound)
    } else if voting_closed(polls[poll_id as int], now) {
        Some(ContractError::VotingEnded)
    } else if polls[poll_id as int].voted.contains(voter) {
        Some(ContractError::AlreadyVoted)
    } else {
        None
    }
}

/// Appends a new poll with id `poll_count`, created at `now`, and advances the
/// counter. Returns the id given to the poll.
pub fn try_create_poll(poll_count: &mut u64, polls: &mut Polls, now: u64, input: CreatePollInput) -> (r: u64)
    requires
        *old(poll_count) < u64::MAX,
    ensures
        r == *old(poll_count),
        *final(poll_count) == *old(poll_count) + 1,
        final(polls)@ == old(polls)@.push(new_poll(r, input.poll_uri@, now, input.validity)),
        ledger_wf(*old(poll_count), old(polls)@) ==> ledger_wf(*final(poll_count), final(polls)@),
{
    let id = *poll_count;
    let poll = Poll {
        id,
        uri: input.poll_uri,
        created_at: now,
        validity: input.validity,
        votes: HashMap::new(),
        has_voted: HashMap::new(),
        vote_count: 0,
    };
    proof {
        assert(poll@.tally =~= Map::<u64, u64>::empty());
        assert(poll@.voted =~= Set::<u64>::empty());
    }
    polls.polls.push(poll);
    *poll_count = id + 1;
    assert(polls@ =~= old(polls)@.push(new_poll(id, poll@.uri, now, poll@.validity)));
    id
}

/// Records a vote of `input.farcaster_id` for `input.vote` on poll `input.poll_id`
/// at time `now`. On any error the ledger is left as it was.
pub fn try_vote(poll_count: u64, polls: &mut Polls, now: u64, input: VoteInput) -> (r: Result<(), ContractError>)
    requires
        tally_has_room(old(polls)@, input.poll_id, input.vote),
    ensures
        match vote_error(poll_count, old(polls)@, now, (input.poll_id, input.farcaster_id, input.vote)) {
            Some(e) => r == Err::<(), ContractError>(e) && final(polls)@ == old(polls)@,
            None => r is Ok && final(polls)@ == old(polls)@.update(
                input.poll_id as int,
                voted_poll(old(polls)@[input.poll_id as int], input.farcaster_id, input.vote),
            ),
        },
        r is Ok && ledger_wf(poll_count, old(polls)@) ==> ledger_wf(poll_count, final(polls)@),
{
    if input.poll_id >= poll_count {
        return Err(ContractError::InvalidPollId);
    }
    if input.poll_id >= polls.polls.len() as u64 {
        return Err(ContractError::PollNotFound);
    }
    let idx = input.poll_id as usize;
    let ghost before = polls@;
    let ghost p0 = polls@[idx as int];
    let poll = &mut polls.polls[idx];
    if now > poll.created_at && now - poll.created_at > poll.validity {
        return Err(ContractError::VotingEnded);
    }
    if poll.has_voted.contains_key(&input.farcaster_id) {
        return Err(ContractError::AlreadyVoted);
    }
    let current: u64 = match poll.votes.get(&input.vote) {
        Some(c) => *c,
        None => 0,
    };
    poll.votes.insert(input.vote, current + 1);
    poll.has_voted.insert(input.farcaster_id, true);
    proof {
        let q = voted_poll(p0, input.farcaster_id, input.vote);
        assert(poll@.tally =~= q.tally);
        assert(poll@.voted =~= q.voted);
        assert(poll@ == q);
    }
    assert(polls@ =~= before.update(
        idx as int,
        voted_poll(p0, input.farcaster_id, input.vote),
    ));
    Ok(())
}

pub struct PollCountResponse {
    pub poll_count: u64,
}

pub struct VoteCountResponse {
    pub vote_count: u64,
}

pub struct HasVotedResponse {
    pub has_voted: bool,
}

pub struct ResultsResponse {
    pub results: HashMap<u64, u64>,
}

pub struct PollResponse {
    pub poll: Poll,
}

/// The number of polls created so far.
pub fn query_poll_count(poll_count: u64) -> (r: PollCountResponse)
    ensures
        r.poll_count == poll_count,
{
    PollCountResponse { poll_count }
}

/// The stored `vote_count` of a poll. CastVote never raises that field, so it
/// stays 0; the counts themselves are in the tally (see `query_get_results`).
pub fn query_vote_count(polls: &Polls, poll_id: u64) -> (r: Result<VoteCountResponse, ContractError>)
    ensures
        poll_id < polls@.len() ==> (r matches Ok(v) && v.vote_count == polls@[poll_id as int].vote_count),
        poll_id >= polls@.len() ==> r matches Err(ContractError::PollNotFound),
{
    if poll_id >= polls.polls.len() as u64 {
        return Err(ContractError::PollNotFound);
    }
    Ok(VoteCountResponse { vote_count: polls.polls[poll_id as usize].vote_count })
}

/// Whether `farcaster_id` has voted on the poll.
pub fn query_check_voted(polls: &Polls, poll_id: u64, farcaster_id: u64) -> (r: Result<HasVotedResponse, ContractError>)
    ensures
        poll_id < polls@.len() ==> (r matches Ok(v) && v.has_voted == polls@[poll_id as int].voted.contains(farcaster_id)),
        poll_id >= polls@.len() ==> r matches Err(ContractError::PollNotFound),
{
    if poll_id >= polls.polls.len() as u64 {
        return Err(ContractError::PollNotFound);
    }
    let poll = &polls.polls[poll_id as usize];
    Ok(HasVotedResponse { has_voted: poll.has_voted.contains_key(&farcaster_id) })
}

/// A copy of the poll's tally: option to number of votes.
pub fn query_get_results(polls: &Polls, poll_id: u64) -> (r: Result<ResultsResponse, ContractError>)
    ensures
        poll_id < polls@.len() ==> (r matches Ok(v) && v.results@ == polls@[poll_id as int].tally),
        poll_id >= polls@.len() ==> r matches Err(ContractError::PollNotFound),
{
    if poll_id >= polls.polls.len() as u64 {
        return Err(ContractError::PollNotFound);
    }
    let poll = &polls.polls[poll_id as usize];
    Ok(ResultsResponse { results: poll.votes.clone() })
}

/// A copy of the whole poll record.
pub fn query_get_poll(polls: &Polls, poll_id: u64) -> (r: Result<PollResponse, ContractError>)
    ensures
        poll_id < polls@.len() ==> (r matches Ok(v) && v.poll@ == polls@[poll_id as int]),
        poll_id >= polls@.len() ==> r matches Err(ContractError::PollNotFound),
{
    if poll_id >= polls.polls.len() as u64 {
        return Err(ContractError::PollNotFound);
    }
    Ok(PollResponse { poll: polls.polls[poll_id as usize].duplicate() })
}

/// A read-only request.
pub enum QueryMsg {
    GetPollCount,
    GetVoteCount { poll_id: u64 },
    GetResults { poll_id: u64 },
    GetVoted { poll_id: u64, farcaster_id: u64 },
    GetPoll { poll_id: u64 },
}

/// The answer to a `QueryMsg`, one variant per request.
pub enum QueryAnswer {
    PollCount(PollCountResponse),
    VoteCount(VoteCountResponse),
    Results(ResultsResponse),
    Voted(HasVotedResponse),
    Poll(PollResponse),
}

/// The poll a query is about, if any.
pub open spec fn query_target(msg: QueryMsg) -> Option<u64> {
    match msg {
        QueryMsg::GetPollCount => None,
        QueryMsg::GetVoteCount { poll_id } => Some(poll_id),
        QueryMsg::GetResults { poll_id } => Some(poll_id),
        QueryMsg::GetVoted { poll_id, .. } => Some(poll_id),
        QueryMsg::GetPoll { poll_id } => Some(poll_id),
    }
}

/// Answers a read-only request from the counter and the ledger.
pub fn query(poll_count: u64, polls: &Polls, msg: QueryMsg) -> (r: Result<QueryAnswer, ContractError>)
    ensures
        (match query_target(msg) {
            Some(id) => id >= polls@.len(),
            None => false,
        }) <==> r == Err::<QueryAnswer, ContractError>(ContractError::PollNotFound),
        r is Err ==> r == Err::<QueryAnswer, ContractError>(ContractError::PollNotFound),
        r matches Ok(a) ==> match (msg, a) {
            (QueryMsg::GetPollCount, QueryAnswer::PollCount(v)) => v.poll_count == poll_count,
            (QueryMsg::GetVoteCount { poll_id }, QueryAnswer::VoteCount(v)) =>
                v.vote_count == polls@[poll_id as int].vote_count,
            (QueryMsg::GetResults { poll_id }, QueryAnswer::Results(v)) =>
                v.results@ == polls@[poll_id as int].tally,
            (QueryMsg::GetVoted { poll_id, farcaster_id }, QueryAnswer::Voted(v)) =>
                v.has_voted == polls@[poll_id as int].voted.contains(farcaster_id),
            (QueryMsg::GetPoll { poll_id }, QueryAnswer::Poll(v)) =>
                v.poll@ == polls@[poll_id as int],
            _ => false,
        },
{
    match msg {
        QueryMsg::GetPollCount => Ok(QueryAnswer::PollCount(query_poll_count(poll_count))),
        QueryMsg::GetVoteCount { poll_id } => match query_vote_count(polls, poll_id) {
            Ok(v) => Ok(QueryAnswer::VoteCount(v)),
            Err(e) => Err(e),
        },
        QueryMsg::GetResults { poll_id } => match query_get_results(polls, poll_id) {
            Ok(v) => Ok(QueryAnswer::Results(v)),
            Err(e) => Err(e),
        },
        QueryMsg::GetVoted { poll_id, farcaster_id } => match query_check_voted(polls, poll_id, farcaster_id) {
            Ok(v) => Ok(QueryAnswer::Voted(v)),
            Err(e) => Err(e),
        },
        QueryMsg::GetPoll { poll_id } => match query_get_poll(polls, poll_id) {
            Ok(v) => Ok(QueryAnswer::Poll(v)),
            Err(e) => Err(e),
        },
    }
}

/// Configuration handed over at initialization.
pub struct InstantiateMsg {
    pub gateway_address: String,
    pub gateway_hash: String,
    pub gateway_key: Vec<u8>,
}

/// Builds the gateway configuration; the key must be a secp256k1 public key
/// in SEC1 form.
pub fn instantiate(msg: InstantiateMsg) -> (r: Result<Gateway, ContractError>)
    ensures
        pubkey_format_ok(msg.gateway_key@) ==> (r matches Ok(g) && g.gateway_address@ == msg.gateway_address@
            && g.gateway_hash@ == msg.gateway_hash@ && g.gateway_key@ == msg.gateway_key@),
        !pubkey_format_ok(msg.gateway_key@) ==> r == Err::<Gateway, ContractError>(
            ContractError::InvalidGatewayKey,
        ),
{
    if !check_pubkey_format(msg.gateway_key.as_slice()) {
        return Err(ContractError::InvalidGatewayKey);
    }
    Ok(Gateway {
        gateway_address: msg.gateway_address,
        gateway_hash: msg.gateway_hash,
        gateway_key: msg.gateway_key,
    })
}

/// A relayed instruction: the signed digest, the signature, the operation tag
/// and the serialized payload.
pub struct PrivContractHandleMsg {
    pub input_hash: Vec<u8>,
    pub signature: Vec<u8>,
    pub handle: String,
    pub input_values: String,
}

/// The two mutating operations.
#[derive(PartialEq, Eq, Structural, Clone, Copy, Debug)]
pub enum Operation {
    CreatePoll,
    CastVote,
}

/// A decoded payload.
pub enum Instruction {
    CreatePoll(CreatePollInput),
    Vote(VoteInput),
}

/// What a successful instruction reports.
#[derive(PartialEq, Eq, Structural, Clone, Copy, Debug)]
pub enum ExecuteOutcome {
    PollCreated(u64),
    Voted,
}

pub open spec fn operation_of_tag(tag: Seq<char>) -> Option<Operation> {
    if tag == "create_proposal"@ {
        Some(Operation::CreatePoll)
    } else if tag == "create_vote"@ {
        Some(Operation::CastVote)
    } else {
        None
    }
}

/// The operation named by a tag of the wire format.
pub fn operation_of(tag: &String) -> (r: Option<Operation>)
    ensures
        r == operation_of_tag(tag@),
{
    let create = "create_proposal".to_owned();
    let vote = "create_vote".to_owned();
    if *tag == create {
        Some(Operation::CreatePoll)
    } else if *tag == vote {
        Some(Operation::CastVote)
    } else {
        None
    }
}

/// The signature of `msg` verifies against the gateway's key.
pub open spec fn is_authentic(gateway: &Gateway, msg: &PrivContractHandleMsg) -> bool {
    secp256k1_valid(msg.input_hash@, msg.signature@, gateway.gateway_key@)
}

/// The error met before any operation runs: signature, tag, then payload.
pub open spec fn dispatch_error(gateway: &Gateway, msg: &PrivContractHandleMsg, decoded: Option<Instruction>) -> Option<ContractError> {
    if !is_authentic(gateway, msg) {
        Some(ContractError::Unauthorized)
    } else {
        match operation_of_tag(msg.handle@) {
            None => Some(ContractError::UnsupportedOperation),
            Some(Operation::CreatePoll) => if decoded matches Some(Instruction::CreatePoll(_)) {
                None
            } else {
                Some(ContractError::DecodeError)
            },
            Some(Operation::CastVote) => if decoded matches Some(Instruction::Vote(_)) {
                None
            } else {
                Some(ContractError::DecodeError)
            },
        }
    }
}

/// What the machine's integer widths ask of a decoded payload.
pub open spec fn fits(poll_count: u64, polls: Seq<PollView>, decoded: Option<Instruction>) -> bool {
    match decoded {
        Some(Instruction::CreatePoll(_)) => poll_count < u64::MAX,
        Some(Instruction::Vote(v)) => tally_has_room(polls, v.poll_id, v.vote),
        None => true,
    }
}

/// Authenticates a relayed instruction, then routes it by its tag to poll
/// creation or voting. `decoded` is `msg.input_values` decoded for that tag,
/// `None` where it did not decode. On any error nothing changes.
pub fn execute(
    gateway: &Gateway,
    poll_count: &mut u64,
    polls: &mut Polls,
    now: u64,
    msg: &PrivContractHandleMsg,
    decoded: Option<Instruction>,
) -> (r: Result<ExecuteOutcome, ContractError>)
    requires
        fits(*old(poll_count), old(polls)@, decoded),
    ensures
        match dispatch_error(gateway, msg, decoded) {
            Some(e) => r == Err::<ExecuteOutcome, ContractError>(e) && *final(poll_count) == *old(poll_count)
                && final(polls)@ == old(polls)@,
            None => match decoded {
                Some(Instruction::CreatePoll(i)) => r == Ok::<ExecuteOutcome, ContractError>(
                    ExecuteOutcome::PollCreated(*old(poll_count)),
                ) && *final(poll_count) == *old(poll_count) + 1 && final(polls)@ == old(polls)@.push(
                    new_poll(*old(poll_count), i.poll_uri@, now, i.validity),
                ),
                Some(Instruction::Vote(v)) => *final(poll_count) == *old(poll_count) && match vote_error(
                    *old(poll_count),
                    old(polls)@,
                    now,
                    (v.poll_id, v.farcaster_id, v.vote),
                ) {
                    Some(e) => r == Err::<ExecuteOutcome, ContractError>(e) && final(polls)@ == old(polls)@,
                    None => r == Ok::<ExecuteOutcome, ContractError>(ExecuteOutcome::Voted) && final(polls)@
                        == old(polls)@.update(
                        v.poll_id as int,
                        voted_poll(old(polls)@[v.poll_id as int], v.farcaster_id, v.vote),
                    ),
                },
                None => false,
            },
        },
        ledger_wf(*old(poll_count), old(polls)@) ==> ledger_wf(*final(poll_count), final(polls)@),
{
    if !verify_signature(&msg.input_hash, &msg.signature, &gateway.gateway_key) {
        return Err(ContractError::Unauthorized);
    }
    match operation_of(&msg.handle) {
        None => Err(ContractError::UnsupportedOperation),
        Some(Operation::CreatePoll) => match decoded {
            Some(Instruction::CreatePoll(input)) => {
                let id = try_create_poll(poll_count, polls, now, input);
                Ok(ExecuteOutcome::PollCreated(id))
            },
            _ => Err(ContractError::DecodeError),
        },
        Some(Operation::CastVote) => match decoded {
            Some(Instruction::Vote(input)) => match try_vote(*poll_count, polls, now, input) {
                Ok(()) => Ok(ExecuteOutcome::Voted),
                Err(e) => Err(e),
            },
            _ => Err(ContractError::DecodeError),
        },
    }
}

} // verus!
