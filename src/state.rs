use std::collections::HashMap;
use vstd::prelude::*;

verus! {

broadcast use vstd::std_specs::hash::group_hash_axioms;

/// Abstract value of a poll: the tally as a map, the voters as a set.
pub struct PollView {
    pub id: u64,
    pub uri: Seq<char>,
    pub created_at: u64,
    pub validity: u64,
    pub tally: Map<u64, u64>,
    pub voted: Set<u64>,
    pub vote_count: u64,
}

/// One proposal with its tally and the identifiers of those who voted on it.
///
/// `created_at` is the block time of creation, in seconds.
pub struct Poll {
    pub id: u64,
    pub uri: String,
    pub created_at: u64,
    pub validity: u64,
    pub votes: HashMap<u64, u64>,
    pub has_voted: HashMap<u64, bool>,
    pub vote_count: u64,
}

impl View for Poll {
    type V = PollView;

    open spec fn view(&self) -> PollView {
        PollView {
            id: self.id,
            uri: self.uri@,
            created_at: self.created_at,
            validity: self.validity,
            tally: self.votes@,
            voted: self.has_voted@.dom(),
            vote_count: self.vote_count,
        }
    }
}

impl Poll {
    /// A copy of the poll, field by field.
    pub fn duplicate(&self) -> (r: Poll)
        ensures
            r@ == self@,
    {
        Poll {
            id: self.id,
            uri: self.uri.clone(),
            created_at: self.created_at,
            validity: self.validity,
            votes: self.votes.clone(),
            has_voted: self.has_voted.clone(),
            vote_count: self.vote_count,
        }
    }
}

/// The ledger's ordered sequence of polls.
pub struct Polls {
    pub polls: Vec<Poll>,
}

impl View for Polls {
    type V = Seq<PollView>;

    open spec fn view(&self) -> Seq<PollView> {
        self.polls@.map_values(|p: Poll| p@)
    }
}

impl Polls {
    /// The ledger as stored before any poll exists.
    pub fn empty() -> (r: Polls)
        ensures
            r@ == Seq::<PollView>::empty(),
    {
        let r = Polls { polls: Vec::new() };
        assert(r@ =~= Seq::<PollView>::empty());
        r
    }
}

/// The trusted gateway: its address, the code hash of the relay and its verification key.
pub struct Gateway {
    pub gateway_address: String,
    pub gateway_hash: String,
    pub gateway_key: Vec<u8>,
}

/// A tally only holds options that received at least one vote.
pub open spec fn tally_wf(tally: Map<u64, u64>) -> bool {
    forall|k: u64| #[trigger] tally.contains_key(k) ==> tally[k] >= 1
}

/// The counter equals the number of polls, each poll's id is its index,
/// and every tally holds only options that were voted for.
pub open spec fn ledger_wf(poll_count: u64, polls: Seq<PollView>) -> bool {
    &&& poll_count == polls.len()
    &&& forall|i: int| 0 <= i < polls.len() ==> (#[trigger] polls[i]).id == i
    &&& forall|i: int| 0 <= i < polls.len() ==> tally_wf((#[trigger] polls[i]).tally)
}

/// The poll freshly appended at `id`: empty tally and voters, no votes counted.
pub open spec fn new_poll(id: u64, uri: Seq<char>, now: u64, validity: u64) -> PollView {
    PollView {
        id,
        uri,
        created_at: now,
        validity,
        tally: Map::empty(),
        voted: Set::empty(),
        vote_count: 0,
    }
}

} // verus!
