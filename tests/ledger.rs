use std::collections::HashMap;

use poll_ledger::auth::{check_pubkey_format, verify_signature};
use poll_ledger::contract::{
    execute, instantiate, operation_of, query, query_check_voted, query_get_poll, query_get_results,
    query_poll_count, query_vote_count, try_create_poll, try_vote, ContractError, CreatePollInput,
    ExecuteOutcome, InstantiateMsg, Instruction, Operation, PrivContractHandleMsg, QueryAnswer,
    QueryMsg, VoteInput,
};
use poll_ledger::state::{Gateway, Polls};
use sha2::{Digest, Sha256};

const PRIVATE_KEY: [u8; 32] = [7u8; 32];

fn digest(message: &[u8]) -> Vec<u8> {
    Sha256::digest(message).to_vec()
}

/// Signs `message` and returns (digest, signature, uncompressed public key).
fn signed(message: &[u8]) -> (Vec<u8>, Vec<u8>, Vec<u8>) {
    let hash = digest(message);
    let sig = secret_cosmwasm_crypto::secp256k1_sign(message, &PRIVATE_KEY).unwrap();
    for param in 0u8..2 {
        if let Ok(key) = secret_cosmwasm_crypto::secp256k1_recover_pubkey(&hash, &sig, param) {
            if secret_cosmwasm_crypto::secp256k1_verify(&hash, &sig, &key).unwrap() {
                return (hash, sig, key);
            }
        }
    }
    panic!("no public key recovered");
}

fn gateway_key() -> Vec<u8> {
    signed(b"key").2
}

fn gateway() -> Gateway {
    instantiate(InstantiateMsg {
        gateway_address: "secret1gateway".to_string(),
        gateway_hash: "abc123".to_string(),
        gateway_key: gateway_key(),
    })
    .unwrap()
}

fn message(handle: &str, input_values: &str) -> PrivContractHandleMsg {
    let (input_hash, signature, _) = signed(input_values.as_bytes());
    PrivContractHandleMsg {
        input_hash,
        signature,
        handle: handle.to_string(),
        input_values: input_values.to_string(),
    }
}

fn create(uri: &str, validity: u64) -> Option<Instruction> {
    Some(Instruction::CreatePoll(CreatePollInput { poll_uri: uri.to_string(), validity }))
}

fn vote(poll_id: u64, farcaster_id: u64, vote: u64) -> Option<Instruction> {
    Some(Instruction::Vote(VoteInput { poll_id, farcaster_id, vote }))
}

fn results(polls: &Polls, poll_id: u64) -> HashMap<u64, u64> {
    query_get_results(polls, poll_id).unwrap().results
}

fn voted(polls: &Polls, poll_id: u64, farcaster_id: u64) -> bool {
    query_check_voted(polls, poll_id, farcaster_id).unwrap().has_voted
}

#[test]
fn scenario_create_then_votes() {
    let gw = gateway();
    let mut count: u64 = 0;
    let mut polls = Polls::empty();
    let msg = message("create_proposal", "{\"poll_uri\":\"ipfs://x\",\"validity\":3600}");
    let r = execute(&gw, &mut count, &mut polls, 1000, &msg, create("ipfs://x", 3600));
    assert_eq!(r, Ok(ExecuteOutcome::PollCreated(0)));
    assert_eq!(query_poll_count(count).poll_count, 1);

    let msg = message("create_vote", "{\"poll_id\":0,\"farcaster_id\":42,\"vote\":1}");
    let r = execute(&gw, &mut count, &mut polls, 1500, &msg, vote(0, 42, 1));
    assert_eq!(r, Ok(ExecuteOutcome::Voted));
    assert_eq!(results(&polls, 0), HashMap::from([(1u64, 1u64)]));
    assert!(voted(&polls, 0, 42));

    let msg = message("create_vote", "{\"poll_id\":0,\"farcaster_id\":42,\"vote\":2}");
    let r = execute(&gw, &mut count, &mut polls, 1600, &msg, vote(0, 42, 2));
    assert_eq!(r, Err(ContractError::AlreadyVoted));
    assert_eq!(results(&polls, 0), HashMap::from([(1u64, 1u64)]));

    let msg = message("create_vote", "{\"poll_id\":0,\"farcaster_id\":7,\"vote\":1}");
    let r = execute(&gw, &mut count, &mut polls, 5000, &msg, vote(0, 7, 1));
    assert_eq!(r, Err(ContractError::VotingEnded));
    assert!(!voted(&polls, 0, 7));
}

#[test]
fn ids_are_sequential() {
    let mut count: u64 = 0;
    let mut polls = Polls::empty();
    for expected in 0u64..4 {
        let input = CreatePollInput { poll_uri: "ipfs://same".to_string(), validity: 10 };
        let id = try_create_poll(&mut count, &mut polls, 100 + expected, input);
        assert_eq!(id, expected);
    }
    assert_eq!(query_poll_count(count).poll_count, 4);
    assert_eq!(polls.polls.len(), 4);
    for i in 0u64..4 {
        let p = query_get_poll(&polls, i).unwrap().poll;
        assert_eq!(p.id, i);
        assert_eq!(p.created_at, 100 + i);
        assert_eq!(p.uri, "ipfs://same");
    }
}

#[test]
fn second_vote_is_refused() {
    let mut count: u64 = 0;
    let mut polls = Polls::empty();
    try_create_poll(&mut count, &mut polls, 0, CreatePollInput { poll_uri: "u".to_string(), validity: 100 });
    assert_eq!(try_vote(count, &mut polls, 10, VoteInput { poll_id: 0, farcaster_id: 5, vote: 3 }), Ok(()));
    assert_eq!(try_vote(count, &mut polls, 11, VoteInput { poll_id: 0, farcaster_id: 6, vote: 3 }), Ok(()));
    let before = results(&polls, 0);
    assert_eq!(before, HashMap::from([(3u64, 2u64)]));
    let r = try_vote(count, &mut polls, 12, VoteInput { poll_id: 0, farcaster_id: 5, vote: 9 });
    assert_eq!(r, Err(ContractError::AlreadyVoted));
    assert_eq!(results(&polls, 0), before);
    try_create_poll(&mut count, &mut polls, 20, CreatePollInput { poll_uri: "v".to_string(), validity: 100 });
    assert!(voted(&polls, 0, 5));
    assert!(!voted(&polls, 1, 5));
}

#[test]
fn window_is_inclusive_and_then_closes() {
    let mut count: u64 = 0;
    let mut polls = Polls::empty();
    try_create_poll(&mut count, &mut polls, 1000, CreatePollInput { poll_uri: "u".to_string(), validity: 3600 });
    assert_eq!(try_vote(count, &mut polls, 4600, VoteInput { poll_id: 0, farcaster_id: 1, vote: 0 }), Ok(()));
    let r = try_vote(count, &mut polls, 4601, VoteInput { poll_id: 0, farcaster_id: 2, vote: 0 });
    assert_eq!(r, Err(ContractError::VotingEnded));
    assert_eq!(results(&polls, 0), HashMap::from([(0u64, 1u64)]));
    assert!(!voted(&polls, 0, 2));
}

#[test]
fn window_near_the_top_of_time() {
    let mut count: u64 = 0;
    let mut polls = Polls::empty();
    try_create_poll(&mut count, &mut polls, u64::MAX - 5, CreatePollInput { poll_uri: "u".to_string(), validity: u64::MAX });
    assert_eq!(try_vote(count, &mut polls, u64::MAX, VoteInput { poll_id: 0, farcaster_id: 1, vote: 0 }), Ok(()));
}

#[test]
fn vote_on_unknown_poll_changes_nothing() {
    let mut count: u64 = 0;
    let mut polls = Polls::empty();
    try_create_poll(&mut count, &mut polls, 0, CreatePollInput { poll_uri: "u".to_string(), validity: 100 });
    let r = try_vote(count, &mut polls, 1, VoteInput { poll_id: 1, farcaster_id: 1, vote: 0 });
    assert_eq!(r, Err(ContractError::InvalidPollId));
    assert_eq!(count, 1);
    assert_eq!(polls.polls.len(), 1);
    assert!(results(&polls, 0).is_empty());
}

#[test]
fn counter_ahead_of_ledger_gives_not_found() {
    let mut polls = Polls::empty();
    let r = try_vote(3, &mut polls, 1, VoteInput { poll_id: 1, farcaster_id: 1, vote: 0 });
    assert_eq!(r, Err(ContractError::PollNotFound));
}

#[test]
fn bad_signature_is_unauthorized() {
    let gw = gateway();
    let mut count: u64 = 0;
    let mut polls = Polls::empty();
    let mut msg = message("create_proposal", "{\"poll_uri\":\"u\",\"validity\":1}");
    msg.input_hash[0] ^= 1;
    let r = execute(&gw, &mut count, &mut polls, 0, &msg, create("u", 1));
    assert_eq!(r, Err(ContractError::Unauthorized));
    assert_eq!(count, 0);
    assert!(polls.polls.is_empty());

    let mut msg = message("create_vote", "{}");
    msg.signature.truncate(10);
    let r = execute(&gw, &mut count, &mut polls, 0, &msg, vote(0, 1, 1));
    assert_eq!(r, Err(ContractError::Unauthorized));

    let msg = message("bogus", "{}");
    let other = Gateway { gateway_address: "x".to_string(), gateway_hash: "y".to_string(), gateway_key: vec![2u8; 33] };
    let r = execute(&other, &mut count, &mut polls, 0, &msg, None);
    assert_eq!(r, Err(ContractError::Unauthorized));
}

#[test]
fn unknown_tag_and_bad_payload() {
    let gw = gateway();
    let mut count: u64 = 0;
    let mut polls = Polls::empty();
    let msg = message("delete_poll", "{}");
    assert_eq!(execute(&gw, &mut count, &mut polls, 0, &msg, None), Err(ContractError::UnsupportedOperation));
    let msg = message("create_proposal", "not json");
    assert_eq!(execute(&gw, &mut count, &mut polls, 0, &msg, None), Err(ContractError::DecodeError));
    let msg = message("create_vote", "{\"poll_uri\":\"u\",\"validity\":1}");
    assert_eq!(execute(&gw, &mut count, &mut polls, 0, &msg, create("u", 1)), Err(ContractError::DecodeError));
    assert_eq!(count, 0);
    assert!(polls.polls.is_empty());
}

#[test]
fn tags_map_to_operations() {
    assert_eq!(operation_of(&"create_proposal".to_string()), Some(Operation::CreatePoll));
    assert_eq!(operation_of(&"create_vote".to_string()), Some(Operation::CastVote));
    assert_eq!(operation_of(&"create_votes".to_string()), None);
    assert_eq!(operation_of(&String::new()), None);
}

#[test]
fn signature_check() {
    let (hash, sig, key) = signed(b"payload");
    assert!(verify_signature(&hash, &sig, &key));
    let mut other = hash.clone();
    other[31] ^= 0x80;
    assert!(!verify_signature(&other, &sig, &key));
    assert!(!verify_signature(&hash[..31].to_vec(), &sig, &key));
}

#[test]
fn queries_past_the_ledger() {
    let mut count: u64 = 0;
    let mut polls = Polls::empty();
    assert_eq!(query_poll_count(count).poll_count, 0);
    assert_eq!(query_vote_count(&polls, 0).err(), Some(ContractError::PollNotFound));
    assert_eq!(query_check_voted(&polls, 0, 1).err(), Some(ContractError::PollNotFound));
    assert_eq!(query_get_results(&polls, 0).err(), Some(ContractError::PollNotFound));
    assert_eq!(query_get_poll(&polls, 0).err(), Some(ContractError::PollNotFound));
    try_create_poll(&mut count, &mut polls, 0, CreatePollInput { poll_uri: "u".to_string(), validity: 9 });
    assert!(query_get_poll(&polls, 0).is_ok());
    assert_eq!(query_get_poll(&polls, 1).err(), Some(ContractError::PollNotFound));
    assert!(matches!(query(count, &polls, QueryMsg::GetPoll { poll_id: 5 }), Err(ContractError::PollNotFound)));
}

#[test]
fn query_dispatch() {
    let mut count: u64 = 0;
    let mut polls = Polls::empty();
    try_create_poll(&mut count, &mut polls, 0, CreatePollInput { poll_uri: "u".to_string(), validity: 9 });
    try_vote(count, &mut polls, 1, VoteInput { poll_id: 0, farcaster_id: 4, vote: 2 }).unwrap();
    match query(count, &polls, QueryMsg::GetPollCount) {
        Ok(QueryAnswer::PollCount(r)) => assert_eq!(r.poll_count, 1),
        _ => panic!("wrong answer"),
    }
    match query(count, &polls, QueryMsg::GetVoted { poll_id: 0, farcaster_id: 4 }) {
        Ok(QueryAnswer::Voted(r)) => assert!(r.has_voted),
        _ => panic!("wrong answer"),
    }
    match query(count, &polls, QueryMsg::GetResults { poll_id: 0 }) {
        Ok(QueryAnswer::Results(r)) => assert_eq!(r.results, HashMap::from([(2u64, 1u64)])),
        _ => panic!("wrong answer"),
    }
    match query(count, &polls, QueryMsg::GetVoteCount { poll_id: 0 }) {
        Ok(QueryAnswer::VoteCount(r)) => assert_eq!(r.vote_count, 0),
        _ => panic!("wrong answer"),
    }
    match query(count, &polls, QueryMsg::GetPoll { poll_id: 0 }) {
        Ok(QueryAnswer::Poll(r)) => {
            assert_eq!(r.poll.uri, "u");
            assert!(r.poll.has_voted.contains_key(&4));
        }
        _ => panic!("wrong answer"),
    }
}

#[test]
fn instantiate_checks_key_shape() {
    let key = gateway_key();
    assert_eq!(key.len(), 65);
    let gw = gateway();
    assert_eq!(gw.gateway_key, key);
    assert_eq!(gw.gateway_hash, "abc123");
    let bad = instantiate(InstantiateMsg {
        gateway_address: "a".to_string(),
        gateway_hash: "h".to_string(),
        gateway_key: vec![5u8; 33],
    });
    assert_eq!(bad.err(), Some(ContractError::InvalidGatewayKey));
}

#[test]
fn pubkey_shapes() {
    assert!(check_pubkey_format(&[2u8; 33]));
    assert!(check_pubkey_format(&[3u8; 33]));
    let mut long = vec![0u8; 65];
    long[0] = 4;
    assert!(check_pubkey_format(&long));
    assert!(!check_pubkey_format(&[4u8; 33]));
    assert!(!check_pubkey_format(&[2u8; 65]));
    assert!(!check_pubkey_format(&[]));
}

#[test]
fn error_messages() {
    assert_eq!(ContractError::InvalidPollId.message(), "Invalid poll id");
    assert_eq!(ContractError::VotingEnded.message(), "Voting has ended");
    assert_eq!(ContractError::AlreadyVoted.message(), "Already voted");
    assert_eq!(ContractError::PollNotFound.message(), "Poll not found");
    assert_eq!(ContractError::UnsupportedOperation.message(), "invalid handle");
}
