use scalar::committee::{Authority, Committee};
use scalar::vote_request::{VoteAction, VoteEvent, VoteRequest, VoteStage};
use scalar::vote_store::VoteDigestStore;
use scalar::fetch::{fetch_certificates, found_certificates, payload_availability, PayloadLookup};
use scalar::parent_digests::ParentDigests;
use scalar::primary::{
    admit_vote_request, certificate_reply, check_parents, decide_vote, digest_eq, error_status, header_time_check, record_vote,
    DagError, HeaderInfo, ParentCertificate, PeerError, RpcStatus, VoteDecision, VoteInfo,
};

fn authority(id: u16, stake: u64) -> Authority {
    Authority {
        id,
        stake,
        protocol_key: vec![id as u8, 0xaa],
        network_key: vec![id as u8, 0xbb],
        primary_address: format!("/ip4/127.0.0.1/udp/{}", 3000 + id),
    }
}

fn committee() -> Committee {
    Committee { epoch: 7, authorities: vec![authority(0, 1), authority(1, 1), authority(2, 1), authority(3, 1)] }
}

fn header(author: u16, round: u64) -> HeaderInfo {
    HeaderInfo { author, round, epoch: 7, created_at: 1_000, digest: [round as u8; 32] }
}

fn parent(origin: u16, round: u64) -> ParentCertificate {
    ParentCertificate { round, created_at: 900, origin, digest: [origin as u8; 32] }
}

#[test]
fn vote_requests_must_come_from_the_author() {
    let c = committee();
    let h = header(1, 5);
    assert!(matches!(admit_vote_request(&c, &h, 5, Some(&vec![1, 0xbb])), Err(DagError::TooManyParents(5, 4))));
    assert!(matches!(admit_vote_request(&c, &h, 3, None), Err(DagError::NetworkError(PeerError::MissingPeerId))));
    assert!(matches!(
        admit_vote_request(&c, &h, 3, Some(&vec![9, 9])),
        Err(DagError::NetworkError(PeerError::UnknownNetworkKey))
    ));
    assert!(matches!(
        admit_vote_request(&c, &h, 3, Some(&vec![2, 0xbb])),
        Err(DagError::NetworkError(PeerError::AuthorNotPeer))
    ));
    assert!(admit_vote_request(&c, &h, 3, Some(&vec![1, 0xbb])).is_ok());
}

#[test]
fn parents_need_a_quorum_of_the_previous_round() {
    let c = committee();
    let h = header(1, 5);
    assert!(check_parents(&c, &h, &vec![parent(0, 4), parent(1, 4), parent(2, 4)]).is_ok());
    assert!(matches!(
        check_parents(&c, &h, &vec![parent(0, 4), parent(1, 4)]),
        Err(DagError::HeaderRequiresQuorum(d)) if d == [5; 32]
    ));
    assert!(matches!(
        check_parents(&c, &h, &vec![parent(0, 4), parent(1, 3)]),
        Err(DagError::HeaderHasInvalidParentRoundNumbers(_))
    ));
    assert!(matches!(
        check_parents(&c, &h, &vec![parent(0, 4), parent(0, 4), parent(2, 4)]),
        Err(DagError::HeaderHasDuplicateParentAuthorities(_))
    ));
    let mut young = parent(2, 4);
    young.created_at = 2_000;
    assert!(matches!(
        check_parents(&c, &h, &vec![parent(0, 4), young]),
        Err(DagError::HeaderHasInvalidParentTimestamp(_))
    ));
    // Parents from authorities outside the committee carry no stake.
    assert!(matches!(
        check_parents(&c, &h, &vec![parent(0, 4), parent(1, 4), parent(9, 4)]),
        Err(DagError::HeaderRequiresQuorum(_))
    ));
}

#[test]
fn headers_from_the_near_future_are_waited_for() {
    assert!(matches!(header_time_check(1_000, 5_000), Ok(0)));
    assert!(matches!(header_time_check(1_500, 1_000), Ok(500)));
    assert!(matches!(header_time_check(1_999, 1_000), Ok(999)));
    assert!(matches!(
        header_time_check(2_000, 1_000),
        Err(DagError::InvalidTimestamp { created_time: 2_000, local_time: 1_000 })
    ));
}

#[test]
fn an_authority_votes_once_per_round() {
    let h = header(1, 5);
    assert!(matches!(decide_vote(&h, None, &[1; 32]), Ok(VoteDecision::Create)));
    let prior = record_vote(&h, &[1; 32]);
    assert!(matches!(decide_vote(&h, Some(&prior), &[1; 32]), Ok(VoteDecision::Resend)));
    assert!(matches!(
        decide_vote(&h, Some(&prior), &[2; 32]),
        Err(DagError::AlreadyVoted(old, new, 5)) if old == [1; 32] && new == [5; 32]
    ));
    let older = header(1, 4);
    assert!(matches!(decide_vote(&older, Some(&prior), &[3; 32]), Err(DagError::AlreadyVotedNewerHeader(_, 4, 5))));
    let newer = header(1, 6);
    assert!(matches!(decide_vote(&newer, Some(&prior), &[3; 32]), Ok(VoteDecision::Create)));
    let other_epoch = VoteInfo { epoch: 6, round: 5, vote_digest: [1; 32] };
    assert!(matches!(
        decide_vote(&h, Some(&other_epoch), &[1; 32]),
        Err(DagError::InvalidEpoch { expected: 7, received: 6 })
    ));
}

#[test]
fn unretriable_errors_are_bad_requests() {
    assert!(matches!(error_status(&DagError::HeaderRequiresQuorum([0; 32])), RpcStatus::BadRequest));
    assert!(matches!(error_status(&DagError::TooOld([0; 32], 1, 9)), RpcStatus::BadRequest));
    assert!(matches!(error_status(&DagError::InvalidEpoch { expected: 1, received: 2 }), RpcStatus::BadRequest));
    assert!(matches!(error_status(&DagError::InvalidTimestamp { created_time: 1, local_time: 0 }), RpcStatus::Unknown));
    assert!(matches!(error_status(&DagError::TooManyParents(5, 4)), RpcStatus::Unknown));
    assert!(matches!(error_status(&DagError::HeaderHasInvalidParentTimestamp([0; 32])), RpcStatus::Unknown));
}

#[test]
fn digests_compare_bytewise() {
    assert!(digest_eq(&[3; 32], &[3; 32]));
    let mut d = [3; 32];
    d[31] = 4;
    assert!(!digest_eq(&[3; 32], &d));
}

#[test]
fn old_headers_are_refused() {
    let mut p = ParentDigests::new();
    let h = header(1, 5);
    assert!(matches!(p.unknown_parent_digests(&h, 9, &vec![[1; 32]]), Err(DagError::TooOld(_, 5, 9))));
    assert!(p.get(4, &[1; 32]).is_none());
}

#[test]
fn a_parent_is_asked_from_one_proposer() {
    let mut p = ParentDigests::new();
    let h = header(1, 5);
    let missing = p.unknown_parent_digests(&h, 6, &vec![[1; 32], [2; 32], [1; 32]]).unwrap();
    assert_eq!(missing, vec![[1; 32], [2; 32]]);
    assert_eq!(p.get(4, &[1; 32]), Some(1));
    let other = header(2, 5);
    let again = p.unknown_parent_digests(&other, 6, &vec![[1; 32], [3; 32]]).unwrap();
    assert_eq!(again, vec![[3; 32]]);
    assert_eq!(p.get(4, &[3; 32]), Some(2));
    // Certificates sent along with a vote request are taken only from the
    // proposer they were asked from.
    let sent = vec![
        ParentCertificate { round: 4, created_at: 0, origin: 0, digest: [1; 32] },
        ParentCertificate { round: 4, created_at: 0, origin: 0, digest: [3; 32] },
    ];
    let accepted = p.requested_parents(&h, &sent);
    assert_eq!(accepted.len(), 1);
    assert_eq!(accepted[0].digest, [1; 32]);
}

#[test]
fn old_parent_digests_are_forgotten() {
    let mut p = ParentDigests::new();
    p.unknown_parent_digests(&header(1, 5), 5, &vec![[1; 32]]).unwrap();
    p.unknown_parent_digests(&header(1, 8), 8, &vec![[2; 32]]).unwrap();
    // At round 20 the limit is 17: parents below 16 go, and the header is too old.
    assert!(p.unknown_parent_digests(&header(1, 9), 20, &vec![]).is_err());
    p.forget_below(16);
    assert!(p.get(4, &[1; 32]).is_none());
    assert!(p.get(7, &[2; 32]).is_none());
}

#[test]
fn fetch_returns_missing_certificates_in_round_order() {
    let stored = vec![(2, 5), (1, 5), (1, 6), (1, 3), (2, 7), (3, 6)];
    let skips = vec![(1, vec![]), (2, vec![7])];
    let out = fetch_certificates(&stored, 4, &skips, 10);
    assert_eq!(out, vec![(1, 5), (2, 5), (1, 6)]);
    let limited = fetch_certificates(&stored, 4, &skips, 2);
    assert_eq!(limited, vec![(1, 5), (2, 5)]);
    assert!(fetch_certificates(&stored, 4, &skips, 0).is_empty());
    assert!(fetch_certificates(&stored, 10, &skips, 5).is_empty());
}

#[test]
fn payload_availability_per_certificate() {
    let digests = vec![[1; 32], [2; 32], [3; 32], [4; 32]];
    let lookups = vec![
        PayloadLookup::Batches(vec![true, true]),
        PayloadLookup::Batches(vec![true, false]),
        PayloadLookup::MissingCertificate,
        PayloadLookup::StoreError,
    ];
    let r = payload_availability(&digests, &lookups);
    assert_eq!(r, vec![([1; 32], true), ([2; 32], false), ([3; 32], false), ([4; 32], false)]);
    let empty_payload = payload_availability(&vec![[5; 32]], &vec![PayloadLookup::Batches(vec![])]);
    assert_eq!(empty_payload, vec![([5; 32], true)]);
}

#[test]
fn found_certificates_skip_the_missing() {
    assert_eq!(found_certificates(vec![Some(1), None, Some(3)]), vec![1, 3]);
    assert!(found_certificates::<u8>(vec![]).is_empty());
}

#[test]
fn sent_certificates_are_acknowledged() {
    assert_eq!(certificate_reply(&Ok(())), Some(true));
    assert_eq!(certificate_reply(&Err(DagError::Suspended)), Some(false));
    assert_eq!(certificate_reply(&Err(DagError::StoreError)), None);
}

#[test]
fn one_vote_per_author_and_round_across_requests() {
    let mut store = VoteDigestStore::new();
    assert!(store.read(1).is_none());
    assert_eq!(store.vote(&header(1, 5), &[9; 32]).unwrap(), VoteDecision::Create);
    let v = store.read(1).unwrap();
    assert_eq!((v.epoch, v.round, v.vote_digest), (7, 5, [9; 32]));
    assert_eq!(store.vote(&header(1, 5), &[9; 32]).unwrap(), VoteDecision::Resend);
    assert!(matches!(store.vote(&header(1, 5), &[8; 32]), Err(DagError::AlreadyVoted(d, _, 5)) if d == [9; 32]));
    assert_eq!(store.vote(&header(2, 5), &[8; 32]).unwrap(), VoteDecision::Create);
    assert_eq!(store.vote(&header(1, 6), &[7; 32]).unwrap(), VoteDecision::Create);
    assert!(matches!(store.vote(&header(1, 5), &[9; 32]), Err(DagError::AlreadyVotedNewerHeader(_, 5, 6))));
    assert_eq!(store.read(1).unwrap().vote_digest, [7; 32]);
    assert_eq!(store.read(2).unwrap().vote_digest, [8; 32]);
}

#[test]
fn a_vote_request_runs_through_its_stages() {
    let c = committee();
    let mut pd = ParentDigests::new();
    let mut votes = VoteDigestStore::new();
    let h = header(1, 5);
    let mut req = VoteRequest::new(h, false);
    assert!(matches!(req.step(&c, &mut pd, &mut votes, VoteEvent::Begin), VoteAction::FindUnknownParents));
    assert!(matches!(req.step(&c, &mut pd, &mut votes, VoteEvent::Waited), VoteAction::Ignore));
    let a = req.step(&c, &mut pd, &mut votes, VoteEvent::UnknownParents { narwhal_round: 5, digests: vec![] });
    assert!(matches!(a, VoteAction::ReadParentCertificates));
    let ps = vec![parent(0, 4), parent(1, 4), parent(2, 4)];
    assert!(matches!(req.step(&c, &mut pd, &mut votes, VoteEvent::ParentCertificates(ps)), VoteAction::SyncBatches));
    assert!(matches!(req.step(&c, &mut pd, &mut votes, VoteEvent::BatchesSynced), VoteAction::ReadClock));
    assert!(matches!(req.step(&c, &mut pd, &mut votes, VoteEvent::Clock(600)), VoteAction::Sleep(400)));
    assert!(matches!(req.step(&c, &mut pd, &mut votes, VoteEvent::Waited), VoteAction::StoreHeader));
    assert!(matches!(req.step(&c, &mut pd, &mut votes, VoteEvent::HeaderStored), VoteAction::SignVote));
    let a = req.step(&c, &mut pd, &mut votes, VoteEvent::VoteSigned([3; 32]));
    assert!(matches!(a, VoteAction::ReplyVote(VoteDecision::Create)));
    assert_eq!(req.stage, VoteStage::Done);
    assert_eq!(votes.read(1).unwrap().vote_digest, [3; 32]);
    assert!(matches!(req.step(&c, &mut pd, &mut votes, VoteEvent::Begin), VoteAction::Ignore));

    let mut again = VoteRequest::new(header(1, 5), false);
    again.step(&c, &mut pd, &mut votes, VoteEvent::Begin);
    let a = again.step(&c, &mut pd, &mut votes, VoteEvent::UnknownParents { narwhal_round: 5, digests: vec![[4; 32]] });
    assert!(matches!(a, VoteAction::ReplyMissing(m) if m == vec![[4; 32]]));
    assert_eq!(again.stage, VoteStage::Done);
}

#[test]
fn a_vote_request_answers_each_failure() {
    let c = committee();
    let mut pd = ParentDigests::new();
    let mut votes = VoteDigestStore::new();
    votes.write(1, VoteInfo { epoch: 7, round: 5, vote_digest: [1; 32] });
    let mut req = VoteRequest::new(header(1, 5), true);
    assert!(matches!(req.step(&c, &mut pd, &mut votes, VoteEvent::Begin), VoteAction::AcceptParents));
    assert!(matches!(req.step(&c, &mut pd, &mut votes, VoteEvent::ParentsAccepted), VoteAction::ReadParentCertificates));
    let ps = vec![parent(0, 4), parent(1, 4), parent(2, 4)];
    req.step(&c, &mut pd, &mut votes, VoteEvent::ParentCertificates(ps));
    req.step(&c, &mut pd, &mut votes, VoteEvent::BatchesSynced);
    assert!(matches!(req.step(&c, &mut pd, &mut votes, VoteEvent::Clock(2_000)), VoteAction::StoreHeader));
    req.step(&c, &mut pd, &mut votes, VoteEvent::HeaderStored);
    let a = req.step(&c, &mut pd, &mut votes, VoteEvent::VoteSigned([2; 32]));
    assert!(matches!(a, VoteAction::ReplyError(DagError::AlreadyVoted(_, _, 5))));

    let mut late = VoteRequest::new(header(2, 5), true);
    late.step(&c, &mut pd, &mut votes, VoteEvent::Begin);
    late.step(&c, &mut pd, &mut votes, VoteEvent::ParentsAccepted);
    let a = late.step(&c, &mut pd, &mut votes, VoteEvent::ParentCertificates(vec![parent(0, 4)]));
    assert!(matches!(a, VoteAction::ReplyError(DagError::HeaderRequiresQuorum(_))));

    let mut failed = VoteRequest::new(header(3, 5), true);
    failed.step(&c, &mut pd, &mut votes, VoteEvent::Begin);
    let a = failed.step(&c, &mut pd, &mut votes, VoteEvent::Failed(DagError::StoreError));
    assert!(matches!(a, VoteAction::ReplyError(DagError::StoreError)));
    assert_eq!(failed.stage, VoteStage::Done);

    let mut future = VoteRequest::new(header(3, 5), true);
    future.step(&c, &mut pd, &mut votes, VoteEvent::Begin);
    future.step(&c, &mut pd, &mut votes, VoteEvent::ParentsAccepted);
    future.step(&c, &mut pd, &mut votes, VoteEvent::ParentCertificates(vec![parent(0, 4), parent(1, 4), parent(2, 4)]));
    future.step(&c, &mut pd, &mut votes, VoteEvent::BatchesSynced);
    let a = future.step(&c, &mut pd, &mut votes, VoteEvent::Clock(0));
    assert!(matches!(a, VoteAction::ReplyError(DagError::InvalidTimestamp { created_time: 1_000, local_time: 0 })));
}

#[test]
fn a_vote_for_an_older_round_is_refused_before_signing() {
    let c = committee();
    let mut pd = ParentDigests::new();
    let mut votes = VoteDigestStore::new();
    votes.write(1, VoteInfo { epoch: 7, round: 6, vote_digest: [1; 32] });
    let mut req = VoteRequest::new(header(1, 5), true);
    req.step(&c, &mut pd, &mut votes, VoteEvent::Begin);
    req.step(&c, &mut pd, &mut votes, VoteEvent::ParentsAccepted);
    req.step(&c, &mut pd, &mut votes, VoteEvent::ParentCertificates(vec![parent(0, 4), parent(1, 4), parent(2, 4)]));
    req.step(&c, &mut pd, &mut votes, VoteEvent::BatchesSynced);
    req.step(&c, &mut pd, &mut votes, VoteEvent::Clock(2_000));
    let a = req.step(&c, &mut pd, &mut votes, VoteEvent::HeaderStored);
    assert!(matches!(a, VoteAction::ReplyError(DagError::AlreadyVotedNewerHeader(_, 5, 6))));
    assert_eq!(req.stage, VoteStage::Done);
}
