use job_platform::errors::{error_class, ErrorClass, JobPlatformError};
use job_platform::offer::EscrowBank;
use job_platform::profile::create_profile;
use job_platform::scout::{
    get_scout_offer, reclaim_scout_offer, respond_to_scout, send_scout_offer, ScoutStatus,
};
use job_platform::addressing::derive_pair_address;
use job_platform::scout::scout_tag_bytes;

fn key(b: u8) -> Vec<u8> {
    vec![b; 32]
}

fn pid() -> Vec<u8> {
    vec![7u8; 32]
}

const T: i64 = 1_700_000_000;
const WEEK: i64 = 604_800;

/// A bank with a funded recruiter (key 1) and a profile owned by key 2.
fn setup() -> (EscrowBank, Vec<u8>, Vec<u8>, job_platform::profile::Profile, Vec<u8>) {
    let mut bank = EscrowBank::new();
    let recruiter = key(1);
    let owner = key(2);
    bank.deposit(&recruiter, 10_000_000).unwrap();
    let (profile_addr, profile, _ev) = create_profile(
        &pid(),
        &owner,
        vec![b"rust".to_vec()],
        3,
        b"earth".to_vec(),
        b"a bio".to_vec(),
        T - 50,
    )
    .unwrap();
    (bank, recruiter, owner, profile, profile_addr)
}

#[test]
fn open_moves_amount_into_escrow() {
    let (mut bank, recruiter, _owner, _profile, profile_addr) = setup();
    let ev = send_scout_offer(
        &mut bank,
        &pid(),
        &recruiter,
        &profile_addr,
        b"join us".to_vec(),
        2_000_000,
        T,
    )
    .unwrap();
    assert_eq!(ev.recruiter, recruiter);
    assert_eq!(ev.target_profile, profile_addr);
    assert_eq!(ev.incentive_amount, 2_000_000);
    // The opener's spendable balance drops by exactly the amount and the
    // record's custodied balance equals it.
    assert_eq!(bank.balance_of(&recruiter), 8_000_000);
    assert_eq!(bank.balance_of(&ev.scout_offer_id), 2_000_000);
    assert!(bank.contains_offer(&ev.scout_offer_id));
    assert_eq!(
        bank.offer_status(&ev.scout_offer_id),
        Some(job_platform::offer::OfferStatus::Pending)
    );
    let offer = get_scout_offer(&bank, &ev.scout_offer_id).unwrap();
    assert_eq!(offer.status, ScoutStatus::Pending);
    assert_eq!(offer.created_at, T);
    assert_eq!(offer.expires_at, T + WEEK);
    assert_eq!(offer.incentive_amount, 2_000_000);
    assert_eq!(offer.message, b"join us".to_vec());
}

#[test]
fn accept_pays_target_and_is_final() {
    let (mut bank, recruiter, owner, profile, profile_addr) = setup();
    let ev = send_scout_offer(
        &mut bank,
        &pid(),
        &recruiter,
        &profile_addr,
        b"offer".to_vec(),
        2_000_000,
        T,
    )
    .unwrap();
    let id = ev.scout_offer_id;
    let rev = respond_to_scout(
        &mut bank,
        &pid(),
        &id,
        &profile,
        &profile_addr,
        &owner,
        true,
        T + 100,
    )
    .unwrap();
    assert!(rev.accepted);
    assert_eq!(rev.scout_offer_id, id);
    assert_eq!(bank.balance_of(&owner), 2_000_000);
    assert_eq!(bank.balance_of(&id), 0);
    assert_eq!(get_scout_offer(&bank, &id).unwrap().status, ScoutStatus::Accepted);
    // A second response of either kind fails with the state error.
    let again_accept =
        respond_to_scout(&mut bank, &pid(), &id, &profile, &profile_addr, &owner, true, T + 200);
    assert_eq!(again_accept.unwrap_err(), JobPlatformError::ScoutOfferNotPending);
    let again_reject =
        respond_to_scout(&mut bank, &pid(), &id, &profile, &profile_addr, &owner, false, T + 200);
    assert_eq!(again_reject.unwrap_err(), JobPlatformError::ScoutOfferNotPending);
    assert_eq!(bank.balance_of(&owner), 2_000_000);
    assert_eq!(get_scout_offer(&bank, &id).unwrap().status, ScoutStatus::Accepted);
}

#[test]
fn reject_refunds_opener_and_is_final() {
    let (mut bank, recruiter, owner, profile, profile_addr) = setup();
    let ev = send_scout_offer(
        &mut bank,
        &pid(),
        &recruiter,
        &profile_addr,
        b"offer".to_vec(),
        2_000_000,
        T,
    )
    .unwrap();
    let id = ev.scout_offer_id;
    let rev = respond_to_scout(
        &mut bank,
        &pid(),
        &id,
        &profile,
        &profile_addr,
        &owner,
        false,
        T + 100,
    )
    .unwrap();
    assert!(!rev.accepted);
    assert_eq!(bank.balance_of(&recruiter), 10_000_000);
    assert_eq!(bank.balance_of(&owner), 0);
    assert_eq!(bank.balance_of(&id), 0);
    assert_eq!(get_scout_offer(&bank, &id).unwrap().status, ScoutStatus::Rejected);
    let again =
        respond_to_scout(&mut bank, &pid(), &id, &profile, &profile_addr, &owner, false, T + 200);
    assert_eq!(again.unwrap_err(), JobPlatformError::ScoutOfferNotPending);
}

#[test]
fn respond_after_expiry_fails_with_temporal_error() {
    let (mut bank, recruiter, owner, profile, profile_addr) = setup();
    let ev = send_scout_offer(
        &mut bank,
        &pid(),
        &recruiter,
        &profile_addr,
        b"offer".to_vec(),
        2_000_000,
        T,
    )
    .unwrap();
    let id = ev.scout_offer_id;
    // 700000 seconds after T lies beyond the 604800-second window.
    for accept in [true, false] {
        let r = respond_to_scout(
            &mut bank,
            &pid(),
            &id,
            &profile,
            &profile_addr,
            &owner,
            accept,
            T + 700_000,
        );
        let e = r.unwrap_err();
        assert_eq!(e, JobPlatformError::ScoutOfferExpired);
        assert_eq!(error_class(e), ErrorClass::Temporal);
    }
    // Status and balance are untouched.
    assert_eq!(get_scout_offer(&bank, &id).unwrap().status, ScoutStatus::Pending);
    assert_eq!(bank.balance_of(&id), 2_000_000);
}

#[test]
fn respond_at_exact_deadline_fails() {
    let (mut bank, recruiter, owner, profile, profile_addr) = setup();
    let id = send_scout_offer(
        &mut bank,
        &pid(),
        &recruiter,
        &profile_addr,
        b"offer".to_vec(),
        2_000_000,
        T,
    )
    .unwrap()
    .scout_offer_id;
    let r = respond_to_scout(
        &mut bank,
        &pid(),
        &id,
        &profile,
        &profile_addr,
        &owner,
        true,
        T + WEEK,
    );
    assert_eq!(r.unwrap_err(), JobPlatformError::ScoutOfferExpired);
}

#[test]
fn respond_by_wrong_signer_fails_with_authorization_error() {
    let (mut bank, recruiter, _owner, profile, profile_addr) = setup();
    let id = send_scout_offer(
        &mut bank,
        &pid(),
        &recruiter,
        &profile_addr,
        b"offer".to_vec(),
        2_000_000,
        T,
    )
    .unwrap()
    .scout_offer_id;
    let stranger = key(9);
    let r = respond_to_scout(
        &mut bank,
        &pid(),
        &id,
        &profile,
        &profile_addr,
        &stranger,
        true,
        T + 100,
    );
    let e = r.unwrap_err();
    assert_eq!(e, JobPlatformError::NotAuthorized);
    assert_eq!(error_class(e), ErrorClass::Authorization);
    assert_eq!(get_scout_offer(&bank, &id).unwrap().status, ScoutStatus::Pending);
    assert_eq!(bank.balance_of(&id), 2_000_000);
}

#[test]
fn respond_against_other_profile_fails_with_authorization_error() {
    let (mut bank, recruiter, _owner, _profile, profile_addr) = setup();
    let id = send_scout_offer(
        &mut bank,
        &pid(),
        &recruiter,
        &profile_addr,
        b"offer".to_vec(),
        2_000_000,
        T,
    )
    .unwrap()
    .scout_offer_id;
    // A different identity with its own (valid) profile is still not the
    // recorded target.
    let stranger = key(9);
    let (other_addr, other_profile, _ev) = create_profile(
        &pid(),
        &stranger,
        vec![],
        1,
        b"moon".to_vec(),
        b"b".to_vec(),
        T - 10,
    )
    .unwrap();
    let r = respond_to_scout(
        &mut bank,
        &pid(),
        &id,
        &other_profile,
        &other_addr,
        &stranger,
        true,
        T + 100,
    );
    let e = r.unwrap_err();
    assert_eq!(error_class(e), ErrorClass::Authorization);
    assert_eq!(bank.balance_of(&id), 2_000_000);
}

#[test]
fn message_length_bound_is_500_bytes() {
    let (mut bank, recruiter, _owner, _profile, profile_addr) = setup();
    let long = vec![b'x'; 501];
    let r = send_scout_offer(&mut bank, &pid(), &recruiter, &profile_addr, long, 2_000_000, T);
    let e = r.unwrap_err();
    assert_eq!(e, JobPlatformError::MessageTooLong);
    assert_eq!(error_class(e), ErrorClass::Validation);
    let exact = vec![b'x'; 500];
    send_scout_offer(&mut bank, &pid(), &recruiter, &profile_addr, exact, 2_000_000, T).unwrap();
}

#[test]
fn amount_below_minimum_is_rejected() {
    let (mut bank, recruiter, _owner, _profile, profile_addr) = setup();
    let r = send_scout_offer(
        &mut bank,
        &pid(),
        &recruiter,
        &profile_addr,
        b"m".to_vec(),
        999_999,
        T,
    );
    assert_eq!(r.unwrap_err(), JobPlatformError::IncentiveTooLow);
    send_scout_offer(&mut bank, &pid(), &recruiter, &profile_addr, b"m".to_vec(), 1_000_000, T)
        .unwrap();
}

#[test]
fn open_without_funds_fails_and_moves_nothing() {
    let (mut bank, _recruiter, _owner, _profile, profile_addr) = setup();
    let poor = key(5);
    let r = send_scout_offer(&mut bank, &pid(), &poor, &profile_addr, b"m".to_vec(), 2_000_000, T);
    assert_eq!(r.unwrap_err(), JobPlatformError::InsufficientFunds);
    assert_eq!(bank.balance_of(&poor), 0);
}

#[test]
fn second_open_for_same_pair_fails() {
    let (mut bank, recruiter, _owner, _profile, profile_addr) = setup();
    send_scout_offer(&mut bank, &pid(), &recruiter, &profile_addr, b"a".to_vec(), 2_000_000, T)
        .unwrap();
    let r = send_scout_offer(
        &mut bank,
        &pid(),
        &recruiter,
        &profile_addr,
        b"b".to_vec(),
        2_000_000,
        T + 1,
    );
    assert_eq!(r.unwrap_err(), JobPlatformError::OfferAlreadyExists);
    assert_eq!(bank.balance_of(&recruiter), 8_000_000);
}

#[test]
fn derived_offer_address_is_deterministic_and_fresh() {
    let recruiter = key(1);
    let target = key(2);
    let a = derive_pair_address(&scout_tag_bytes(), &recruiter, &target, &pid()).unwrap();
    let b = derive_pair_address(&scout_tag_bytes(), &recruiter, &target, &pid()).unwrap();
    assert_eq!(a.0, b.0);
    assert_eq!(a.1, b.1);
    assert_eq!(a.0.len(), 32);
    // The derivation really mixes its inputs: the address is none of them.
    assert_ne!(a.0, recruiter);
    assert_ne!(a.0, target);
    let c = derive_pair_address(&scout_tag_bytes(), &target, &recruiter, &pid()).unwrap();
    assert_ne!(a.0, c.0);
}

#[test]
fn reclaim_before_deadline_fails_after_deadline_refunds() {
    let (mut bank, recruiter, _owner, _profile, profile_addr) = setup();
    let id = send_scout_offer(
        &mut bank,
        &pid(),
        &recruiter,
        &profile_addr,
        b"offer".to_vec(),
        2_000_000,
        T,
    )
    .unwrap()
    .scout_offer_id;
    let early = reclaim_scout_offer(&mut bank, &pid(), &id, T + WEEK - 1);
    assert_eq!(early.unwrap_err(), JobPlatformError::ScoutOfferNotExpired);
    assert_eq!(bank.balance_of(&id), 2_000_000);
    let released = reclaim_scout_offer(&mut bank, &pid(), &id, T + WEEK).unwrap();
    assert_eq!(released, 2_000_000);
    assert_eq!(bank.balance_of(&recruiter), 10_000_000);
    assert_eq!(bank.balance_of(&id), 0);
    assert_eq!(get_scout_offer(&bank, &id).unwrap().status, ScoutStatus::Expired);
    // A reclaimed record is terminal too.
    let again = reclaim_scout_offer(&mut bank, &pid(), &id, T + WEEK + 1);
    assert_eq!(again.unwrap_err(), JobPlatformError::ScoutOfferNotPending);
}

#[test]
fn respond_to_missing_offer_fails() {
    let (mut bank, _recruiter, owner, profile, profile_addr) = setup();
    let missing_id = key(42);
    let r = respond_to_scout(
        &mut bank,
        &pid(),
        &missing_id,
        &profile,
        &profile_addr,
        &owner,
        true,
        T,
    );
    assert_eq!(r.unwrap_err(), JobPlatformError::OfferNotFound);
}

#[test]
fn deposit_overflow_is_refused() {
    let mut bank = job_platform::offer::EscrowBank::new();
    let rich = key(8);
    bank.deposit(&rich, u64::MAX).unwrap();
    let r = bank.deposit(&rich, 1);
    assert_eq!(r.unwrap_err(), JobPlatformError::BalanceOverflow);
    assert_eq!(bank.balance_of(&rich), u64::MAX);
}

#[test]
fn open_near_the_end_of_time_is_refused() {
    let (mut bank, recruiter, _owner, _profile, profile_addr) = setup();
    let r = send_scout_offer(
        &mut bank,
        &pid(),
        &recruiter,
        &profile_addr,
        b"m".to_vec(),
        2_000_000,
        i64::MAX - 1,
    );
    assert_eq!(r.unwrap_err(), JobPlatformError::TimestampOverflow);
    assert_eq!(bank.balance_of(&recruiter), 10_000_000);
}
