use job_platform::errors::{JobPlatformError, ProfileManagerError};
use job_platform::manager;
use job_platform::profile;

fn key(b: u8) -> Vec<u8> {
    vec![b; 32]
}

fn pid() -> Vec<u8> {
    vec![13u8; 32]
}

const T: i64 = 1_650_000_000;

#[test]
fn create_profile_sets_every_field() {
    let owner = key(1);
    let (addr, p, ev) = profile::create_profile(
        &pid(),
        &owner,
        vec![b"rust".to_vec(), b"sql".to_vec()],
        7,
        b"north".to_vec(),
        b"hi".to_vec(),
        T,
    )
    .unwrap();
    assert_eq!(addr.len(), 32);
    assert_eq!(p.owner, owner);
    assert_eq!(p.skills, vec![b"rust".to_vec(), b"sql".to_vec()]);
    assert_eq!(p.experience_years, 7);
    assert_eq!(p.region, b"north".to_vec());
    assert_eq!(p.bio, b"hi".to_vec());
    assert_eq!(p.created_at, T);
    assert!(p.is_public);
    assert_eq!(ev.owner, owner);
    assert_eq!(ev.created_at, T);
}

#[test]
fn create_profile_bounds() {
    let owner = key(1);
    let eleven: Vec<Vec<u8>> = (0..11).map(|i| vec![i as u8]).collect();
    let r = profile::create_profile(&pid(), &owner, eleven, 1, vec![], vec![], T);
    assert_eq!(r.unwrap_err(), JobPlatformError::TooManySkills);
    let r = profile::create_profile(&pid(), &owner, vec![], 1, vec![], vec![b'a'; 501], T);
    assert_eq!(r.unwrap_err(), JobPlatformError::BioTooLong);
    profile::create_profile(&pid(), &owner, vec![], 1, vec![], vec![b'a'; 500], T).unwrap();
}

#[test]
fn update_profile_applies_only_given_fields() {
    let owner = key(2);
    let (_addr, mut p, _ev) =
        profile::create_profile(&pid(), &owner, vec![], 1, vec![], b"old".to_vec(), T).unwrap();
    profile::update_profile(&mut p, None, Some(b"new".to_vec()), Some(false)).unwrap();
    assert_eq!(p.bio, b"new".to_vec());
    assert!(!p.is_public);
    assert_eq!(p.skills, Vec::<Vec<u8>>::new());
    profile::update_profile(&mut p, Some(vec![b"go".to_vec()]), None, None).unwrap();
    assert_eq!(p.skills, vec![b"go".to_vec()]);
    assert_eq!(p.bio, b"new".to_vec());
}

#[test]
fn update_profile_is_atomic_on_error() {
    let owner = key(2);
    let (_addr, mut p, _ev) =
        profile::create_profile(&pid(), &owner, vec![], 1, vec![], b"old".to_vec(), T).unwrap();
    // Valid skills together with an oversized bio: nothing may be written.
    let r = profile::update_profile(
        &mut p,
        Some(vec![b"go".to_vec()]),
        Some(vec![b'b'; 501]),
        Some(false),
    );
    assert_eq!(r.unwrap_err(), JobPlatformError::BioTooLong);
    assert_eq!(p.skills, Vec::<Vec<u8>>::new());
    assert_eq!(p.bio, b"old".to_vec());
    assert!(p.is_public);
}

#[test]
fn managed_profile_lowercases_handle() {
    let owner = key(3);
    let (_addr, p, ev) = manager::create_profile(
        &pid(),
        &owner,
        vec![],
        2,
        vec![],
        vec![],
        b"MiXeDCase".to_vec(),
        vec![],
        48,
        T,
    )
    .unwrap();
    assert_eq!(p.handle, b"mixedcase".to_vec());
    assert_eq!(ev.handle, b"mixedcase".to_vec());
    assert!(p.nft_mint.is_none());
    assert_eq!(p.response_time_hours, 48);
}

#[test]
fn managed_profile_handle_and_response_time_bounds() {
    let owner = key(3);
    let mk = |handle: Vec<u8>, hours: u16| {
        manager::create_profile(
            &pid(),
            &owner,
            vec![],
            2,
            vec![],
            vec![],
            handle,
            vec![],
            hours,
            T,
        )
    };
    assert_eq!(mk(b"ab".to_vec(), 24).unwrap_err(), ProfileManagerError::InvalidHandle);
    assert_eq!(mk(vec![b'h'; 31], 24).unwrap_err(), ProfileManagerError::InvalidHandle);
    assert_eq!(mk(b"abc".to_vec(), 0).unwrap_err(), ProfileManagerError::InvalidResponseTime);
    assert_eq!(mk(b"abc".to_vec(), 169).unwrap_err(), ProfileManagerError::InvalidResponseTime);
    mk(b"abc".to_vec(), 168).unwrap();
    mk(vec![b'h'; 30], 1).unwrap();
}

#[test]
fn managed_profile_update_checks_then_writes() {
    let owner = key(4);
    let (_addr, mut p, _ev) = manager::create_profile(
        &pid(),
        &owner,
        vec![],
        2,
        vec![],
        b"old".to_vec(),
        b"someone".to_vec(),
        vec![],
        24,
        T,
    )
    .unwrap();
    let tiers = vec![manager::ContactPriceTier { price: 5, description: b"quick".to_vec() }];
    manager::update_profile(&mut p, None, None, None, Some(tiers), Some(72)).unwrap();
    assert_eq!(p.response_time_hours, 72);
    assert_eq!(p.contact_prices.len(), 1);
    assert_eq!(p.contact_prices[0].price, 5);
    // An invalid response time leaves everything untouched.
    let r = manager::update_profile(&mut p, None, Some(b"new".to_vec()), None, None, Some(200));
    assert_eq!(r.unwrap_err(), ProfileManagerError::InvalidResponseTime);
    assert_eq!(p.bio, b"old".to_vec());
    assert_eq!(p.response_time_hours, 72);
}
