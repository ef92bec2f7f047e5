use job_platform::errors::{error_class, ErrorClass, JobPlatformError};
use job_platform::jobs::{
    apply_to_job, create_job, update_application_status, ApplicationStatus,
};
use job_platform::profile::create_profile;

fn key(b: u8) -> Vec<u8> {
    vec![b; 32]
}

fn pid() -> Vec<u8> {
    vec![21u8; 32]
}

const T: i64 = 1_680_000_000;
const DAY: i64 = 86_400;

#[test]
fn create_job_sets_deadline_from_days() {
    let recruiter = key(1);
    let (addr, job, ev) = create_job(
        &pid(),
        &recruiter,
        b"engineer".to_vec(),
        b"build things".to_vec(),
        vec![b"rust".to_vec()],
        1000,
        2000,
        30,
        1,
        T,
    )
    .unwrap();
    assert_eq!(addr.len(), 32);
    assert_eq!(job.recruiter, recruiter);
    assert_eq!(job.title, b"engineer".to_vec());
    assert_eq!(job.created_at, T);
    assert_eq!(job.deadline, T + 30 * DAY);
    assert!(job.is_active);
    assert_eq!(job.application_count, 0);
    assert_eq!(ev.job_id, addr);
    assert_eq!(ev.title, b"engineer".to_vec());
}

#[test]
fn create_job_validation_errors() {
    let recruiter = key(1);
    let mk = |title_len: usize, min: u64, max: u64, days: u16| {
        create_job(
            &pid(),
            &recruiter,
            vec![b't'; title_len],
            vec![],
            vec![],
            min,
            max,
            days,
            1,
            T,
        )
    };
    assert_eq!(mk(101, 0, 0, 10).unwrap_err(), JobPlatformError::TitleTooLong);
    assert_eq!(mk(100, 5, 4, 10).unwrap_err(), JobPlatformError::InvalidSalaryRange);
    assert_eq!(mk(100, 4, 5, 0).unwrap_err(), JobPlatformError::InvalidDeadline);
    assert_eq!(mk(100, 4, 5, 366).unwrap_err(), JobPlatformError::InvalidDeadline);
    mk(100, 4, 5, 365).unwrap();
    let r = create_job(
        &pid(),
        &recruiter,
        vec![],
        vec![b'd'; 1001],
        vec![],
        0,
        0,
        10,
        2,
        T,
    );
    assert_eq!(r.unwrap_err(), JobPlatformError::DescriptionTooLong);
}

#[test]
fn distinct_job_ids_get_distinct_addresses() {
    let recruiter = key(1);
    let (a1, _, _) =
        create_job(&pid(), &recruiter, vec![], vec![], vec![], 0, 0, 10, 1, T).unwrap();
    let (a2, _, _) =
        create_job(&pid(), &recruiter, vec![], vec![], vec![], 0, 0, 10, 2, T).unwrap();
    assert_ne!(a1, a2);
}

#[test]
fn apply_to_job_counts_and_builds_record() {
    let recruiter = key(1);
    let applicant = key(2);
    let (job_addr, mut job, _ev) =
        create_job(&pid(), &recruiter, vec![], vec![], vec![], 0, 0, 10, 1, T).unwrap();
    let (profile_addr, profile, _pev) =
        create_profile(&pid(), &applicant, vec![], 1, vec![], vec![], T).unwrap();
    let (app_addr, app, ev) = apply_to_job(
        &pid(),
        &mut job,
        &job_addr,
        &profile,
        &profile_addr,
        &applicant,
        b"please hire me".to_vec(),
        T + 100,
    )
    .unwrap();
    assert_eq!(job.application_count, 1);
    assert_eq!(app.applicant, applicant);
    assert_eq!(app.job, job_addr);
    assert_eq!(app.profile, profile_addr);
    assert_eq!(app.status, ApplicationStatus::Pending);
    assert_eq!(app.applied_at, T + 100);
    assert_eq!(ev.application_id, app_addr);
    assert_eq!(ev.job_id, job_addr);
}

#[test]
fn apply_to_job_precondition_errors() {
    let recruiter = key(1);
    let applicant = key(2);
    let (job_addr, mut job, _ev) =
        create_job(&pid(), &recruiter, vec![], vec![], vec![], 0, 0, 10, 1, T).unwrap();
    let (profile_addr, mut profile, _pev) =
        create_profile(&pid(), &applicant, vec![], 1, vec![], vec![], T).unwrap();

    // After the deadline the job cannot be applied to.
    let r = apply_to_job(
        &pid(),
        &mut job,
        &job_addr,
        &profile,
        &profile_addr,
        &applicant,
        vec![],
        T + 10 * DAY,
    );
    let e = r.unwrap_err();
    assert_eq!(e, JobPlatformError::JobExpired);
    assert_eq!(error_class(e), ErrorClass::Temporal);
    assert_eq!(job.application_count, 0);

    // An oversized cover letter is refused.
    let r = apply_to_job(
        &pid(),
        &mut job,
        &job_addr,
        &profile,
        &profile_addr,
        &applicant,
        vec![b'c'; 1001],
        T + 1,
    );
    assert_eq!(r.unwrap_err(), JobPlatformError::CoverLetterTooLong);

    // A private profile may not apply.
    profile.is_public = false;
    let r = apply_to_job(
        &pid(),
        &mut job,
        &job_addr,
        &profile,
        &profile_addr,
        &applicant,
        vec![],
        T + 1,
    );
    assert_eq!(r.unwrap_err(), JobPlatformError::ProfileNotPublic);
    profile.is_public = true;

    // An inactive job refuses applications.
    job.is_active = false;
    let r = apply_to_job(
        &pid(),
        &mut job,
        &job_addr,
        &profile,
        &profile_addr,
        &applicant,
        vec![],
        T + 1,
    );
    assert_eq!(r.unwrap_err(), JobPlatformError::JobNotActive);
    assert_eq!(job.application_count, 0);
}

#[test]
fn only_the_recruiter_updates_application_status() {
    let recruiter = key(1);
    let applicant = key(2);
    let (job_addr, mut job, _ev) =
        create_job(&pid(), &recruiter, vec![], vec![], vec![], 0, 0, 10, 1, T).unwrap();
    let (profile_addr, profile, _pev) =
        create_profile(&pid(), &applicant, vec![], 1, vec![], vec![], T).unwrap();
    let (app_addr, mut app, _aev) = apply_to_job(
        &pid(),
        &mut job,
        &job_addr,
        &profile,
        &profile_addr,
        &applicant,
        vec![],
        T + 1,
    )
    .unwrap();

    let stranger = key(9);
    let r = update_application_status(
        &mut app,
        &app_addr,
        &job,
        &stranger,
        ApplicationStatus::Interview,
    );
    let e = r.unwrap_err();
    assert_eq!(e, JobPlatformError::NotAuthorized);
    assert_eq!(app.status, ApplicationStatus::Pending);

    let ev = update_application_status(
        &mut app,
        &app_addr,
        &job,
        &recruiter,
        ApplicationStatus::Interview,
    )
    .unwrap();
    assert_eq!(app.status, ApplicationStatus::Interview);
    assert_eq!(ev.application_id, app_addr);
    assert_eq!(ev.new_status, ApplicationStatus::Interview);
}

#[test]
fn error_classes_cover_the_taxonomy() {
    assert_eq!(error_class(JobPlatformError::MessageTooLong), ErrorClass::Validation);
    assert_eq!(error_class(JobPlatformError::IncentiveTooLow), ErrorClass::Validation);
    assert_eq!(error_class(JobPlatformError::InsufficientFunds), ErrorClass::Validation);
    assert_eq!(error_class(JobPlatformError::ScoutOfferNotPending), ErrorClass::State);
    assert_eq!(error_class(JobPlatformError::OfferAlreadyExists), ErrorClass::State);
    assert_eq!(error_class(JobPlatformError::ScoutOfferExpired), ErrorClass::Temporal);
    assert_eq!(error_class(JobPlatformError::ScoutOfferNotExpired), ErrorClass::Temporal);
    assert_eq!(error_class(JobPlatformError::NotAuthorized), ErrorClass::Authorization);
    assert_eq!(error_class(JobPlatformError::AddressMismatch), ErrorClass::Authorization);
    assert_eq!(error_class(JobPlatformError::OfferNotFound), ErrorClass::Authorization);
}
