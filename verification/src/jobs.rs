use vstd::prelude::*;

use vstd::bytes::spec_u64_to_le_bytes;
use vstd::bytes::u64_to_le_bytes;

use crate::addressing::derive_pair_address;
use crate::addressing::derived_address;
use crate::addressing::pair_seeds;
use crate::bytes_util::bytes_clone;
use crate::bytes_util::bytes_eq;
use crate::bytes_util::is_key;
use crate::errors::JobPlatformError;
use crate::profile::Profile;

verus! {

pub const MAX_TITLE_LEN: usize = 100;

pub const MAX_DESCRIPTION_LEN: usize = 1000;

pub const MAX_REQUIRED_SKILLS: usize = 10;

pub const MAX_DEADLINE_DAYS: u16 = 365;

pub const MAX_COVER_LETTER_LEN: usize = 1000;

pub const SECONDS_PER_DAY: i64 = 86400;

/// Namespace tag (the bytes of "job") under which job records are addressed;
/// the other seeds are the recruiter's identity and the job id.
pub open spec fn job_tag() -> Seq<u8> {
    seq![106u8, 111u8, 98u8]
}

pub fn job_tag_bytes() -> (r: Vec<u8>)
    ensures
        r@ == job_tag(),
{
    let mut v: Vec<u8> = Vec::new();
    v.push(106);
    v.push(111);
    v.push(98);
    proof {
        assert(v@ =~= job_tag());
    }
    v
}

/// Namespace tag (the bytes of "application") under which application records
/// are addressed; the other seeds are the job's address and the applicant.
pub open spec fn application_tag() -> Seq<u8> {
    seq![97u8, 112u8, 112u8, 108u8, 105u8, 99u8, 97u8, 116u8, 105u8, 111u8, 110u8]
}

pub fn application_tag_bytes() -> (r: Vec<u8>)
    ensures
        r@ == application_tag(),
{
    let mut v: Vec<u8> = Vec::new();
    v.push(97);
    v.push(112);
    v.push(112);
    v.push(108);
    v.push(105);
    v.push(99);
    v.push(97);
    v.push(116);
    v.push(105);
    v.push(111);
    v.push(110);
    proof {
        assert(v@ =~= application_tag());
    }
    v
}

/// A job posting.
#[derive(Debug)]
pub struct Job {
    pub recruiter: Vec<u8>,
    pub title: Vec<u8>,
    pub description: Vec<u8>,
    pub required_skills: Vec<Vec<u8>>,
    pub salary_min: u64,
    pub salary_max: u64,
    pub created_at: i64,
    pub deadline: i64,
    pub is_active: bool,
    pub application_count: u32,
    pub bump: u8,
}

/// How far an application has come.
#[derive(Clone, Copy, Debug, PartialEq, Eq, Structural)]
pub enum ApplicationStatus {
    Pending,
    Reviewing,
    Interview,
    Accepted,
    Rejected,
}

/// One application of a profile owner to a job.
#[derive(Debug)]
pub struct Application {
    pub applicant: Vec<u8>,
    pub job: Vec<u8>,
    pub profile: Vec<u8>,
    pub cover_letter: Vec<u8>,
    pub applied_at: i64,
    pub status: ApplicationStatus,
    pub bump: u8,
}

/// Emitted when a job is created.
#[derive(Debug)]
pub struct JobCreated {
    pub job_id: Vec<u8>,
    pub recruiter: Vec<u8>,
    pub title: Vec<u8>,
    pub created_at: i64,
}

/// Emitted when someone applies to a job.
#[derive(Debug)]
pub struct JobApplication {
    pub application_id: Vec<u8>,
    pub job_id: Vec<u8>,
    pub applicant: Vec<u8>,
    pub applied_at: i64,
}

/// Emitted when a recruiter moves an application to a new status.
#[derive(Debug)]
pub struct ApplicationStatusUpdated {
    pub application_id: Vec<u8>,
    pub new_status: ApplicationStatus,
}

/// Why job creation would fail; `None` means it succeeds.
pub open spec fn create_job_error(
    program_id: Seq<u8>,
    recruiter: Seq<u8>,
    title: Seq<u8>,
    description: Seq<u8>,
    required_skills: Seq<Seq<u8>>,
    salary_min: u64,
    salary_max: u64,
    deadline_days: u16,
    job_id: u64,
    now: i64,
) -> Option<JobPlatformError> {
    if title.len() > MAX_TITLE_LEN {
        Some(JobPlatformError::TitleTooLong)
    } else if description.len() > MAX_DESCRIPTION_LEN {
        Some(JobPlatformError::DescriptionTooLong)
    } else if required_skills.len() > MAX_REQUIRED_SKILLS {
        Some(JobPlatformError::TooManySkills)
    } else if salary_max < salary_min {
        Some(JobPlatformError::InvalidSalaryRange)
    } else if deadline_days == 0 || deadline_days > MAX_DEADLINE_DAYS {
        Some(JobPlatformError::InvalidDeadline)
    } else if now + (deadline_days as i64) * SECONDS_PER_DAY > i64::MAX {
        Some(JobPlatformError::TimestampOverflow)
    } else if derived_address(
        pair_seeds(job_tag(), recruiter, spec_u64_to_le_bytes(job_id)),
        program_id,
    ) is None {
        Some(JobPlatformError::AddressDerivationFailed)
    } else {
        None
    }
}

/// Creates a job posting at the address derived from the recruiter and the
/// job id.  The deadline lies the given number of days after `now`.
pub fn create_job(
    program_id: &Vec<u8>,
    recruiter: &Vec<u8>,
    title: Vec<u8>,
    description: Vec<u8>,
    required_skills: Vec<Vec<u8>>,
    salary_min: u64,
    salary_max: u64,
    deadline_days: u16,
    job_id: u64,
    now: i64,
) -> (r: Result<(Vec<u8>, Job, JobCreated), JobPlatformError>)
    requires
        program_id@.len() == 32,
        is_key(recruiter@),
    ensures
        match r {
            Ok(t) => {
                &&& create_job_error(
                    program_id@,
                    recruiter@,
                    title@,
                    description@,
                    required_skills.deep_view(),
                    salary_min,
                    salary_max,
                    deadline_days,
                    job_id,
                    now,
                ) is None
                &&& derived_address(
                    pair_seeds(job_tag(), recruiter@, spec_u64_to_le_bytes(job_id)),
                    program_id@,
                ) == Some((t.0@, t.1.bump))
                &&& t.1.recruiter@ == recruiter@
                &&& t.1.title@ == title@
                &&& t.1.description@ == description@
                &&& t.1.required_skills.deep_view() == required_skills.deep_view()
                &&& t.1.salary_min == salary_min
                &&& t.1.salary_max == salary_max
                &&& t.1.created_at == now
                &&& t.1.deadline == now + (deadline_days as i64) * SECONDS_PER_DAY
                &&& t.1.is_active == true
                &&& t.1.application_count == 0
                &&& t.2.job_id@ == t.0@
                &&& t.2.recruiter@ == recruiter@
                &&& t.2.title@ == title@
                &&& t.2.created_at == now
            },
            Err(e) => Some(e) == create_job_error(
                program_id@,
                recruiter@,
                title@,
                description@,
                required_skills.deep_view(),
                salary_min,
                salary_max,
                deadline_days,
                job_id,
                now,
            ),
        },
{
    if title.len() > MAX_TITLE_LEN {
        return Err(JobPlatformError::TitleTooLong);
    }
    if description.len() > MAX_DESCRIPTION_LEN {
        return Err(JobPlatformError::DescriptionTooLong);
    }
    if required_skills.len() > MAX_REQUIRED_SKILLS {
        return Err(JobPlatformError::TooManySkills);
    }
    if salary_max < salary_min {
        return Err(JobPlatformError::InvalidSalaryRange);
    }
    if deadline_days == 0 || deadline_days > MAX_DEADLINE_DAYS {
        return Err(JobPlatformError::InvalidDeadline);
    }
    let offset: i64 = (deadline_days as i64) * SECONDS_PER_DAY;
    if now > i64::MAX - offset {
        return Err(JobPlatformError::TimestampOverflow);
    }
    let id_bytes = u64_to_le_bytes(job_id);
    let derived = derive_pair_address(&job_tag_bytes(), recruiter, &id_bytes, program_id);
    let (addr, bump) = match derived {
        Some(p) => p,
        None => {
            return Err(JobPlatformError::AddressDerivationFailed);
        },
    };
    let job = Job {
        recruiter: bytes_clone(recruiter),
        title: bytes_clone(&title),
        description,
        required_skills,
        salary_min,
        salary_max,
        created_at: now,
        deadline: now + offset,
        is_active: true,
        application_count: 0,
        bump,
    };
    let event = JobCreated {
        job_id: bytes_clone(&addr),
        recruiter: bytes_clone(recruiter),
        title,
        created_at: now,
    };
    Ok((addr, job, event))
}

/// Why an application would fail; `None` means it succeeds.
pub open spec fn apply_to_job_error(
    program_id: Seq<u8>,
    job: Job,
    job_addr: Seq<u8>,
    profile: Profile,
    applicant: Seq<u8>,
    cover_letter: Seq<u8>,
    now: i64,
) -> Option<JobPlatformError> {
    if !job.is_active {
        Some(JobPlatformError::JobNotActive)
    } else if now >= job.deadline {
        Some(JobPlatformError::JobExpired)
    } else if cover_letter.len() > MAX_COVER_LETTER_LEN {
        Some(JobPlatformError::CoverLetterTooLong)
    } else if !profile.is_public {
        Some(JobPlatformError::ProfileNotPublic)
    } else if job.application_count == u32::MAX {
        Some(JobPlatformError::ApplicationCountOverflow)
    } else if derived_address(
        pair_seeds(application_tag(), job_addr, applicant),
        program_id,
    ) is None {
        Some(JobPlatformError::AddressDerivationFailed)
    } else {
        None
    }
}

/// Applies to an active, non-expired job with a public profile.  The
/// application record is allocated at the address derived from the job and
/// the applicant, and the job's application count grows by one; on any error
/// the job is left exactly as it was.
pub fn apply_to_job(
    program_id: &Vec<u8>,
    job: &mut Job,
    job_addr: &Vec<u8>,
    profile: &Profile,
    profile_addr: &Vec<u8>,
    applicant: &Vec<u8>,
    cover_letter: Vec<u8>,
    now: i64,
) -> (r: Result<(Vec<u8>, Application, JobApplication), JobPlatformError>)
    requires
        program_id@.len() == 32,
        is_key(applicant@),
    ensures
        match r {
            Ok(t) => {
                &&& apply_to_job_error(
                    program_id@,
                    *old(job),
                    job_addr@,
                    *profile,
                    applicant@,
                    cover_letter@,
                    now,
                ) is None
                &&& derived_address(
                    pair_seeds(application_tag(), job_addr@, applicant@),
                    program_id@,
                ) == Some((t.0@, t.1.bump))
                &&& t.1.applicant@ == applicant@
                &&& t.1.job@ == job_addr@
                &&& t.1.profile@ == profile_addr@
                &&& t.1.cover_letter@ == cover_letter@
                &&& t.1.applied_at == now
                &&& t.1.status == ApplicationStatus::Pending
                &&& t.2.application_id@ == t.0@
                &&& t.2.job_id@ == job_addr@
                &&& t.2.applicant@ == applicant@
                &&& t.2.applied_at == now
                &&& final(job).application_count == old(job).application_count + 1
                &&& final(job).recruiter@ == old(job).recruiter@
                &&& final(job).title@ == old(job).title@
                &&& final(job).description@ == old(job).description@
                &&& final(job).required_skills.deep_view() == old(job).required_skills.deep_view()
                &&& final(job).salary_min == old(job).salary_min
                &&& final(job).salary_max == old(job).salary_max
                &&& final(job).created_at == old(job).created_at
                &&& final(job).deadline == old(job).deadline
                &&& final(job).is_active == old(job).is_active
                &&& final(job).bump == old(job).bump
            },
            Err(e) => Some(e) == apply_to_job_error(
                program_id@,
                *old(job),
                job_addr@,
                *profile,
                applicant@,
                cover_letter@,
                now,
            ) && *final(job) == *old(job),
        },
{
    if !job.is_active {
        return Err(JobPlatformError::JobNotActive);
    }
    if now >= job.deadline {
        return Err(JobPlatformError::JobExpired);
    }
    if cover_letter.len() > MAX_COVER_LETTER_LEN {
        return Err(JobPlatformError::CoverLetterTooLong);
    }
    if !profile.is_public {
        return Err(JobPlatformError::ProfileNotPublic);
    }
    if job.application_count == u32::MAX {
        return Err(JobPlatformError::ApplicationCountOverflow);
    }
    let derived = derive_pair_address(&application_tag_bytes(), job_addr, applicant, program_id);
    let (addr, bump) = match derived {
        Some(p) => p,
        None => {
            return Err(JobPlatformError::AddressDerivationFailed);
        },
    };
    let application = Application {
        applicant: bytes_clone(applicant),
        job: bytes_clone(job_addr),
        profile: bytes_clone(profile_addr),
        cover_letter,
        applied_at: now,
        status: ApplicationStatus::Pending,
        bump,
    };
    let event = JobApplication {
        application_id: bytes_clone(&addr),
        job_id: bytes_clone(job_addr),
        applicant: bytes_clone(applicant),
        applied_at: now,
    };
    job.application_count = job.application_count + 1;
    Ok((addr, application, event))
}

/// The job's recruiter moves an application to a new status.  Any other
/// signer is refused and the application is left unchanged.
pub fn update_application_status(
    application: &mut Application,
    application_addr: &Vec<u8>,
    job: &Job,
    signer: &Vec<u8>,
    new_status: ApplicationStatus,
) -> (r: Result<ApplicationStatusUpdated, JobPlatformError>)
    ensures
        match r {
            Ok(ev) => {
                &&& job.recruiter@ == signer@
                &&& final(application).status == new_status
                &&& final(application).applicant@ == old(application).applicant@
                &&& final(application).job@ == old(application).job@
                &&& final(application).profile@ == old(application).profile@
                &&& final(application).cover_letter@ == old(application).cover_letter@
                &&& final(application).applied_at == old(application).applied_at
                &&& final(application).bump == old(application).bump
                &&& ev.application_id@ == application_addr@
                &&& ev.new_status == new_status
            },
            Err(e) => e == JobPlatformError::NotAuthorized && job.recruiter@ != signer@ && *final(application) == *old(application),
        },
{
    if !bytes_eq(&job.recruiter, signer) {
        return Err(JobPlatformError::NotAuthorized);
    }
    application.status = new_status;
    Ok(ApplicationStatusUpdated { application_id: bytes_clone(application_addr), new_status })
}

} // verus!
