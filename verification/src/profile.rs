use vstd::prelude::*;

use crate::addressing::derive_single_address;
use crate::addressing::derived_address;
use crate::addressing::single_seeds;
use crate::bytes_util::bytes_clone;
use crate::bytes_util::is_key;
use crate::errors::JobPlatformError;

verus! {

pub const MAX_SKILLS: usize = 10;

pub const MAX_BIO_LEN: usize = 500;

/// Namespace tag (the bytes of "profile") under which profile records are
/// addressed; the other seed is the owner's identity.
pub open spec fn profile_tag() -> Seq<u8> {
    seq![112u8, 114u8, 111u8, 102u8, 105u8, 108u8, 101u8]
}

pub fn profile_tag_bytes() -> (r: Vec<u8>)
    ensures
        r@ == profile_tag(),
{
    let mut v: Vec<u8> = Vec::new();
    v.push(112);
    v.push(114);
    v.push(111);
    v.push(102);
    v.push(105);
    v.push(108);
    v.push(101);
    proof {
        assert(v@ =~= profile_tag());
    }
    v
}

/// A talent profile record, stored at the address derived from its owner.
#[derive(Debug)]
pub struct Profile {
    pub owner: Vec<u8>,
    pub skills: Vec<Vec<u8>>,
    pub experience_years: u16,
    pub region: Vec<u8>,
    pub bio: Vec<u8>,
    pub created_at: i64,
    pub is_public: bool,
    pub bump: u8,
}

/// Emitted when a profile is created.
#[derive(Debug)]
pub struct ProfileCreated {
    pub owner: Vec<u8>,
    pub created_at: i64,
}

/// Why profile creation would fail; `None` means it succeeds.
pub open spec fn create_profile_error(
    program_id: Seq<u8>,
    owner: Seq<u8>,
    skills: Seq<Seq<u8>>,
    bio: Seq<u8>,
) -> Option<JobPlatformError> {
    if skills.len() > MAX_SKILLS {
        Some(JobPlatformError::TooManySkills)
    } else if bio.len() > MAX_BIO_LEN {
        Some(JobPlatformError::BioTooLong)
    } else if derived_address(single_seeds(profile_tag(), owner), program_id) is None {
        Some(JobPlatformError::AddressDerivationFailed)
    } else {
        None
    }
}

/// Creates a profile at its derived address: at most ten skills, a bio of at
/// most 500 bytes, public from the start.  Returns the record's address, the
/// record and the emitted event.
pub fn create_profile(
    program_id: &Vec<u8>,
    owner: &Vec<u8>,
    skills: Vec<Vec<u8>>,
    experience_years: u16,
    region: Vec<u8>,
    bio: Vec<u8>,
    now: i64,
) -> (r: Result<(Vec<u8>, Profile, ProfileCreated), JobPlatformError>)
    requires
        program_id@.len() == 32,
        is_key(owner@),
    ensures
        match r {
            Ok(t) => {
                &&& create_profile_error(program_id@, owner@, skills.deep_view(), bio@) is None
                &&& derived_address(single_seeds(profile_tag(), owner@), program_id@) == Some(
                    (t.0@, t.1.bump),
                )
                &&& t.1.owner@ == owner@
                &&& t.1.skills.deep_view() == skills.deep_view()
                &&& t.1.experience_years == experience_years
                &&& t.1.region@ == region@
                &&& t.1.bio@ == bio@
                &&& t.1.created_at == now
                &&& t.1.is_public == true
                &&& t.2.owner@ == owner@
                &&& t.2.created_at == now
            },
            Err(e) => Some(e) == create_profile_error(
                program_id@,
                owner@,
                skills.deep_view(),
                bio@,
            ),
        },
{
    if skills.len() > MAX_SKILLS {
        return Err(JobPlatformError::TooManySkills);
    }
    if bio.len() > MAX_BIO_LEN {
        return Err(JobPlatformError::BioTooLong);
    }
    let derived = derive_single_address(&profile_tag_bytes(), owner, program_id);
    let (addr, bump) = match derived {
        Some(p) => p,
        None => {
            return Err(JobPlatformError::AddressDerivationFailed);
        },
    };
    let profile = Profile {
        owner: bytes_clone(owner),
        skills,
        experience_years,
        region,
        bio,
        created_at: now,
        is_public: true,
        bump,
    };
    let event = ProfileCreated { owner: bytes_clone(owner), created_at: now };
    Ok((addr, profile, event))
}

/// Why a profile update would fail; `None` means it succeeds.
pub open spec fn update_profile_error(skills: Option<Vec<Vec<u8>>>, bio: Option<Vec<u8>>) -> Option<
    JobPlatformError,
> {
    if (match skills {
        Some(s) => s@.len() > MAX_SKILLS,
        None => false,
    }) {
        Some(JobPlatformError::TooManySkills)
    } else if (match bio {
        Some(b) => b@.len() > MAX_BIO_LEN,
        None => false,
    }) {
        Some(JobPlatformError::BioTooLong)
    } else {
        None
    }
}

/// Updates the optional fields of a profile.  All inputs are validated before
/// anything is written: on any error the profile is left exactly as it was.
pub fn update_profile(
    profile: &mut Profile,
    skills: Option<Vec<Vec<u8>>>,
    bio: Option<Vec<u8>>,
    is_public: Option<bool>,
) -> (r: Result<(), JobPlatformError>)
    ensures
        match r {
            Ok(()) => {
                &&& update_profile_error(skills, bio) is None
                &&& final(profile).owner@ == old(profile).owner@
                &&& final(profile).skills.deep_view() == (match skills {
                    Some(s) => s.deep_view(),
                    None => old(profile).skills.deep_view(),
                })
                &&& final(profile).experience_years == old(profile).experience_years
                &&& final(profile).region@ == old(profile).region@
                &&& final(profile).bio@ == (match bio {
                    Some(b) => b@,
                    None => old(profile).bio@,
                })
                &&& final(profile).created_at == old(profile).created_at
                &&& final(profile).is_public == (match is_public {
                    Some(p) => p,
                    None => old(profile).is_public,
                })
                &&& final(profile).bump == old(profile).bump
            },
            Err(e) => Some(e) == update_profile_error(skills, bio) && *final(profile) == *old(
                profile,
            ),
        },
{
    match &skills {
        Some(s) => {
            if s.len() > MAX_SKILLS {
                return Err(JobPlatformError::TooManySkills);
            }
        },
        None => {},
    }
    match &bio {
        Some(b) => {
            if b.len() > MAX_BIO_LEN {
                return Err(JobPlatformError::BioTooLong);
            }
        },
        None => {},
    }
    match skills {
        Some(s) => {
            profile.skills = s;
        },
        None => {},
    }
    match bio {
        Some(b) => {
            profile.bio = b;
        },
        None => {},
    }
    match is_public {
        Some(p) => {
            profile.is_public = p;
        },
        None => {},
    }
    Ok(())
}

} // verus!
