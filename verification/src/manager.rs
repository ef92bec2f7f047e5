use vstd::prelude::*;

use crate::addressing::derive_single_address;
use crate::addressing::derived_address;
use crate::addressing::single_seeds;
use crate::bytes_util::bytes_clone;
use crate::bytes_util::is_key;
use crate::errors::ProfileManagerError;
use crate::profile::profile_tag;
use crate::profile::profile_tag_bytes;

verus! {

pub const MAX_SKILLS: usize = 10;

pub const MAX_BIO_LEN: usize = 500;

pub const MIN_HANDLE_LEN: usize = 3;

pub const MAX_HANDLE_LEN: usize = 30;

/// One week in hours: the longest promised response time.
pub const MAX_RESPONSE_TIME_HOURS: u16 = 168;

/// What `str::to_lowercase` maps the given UTF-8 bytes to; bytes that are not
/// valid UTF-8 are left as they are.  The mapping depends on the bytes alone.
pub uninterp spec fn lower_of(s: Seq<u8>) -> Seq<u8>;

/// Relies on str::to_lowercase: the lowercase form of a text is a function of
/// its characters alone (String::from_utf8 rejects invalid bytes, which are
/// then returned unchanged).
#[verifier::external_body]
fn lowercase_bytes(b: &Vec<u8>) -> (r: Vec<u8>)
    ensures
        r@ == lower_of(b@),
{
    match String::from_utf8(b.clone()) {
        Ok(s) => s.to_lowercase().into_bytes(),
        Err(e) => e.into_bytes(),
    }
}

/// One paid-contact price tier offered by a profile.
#[derive(Debug)]
pub struct ContactPriceTier {
    pub price: u64,
    pub description: Vec<u8>,
}

/// A managed profile: the talent profile extended with a handle, contact
/// price tiers and a promised response time.
#[derive(Debug)]
pub struct Profile {
    pub owner: Vec<u8>,
    pub skills: Vec<Vec<u8>>,
    pub experience_years: u16,
    pub region: Vec<u8>,
    pub bio: Vec<u8>,
    pub handle: Vec<u8>,
    pub created_at: i64,
    pub is_public: bool,
    pub contact_prices: Vec<ContactPriceTier>,
    pub response_time_hours: u16,
    pub nft_mint: Option<Vec<u8>>,
    pub bump: u8,
}

/// Emitted when a managed profile is created.
#[derive(Debug)]
pub struct ProfileCreated {
    pub owner: Vec<u8>,
    pub handle: Vec<u8>,
    pub created_at: i64,
}

/// Why managed profile creation would fail; `None` means it succeeds.
pub open spec fn create_profile_error(
    program_id: Seq<u8>,
    owner: Seq<u8>,
    skills: Seq<Seq<u8>>,
    bio: Seq<u8>,
    handle: Seq<u8>,
    response_time_hours: u16,
) -> Option<ProfileManagerError> {
    if skills.len() > MAX_SKILLS {
        Some(ProfileManagerError::TooManySkills)
    } else if bio.len() > MAX_BIO_LEN {
        Some(ProfileManagerError::BioTooLong)
    } else if handle.len() < MIN_HANDLE_LEN || handle.len() > MAX_HANDLE_LEN {
        Some(ProfileManagerError::InvalidHandle)
    } else if response_time_hours == 0 || response_time_hours > MAX_RESPONSE_TIME_HOURS {
        Some(ProfileManagerError::InvalidResponseTime)
    } else if derived_address(single_seeds(profile_tag(), owner), program_id) is None {
        Some(ProfileManagerError::AddressDerivationFailed)
    } else {
        None
    }
}

/// Creates a managed profile at its derived address.  The handle (3 to 30
/// bytes as given) is stored in its lowercase form; the profile starts public
/// and without a linked token.
pub fn create_profile(
    program_id: &Vec<u8>,
    owner: &Vec<u8>,
    skills: Vec<Vec<u8>>,
    experience_years: u16,
    region: Vec<u8>,
    bio: Vec<u8>,
    handle: Vec<u8>,
    contact_prices: Vec<ContactPriceTier>,
    response_time_hours: u16,
    now: i64,
) -> (r: Result<(Vec<u8>, Profile, ProfileCreated), ProfileManagerError>)
    requires
        program_id@.len() == 32,
        is_key(owner@),
    ensures
        match r {
            Ok(t) => {
                &&& create_profile_error(
                    program_id@,
                    owner@,
                    skills.deep_view(),
                    bio@,
                    handle@,
                    response_time_hours,
                ) is None
                &&& derived_address(single_seeds(profile_tag(), owner@), program_id@) == Some(
                    (t.0@, t.1.bump),
                )
                &&& t.1.owner@ == owner@
                &&& t.1.skills.deep_view() == skills.deep_view()
                &&& t.1.experience_years == experience_years
                &&& t.1.region@ == region@
                &&& t.1.bio@ == bio@
                &&& t.1.handle@ == lower_of(handle@)
                &&& t.1.created_at == now
                &&& t.1.is_public == true
                &&& t.1.contact_prices == contact_prices
                &&& t.1.response_time_hours == response_time_hours
                &&& t.1.nft_mint is None
                &&& t.2.owner@ == owner@
                &&& t.2.handle@ == lower_of(handle@)
                &&& t.2.created_at == now
            },
            Err(e) => Some(e) == create_profile_error(
                program_id@,
                owner@,
                skills.deep_view(),
                bio@,
                handle@,
                response_time_hours,
            ),
        },
{
    if skills.len() > MAX_SKILLS {
        return Err(ProfileManagerError::TooManySkills);
    }
    if bio.len() > MAX_BIO_LEN {
        return Err(ProfileManagerError::BioTooLong);
    }
    if handle.len() < MIN_HANDLE_LEN || handle.len() > MAX_HANDLE_LEN {
        return Err(ProfileManagerError::InvalidHandle);
    }
    if response_time_hours == 0 || response_time_hours > MAX_RESPONSE_TIME_HOURS {
        return Err(ProfileManagerError::InvalidResponseTime);
    }
    let derived = derive_single_address(&profile_tag_bytes(), owner, program_id);
    let (addr, bump) = match derived {
        Some(p) => p,
        None => {
            return Err(ProfileManagerError::AddressDerivationFailed);
        },
    };
    let lowered = lowercase_bytes(&handle);
    let event = ProfileCreated {
        owner: bytes_clone(owner),
        handle: bytes_clone(&lowered),
        created_at: now,
    };
    let profile = Profile {
        owner: bytes_clone(owner),
        skills,
        experience_years,
        region,
        bio,
        handle: lowered,
        created_at: now,
        is_public: true,
        contact_prices,
        response_time_hours,
        nft_mint: None,
        bump,
    };
    Ok((addr, profile, event))
}

/// Why a managed profile update would fail; `None` means it succeeds.
pub open spec fn update_profile_error(
    skills: Option<Vec<Vec<u8>>>,
    bio: Option<Vec<u8>>,
    response_time_hours: Option<u16>,
) -> Option<ProfileManagerError> {
    if (match skills {
        Some(s) => s@.len() > MAX_SKILLS,
        None => false,
    }) {
        Some(ProfileManagerError::TooManySkills)
    } else if (match bio {
        Some(b) => b@.len() > MAX_BIO_LEN,
        None => false,
    }) {
        Some(ProfileManagerError::BioTooLong)
    } else if (match response_time_hours {
        Some(h) => h == 0 || h > MAX_RESPONSE_TIME_HOURS,
        None => false,
    }) {
        Some(ProfileManagerError::InvalidResponseTime)
    } else {
        None
    }
}

/// Updates the optional fields of a managed profile.  All inputs are checked
/// before anything is written: on any error the profile is left as it was.
pub fn update_profile(
    profile: &mut Profile,
    skills: Option<Vec<Vec<u8>>>,
    bio: Option<Vec<u8>>,
    is_public: Option<bool>,
    contact_prices: Option<Vec<ContactPriceTier>>,
    response_time_hours: Option<u16>,
) -> (r: Result<(), ProfileManagerError>)
    ensures
        match r {
            Ok(()) => {
                &&& update_profile_error(skills, bio, response_time_hours) is None
                &&& final(profile).owner@ == old(profile).owner@
                &&& final(profile).skills.deep_view() == (match skills {
                    Some(s) => s.deep_view(),
                    None => old(profile).skills.deep_view(),
                })
                &&& final(profile).experience_years == old(profile).experience_years
                &&& final(profile).region@ == old(profile).region@
                &&& final(profile).bio@ == (match bio {
                    Some(b) => b@,
                    None => old(profile).bio@,
                })
                &&& final(profile).handle@ == old(profile).handle@
                &&& final(profile).created_at == old(profile).created_at
                &&& final(profile).is_public == (match is_public {
                    Some(p) => p,
                    None => old(profile).is_public,
                })
                &&& final(profile).contact_prices == (match contact_prices {
                    Some(c) => c,
                    None => old(profile).contact_prices,
                })
                &&& final(profile).response_time_hours == (match response_time_hours {
                    Some(h) => h,
                    None => old(profile).response_time_hours,
                })
                &&& final(profile).nft_mint == old(profile).nft_mint
                &&& final(profile).bump == old(profile).bump
            },
            Err(e) => Some(e) == update_profile_error(skills, bio, response_time_hours) && *final(profile) == *old(profile),
        },
{
    match &skills {
        Some(s) => {
            if s.len() > MAX_SKILLS {
                return Err(ProfileManagerError::TooManySkills);
            }
        },
        None => {},
    }
    match &bio {
        Some(b) => {
            if b.len() > MAX_BIO_LEN {
                return Err(ProfileManagerError::BioTooLong);
            }
        },
        None => {},
    }
    match &response_time_hours {
        Some(h) => {
            if *h == 0 || *h > MAX_RESPONSE_TIME_HOURS {
                return Err(ProfileManagerError::InvalidResponseTime);
            }
        },
        None => {},
    }
    match skills {
        Some(s) => {
            profile.skills = s;
        },
        None => {},
    }
    match bio {
        Some(b) => {
            profile.bio = b;
        },
        None => {},
    }
    match is_public {
        Some(p) => {
            profile.is_public = p;
        },
        None => {},
    }
    match contact_prices {
        Some(c) => {
            profile.contact_prices = c;
        },
        None => {},
    }
    match response_time_hours {
        Some(h) => {
            profile.response_time_hours = h;
        },
        None => {},
    }
    Ok(())
}

} // verus!
