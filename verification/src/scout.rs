use vstd::prelude::*;

use crate::bytes_util::bytes_clone;
use crate::bytes_util::bytes_eq;
use crate::bytes_util::is_key;
use crate::errors::JobPlatformError;
use crate::offer::open_applied;
use crate::offer::reclaim_applied;
use crate::offer::respond_applied;
use crate::offer::EscrowBank;
use crate::offer::OfferParams;
use crate::offer::OfferStatus;
use crate::offer::SpecParams;
use crate::profile::profile_tag;
use crate::profile::profile_tag_bytes;
use crate::profile::Profile;

verus! {

/// Longest accepted scout message, in bytes.
pub const SCOUT_MESSAGE_MAX: usize = 500;

/// Smallest accepted incentive, in base currency units.
pub const MIN_INCENTIVE_AMOUNT: u64 = 1000000;

/// Seven days, in seconds: how long a scout offer stays open.
pub const SCOUT_OFFER_WINDOW: i64 = 604800;

/// Namespace tag (the bytes of "scout") under which scout offer records are
/// addressed; the other seeds are the recruiter's identity and the target
/// profile's address.
pub open spec fn scout_tag() -> Seq<u8> {
    seq![115u8, 99u8, 111u8, 117u8, 116u8]
}

pub fn scout_tag_bytes() -> (r: Vec<u8>)
    ensures
        r@ == scout_tag(),
{
    let mut v: Vec<u8> = Vec::new();
    v.push(115);
    v.push(99);
    v.push(111);
    v.push(117);
    v.push(116);
    proof {
        assert(v@ =~= scout_tag());
    }
    v
}

/// The protocol parameters of the scout offer instance.
pub open spec fn scout_spec_params() -> SpecParams {
    SpecParams {
        tag: scout_tag(),
        profile_tag: profile_tag(),
        message_max: SCOUT_MESSAGE_MAX,
        min_amount: MIN_INCENTIVE_AMOUNT,
        window: SCOUT_OFFER_WINDOW,
    }
}

pub fn scout_params() -> (r: OfferParams)
    ensures
        r@ == scout_spec_params(),
        r@.wf(),
{
    let r = OfferParams {
        tag: scout_tag_bytes(),
        profile_tag: profile_tag_bytes(),
        message_max: SCOUT_MESSAGE_MAX,
        min_amount: MIN_INCENTIVE_AMOUNT,
        window: SCOUT_OFFER_WINDOW,
    };
    proof {
        assert(r@ =~~= scout_spec_params());
    }
    r
}

/// Lifecycle states of a scout offer.
#[derive(Clone, Copy, Debug, PartialEq, Eq, Structural)]
pub enum ScoutStatus {
    Pending,
    Accepted,
    Rejected,
    Expired,
}

/// The scout-offer reading of a generic record status.
pub open spec fn scout_status_of(s: OfferStatus) -> ScoutStatus {
    match s {
        OfferStatus::Pending => ScoutStatus::Pending,
        OfferStatus::Accepted => ScoutStatus::Accepted,
        OfferStatus::Rejected => ScoutStatus::Rejected,
        OfferStatus::Expired => ScoutStatus::Expired,
    }
}

pub fn to_scout_status(s: OfferStatus) -> (r: ScoutStatus)
    ensures
        r == scout_status_of(s),
{
    match s {
        OfferStatus::Pending => ScoutStatus::Pending,
        OfferStatus::Accepted => ScoutStatus::Accepted,
        OfferStatus::Rejected => ScoutStatus::Rejected,
        OfferStatus::Expired => ScoutStatus::Expired,
    }
}

/// A scout offer as persisted: a recruiter courting a profile owner, with the
/// incentive held in escrow until the owner responds or the offer expires.
#[derive(Debug)]
pub struct ScoutOffer {
    pub recruiter: Vec<u8>,
    pub target_profile: Vec<u8>,
    pub message: Vec<u8>,
    pub incentive_amount: u64,
    pub created_at: i64,
    pub expires_at: i64,
    pub status: ScoutStatus,
    pub bump: u8,
}

/// Emitted when a scout offer is opened.
#[derive(Debug)]
pub struct ScoutOfferSent {
    pub scout_offer_id: Vec<u8>,
    pub recruiter: Vec<u8>,
    pub target_profile: Vec<u8>,
    pub incentive_amount: u64,
}

/// Emitted when a scout offer is accepted or rejected.
#[derive(Debug)]
pub struct ScoutOfferResponded {
    pub scout_offer_id: Vec<u8>,
    pub accepted: bool,
}

/// Opens a scout offer: validates the message and incentive, derives the
/// record's address from the recruiter and the target profile, and moves the
/// incentive from the recruiter into the record's custody, atomically.
pub fn send_scout_offer(
    bank: &mut EscrowBank,
    program_id: &Vec<u8>,
    recruiter: &Vec<u8>,
    target_profile: &Vec<u8>,
    message: Vec<u8>,
    incentive_amount: u64,
    now: i64,
) -> (r: Result<ScoutOfferSent, JobPlatformError>)
    requires
        old(bank).wf(),
        program_id@.len() == 32,
        is_key(recruiter@),
        is_key(target_profile@),
    ensures
        final(bank).wf(),
        match r {
            Ok(ev) => {
                &&& old(bank).open_error(
                    scout_spec_params(),
                    program_id@,
                    recruiter@,
                    target_profile@,
                    message@,
                    incentive_amount,
                    now,
                ) is None
                &&& ev.recruiter@ == recruiter@
                &&& ev.target_profile@ == target_profile@
                &&& ev.incentive_amount == incentive_amount
                &&& open_applied(
                    *old(bank),
                    *final(bank),
                    scout_spec_params(),
                    program_id@,
                    recruiter@,
                    target_profile@,
                    message@,
                    incentive_amount,
                    now,
                    ev.scout_offer_id@,
                    final(bank).offers()[ev.scout_offer_id@].bump,
                )
            },
            Err(e) => Some(e) == old(bank).open_error(
                scout_spec_params(),
                program_id@,
                recruiter@,
                target_profile@,
                message@,
                incentive_amount,
                now,
            ) && *final(bank) == *old(bank),
        },
{
    let params = scout_params();
    match bank.open_record(
        &params,
        program_id,
        recruiter,
        target_profile,
        message,
        incentive_amount,
        now,
    ) {
        Ok((addr, _bump)) => Ok(
            ScoutOfferSent {
                scout_offer_id: addr,
                recruiter: bytes_clone(recruiter),
                target_profile: bytes_clone(target_profile),
                incentive_amount,
            },
        ),
        Err(e) => Err(e),
    }
}

/// Why a response to a scout offer would fail; `None` means it succeeds.
/// The signer must be the owner recorded in the supplied profile; the rest is
/// the escrow core's chain of authorization, state and temporal checks.
pub open spec fn respond_to_scout_error(
    bank: EscrowBank,
    program_id: Seq<u8>,
    scout_offer_id: Seq<u8>,
    profile_owner_rec: Seq<u8>,
    profile_bump: u8,
    profile_addr: Seq<u8>,
    signer: Seq<u8>,
    accept: bool,
    now: i64,
) -> Option<JobPlatformError> {
    if profile_owner_rec != signer {
        Some(JobPlatformError::NotAuthorized)
    } else {
        bank.respond_error(
            scout_spec_params(),
            program_id,
            scout_offer_id,
            signer,
            profile_addr,
            profile_bump,
            accept,
            now,
        )
    }
}

/// Law: a signer who is not the owner recorded in the supplied profile is
/// turned away with the authorization error before anything else is looked
/// at, whatever the accept flag and whatever the time.
pub proof fn lemma_scout_response_needs_profile_owner(
    bank: EscrowBank,
    program_id: Seq<u8>,
    scout_offer_id: Seq<u8>,
    profile_owner_rec: Seq<u8>,
    profile_bump: u8,
    profile_addr: Seq<u8>,
    signer: Seq<u8>,
    accept: bool,
    now: i64,
)
    requires
        profile_owner_rec != signer,
    ensures
        respond_to_scout_error(
            bank,
            program_id,
            scout_offer_id,
            profile_owner_rec,
            profile_bump,
            profile_addr,
            signer,
            accept,
            now,
        ) == Some(JobPlatformError::NotAuthorized),
{
}

/// The recorded target's owner accepts or rejects a Pending, non-expired
/// scout offer.  Accepting pays the custodied incentive to the owner;
/// rejecting refunds the recruiter.  Everything commits atomically.
pub fn respond_to_scout(
    bank: &mut EscrowBank,
    program_id: &Vec<u8>,
    scout_offer_id: &Vec<u8>,
    profile: &Profile,
    profile_addr: &Vec<u8>,
    profile_owner: &Vec<u8>,
    accept: bool,
    now: i64,
) -> (r: Result<ScoutOfferResponded, JobPlatformError>)
    requires
        old(bank).wf(),
        program_id@.len() == 32,
    ensures
        final(bank).wf(),
        match r {
            Ok(ev) => {
                &&& respond_to_scout_error(
                    *old(bank),
                    program_id@,
                    scout_offer_id@,
                    profile.owner@,
                    profile.bump,
                    profile_addr@,
                    profile_owner@,
                    accept,
                    now,
                ) is None
                &&& ev.scout_offer_id@ == scout_offer_id@
                &&& ev.accepted == accept
                &&& respond_applied(
                    *old(bank),
                    *final(bank),
                    scout_offer_id@,
                    profile_owner@,
                    accept,
                    old(bank).balance(scout_offer_id@),
                )
            },
            Err(e) => Some(e) == respond_to_scout_error(
                *old(bank),
                program_id@,
                scout_offer_id@,
                profile.owner@,
                profile.bump,
                profile_addr@,
                profile_owner@,
                accept,
                now,
            ) && *final(bank) == *old(bank),
        },
{
    if !bytes_eq(&profile.owner, profile_owner) {
        return Err(JobPlatformError::NotAuthorized);
    }
    let params = scout_params();
    match bank.respond_record(
        &params,
        program_id,
        scout_offer_id,
        profile_owner,
        profile_addr,
        profile.bump,
        accept,
        now,
    ) {
        Ok(_released) => Ok(
            ScoutOfferResponded { scout_offer_id: bytes_clone(scout_offer_id), accepted: accept },
        ),
        Err(e) => Err(e),
    }
}

/// Reclaims a scout offer whose deadline has passed without a response: the
/// record turns Expired and the incentive flows back to the recruiter.
/// Permissionless: no signer is required after the deadline.
pub fn reclaim_scout_offer(
    bank: &mut EscrowBank,
    program_id: &Vec<u8>,
    scout_offer_id: &Vec<u8>,
    now: i64,
) -> (r: Result<u64, JobPlatformError>)
    requires
        old(bank).wf(),
        program_id@.len() == 32,
    ensures
        final(bank).wf(),
        match r {
            Ok(released) => old(bank).reclaim_error(
                scout_spec_params(),
                program_id@,
                scout_offer_id@,
                now,
            ) is None && reclaim_applied(*old(bank), *final(bank), scout_offer_id@, released),
            Err(e) => Some(e) == old(bank).reclaim_error(
                scout_spec_params(),
                program_id@,
                scout_offer_id@,
                now,
            ) && *final(bank) == *old(bank),
        },
{
    let params = scout_params();
    bank.reclaim_record(&params, program_id, scout_offer_id, now)
}

/// Reads the scout offer stored at an address, as a standalone value.
pub fn get_scout_offer(bank: &EscrowBank, scout_offer_id: &Vec<u8>) -> (r: Option<ScoutOffer>)
    requires
        bank.wf(),
    ensures
        match r {
            Some(o) => {
                &&& bank.offers().contains_key(scout_offer_id@)
                &&& ({
                    let rec = bank.offers()[scout_offer_id@];
                    &&& o.recruiter@ == rec.opener@
                    &&& o.target_profile@ == rec.target@
                    &&& o.message@ == rec.message@
                    &&& o.incentive_amount == rec.amount
                    &&& o.created_at == rec.created_at
                    &&& o.expires_at == rec.expires_at
                    &&& o.status == scout_status_of(rec.status)
                    &&& o.bump == rec.bump
                })
            },
            None => !bank.offers().contains_key(scout_offer_id@),
        },
{
    match bank.get_offer(scout_offer_id) {
        Some(rec) => Some(
            ScoutOffer {
                recruiter: bytes_clone(&rec.opener),
                target_profile: bytes_clone(&rec.target),
                message: bytes_clone(&rec.message),
                incentive_amount: rec.amount,
                created_at: rec.created_at,
                expires_at: rec.expires_at,
                status: to_scout_status(rec.status),
                bump: rec.bump,
            },
        ),
        None => None,
    }
}

} // verus!
