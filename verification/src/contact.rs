use vstd::prelude::*;

use crate::bytes_util::bytes_clone;
use crate::bytes_util::bytes_eq;
use crate::bytes_util::is_key;
use crate::errors::JobPlatformError;
use crate::manager::Profile;
use crate::offer::open_applied;
use crate::offer::reclaim_applied;
use crate::offer::respond_applied;
use crate::offer::EscrowBank;
use crate::offer::OfferParams;
use crate::offer::OfferStatus;
use crate::offer::SpecParams;
use crate::profile::profile_tag;
use crate::profile::profile_tag_bytes;

verus! {

/// Longest accepted contact message, in bytes.
pub const CONTACT_MESSAGE_MAX: usize = 1000;

/// Smallest accepted contact payment, in base currency units.
pub const MIN_CONTACT_AMOUNT: u64 = 1000000;

/// Seven days, in seconds: how long a contact request stays open.
pub const CONTACT_REQUEST_WINDOW: i64 = 604800;

/// Namespace tag (the bytes of "contact") under which contact request records
/// are addressed; the other seeds are the requester's identity and the target
/// profile's address.
pub open spec fn contact_tag() -> Seq<u8> {
    seq![99u8, 111u8, 110u8, 116u8, 97u8, 99u8, 116u8]
}

pub fn contact_tag_bytes() -> (r: Vec<u8>)
    ensures
        r@ == contact_tag(),
{
    let mut v: Vec<u8> = Vec::new();
    v.push(99);
    v.push(111);
    v.push(110);
    v.push(116);
    v.push(97);
    v.push(99);
    v.push(116);
    proof {
        assert(v@ =~= contact_tag());
    }
    v
}

/// The protocol parameters of the contact request instance.
pub open spec fn contact_spec_params() -> SpecParams {
    SpecParams {
        tag: contact_tag(),
        profile_tag: profile_tag(),
        message_max: CONTACT_MESSAGE_MAX,
        min_amount: MIN_CONTACT_AMOUNT,
        window: CONTACT_REQUEST_WINDOW,
    }
}

pub fn contact_params() -> (r: OfferParams)
    ensures
        r@ == contact_spec_params(),
        r@.wf(),
{
    let r = OfferParams {
        tag: contact_tag_bytes(),
        profile_tag: profile_tag_bytes(),
        message_max: CONTACT_MESSAGE_MAX,
        min_amount: MIN_CONTACT_AMOUNT,
        window: CONTACT_REQUEST_WINDOW,
    };
    proof {
        assert(r@ =~~= contact_spec_params());
    }
    r
}

/// Lifecycle states of a contact request.
#[derive(Clone, Copy, Debug, PartialEq, Eq, Structural)]
pub enum ContactStatus {
    Pending,
    Responded,
    Rejected,
    Expired,
}

/// The contact-request reading of a generic record status: an accepted
/// request shows as Responded.
pub open spec fn contact_status_of(s: OfferStatus) -> ContactStatus {
    match s {
        OfferStatus::Pending => ContactStatus::Pending,
        OfferStatus::Accepted => ContactStatus::Responded,
        OfferStatus::Rejected => ContactStatus::Rejected,
        OfferStatus::Expired => ContactStatus::Expired,
    }
}

pub fn to_contact_status(s: OfferStatus) -> (r: ContactStatus)
    ensures
        r == contact_status_of(s),
{
    match s {
        OfferStatus::Pending => ContactStatus::Pending,
        OfferStatus::Accepted => ContactStatus::Responded,
        OfferStatus::Rejected => ContactStatus::Rejected,
        OfferStatus::Expired => ContactStatus::Expired,
    }
}

/// A contact request as persisted: a requester paying for the attention of a
/// profile owner, with the payment held in escrow until resolution.
#[derive(Debug)]
pub struct ContactRequest {
    pub requester: Vec<u8>,
    pub target_profile: Vec<u8>,
    pub message: Vec<u8>,
    pub amount: u64,
    pub created_at: i64,
    pub expires_at: i64,
    pub status: ContactStatus,
    pub bump: u8,
}

/// Emitted when a contact request is opened.
#[derive(Debug)]
pub struct ContactRequestSent {
    pub requester: Vec<u8>,
    pub target: Vec<u8>,
    pub amount: u64,
    pub created_at: i64,
}

/// Emitted when a contact request is answered or declined.
#[derive(Debug)]
pub struct ContactRequestProcessed {
    pub requester: Vec<u8>,
    pub target: Vec<u8>,
    pub accepted: bool,
    pub amount: u64,
}

/// Emitted when an expired contact request is reclaimed.
#[derive(Debug)]
pub struct ContactRequestExpired {
    pub requester: Vec<u8>,
    pub target: Vec<u8>,
    pub amount: u64,
}

/// Opens a contact request: validates the message and amount, derives the
/// record's address from the requester and the target profile, and moves the
/// payment from the requester into the record's custody, atomically.
pub fn send_contact_request(
    bank: &mut EscrowBank,
    program_id: &Vec<u8>,
    requester: &Vec<u8>,
    target_profile: &Vec<u8>,
    message: Vec<u8>,
    amount: u64,
    now: i64,
) -> (r: Result<ContactRequestSent, JobPlatformError>)
    requires
        old(bank).wf(),
        program_id@.len() == 32,
        is_key(requester@),
        is_key(target_profile@),
    ensures
        final(bank).wf(),
        match r {
            Ok(ev) => {
                &&& old(bank).open_error(
                    contact_spec_params(),
                    program_id@,
                    requester@,
                    target_profile@,
                    message@,
                    amount,
                    now,
                ) is None
                &&& ev.requester@ == requester@
                &&& ev.target@ == target_profile@
                &&& ev.amount == amount
                &&& ev.created_at == now
                &&& ({
                    let addr = derived_addr_of(program_id@, requester@, target_profile@);
                    open_applied(
                        *old(bank),
                        *final(bank),
                        contact_spec_params(),
                        program_id@,
                        requester@,
                        target_profile@,
                        message@,
                        amount,
                        now,
                        addr,
                        final(bank).offers()[addr].bump,
                    )
                })
            },
            Err(e) => Some(e) == old(bank).open_error(
                contact_spec_params(),
                program_id@,
                requester@,
                target_profile@,
                message@,
                amount,
                now,
            ) && *final(bank) == *old(bank),
        },
{
    let params = contact_params();
    match bank.open_record(
        &params,
        program_id,
        requester,
        target_profile,
        message,
        amount,
        now,
    ) {
        Ok((_addr, _bump)) => Ok(
            ContactRequestSent {
                requester: bytes_clone(requester),
                target: bytes_clone(target_profile),
                amount,
                created_at: now,
            },
        ),
        Err(e) => Err(e),
    }
}

/// The address a successful contact request ends up at (the derivation is
/// total here because success implies it existed).
pub open spec fn derived_addr_of(program_id: Seq<u8>, requester: Seq<u8>, target: Seq<u8>) -> Seq<
    u8,
> {
    crate::addressing::derived_address(
        crate::addressing::pair_seeds(contact_tag(), requester, target),
        program_id,
    )->Some_0.0
}

/// Why a response to a contact request would fail; `None` means it succeeds.
pub open spec fn respond_to_contact_error(
    bank: EscrowBank,
    program_id: Seq<u8>,
    contact_request_id: Seq<u8>,
    profile_owner_rec: Seq<u8>,
    profile_bump: u8,
    profile_addr: Seq<u8>,
    signer: Seq<u8>,
    accept: bool,
    now: i64,
) -> Option<JobPlatformError> {
    if profile_owner_rec != signer {
        Some(JobPlatformError::NotAuthorized)
    } else {
        bank.respond_error(
            contact_spec_params(),
            program_id,
            contact_request_id,
            signer,
            profile_addr,
            profile_bump,
            accept,
            now,
        )
    }
}

/// The recorded target's owner answers or declines a Pending, non-expired
/// contact request.  Answering pays the custodied amount to the owner;
/// declining refunds the requester.  Everything commits atomically.
pub fn respond_to_contact_request(
    bank: &mut EscrowBank,
    program_id: &Vec<u8>,
    contact_request_id: &Vec<u8>,
    profile: &Profile,
    profile_addr: &Vec<u8>,
    profile_owner: &Vec<u8>,
    accept: bool,
    now: i64,
) -> (r: Result<ContactRequestProcessed, JobPlatformError>)
    requires
        old(bank).wf(),
        program_id@.len() == 32,
    ensures
        final(bank).wf(),
        match r {
            Ok(ev) => {
                &&& respond_to_contact_error(
                    *old(bank),
                    program_id@,
                    contact_request_id@,
                    profile.owner@,
                    profile.bump,
                    profile_addr@,
                    profile_owner@,
                    accept,
                    now,
                ) is None
                &&& ev.requester@ == old(bank).offers()[contact_request_id@].opener@
                &&& ev.target@ == old(bank).offers()[contact_request_id@].target@
                &&& ev.accepted == accept
                &&& ev.amount == old(bank).offers()[contact_request_id@].amount
                &&& respond_applied(
                    *old(bank),
                    *final(bank),
                    contact_request_id@,
                    profile_owner@,
                    accept,
                    old(bank).balance(contact_request_id@),
                )
            },
            Err(e) => Some(e) == respond_to_contact_error(
                *old(bank),
                program_id@,
                contact_request_id@,
                profile.owner@,
                profile.bump,
                profile_addr@,
                profile_owner@,
                accept,
                now,
            ) && *final(bank) == *old(bank),
        },
{
    if !bytes_eq(&profile.owner, profile_owner) {
        return Err(JobPlatformError::NotAuthorized);
    }
    let (requester, target, amount) = match bank.get_offer(contact_request_id) {
        Some(rec) => (bytes_clone(&rec.opener), bytes_clone(&rec.target), rec.amount),
        None => {
            return Err(JobPlatformError::OfferNotFound);
        },
    };
    let params = contact_params();
    match bank.respond_record(
        &params,
        program_id,
        contact_request_id,
        profile_owner,
        profile_addr,
        profile.bump,
        accept,
        now,
    ) {
        Ok(_released) => Ok(
            ContactRequestProcessed { requester, target, accepted: accept, amount },
        ),
        Err(e) => Err(e),
    }
}

/// Reclaims a contact request whose deadline has passed without an answer:
/// the record turns Expired and the payment flows back to the requester.
/// Permissionless: no signer is required after the deadline.
pub fn reclaim_contact_request(
    bank: &mut EscrowBank,
    program_id: &Vec<u8>,
    contact_request_id: &Vec<u8>,
    now: i64,
) -> (r: Result<ContactRequestExpired, JobPlatformError>)
    requires
        old(bank).wf(),
        program_id@.len() == 32,
    ensures
        final(bank).wf(),
        match r {
            Ok(ev) => {
                &&& old(bank).reclaim_error(
                    contact_spec_params(),
                    program_id@,
                    contact_request_id@,
                    now,
                ) is None
                &&& ev.requester@ == old(bank).offers()[contact_request_id@].opener@
                &&& ev.target@ == old(bank).offers()[contact_request_id@].target@
                &&& ev.amount == old(bank).offers()[contact_request_id@].amount
                &&& reclaim_applied(
                    *old(bank),
                    *final(bank),
                    contact_request_id@,
                    old(bank).balance(contact_request_id@),
                )
            },
            Err(e) => Some(e) == old(bank).reclaim_error(
                contact_spec_params(),
                program_id@,
                contact_request_id@,
                now,
            ) && *final(bank) == *old(bank),
        },
{
    let (requester, target, amount) = match bank.get_offer(contact_request_id) {
        Some(rec) => (bytes_clone(&rec.opener), bytes_clone(&rec.target), rec.amount),
        None => {
            return Err(JobPlatformError::OfferNotFound);
        },
    };
    let params = contact_params();
    match bank.reclaim_record(&params, program_id, contact_request_id, now) {
        Ok(_released) => Ok(ContactRequestExpired { requester, target, amount }),
        Err(e) => Err(e),
    }
}

/// Reads the contact request stored at an address, as a standalone value.
pub fn get_contact_request(bank: &EscrowBank, contact_request_id: &Vec<u8>) -> (r: Option<
    ContactRequest,
>)
    requires
        bank.wf(),
    ensures
        match r {
            Some(c) => {
                &&& bank.offers().contains_key(contact_request_id@)
                &&& ({
                    let rec = bank.offers()[contact_request_id@];
                    &&& c.requester@ == rec.opener@
                    &&& c.target_profile@ == rec.target@
                    &&& c.message@ == rec.message@
                    &&& c.amount == rec.amount
                    &&& c.created_at == rec.created_at
                    &&& c.expires_at == rec.expires_at
                    &&& c.status == contact_status_of(rec.status)
                    &&& c.bump == rec.bump
                })
            },
            None => !bank.offers().contains_key(contact_request_id@),
        },
{
    match bank.get_offer(contact_request_id) {
        Some(rec) => Some(
            ContactRequest {
                requester: bytes_clone(&rec.opener),
                target_profile: bytes_clone(&rec.target),
                message: bytes_clone(&rec.message),
                amount: rec.amount,
                created_at: rec.created_at,
                expires_at: rec.expires_at,
                status: to_contact_status(rec.status),
                bump: rec.bump,
            },
        ),
        None => None,
    }
}

} // verus!
