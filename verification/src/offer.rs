use vstd::prelude::*;

use crate::addressing::address_for_bump;
use crate::addressing::derive_pair_address;
use crate::addressing::derived_address;
use crate::addressing::pair_seeds;
use crate::addressing::check_pair_address;
use crate::addressing::check_single_address;
use crate::addressing::single_seeds;
use crate::bytes_util::bytes_clone;
use crate::bytes_util::bytes_eq;
use crate::bytes_util::is_key;
use crate::errors::class_of;
use crate::errors::ErrorClass;
use crate::errors::JobPlatformError;
use crate::ledger::EscrowLedger;
use crate::table::Table;

verus! {

/// Lifecycle of an escrow record: it starts Pending and moves to exactly one
/// terminal state; no transition is reversible.
#[derive(Clone, Copy, Debug, PartialEq, Eq, Structural)]
pub enum OfferStatus {
    Pending,
    Accepted,
    Rejected,
    Expired,
}

/// One escrow-backed offer: the opener's funds sit at the record's derived
/// address until the target resolves it or it expires.
#[derive(Debug)]
pub struct EscrowRecord {
    /// Identity of the party who funded the escrow.
    pub opener: Vec<u8>,
    /// Address of the target profile record the offer is directed at.
    pub target: Vec<u8>,
    /// Free-form text carried with the offer, in bytes.
    pub message: Vec<u8>,
    /// Base currency units held in escrow at open time.
    pub amount: u64,
    pub created_at: i64,
    pub expires_at: i64,
    pub status: OfferStatus,
    /// Uniqueness adjustment used to recompute this record's address.
    pub bump: u8,
}

/// Configuration of one instance of the protocol (scout offers and contact
/// requests share the machine but differ in these numbers).
pub struct OfferParams {
    /// Namespace tag under which the escrow records are addressed.
    pub tag: Vec<u8>,
    /// Namespace tag under which the target profile records are addressed.
    pub profile_tag: Vec<u8>,
    /// Longest accepted message, in bytes.
    pub message_max: usize,
    /// Smallest accepted escrow amount, in base currency units.
    pub min_amount: u64,
    /// Seconds from creation to expiry.
    pub window: i64,
}

/// The specification-level image of [`OfferParams`].
#[verifier::ext_equal]
pub struct SpecParams {
    pub tag: Seq<u8>,
    pub profile_tag: Seq<u8>,
    pub message_max: usize,
    pub min_amount: u64,
    pub window: i64,
}

impl SpecParams {
    pub open spec fn wf(self) -> bool {
        self.min_amount >= 1 && self.window >= 1
    }
}

impl View for OfferParams {
    type V = SpecParams;

    open spec fn view(&self) -> SpecParams {
        SpecParams {
            tag: self.tag@,
            profile_tag: self.profile_tag@,
            message_max: self.message_max,
            min_amount: self.min_amount,
            window: self.window,
        }
    }
}

/// What the bank guarantees of every stored record.
pub open spec fn record_ok(k: Seq<u8>, r: EscrowRecord) -> bool {
    &&& is_key(r.opener@)
    &&& is_key(r.target@)
    &&& is_key(k)
    &&& r.opener@ != k
    &&& r.created_at < r.expires_at
}

/// Exactly how a successful Open changes the bank: the record appears at the
/// derived address, Pending, with the given fields, and the full amount moves
/// from the opener into the record's custody; nothing else changes.
pub open spec fn open_applied(
    pre: EscrowBank,
    post: EscrowBank,
    params: SpecParams,
    program_id: Seq<u8>,
    opener: Seq<u8>,
    target: Seq<u8>,
    message: Seq<u8>,
    amount: u64,
    now: i64,
    addr: Seq<u8>,
    bump: u8,
) -> bool {
    &&& derived_address(pair_seeds(params.tag, opener, target), program_id) == Some((addr, bump))
    &&& post.offers().contains_key(addr)
    &&& ({
        let rec = post.offers()[addr];
        &&& rec.opener@ == opener
        &&& rec.target@ == target
        &&& rec.message@ == message
        &&& rec.amount == amount
        &&& rec.created_at == now
        &&& rec.expires_at == now + params.window
        &&& rec.status == OfferStatus::Pending
        &&& rec.bump == bump
        &&& post.offers() == pre.offers().insert(addr, rec)
    })
    &&& post.balance(opener) == pre.balance(opener) - amount
    &&& post.balance(addr) == amount
    &&& forall|x: Seq<u8>| x != opener && x != addr ==> post.balance(x) == pre.balance(x)
}

/// Exactly how a successful Respond changes the bank: only the status moves,
/// to the terminal state chosen by the accept flag, and the full custodied
/// balance flows to the signer (accept) or back to the opener (reject).
pub open spec fn respond_applied(
    pre: EscrowBank,
    post: EscrowBank,
    addr: Seq<u8>,
    signer: Seq<u8>,
    accept: bool,
    released: u64,
) -> bool {
    &&& pre.offers().contains_key(addr)
    &&& post.offers().contains_key(addr)
    &&& ({
        let rec0 = pre.offers()[addr];
        let rec1 = post.offers()[addr];
        let recipient = if accept {
            signer
        } else {
            rec0.opener@
        };
        &&& rec1.opener@ == rec0.opener@
        &&& rec1.target@ == rec0.target@
        &&& rec1.message@ == rec0.message@
        &&& rec1.amount == rec0.amount
        &&& rec1.created_at == rec0.created_at
        &&& rec1.expires_at == rec0.expires_at
        &&& rec1.bump == rec0.bump
        &&& rec1.status == (if accept {
            OfferStatus::Accepted
        } else {
            OfferStatus::Rejected
        })
        &&& post.offers() == pre.offers().insert(addr, rec1)
        &&& released == pre.balance(addr)
        &&& post.balance(addr) == 0
        &&& post.balance(recipient) == pre.balance(recipient) + released
        &&& forall|x: Seq<u8>|
            x != addr && x != recipient ==> post.balance(x) == pre.balance(x)
    })
}

/// Exactly how a successful reclaim changes the bank: the record turns
/// Expired and the full custodied balance flows back to the opener.
pub open spec fn reclaim_applied(
    pre: EscrowBank,
    post: EscrowBank,
    addr: Seq<u8>,
    released: u64,
) -> bool {
    &&& pre.offers().contains_key(addr)
    &&& post.offers().contains_key(addr)
    &&& ({
        let rec0 = pre.offers()[addr];
        let rec1 = post.offers()[addr];
        &&& rec1.opener@ == rec0.opener@
        &&& rec1.target@ == rec0.target@
        &&& rec1.message@ == rec0.message@
        &&& rec1.amount == rec0.amount
        &&& rec1.created_at == rec0.created_at
        &&& rec1.expires_at == rec0.expires_at
        &&& rec1.bump == rec0.bump
        &&& rec1.status == OfferStatus::Expired
        &&& post.offers() == pre.offers().insert(addr, rec1)
        &&& released == pre.balance(addr)
        &&& post.balance(addr) == 0
        &&& post.balance(rec0.opener@) == pre.balance(rec0.opener@) + released
        &&& forall|x: Seq<u8>|
            x != addr && x != rec0.opener@ ==> post.balance(x) == pre.balance(x)
    })
}

/// The escrow bank: the balance ledger plus the table of escrow records, one
/// record per derived address.  Every operation commits atomically: on any
/// error nothing observable changes.
pub struct EscrowBank {
    ledger: EscrowLedger,
    records: Table<EscrowRecord>,
}

impl EscrowBank {
    /// The records, as a map from derived address to record.
    pub closed spec fn offers(self) -> Map<Seq<u8>, EscrowRecord> {
        self.records@
    }

    /// The spendable balance of an account address.
    pub closed spec fn balance(self, a: Seq<u8>) -> u64 {
        self.ledger.balance(a)
    }

    pub closed spec fn wf(self) -> bool {
        &&& self.ledger.wf()
        &&& self.records.wf()
        &&& forall|k: Seq<u8>|
            self.offers().contains_key(k) ==> record_ok(k, #[trigger] self.offers()[k])
    }

    pub fn new() -> (r: EscrowBank)
        ensures
            r.wf(),
            r.offers() == Map::<Seq<u8>, EscrowRecord>::empty(),
            forall|a: Seq<u8>| r.balance(a) == 0,
    {
        EscrowBank { ledger: EscrowLedger::new(), records: Table::new() }
    }

    /// Credits an account with funds arriving from outside the bank's view.
    pub fn deposit(&mut self, account: &Vec<u8>, amount: u64) -> (r: Result<(), JobPlatformError>)
        requires
            old(self).wf(),
        ensures
            final(self).wf(),
            final(self).offers() == old(self).offers(),
            match r {
                Ok(()) => old(self).balance(account@) + amount <= u64::MAX && final(self).balance(
                    account@,
                ) == old(self).balance(account@) + amount && forall|x: Seq<u8>|
                    x != account@ ==> final(self).balance(x) == old(self).balance(x),
                Err(e) => e == JobPlatformError::BalanceOverflow && old(self).balance(account@)
                    + amount > u64::MAX && *final(self) == *old(self),
            },
    {
        let r = self.ledger.deposit(account, amount);
        proof {
            assert forall|k: Seq<u8>| self.offers().contains_key(k) implies record_ok(
                k,
                #[trigger] self.offers()[k],
            ) by {
                assert(record_ok(k, old(self).offers()[k]));
            }
        }
        r
    }

    pub fn balance_of(&self, a: &Vec<u8>) -> (r: u64)
        requires
            self.wf(),
        ensures
            r == self.balance(a@),
    {
        self.ledger.balance_of(a)
    }

    pub fn contains_offer(&self, addr: &Vec<u8>) -> (r: bool)
        requires
            self.wf(),
        ensures
            r == self.offers().contains_key(addr@),
    {
        self.records.contains(addr)
    }

    pub fn offer_status(&self, addr: &Vec<u8>) -> (r: Option<OfferStatus>)
        requires
            self.wf(),
        ensures
            match r {
                Some(s) => self.offers().contains_key(addr@) && s == self.offers()[addr@].status,
                None => !self.offers().contains_key(addr@),
            },
    {
        match self.records.get(addr) {
            Some(rec) => Some(rec.status),
            None => None,
        }
    }

    pub fn get_offer(&self, addr: &Vec<u8>) -> (r: Option<&EscrowRecord>)
        requires
            self.wf(),
        ensures
            match r {
                Some(rec) => self.offers().contains_key(addr@) && *rec == self.offers()[addr@],
                None => !self.offers().contains_key(addr@),
            },
    {
        self.records.get(addr)
    }

    /// Why an Open would fail, checked in this order; `None` means it succeeds.
    pub open spec fn open_error(
        self,
        params: SpecParams,
        program_id: Seq<u8>,
        opener: Seq<u8>,
        target: Seq<u8>,
        message: Seq<u8>,
        amount: u64,
        now: i64,
    ) -> Option<JobPlatformError> {
        if message.len() > params.message_max {
            Some(JobPlatformError::MessageTooLong)
        } else if amount < params.min_amount {
            Some(JobPlatformError::IncentiveTooLow)
        } else if now + params.window > i64::MAX {
            Some(JobPlatformError::TimestampOverflow)
        } else {
            match derived_address(pair_seeds(params.tag, opener, target), program_id) {
                None => Some(JobPlatformError::AddressDerivationFailed),
                Some(p) => {
                    if self.offers().contains_key(p.0) || self.balance(p.0) != 0 {
                        Some(JobPlatformError::OfferAlreadyExists)
                    } else if self.balance(opener) < amount {
                        Some(JobPlatformError::InsufficientFunds)
                    } else {
                        None
                    }
                },
            }
        }
    }

    /// Open: validates the message and amount, derives the record's address,
    /// allocates the record once and for all, and moves the full amount from
    /// the opener into its custody — all in one indivisible step.
    pub fn open_record(
        &mut self,
        params: &OfferParams,
        program_id: &Vec<u8>,
        opener: &Vec<u8>,
        target: &Vec<u8>,
        message: Vec<u8>,
        amount: u64,
        now: i64,
    ) -> (r: Result<(Vec<u8>, u8), JobPlatformError>)
        requires
            old(self).wf(),
            params@.wf(),
            program_id@.len() == 32,
            is_key(opener@),
            is_key(target@),
        ensures
            final(self).wf(),
            match r {
                Ok(p) => old(self).open_error(
                    params@,
                    program_id@,
                    opener@,
                    target@,
                    message@,
                    amount,
                    now,
                ) is None && open_applied(
                    *old(self),
                    *final(self),
                    params@,
                    program_id@,
                    opener@,
                    target@,
                    message@,
                    amount,
                    now,
                    p.0@,
                    p.1,
                ),
                Err(e) => Some(e) == old(self).open_error(
                    params@,
                    program_id@,
                    opener@,
                    target@,
                    message@,
                    amount,
                    now,
                ) && *final(self) == *old(self),
            },
    {
        if message.len() > params.message_max {
            return Err(JobPlatformError::MessageTooLong);
        }
        if amount < params.min_amount {
            return Err(JobPlatformError::IncentiveTooLow);
        }
        if now > i64::MAX - params.window {
            return Err(JobPlatformError::TimestampOverflow);
        }
        let derived = derive_pair_address(&params.tag, opener, target, program_id);
        let (addr, bump) = match derived {
            Some(p) => p,
            None => {
                return Err(JobPlatformError::AddressDerivationFailed);
            },
        };
        if self.records.contains(&addr) {
            return Err(JobPlatformError::OfferAlreadyExists);
        }
        if self.ledger.balance_of(&addr) != 0 {
            return Err(JobPlatformError::OfferAlreadyExists);
        }
        match self.ledger.transfer(opener, &addr, amount) {
            Ok(()) => {},
            Err(e) => {
                proof {
                    assert(e == JobPlatformError::InsufficientFunds);
                }
                return Err(e);
            },
        }
        let record = EscrowRecord {
            opener: bytes_clone(opener),
            target: bytes_clone(target),
            message,
            amount,
            created_at: now,
            expires_at: now + params.window,
            status: OfferStatus::Pending,
            bump,
        };
        self.records.insert(bytes_clone(&addr), record);
        Ok((addr, bump))
    }

    /// Why a Respond would be refused before its business checks: the record
    /// must exist, the claimed target profile must be the recorded one, the
    /// signer must own that profile, the record's address must recompute from
    /// its stored bump, and a record address itself can never be a signer.
    pub open spec fn respond_auth_error(
        self,
        params: SpecParams,
        program_id: Seq<u8>,
        addr: Seq<u8>,
        signer: Seq<u8>,
        target_addr: Seq<u8>,
        target_bump: u8,
    ) -> Option<JobPlatformError> {
        if !self.offers().contains_key(addr) {
            Some(JobPlatformError::OfferNotFound)
        } else {
            let rec = self.offers()[addr];
            if rec.target@ != target_addr {
                Some(JobPlatformError::NotAuthorized)
            } else if address_for_bump(
                single_seeds(params.profile_tag, signer).push(seq![target_bump]),
                program_id,
            ) != Some(target_addr) {
                Some(JobPlatformError::AddressMismatch)
            } else if address_for_bump(
                pair_seeds(params.tag, rec.opener@, target_addr).push(seq![rec.bump]),
                program_id,
            ) != Some(addr) {
                Some(JobPlatformError::AddressMismatch)
            } else if signer == addr {
                Some(JobPlatformError::NotAuthorized)
            } else {
                None
            }
        }
    }

    /// Why a Respond would fail, checked in this order; `None` means it
    /// succeeds and the custodied balance moves in full.
    pub open spec fn respond_error(
        self,
        params: SpecParams,
        program_id: Seq<u8>,
        addr: Seq<u8>,
        signer: Seq<u8>,
        target_addr: Seq<u8>,
        target_bump: u8,
        accept: bool,
        now: i64,
    ) -> Option<JobPlatformError> {
        match self.respond_auth_error(params, program_id, addr, signer, target_addr, target_bump) {
            Some(e) => Some(e),
            None => {
                let rec = self.offers()[addr];
                if rec.status != OfferStatus::Pending {
                    Some(JobPlatformError::ScoutOfferNotPending)
                } else if now >= rec.expires_at {
                    Some(JobPlatformError::ScoutOfferExpired)
                } else {
                    let recipient = if accept {
                        signer
                    } else {
                        rec.opener@
                    };
                    if self.balance(recipient) + self.balance(addr) > u64::MAX {
                        Some(JobPlatformError::BalanceOverflow)
                    } else {
                        None
                    }
                }
            },
        }
    }

    /// Respond: the recorded target accepts or rejects a Pending, non-expired
    /// offer.  Accepting releases the full custodied balance to the signer;
    /// rejecting refunds it to the opener.  The state change and the fund
    /// movement commit together or not at all.  Returns the amount released.
    pub fn respond_record(
        &mut self,
        params: &OfferParams,
        program_id: &Vec<u8>,
        addr: &Vec<u8>,
        signer: &Vec<u8>,
        target_addr: &Vec<u8>,
        target_bump: u8,
        accept: bool,
        now: i64,
    ) -> (r: Result<u64, JobPlatformError>)
        requires
            old(self).wf(),
            program_id@.len() == 32,
        ensures
            final(self).wf(),
            match r {
                Ok(released) => old(self).respond_error(
                    params@,
                    program_id@,
                    addr@,
                    signer@,
                    target_addr@,
                    target_bump,
                    accept,
                    now,
                ) is None && respond_applied(
                    *old(self),
                    *final(self),
                    addr@,
                    signer@,
                    accept,
                    released,
                ),
                Err(e) => Some(e) == old(self).respond_error(
                    params@,
                    program_id@,
                    addr@,
                    signer@,
                    target_addr@,
                    target_bump,
                    accept,
                    now,
                ) && *final(self) == *old(self),
            },
    {
        let (rec_opener, rec_target, rec_message, rec_amount, rec_created, rec_expires, rec_status, rec_bump) =
            match self.records.get(addr) {
            Some(rec) => (
                bytes_clone(&rec.opener),
                bytes_clone(&rec.target),
                bytes_clone(&rec.message),
                rec.amount,
                rec.created_at,
                rec.expires_at,
                rec.status,
                rec.bump,
            ),
            None => {
                return Err(JobPlatformError::OfferNotFound);
            },
        };
        if !bytes_eq(&rec_target, target_addr) {
            return Err(JobPlatformError::NotAuthorized);
        }
        if !check_single_address(&params.profile_tag, signer, target_bump, target_addr, program_id)
        {
            return Err(JobPlatformError::AddressMismatch);
        }
        if !check_pair_address(&params.tag, &rec_opener, target_addr, rec_bump, addr, program_id) {
            return Err(JobPlatformError::AddressMismatch);
        }
        if bytes_eq(signer, addr) {
            return Err(JobPlatformError::NotAuthorized);
        }
        if rec_status != OfferStatus::Pending {
            return Err(JobPlatformError::ScoutOfferNotPending);
        }
        if now >= rec_expires {
            return Err(JobPlatformError::ScoutOfferExpired);
        }
        let released = match (if accept {
            self.ledger.release_all(addr, signer)
        } else {
            self.ledger.release_all(addr, &rec_opener)
        }) {
            Ok(a) => a,
            Err(e) => {
                return Err(e);
            },
        };
        let record = EscrowRecord {
            opener: rec_opener,
            target: rec_target,
            message: rec_message,
            amount: rec_amount,
            created_at: rec_created,
            expires_at: rec_expires,
            status: if accept {
                OfferStatus::Accepted
            } else {
                OfferStatus::Rejected
            },
            bump: rec_bump,
        };
        self.records.insert(bytes_clone(addr), record);
        Ok(released)
    }

    /// Why a reclaim would fail; `None` means the expired offer is refunded.
    pub open spec fn reclaim_error(
        self,
        params: SpecParams,
        program_id: Seq<u8>,
        addr: Seq<u8>,
        now: i64,
    ) -> Option<JobPlatformError> {
        if !self.offers().contains_key(addr) {
            Some(JobPlatformError::OfferNotFound)
        } else {
            let rec = self.offers()[addr];
            if address_for_bump(
                pair_seeds(params.tag, rec.opener@, rec.target@).push(seq![rec.bump]),
                program_id,
            ) != Some(addr) {
                Some(JobPlatformError::AddressMismatch)
            } else if rec.status != OfferStatus::Pending {
                Some(JobPlatformError::ScoutOfferNotPending)
            } else if now < rec.expires_at {
                Some(JobPlatformError::ScoutOfferNotExpired)
            } else if self.balance(rec.opener@) + self.balance(addr) > u64::MAX {
                Some(JobPlatformError::BalanceOverflow)
            } else {
                None
            }
        }
    }

    /// Reclaim: once a Pending offer has passed its deadline, anyone may mark
    /// it Expired; the full custodied balance flows back to the opener.  This
    /// is the permissionless-after-deadline recovery path, so an opener never
    /// needs the target's cooperation to get an unanswered offer's funds back.
    pub fn reclaim_record(
        &mut self,
        params: &OfferParams,
        program_id: &Vec<u8>,
        addr: &Vec<u8>,
        now: i64,
    ) -> (r: Result<u64, JobPlatformError>)
        requires
            old(self).wf(),
            program_id@.len() == 32,
        ensures
            final(self).wf(),
            match r {
                Ok(released) => old(self).reclaim_error(params@, program_id@, addr@, now)
                    is None && reclaim_applied(*old(self), *final(self), addr@, released),
                Err(e) => Some(e) == old(self).reclaim_error(params@, program_id@, addr@, now)
                    && *final(self) == *old(self),
            },
    {
        let (rec_opener, rec_target, rec_message, rec_amount, rec_created, rec_expires, rec_status, rec_bump) =
            match self.records.get(addr) {
            Some(rec) => (
                bytes_clone(&rec.opener),
                bytes_clone(&rec.target),
                bytes_clone(&rec.message),
                rec.amount,
                rec.created_at,
                rec.expires_at,
                rec.status,
                rec.bump,
            ),
            None => {
                return Err(JobPlatformError::OfferNotFound);
            },
        };
        if !check_pair_address(&params.tag, &rec_opener, &rec_target, rec_bump, addr, program_id) {
            return Err(JobPlatformError::AddressMismatch);
        }
        if rec_status != OfferStatus::Pending {
            return Err(JobPlatformError::ScoutOfferNotPending);
        }
        if now < rec_expires {
            return Err(JobPlatformError::ScoutOfferNotExpired);
        }
        let released = match self.ledger.release_all(addr, &rec_opener) {
            Ok(a) => a,
            Err(e) => {
                return Err(e);
            },
        };
        let record = EscrowRecord {
            opener: rec_opener,
            target: rec_target,
            message: rec_message,
            amount: rec_amount,
            created_at: rec_created,
            expires_at: rec_expires,
            status: OfferStatus::Expired,
            bump: rec_bump,
        };
        self.records.insert(bytes_clone(addr), record);
        Ok(released)
    }
}

/// Law: every record the bank holds satisfies the record invariant — the
/// parties' identities are 32 bytes, the opener is never the record's own
/// address, and the expiry lies strictly after the creation time.
pub proof fn lemma_bank_records_well_formed(bank: EscrowBank, k: Seq<u8>)
    requires
        bank.wf(),
        bank.offers().contains_key(k),
    ensures
        record_ok(k, bank.offers()[k]),
{
}

/// Law: a record already settled one way can never be settled again — any
/// further response, whichever way it tries to settle and whenever it comes,
/// fails with the state error.
pub proof fn lemma_terminal_record_rejects_response(
    bank: EscrowBank,
    params: SpecParams,
    program_id: Seq<u8>,
    addr: Seq<u8>,
    signer: Seq<u8>,
    target_addr: Seq<u8>,
    target_bump: u8,
    accept: bool,
    now: i64,
)
    requires
        bank.offers().contains_key(addr),
        bank.offers()[addr].status != OfferStatus::Pending,
        bank.respond_auth_error(params, program_id, addr, signer, target_addr, target_bump)
            is None,
    ensures
        bank.respond_error(params, program_id, addr, signer, target_addr, target_bump, accept, now)
            == Some(JobPlatformError::ScoutOfferNotPending),
{
}

/// Law: once the deadline has passed, a response to a still-Pending record
/// fails with the temporal error, regardless of the accept flag.
pub proof fn lemma_expired_record_rejects_response(
    bank: EscrowBank,
    params: SpecParams,
    program_id: Seq<u8>,
    addr: Seq<u8>,
    signer: Seq<u8>,
    target_addr: Seq<u8>,
    target_bump: u8,
    now: i64,
)
    requires
        bank.offers().contains_key(addr),
        bank.offers()[addr].status == OfferStatus::Pending,
        now >= bank.offers()[addr].expires_at,
        bank.respond_auth_error(params, program_id, addr, signer, target_addr, target_bump)
            is None,
    ensures
        bank.respond_error(params, program_id, addr, signer, target_addr, target_bump, true, now)
            == Some(JobPlatformError::ScoutOfferExpired),
        bank.respond_error(params, program_id, addr, signer, target_addr, target_bump, false, now)
            == Some(JobPlatformError::ScoutOfferExpired),
{
}

/// Law: a response whose claimed target profile is not the recorded one, or
/// whose signer does not recompute to that profile's address, or that claims
/// the record's own address as signer, fails with an authorization-class
/// error, whatever the accept flag and whatever the time.
pub proof fn lemma_unauthorized_responder_rejected(
    bank: EscrowBank,
    params: SpecParams,
    program_id: Seq<u8>,
    addr: Seq<u8>,
    signer: Seq<u8>,
    target_addr: Seq<u8>,
    target_bump: u8,
    accept: bool,
    now: i64,
)
    requires
        bank.offers().contains_key(addr),
        bank.offers()[addr].target@ != target_addr || address_for_bump(
            single_seeds(params.profile_tag, signer).push(seq![target_bump]),
            program_id,
        ) != Some(target_addr) || signer == addr,
    ensures
        match bank.respond_error(
            params,
            program_id,
            addr,
            signer,
            target_addr,
            target_bump,
            accept,
            now,
        ) {
            Some(e) => class_of(e) == ErrorClass::Authorization,
            None => false,
        },
{
}

} // verus!
