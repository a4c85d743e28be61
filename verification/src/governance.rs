//! Governance over card metadata: amendments with a voting deadline, votes backed by
//! tokens, and the settlement that asks the asset program to change a card's metadata URI.
use vstd::prelude::*;

use crate::instruction::TokenTransfer;
use crate::key::Key;

verus! {

/// A proposal to give card `card_id` a new metadata URI, open until `deadline_slot`.
pub struct Amendment {
    pub creator: Key,
    pub card_id: u8,
    pub new_metadata_uri: String,
    pub deadline_slot: u64,
    pub pros: u64,
    pub cons: u64,
}

impl Amendment {
    /// Bytes an account needs to hold an amendment.
    pub const INIT_SPACE: usize = 8 + 32 + 1 + 32 + (3 * 8);

    /// Whether the amendment has more votes for than against.
    pub open spec fn carried(self) -> bool {
        self.pros > self.cons
    }
}

/// A wallet's vote on an amendment, with the tokens it locked.
pub struct Vote {
    pub voter: Key,
    pub amendment_id: u32,
    pub accept: bool,
    pub tokens: u64,
}

impl Vote {
    /// Bytes an account needs to hold a vote.
    pub const INIT_SPACE: usize = 8 + 32 + 32 + 1 + 8;
}

/// Why a governance instruction is refused.
#[derive(Debug, PartialEq, Eq, Structural)]
pub enum ErrorCode {
    CustomError,
    VoteAfterDeadline,
    ResolveBeforeDeadline,
}

impl ErrorCode {
    /// The message shown for the error.
    pub fn message(&self) -> (m: &'static str)
        ensures
            m@ == (match *self {
                ErrorCode::CustomError => "Custom error message"@,
                ErrorCode::VoteAfterDeadline => "You cannot vote after deadline"@,
                ErrorCode::ResolveBeforeDeadline => "You cannot resolve before deadline"@,
            }),
    {
        match self {
            ErrorCode::CustomError => "Custom error message",
            ErrorCode::VoteAfterDeadline => "You cannot vote after deadline",
            ErrorCode::ResolveBeforeDeadline => "You cannot resolve before deadline",
        }
    }
}

/// The accounts of the instruction that proposes an amendment.
pub struct CreateAmendement {
    pub signer: Key,
    pub amendment: Amendment,
}

/// Whether an amendment with deadline `deadline_slot` can still be proposed at `slot`.
pub open spec fn open_at(deadline_slot: u64, slot: u64) -> bool {
    slot < deadline_slot
}

impl CreateAmendement {
    /// The amendment that a successful `create` writes.
    pub open spec fn proposed(self, card_id: u8, new_metadata_uri: String, deadline_slot: u64) -> Amendment {
        Amendment {
            creator: self.signer,
            card_id,
            new_metadata_uri,
            deadline_slot,
            pros: 0,
            cons: 0,
        }
    }

    /// Proposes that card `card_id` get `new_metadata_uri`, open until `deadline_slot`;
    /// `current_slot` is the cluster's slot. Refused with `CustomError`, nothing changed, unless
    /// the deadline is still ahead; otherwise the amendment is written with no votes.
    pub fn create(
        &mut self,
        card_id: u8,
        new_metadata_uri: String,
        deadline_slot: u64,
        current_slot: u64,
    ) -> (r: Result<(), ErrorCode>)
        ensures
            !open_at(deadline_slot, current_slot) ==> r == Err::<(), ErrorCode>(ErrorCode::CustomError)
                && *final(self) == *old(self),
            open_at(deadline_slot, current_slot) ==> r == Ok::<(), ErrorCode>(())
                && final(self).signer == old(self).signer
                && final(self).amendment == old(self).proposed(card_id, new_metadata_uri, deadline_slot),
            current_slot >= deadline_slot ==> r is Err && *final(self) == *old(self),
            current_slot < deadline_slot ==> r is Ok,
            r is Ok ==> final(self).amendment.creator == old(self).signer
                && final(self).amendment.card_id == card_id
                && final(self).amendment.new_metadata_uri == new_metadata_uri
                && final(self).amendment.deadline_slot == deadline_slot
                && final(self).amendment.pros == 0
                && final(self).amendment.cons == 0,
    {
        if !(current_slot < deadline_slot) {
            return Err(ErrorCode::CustomError);
        }
        self.amendment = Amendment {
            creator: self.signer,
            card_id,
            new_metadata_uri,
            deadline_slot,
            pros: 0,
            cons: 0,
        };
        Ok(())
    }
}

/// The asset program's change of card `card_id`'s metadata URI to `new_metadata_uri`, with the
/// accounts that the call names.
pub struct UriUpdate {
    pub program: Key,
    pub signer: Key,
    pub card: Key,
    pub vault: Key,
    pub metadata: Key,
    pub metadata_program: Key,
    pub token_program: Key,
    pub system_program: Key,
    pub sysvar_instructions: Key,
    pub card_id: u8,
    pub new_metadata_uri: String,
}

/// The accounts of the instruction that settles an amendment.
pub struct ResolveAmendment {
    pub signer: Key,
    pub amendment: Amendment,
    pub card: Key,
    pub vault: Key,
    pub metadata: Key,
    pub asset_program: Key,
    pub metadata_program: Key,
    pub token_program: Key,
    pub system_program: Key,
    pub sysvar_instructions: Key,
}

impl ResolveAmendment {
    /// Whether the amendment can be settled at `slot`: its deadline has passed.
    pub open spec fn settles_at(self, slot: u64) -> bool {
        slot > self.amendment.deadline_slot
    }

    /// The asset program's URI change that settling a carried amendment asks for: this
    /// instruction's accounts, and the amendment's card and URI.
    pub open spec fn uri_update(self) -> UriUpdate {
        UriUpdate {
            program: self.asset_program,
            signer: self.signer,
            card: self.card,
            vault: self.vault,
            metadata: self.metadata,
            metadata_program: self.metadata_program,
            token_program: self.token_program,
            system_program: self.system_program,
            sysvar_instructions: self.sysvar_instructions,
            card_id: self.amendment.card_id,
            new_metadata_uri: self.amendment.new_metadata_uri,
        }
    }

    /// Settles the amendment at `current_slot`. Refused with `ResolveBeforeDeadline` unless the
    /// deadline has passed; then, when the amendment has more votes for than against, returns
    /// the URI change to ask of the asset program, else none.
    pub fn resolve(&self, current_slot: u64) -> (r: Result<Option<UriUpdate>, ErrorCode>)
        ensures
            !self.settles_at(current_slot)
                ==> r == Err::<Option<UriUpdate>, ErrorCode>(ErrorCode::ResolveBeforeDeadline),
            self.settles_at(current_slot) && !self.amendment.carried()
                ==> r == Ok::<Option<UriUpdate>, ErrorCode>(None),
            self.settles_at(current_slot) && self.amendment.carried()
                ==> r == Ok::<Option<UriUpdate>, ErrorCode>(Some(self.uri_update())),
            current_slot <= self.amendment.deadline_slot
                ==> r == Err::<Option<UriUpdate>, ErrorCode>(ErrorCode::ResolveBeforeDeadline),
            current_slot > self.amendment.deadline_slot && self.amendment.pros > self.amendment.cons
                ==> r matches Ok(Some(_)),
            current_slot > self.amendment.deadline_slot && self.amendment.pros <= self.amendment.cons
                ==> r == Ok::<Option<UriUpdate>, ErrorCode>(None),
            r matches Ok(Some(u)) ==> u.card_id == self.amendment.card_id
                && u.new_metadata_uri == self.amendment.new_metadata_uri
                && u.program == self.asset_program
                && u.signer == self.signer
                && u.card == self.card
                && u.vault == self.vault
                && u.metadata == self.metadata
                && u.metadata_program == self.metadata_program
                && u.token_program == self.token_program
                && u.system_program == self.system_program
                && u.sysvar_instructions == self.sysvar_instructions,
    {
        if !(current_slot > self.amendment.deadline_slot) {
            return Err(ErrorCode::ResolveBeforeDeadline);
        }
        if self.amendment.pros > self.amendment.cons {
            Ok(Some(UriUpdate {
                program: self.asset_program,
                signer: self.signer,
                card: self.card,
                vault: self.vault,
                metadata: self.metadata,
                metadata_program: self.metadata_program,
                token_program: self.token_program,
                system_program: self.system_program,
                sysvar_instructions: self.sysvar_instructions,
                card_id: self.amendment.card_id,
                new_metadata_uri: self.amendment.new_metadata_uri.clone(),
            }))
        } else {
            Ok(None)
        }
    }
}

/// The accounts of the instruction that casts a vote.
pub struct VoteFor {
    pub signer: Key,
    pub vote_key: Key,
    pub vote: Vote,
    pub mint: Key,
    pub vote_ata: Key,
    pub signer_ata: Key,
}

impl VoteFor {
    /// Whether a vote on an amendment with deadline `deadline_slot` comes too late at `slot`.
    pub open spec fn too_late(deadline_slot: u64, slot: u64) -> bool {
        slot > deadline_slot
    }

    /// Records the signer's vote `accept` on amendment `amendment_id`, whose deadline is
    /// `deadline_slot`, backed by `tokens`; `current_slot` is the cluster's slot. Refused with
    /// `VoteAfterDeadline`, nothing changed, when the deadline has passed; otherwise returns the
    /// transfer of the tokens from the signer's token account to the vote's.
    pub fn vote_for(
        &mut self,
        amendment_id: u32,
        accept: bool,
        tokens: u64,
        deadline_slot: u64,
        current_slot: u64,
    ) -> (r: Result<TokenTransfer, ErrorCode>)
        ensures
            Self::too_late(deadline_slot, current_slot)
                ==> r == Err::<TokenTransfer, ErrorCode>(ErrorCode::VoteAfterDeadline) && *final(self) == *old(self),
            !Self::too_late(deadline_slot, current_slot) ==> r == Ok::<TokenTransfer, ErrorCode>(
                (TokenTransfer { from: old(self).signer_ata, to: old(self).vote_ata, authority: old(self).signer, amount: tokens }),
            ) && final(self).vote == (Vote { voter: old(self).signer, amendment_id, accept, tokens })
                && *final(self) == (VoteFor { vote: final(self).vote, ..*old(self) }),
            current_slot > deadline_slot ==> r == Err::<TokenTransfer, ErrorCode>(ErrorCode::VoteAfterDeadline)
                && *final(self) == *old(self),
            current_slot <= deadline_slot ==> r is Ok,
            r matches Ok(t) ==> t.from == old(self).signer_ata && t.to == old(self).vote_ata
                && t.authority == old(self).signer && t.amount == tokens
                && final(self).vote.voter == old(self).signer
                && final(self).vote.amendment_id == amendment_id
                && final(self).vote.accept == accept
                && final(self).vote.tokens == tokens,
    {
        if current_slot > deadline_slot {
            return Err(ErrorCode::VoteAfterDeadline);
        }
        let t = self.transfer_tokens(tokens);
        self.vote = Vote { voter: self.signer, amendment_id, accept, tokens };
        Ok(t)
    }

    /// The transfer of `amount` tokens from the signer's token account to the vote's.
    pub fn transfer_tokens(&self, amount: u64) -> (t: TokenTransfer)
        ensures
            t == (TokenTransfer { from: self.signer_ata, to: self.vote_ata, authority: self.signer, amount }),
    {
        TokenTransfer { from: self.signer_ata, to: self.vote_ata, authority: self.signer, amount }
    }
}

/// No slot both admits proposing an amendment and settling it: proposals need the deadline
/// ahead, settlement needs it passed.
pub proof fn lemma_no_slot_both_proposes_and_settles(
    c: CreateAmendement,
    card_id: u8,
    new_metadata_uri: String,
    deadline_slot: u64,
    slot: u64,
    r: ResolveAmendment,
)
    requires
        r.amendment == c.proposed(card_id, new_metadata_uri, deadline_slot),
        open_at(deadline_slot, slot),
    ensures
        !r.settles_at(slot),
{
}

/// An amendment as proposed carries no votes, so settling it asks for no change.
pub proof fn lemma_fresh_amendment_is_not_carried(
    c: CreateAmendement,
    card_id: u8,
    new_metadata_uri: String,
    deadline_slot: u64,
)
    ensures
        !c.proposed(card_id, new_metadata_uri, deadline_slot).carried(),
        c.proposed(card_id, new_metadata_uri, deadline_slot).creator == c.signer,
{
}

/// Voting and settling never overlap: at a slot where an amendment can be settled, a vote
/// on it comes too late, and a vote that is still on time comes before settlement.
pub proof fn lemma_votes_close_before_settlement(r: ResolveAmendment, slot: u64)
    ensures
        r.settles_at(slot) ==> VoteFor::too_late(r.amendment.deadline_slot, slot),
        !VoteFor::too_late(r.amendment.deadline_slot, slot) ==> !r.settles_at(slot),
{
}

/// An amendment carries exactly when it has more votes for than against: one vote more for
/// than against is enough, and a tie or a majority against is not.
pub proof fn lemma_carried_means_majority_for(a: Amendment)
    ensures
        a.carried() <==> a.pros > a.cons,
        a.pros == a.cons + 1 ==> a.carried(),
        a.pros <= a.cons ==> !a.carried(),
{
}

/// Settlement of an amendment at a slot after its deadline asks for the URI change exactly
/// when the amendment carries, and the change names the amendment's card and URI and the
/// settling instruction's accounts.
pub proof fn lemma_settlement_follows_the_vote(r: ResolveAmendment, slot: u64)
    ensures
        r.settles_at(slot) <==> slot > r.amendment.deadline_slot,
        r.uri_update().card_id == r.amendment.card_id,
        r.uri_update().new_metadata_uri == r.amendment.new_metadata_uri,
        r.uri_update().program == r.asset_program,
        r.uri_update().signer == r.signer,
        r.uri_update().card == r.card,
        r.uri_update().vault == r.vault,
        r.uri_update().metadata == r.metadata,
{
}

/// A vote is refused exactly when it comes after the deadline: every slot up to and including
/// the deadline is on time, every later slot is late.
pub proof fn lemma_votes_are_late_only_after_the_deadline(deadline_slot: u64, slot: u64)
    ensures
        VoteFor::too_late(deadline_slot, slot) <==> slot > deadline_slot,
        slot <= deadline_slot ==> !VoteFor::too_late(deadline_slot, slot),
        !VoteFor::too_late(deadline_slot, deadline_slot),
{
}

/// A proposal is written with exactly the arguments it was given: the signer as creator, the
/// card, the URI and the deadline, and no votes; and it can be made exactly while the
/// deadline is ahead.
pub proof fn lemma_proposal_stores_its_arguments(
    c: CreateAmendement,
    card_id: u8,
    new_metadata_uri: String,
    deadline_slot: u64,
    slot: u64,
)
    ensures
        c.proposed(card_id, new_metadata_uri, deadline_slot).creator == c.signer,
        c.proposed(card_id, new_metadata_uri, deadline_slot).card_id == card_id,
        c.proposed(card_id, new_metadata_uri, deadline_slot).new_metadata_uri == new_metadata_uri,
        c.proposed(card_id, new_metadata_uri, deadline_slot).deadline_slot == deadline_slot,
        c.proposed(card_id, new_metadata_uri, deadline_slot).pros == 0,
        c.proposed(card_id, new_metadata_uri, deadline_slot).cons == 0,
        open_at(deadline_slot, slot) <==> slot < deadline_slot,
{
}

/// Time only closes proposals and only opens settlement: a deadline open at a slot is open at
/// every earlier slot, and an amendment that can be settled at a slot can be settled at every
/// later one.
pub proof fn lemma_deadline_is_monotone(deadline_slot: u64, r: ResolveAmendment, earlier: u64, later: u64)
    requires
        earlier <= later,
    ensures
        open_at(deadline_slot, later) ==> open_at(deadline_slot, earlier),
        r.settles_at(earlier) ==> r.settles_at(later),
{
}

} // verus!
