//! The membership registry: certificate issuance, role-gated reward issuance,
//! and the fee reserve.
//!
//! A `Member` registry owns one fungible manager for reward tokens, one for
//! dream tokens, one non-fungible manager for membership cards, a card-id
//! counter, and an XRD fee vault. Reward issuance demands a
//! `CertificateProof` — the runtime's attestation that the caller holds at
//! least one membership card of this registry's card kind — and aborts with
//! `AuthorizationDenied`, minting nothing, when the proof does not attest
//! that.

use vstd::prelude::*;

use crate::resources::Bucket;
use crate::resources::FungibleResourceManager;
use crate::resources::MemberError;
use crate::resources::NonFungibleBucket;
use crate::resources::NonFungibleResourceManager;
use crate::resources::Vault;
use crate::resources::XRD;

verus! {

/// Reward tokens minted by one dual-reward call.
pub const DUAL_REWARD_AMOUNT: u64 = 13;

/// Dream tokens minted by one dual-reward call.
pub const DUAL_DREAM_AMOUNT: u64 = 7;

/// A reward-triggering action with its caller-supplied payout amount. The
/// amount is not validated against any cap; zero is accepted.
pub enum Tasks {
    /// Voted in the named poll; pays the given amount of reward tokens.
    Vote(String, u32),
    /// Attended the named event; pays the given amount of reward tokens.
    AttendEvent(String, u32),
    /// Said hi; pays the given amount of reward tokens.
    SayHi(u32),
    /// A generic award of the given amount, with a free-form reason carried
    /// only for observability.
    Reasoned(u64, String),
}

impl Tasks {
    /// The reward-token payout of the task.
    pub open spec fn spec_reward_amount(&self) -> u64 {
        match self {
            Tasks::Vote(_, amount) => *amount as u64,
            Tasks::AttendEvent(_, amount) => *amount as u64,
            Tasks::SayHi(amount) => *amount as u64,
            Tasks::Reasoned(amount, _) => *amount,
        }
    }

    /// The reward-token payout of the task.
    pub fn reward_amount(&self) -> (amount: u64)
        ensures
            amount == self.spec_reward_amount(),
    {
        match self {
            Tasks::Vote(_, amount) => *amount as u64,
            Tasks::AttendEvent(_, amount) => *amount as u64,
            Tasks::SayHi(amount) => *amount as u64,
            Tasks::Reasoned(amount, _) => *amount,
        }
    }
}

/// The progression level every newly minted membership card starts at.
pub fn initial_level() -> (level: String)
    ensures
        level@ == "0"@,
{
    "0".to_owned()
}

/// The data written into a membership card at mint time.
pub struct MembershipData {
    /// The member's progression level; new cards start at level `"0"`.
    pub level: String,
    /// When the card was minted: seconds since the Unix epoch, rounded to the
    /// minute by the runtime's clock.
    pub join_date_time: i64,
}

/// The runtime's attestation that a caller holds `amount` units of the
/// resource kind `resource_kind`. The registry never inspects raw
/// credentials; it only compares this attestation against its own card kind.
#[derive(Clone, Copy, PartialEq, Eq, Structural, Debug)]
pub struct CertificateProof {
    /// The resource kind whose ownership the proof attests.
    pub resource_kind: u64,
    /// How many units of that kind the proof attests.
    pub amount: u64,
}

/// One reward-issuing call, recorded for the supply-conservation invariant:
/// either a single task reward of the recorded amount, or one fixed-amount
/// dual reward.
pub enum IssueEvent {
    /// One `get_reward_for_task` or `get_reward_with_reason` call and its amount.
    Single(u64),
    /// One `get_reward_for_task_2` call.
    Dual,
}

/// The reward tokens a sequence of issuing calls mints in total: each single
/// issue contributes its amount, each dual issue contributes
/// `DUAL_REWARD_AMOUNT`.
pub open spec fn rewards_issued(events: Seq<IssueEvent>) -> int
    decreases events.len(),
{
    if events.len() == 0 {
        0
    } else {
        rewards_issued(events.drop_last()) + match events.last() {
            IssueEvent::Single(amount) => amount as int,
            IssueEvent::Dual => DUAL_REWARD_AMOUNT as int,
        }
    }
}

/// How many of a sequence of issuing calls were dual rewards; each mints
/// `DUAL_DREAM_AMOUNT` dream tokens.
pub open spec fn dual_issues(events: Seq<IssueEvent>) -> int
    decreases events.len(),
{
    if events.len() == 0 {
        0
    } else {
        dual_issues(events.drop_last()) + match events.last() {
            IssueEvent::Single(_) => 0int,
            IssueEvent::Dual => 1int,
        }
    }
}

/// The membership registry. It alone mints against its three resource
/// managers; its counter and supplies only ever grow.
pub struct Member {
    /// Mints the fungible reward tokens.
    pub rewards_token_resource_manager: FungibleResourceManager,
    /// Mints the fungible dream tokens.
    pub dream_token_resource_manager: FungibleResourceManager,
    /// Mints the non-fungible membership cards.
    pub member_card_resource_manager: NonFungibleResourceManager,
    /// The last card id handed out; ids are allocated as counter + 1.
    pub member_id_counter: u64,
    /// The write-only fee reserve, denominated in XRD.
    pub xrd_fee_vault: Vault,
    /// The credential that manages the card resource kind, fixed at setup.
    pub owner_badge: u64,
    /// The reward-issuing calls made to date, oldest first.
    pub issue_log: Ghost<Seq<IssueEvent>>,
}

impl Member {
    /// The registry's invariant: card ids minted to date are exactly
    /// `1, 2, ..., member_id_counter` in mint order, each token supply equals
    /// what the recorded issuing calls mint, and the fee vault holds XRD.
    pub open spec fn wf(&self) -> bool {
        &&& self.member_card_resource_manager.minted_ids@.len() == self.member_id_counter
        &&& forall|i: int|
            0 <= i < self.member_id_counter
                ==> #[trigger] self.member_card_resource_manager.minted_ids@[i] as int == i + 1
        &&& self.rewards_token_resource_manager.total_supply as int == rewards_issued(
            self.issue_log@,
        )
        &&& self.dream_token_resource_manager.total_supply as int == DUAL_DREAM_AMOUNT
            * dual_issues(self.issue_log@)
        &&& self.xrd_fee_vault.resource_kind == XRD
    }

    /// Whether `attestation` authorizes reward issuance against this
    /// registry: it must attest ownership of at least one unit of this
    /// registry's membership-card kind.
    pub open spec fn spec_proof_valid(&self, attestation: CertificateProof) -> bool {
        &&& attestation.resource_kind == self.member_card_resource_manager.resource_kind
        &&& attestation.amount >= 1
    }

    /// Sets up a fresh registry over three runtime-allocated resource-kind
    /// addresses (pairwise distinct and distinct from XRD, as the runtime
    /// guarantees of fresh allocations): zero supplies, nothing minted,
    /// counter at zero, empty fee vault. Two calls yield two independent
    /// registries sharing no state.
    pub fn instantiate_member(
        owner_badge: u64,
        rewards_kind: u64,
        dream_kind: u64,
        card_kind: u64,
    ) -> (m: Member)
        requires
            rewards_kind != dream_kind,
            rewards_kind != card_kind,
            dream_kind != card_kind,
            rewards_kind != XRD,
            dream_kind != XRD,
            card_kind != XRD,
        ensures
            m.wf(),
            m.rewards_token_resource_manager.resource_kind == rewards_kind,
            m.rewards_token_resource_manager.total_supply == 0,
            m.dream_token_resource_manager.resource_kind == dream_kind,
            m.dream_token_resource_manager.total_supply == 0,
            m.member_card_resource_manager.resource_kind == card_kind,
            m.member_card_resource_manager.minted_ids@ == Seq::<u64>::empty(),
            m.member_id_counter == 0,
            m.xrd_fee_vault.resource_kind == XRD,
            m.xrd_fee_vault.amount == 0,
            m.owner_badge == owner_badge,
            m.issue_log@ == Seq::<IssueEvent>::empty(),
    {
        Member {
            rewards_token_resource_manager: FungibleResourceManager::create_with_no_initial_supply(
                rewards_kind,
            ),
            dream_token_resource_manager: FungibleResourceManager::create_with_no_initial_supply(
                dream_kind,
            ),
            member_card_resource_manager:
                NonFungibleResourceManager::create_with_no_initial_supply(card_kind),
            member_id_counter: 0,
            xrd_fee_vault: Vault::new(XRD),
            owner_badge,
            issue_log: Ghost(Seq::empty()),
        }
    }

    /// Allocates the next card id (counter + 1), mints one membership card
    /// with level `"0"` and the runtime-supplied mint time, and returns it.
    /// Nothing stops a caller from minting a second card. Only the counter
    /// and the card manager change.
    pub fn mint_member_card(&mut self, join_date_time: i64) -> (card: NonFungibleBucket<
        MembershipData,
    >)
        requires
            old(self).wf(),
            old(self).member_id_counter < u64::MAX,
        ensures
            final(self).wf(),
            card.resource_kind == old(self).member_card_resource_manager.resource_kind,
            card.id == old(self).member_id_counter + 1,
            card.data.level@ == "0"@,
            card.data.join_date_time == join_date_time,
            final(self).member_id_counter == old(self).member_id_counter + 1,
            final(self).member_card_resource_manager.resource_kind == old(
                self,
            ).member_card_resource_manager.resource_kind,
            final(self).member_card_resource_manager.minted_ids@ == old(
                self,
            ).member_card_resource_manager.minted_ids@.push(card.id),
            final(self).rewards_token_resource_manager == old(self).rewards_token_resource_manager,
            final(self).dream_token_resource_manager == old(self).dream_token_resource_manager,
            final(self).xrd_fee_vault == old(self).xrd_fee_vault,
            final(self).owner_badge == old(self).owner_badge,
            final(self).issue_log@ == old(self).issue_log@,
    {
        self.member_id_counter = self.member_id_counter + 1;
        let new_card_data = MembershipData { level: initial_level(), join_date_time };
        proof {
            assert(!old(self).member_card_resource_manager.minted_ids@.contains(
                self.member_id_counter,
            )) by {
                assert forall|i: int|
                    0 <= i < old(self).member_card_resource_manager.minted_ids@.len()
                        implies old(self).member_card_resource_manager.minted_ids@[i]
                        != self.member_id_counter by {
                    assert(old(self).member_card_resource_manager.minted_ids@[i] as int == i + 1);
                }
            }
        }
        let minted = self.member_card_resource_manager.mint_non_fungible(
            self.member_id_counter,
            new_card_data,
        );
        match minted {
            Ok(member_card) => member_card,
            Err(_) => vstd::pervasive::unreached(),
        }
    }

    /// Completes a task and mints its reward: requires a valid certificate
    /// proof, and then mints exactly the task's amount of reward tokens —
    /// zero included, yielding a valid empty bucket. With an invalid proof it
    /// fails with `AuthorizationDenied` and changes nothing.
    pub fn get_reward_for_task(&mut self, task: Tasks, attestation: CertificateProof) -> (r: Result<
        Bucket,
        MemberError,
    >)
        requires
            old(self).wf(),
            old(self).spec_proof_valid(attestation) ==> old(
                self,
            ).rewards_token_resource_manager.total_supply + task.spec_reward_amount() <= u64::MAX,
        ensures
            final(self).wf(),
            !old(self).spec_proof_valid(attestation) ==> {
                &&& r == Err::<Bucket, MemberError>(MemberError::AuthorizationDenied)
                &&& *final(self) == *old(self)
            },
            old(self).spec_proof_valid(attestation) ==> {
                &&& r is Ok
                &&& r->Ok_0.resource_kind == old(self).rewards_token_resource_manager.resource_kind
                &&& r->Ok_0.amount == task.spec_reward_amount()
                &&& final(self).rewards_token_resource_manager.resource_kind == old(
                    self,
                ).rewards_token_resource_manager.resource_kind
                &&& final(self).rewards_token_resource_manager.total_supply == old(
                    self,
                ).rewards_token_resource_manager.total_supply + task.spec_reward_amount()
                &&& final(self).issue_log@ == old(self).issue_log@.push(
                    IssueEvent::Single(task.spec_reward_amount()),
                )
                &&& final(self).dream_token_resource_manager == old(
                    self,
                ).dream_token_resource_manager
                &&& final(self).member_card_resource_manager.minted_ids@ == old(
                    self,
                ).member_card_resource_manager.minted_ids@
                &&& final(self).member_card_resource_manager.resource_kind == old(
                    self,
                ).member_card_resource_manager.resource_kind
                &&& final(self).member_id_counter == old(self).member_id_counter
                &&& final(self).xrd_fee_vault == old(self).xrd_fee_vault
                &&& final(self).owner_badge == old(self).owner_badge
            },
    {
        if attestation.resource_kind != self.member_card_resource_manager.resource_kind
            || attestation.amount < 1 {
            return Err(MemberError::AuthorizationDenied);
        }
        let rewards: Bucket = match &task {
            Tasks::Vote(_poll_name, reward_amount) => self.rewards_token_resource_manager.mint(
                *reward_amount as u64,
            ),
            Tasks::AttendEvent(_event_name, reward_amount) => self
                .rewards_token_resource_manager
                .mint(*reward_amount as u64),
            Tasks::SayHi(reward_amount) => self.rewards_token_resource_manager.mint(
                *reward_amount as u64,
            ),
            Tasks::Reasoned(reward_amount, _reason) => self.rewards_token_resource_manager.mint(
                *reward_amount,
            ),
        };
        self.issue_log = Ghost(self.issue_log@.push(IssueEvent::Single(rewards.amount)));
        proof {
            assert(self.issue_log@.drop_last() =~= old(self).issue_log@);
        }
        Ok(rewards)
    }

    /// The fixed dual reward: with a valid certificate proof it mints
    /// `DUAL_REWARD_AMOUNT` reward tokens and `DUAL_DREAM_AMOUNT` dream
    /// tokens and returns the pair; with an invalid proof it fails with
    /// `AuthorizationDenied` and changes nothing.
    pub fn get_reward_for_task_2(&mut self, attestation: CertificateProof) -> (r: Result<
        (Bucket, Bucket),
        MemberError,
    >)
        requires
            old(self).wf(),
            old(self).spec_proof_valid(attestation) ==> old(
                self,
            ).rewards_token_resource_manager.total_supply + DUAL_REWARD_AMOUNT <= u64::MAX,
            old(self).spec_proof_valid(attestation) ==> old(
                self,
            ).dream_token_resource_manager.total_supply + DUAL_DREAM_AMOUNT <= u64::MAX,
        ensures
            final(self).wf(),
            !old(self).spec_proof_valid(attestation) ==> {
                &&& r == Err::<(Bucket, Bucket), MemberError>(MemberError::AuthorizationDenied)
                &&& *final(self) == *old(self)
            },
            old(self).spec_proof_valid(attestation) ==> {
                &&& r is Ok
                &&& r->Ok_0.0.resource_kind == old(
                    self,
                ).rewards_token_resource_manager.resource_kind
                &&& r->Ok_0.0.amount == DUAL_REWARD_AMOUNT
                &&& r->Ok_0.1.resource_kind == old(self).dream_token_resource_manager.resource_kind
                &&& r->Ok_0.1.amount == DUAL_DREAM_AMOUNT
                &&& final(self).rewards_token_resource_manager.resource_kind == old(
                    self,
                ).rewards_token_resource_manager.resource_kind
                &&& final(self).rewards_token_resource_manager.total_supply == old(
                    self,
                ).rewards_token_resource_manager.total_supply + DUAL_REWARD_AMOUNT
                &&& final(self).dream_token_resource_manager.resource_kind == old(
                    self,
                ).dream_token_resource_manager.resource_kind
                &&& final(self).dream_token_resource_manager.total_supply == old(
                    self,
                ).dream_token_resource_manager.total_supply + DUAL_DREAM_AMOUNT
                &&& final(self).issue_log@ == old(self).issue_log@.push(IssueEvent::Dual)
                &&& final(self).member_card_resource_manager.minted_ids@ == old(
                    self,
                ).member_card_resource_manager.minted_ids@
                &&& final(self).member_card_resource_manager.resource_kind == old(
                    self,
                ).member_card_resource_manager.resource_kind
                &&& final(self).member_id_counter == old(self).member_id_counter
                &&& final(self).xrd_fee_vault == old(self).xrd_fee_vault
                &&& final(self).owner_badge == old(self).owner_badge
            },
    {
        if attestation.resource_kind != self.member_card_resource_manager.resource_kind
            || attestation.amount < 1 {
            return Err(MemberError::AuthorizationDenied);
        }
        let rewards: Bucket = self.rewards_token_resource_manager.mint(DUAL_REWARD_AMOUNT);
        let dream: Bucket = self.dream_token_resource_manager.mint(DUAL_DREAM_AMOUNT);
        self.issue_log = Ghost(self.issue_log@.push(IssueEvent::Dual));
        proof {
            assert(self.issue_log@.drop_last() =~= old(self).issue_log@);
        }
        Ok((rewards, dream))
    }

    /// A reasoned award: with a valid certificate proof it mints
    /// `reward_amount` reward tokens; the reason is carried for audit only
    /// and never validated. With an invalid proof it fails with
    /// `AuthorizationDenied` and changes nothing.
    pub fn get_reward_with_reason(
        &mut self,
        reward_amount: u64,
        reason: String,
        attestation: CertificateProof,
    ) -> (r: Result<Bucket, MemberError>)
        requires
            old(self).wf(),
            old(self).spec_proof_valid(attestation) ==> old(
                self,
            ).rewards_token_resource_manager.total_supply + reward_amount <= u64::MAX,
        ensures
            final(self).wf(),
            !old(self).spec_proof_valid(attestation) ==> {
                &&& r == Err::<Bucket, MemberError>(MemberError::AuthorizationDenied)
                &&& *final(self) == *old(self)
            },
            old(self).spec_proof_valid(attestation) ==> {
                &&& r is Ok
                &&& r->Ok_0.resource_kind == old(self).rewards_token_resource_manager.resource_kind
                &&& r->Ok_0.amount == reward_amount
                &&& final(self).rewards_token_resource_manager.resource_kind == old(
                    self,
                ).rewards_token_resource_manager.resource_kind
                &&& final(self).rewards_token_resource_manager.total_supply == old(
                    self,
                ).rewards_token_resource_manager.total_supply + reward_amount
                &&& final(self).issue_log@ == old(self).issue_log@.push(
                    IssueEvent::Single(reward_amount),
                )
                &&& final(self).dream_token_resource_manager == old(
                    self,
                ).dream_token_resource_manager
                &&& final(self).member_card_resource_manager.minted_ids@ == old(
                    self,
                ).member_card_resource_manager.minted_ids@
                &&& final(self).member_card_resource_manager.resource_kind == old(
                    self,
                ).member_card_resource_manager.resource_kind
                &&& final(self).member_id_counter == old(self).member_id_counter
                &&& final(self).xrd_fee_vault == old(self).xrd_fee_vault
                &&& final(self).owner_badge == old(self).owner_badge
            },
    {
        self.get_reward_for_task(Tasks::Reasoned(reward_amount, reason), attestation)
    }

    /// Deposits an XRD bucket into the fee reserve: permissionless, no proof
    /// required, never fails. Only the fee vault's balance changes, growing
    /// by the bucket's amount.
    pub fn deposit_xrd(&mut self, xrd_bucket: Bucket)
        requires
            old(self).wf(),
            xrd_bucket.resource_kind == XRD,
            old(self).xrd_fee_vault.amount + xrd_bucket.amount <= u64::MAX,
        ensures
            final(self).wf(),
            final(self).xrd_fee_vault.resource_kind == XRD,
            final(self).xrd_fee_vault.amount == old(self).xrd_fee_vault.amount + xrd_bucket.amount,
            final(self).rewards_token_resource_manager == old(self).rewards_token_resource_manager,
            final(self).dream_token_resource_manager == old(self).dream_token_resource_manager,
            final(self).member_card_resource_manager.minted_ids@ == old(
                self,
            ).member_card_resource_manager.minted_ids@,
            final(self).member_card_resource_manager.resource_kind == old(
                self,
            ).member_card_resource_manager.resource_kind,
            final(self).member_id_counter == old(self).member_id_counter,
            final(self).owner_badge == old(self).owner_badge,
            final(self).issue_log@ == old(self).issue_log@,
    {
        self.xrd_fee_vault.put(xrd_bucket);
    }
}

} // verus!
