//! The registry's global laws, stated over any well-formed registry. Every
//! constructor establishes `Member::wf` and every operation preserves it, so
//! these hold after any sequence of registry calls.

use vstd::prelude::*;

use crate::member::dual_issues;
use crate::member::rewards_issued;
use crate::member::IssueEvent;
use crate::member::Member;
use crate::member::DUAL_DREAM_AMOUNT;
use crate::member::DUAL_REWARD_AMOUNT;

verus! {

/// Law: certificate identifiers are assigned in strictly increasing order
/// starting at 1, so all identifiers ever returned are pairwise distinct.
/// `minted_ids` records the returned identifiers in issuance order.
pub proof fn lemma_certificate_ids_unique(m: &Member)
    requires
        m.wf(),
    ensures
        forall|i: int|
            0 <= i < m.member_card_resource_manager.minted_ids@.len()
                ==> #[trigger] m.member_card_resource_manager.minted_ids@[i] as int == i + 1,
        forall|i: int, j: int|
            0 <= i < j < m.member_card_resource_manager.minted_ids@.len()
                ==> m.member_card_resource_manager.minted_ids@[i]
                < m.member_card_resource_manager.minted_ids@[j],
{
}

/// Law: supply conservation. The total reward-token supply equals the sum of
/// the per-call amounts of all reward-issuing calls made to date (each dual
/// reward contributing its fixed amount), and the total dream-token supply
/// equals `DUAL_DREAM_AMOUNT` times the number of dual-reward calls.
pub proof fn lemma_supply_conservation(m: &Member)
    requires
        m.wf(),
    ensures
        m.rewards_token_resource_manager.total_supply as int == rewards_issued(m.issue_log@),
        m.dream_token_resource_manager.total_supply as int == DUAL_DREAM_AMOUNT * dual_issues(
            m.issue_log@,
        ),
{
}

/// What one more reward-issuing call adds: the reward sum grows by the
/// event's amount and the dual count grows exactly on dual events. Together
/// with `lemma_supply_conservation` this pins each supply after every call.
pub proof fn lemma_issue_log_push(events: Seq<IssueEvent>, event: IssueEvent)
    ensures
        rewards_issued(events.push(event)) == rewards_issued(events) + match event {
            IssueEvent::Single(amount) => amount as int,
            IssueEvent::Dual => DUAL_REWARD_AMOUNT as int,
        },
        dual_issues(events.push(event)) == dual_issues(events) + match event {
            IssueEvent::Single(_) => 0int,
            IssueEvent::Dual => 1int,
        },
{
    assert(events.push(event).drop_last() =~= events);
}

} // verus!
