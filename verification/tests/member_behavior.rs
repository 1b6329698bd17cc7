use general_kit::member::CertificateProof;
use general_kit::member::Member;
use general_kit::member::Tasks;
use general_kit::member::DUAL_DREAM_AMOUNT;
use general_kit::member::DUAL_REWARD_AMOUNT;
use general_kit::resources::Bucket;
use general_kit::resources::MemberError;
use general_kit::resources::XRD;

const OWNER: u64 = 99;
const REWARDS_KIND: u64 = 1;
const DREAM_KIND: u64 = 2;
const CARD_KIND: u64 = 3;

fn fresh_registry() -> Member {
    Member::instantiate_member(OWNER, REWARDS_KIND, DREAM_KIND, CARD_KIND)
}

fn card_holder_proof() -> CertificateProof {
    CertificateProof { resource_kind: CARD_KIND, amount: 1 }
}

#[test]
fn end_to_end_scenario() {
    let mut m = fresh_registry();

    let card = m.mint_member_card(1_700_000_040);
    assert_eq!(card.id, 1);
    assert_eq!(card.resource_kind, CARD_KIND);
    assert_eq!(card.data.level, "0");
    assert_eq!(card.data.join_date_time, 1_700_000_040);

    let rewards = m
        .get_reward_for_task(
            Tasks::AttendEvent("my_nice_event".to_owned(), 413),
            card_holder_proof(),
        )
        .unwrap();
    assert_eq!(rewards.resource_kind, REWARDS_KIND);
    assert_eq!(rewards.amount, 413);

    let (rewards2, dream) = m.get_reward_for_task_2(card_holder_proof()).unwrap();
    assert_eq!(rewards2.resource_kind, REWARDS_KIND);
    assert_eq!(rewards2.amount, 13);
    assert_eq!(dream.resource_kind, DREAM_KIND);
    assert_eq!(dream.amount, 7);

    assert_eq!(m.rewards_token_resource_manager.total_supply, 426);
    assert_eq!(m.dream_token_resource_manager.total_supply, 7);
}

#[test]
fn certificate_ids_strictly_increasing_from_one() {
    let mut m = fresh_registry();
    let first = m.mint_member_card(60);
    let second = m.mint_member_card(120);
    let third = m.mint_member_card(180);
    assert_eq!(first.id, 1);
    assert_eq!(second.id, 2);
    assert_eq!(third.id, 3);
    assert_eq!(m.member_id_counter, 3);
    assert_eq!(m.member_card_resource_manager.minted_ids, vec![1, 2, 3]);
}

#[test]
fn supplies_equal_sum_of_issued_amounts() {
    let mut m = fresh_registry();
    m.get_reward_for_task(Tasks::Vote("poll".to_owned(), 5), card_holder_proof())
        .unwrap();
    m.get_reward_for_task(Tasks::SayHi(0), card_holder_proof())
        .unwrap();
    m.get_reward_with_reason(10, "helped out".to_owned(), card_holder_proof())
        .unwrap();
    m.get_reward_for_task_2(card_holder_proof()).unwrap();
    assert_eq!(
        m.rewards_token_resource_manager.total_supply,
        5 + 0 + 10 + DUAL_REWARD_AMOUNT
    );
    assert_eq!(m.dream_token_resource_manager.total_supply, DUAL_DREAM_AMOUNT);
}

#[test]
fn reward_denied_without_valid_certificate_proof() {
    let mut m = fresh_registry();
    let wrong_kind = CertificateProof { resource_kind: REWARDS_KIND, amount: 1 };
    let no_units = CertificateProof { resource_kind: CARD_KIND, amount: 0 };

    let denied = m.get_reward_for_task(Tasks::SayHi(5), wrong_kind);
    assert_eq!(denied, Err(MemberError::AuthorizationDenied));
    let denied = m.get_reward_for_task(Tasks::Vote("poll".to_owned(), 5), no_units);
    assert_eq!(denied, Err(MemberError::AuthorizationDenied));
    let denied = m.get_reward_for_task_2(wrong_kind);
    assert_eq!(denied, Err(MemberError::AuthorizationDenied));
    let denied = m.get_reward_with_reason(5, "no card".to_owned(), no_units);
    assert_eq!(denied, Err(MemberError::AuthorizationDenied));

    assert_eq!(m.rewards_token_resource_manager.total_supply, 0);
    assert_eq!(m.dream_token_resource_manager.total_supply, 0);
}

#[test]
fn initializing_twice_gives_independent_registries() {
    let mut first = fresh_registry();
    let second = Member::instantiate_member(OWNER, 4, 5, 6);

    first.mint_member_card(60);
    first
        .get_reward_for_task(Tasks::SayHi(8), card_holder_proof())
        .unwrap();
    first.deposit_xrd(Bucket { resource_kind: XRD, amount: 25 });

    assert_eq!(second.member_id_counter, 0);
    assert_eq!(second.rewards_token_resource_manager.total_supply, 0);
    assert_eq!(second.dream_token_resource_manager.total_supply, 0);
    assert_eq!(second.xrd_fee_vault.amount, 0);

    let mut second = second;
    let card = second.mint_member_card(60);
    assert_eq!(card.id, 1);
    assert_eq!(first.member_id_counter, 1);
}

#[test]
fn zero_amount_reward_is_a_valid_empty_bucket() {
    let mut m = fresh_registry();
    let bucket = m
        .get_reward_for_task(Tasks::SayHi(0), card_holder_proof())
        .unwrap();
    assert_eq!(bucket.resource_kind, REWARDS_KIND);
    assert_eq!(bucket.amount, 0);
    assert_eq!(m.rewards_token_resource_manager.total_supply, 0);
}

#[test]
fn fee_deposit_needs_no_credential() {
    let mut m = fresh_registry();
    assert_eq!(m.xrd_fee_vault.amount, 0);
    m.deposit_xrd(Bucket { resource_kind: XRD, amount: 100 });
    assert_eq!(m.xrd_fee_vault.amount, 100);
    m.deposit_xrd(Bucket { resource_kind: XRD, amount: 40 });
    assert_eq!(m.xrd_fee_vault.amount, 140);
}

#[test]
fn reasoned_reward_mints_the_given_amount() {
    let mut m = fresh_registry();
    let bucket = m
        .get_reward_with_reason(42, "wrote documentation".to_owned(), card_holder_proof())
        .unwrap();
    assert_eq!(bucket.resource_kind, REWARDS_KIND);
    assert_eq!(bucket.amount, 42);
    assert_eq!(m.rewards_token_resource_manager.total_supply, 42);
}

#[test]
fn each_task_variant_pays_its_amount() {
    assert_eq!(Tasks::Vote("poll".to_owned(), 3).reward_amount(), 3);
    assert_eq!(Tasks::AttendEvent("event".to_owned(), 4).reward_amount(), 4);
    assert_eq!(Tasks::SayHi(5).reward_amount(), 5);
    assert_eq!(Tasks::Reasoned(6, "reason".to_owned()).reward_amount(), 6);
}
