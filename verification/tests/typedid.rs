use kmdnd::campaign::{CampaignId, CampaignMarker};
use kmdnd::character::{CharacterId, CharacterMarker};
use kmdnd::encounter::EncounterMarker;
use kmdnd::item::ItemMarker;
use kmdnd::operation::{InteractionMarker, OperationMarker};
use kmdnd::typedid::{TypedIdMarker, TypedIdParseError, UUID_MARK_BITS, UUID_MARK_V4};
use kmdnd::user::User;

const SEED_CAMPAIGN: u128 = 0x16E77539_8873_4C8A_BCA3_2036010474AD;

#[test]
fn typed_id_prints_tag_and_upper_case_uuid() {
    let id = CampaignId::from_u128(SEED_CAMPAIGN);
    assert_eq!(id.to_string(), "CPN-16E77539-8873-4C8A-BCA3-2036010474AD");
    let character = CharacterId::from_u128(0x33957EB6_0EE7_487F_A087_E55C335BD63C);
    assert_eq!(character.to_string(), "CHR-33957EB6-0EE7-487F-A087-E55C335BD63C");
}

#[test]
fn typed_id_prints_leading_zeros() {
    let id = CampaignId::from_u128(0xAB);
    assert_eq!(id.to_string(), "CPN-00000000-0000-0000-0000-0000000000AB");
}

#[test]
fn typed_id_parses_its_own_text() {
    let id = CampaignId::from_str("CPN-16E77539-8873-4C8A-BCA3-2036010474AD").unwrap();
    assert_eq!(id.as_u128(), SEED_CAMPAIGN);
    assert_eq!(id, CampaignId::from_u128(SEED_CAMPAIGN));
    let again = CampaignId::from_str(&id.to_string()).unwrap();
    assert_eq!(again, id);
}

#[test]
fn typed_id_parses_a_lower_case_uuid() {
    let id = CampaignId::from_str("CPN-16e77539-8873-4c8a-bca3-2036010474ad").unwrap();
    assert_eq!(id.as_u128(), SEED_CAMPAIGN);
}

#[test]
fn typed_id_without_a_hyphen_has_an_invalid_format() {
    assert_eq!(CampaignId::from_str("CPN"), Err(TypedIdParseError::InvalidFormat));
    assert_eq!(CampaignId::from_str(""), Err(TypedIdParseError::InvalidFormat));
}

#[test]
fn typed_id_with_another_tag_has_an_invalid_tag() {
    assert_eq!(
        CampaignId::from_str("CHR-16E77539-8873-4C8A-BCA3-2036010474AD"),
        Err(TypedIdParseError::InvalidTag)
    );
    assert_eq!(
        CampaignId::from_str("-16E77539-8873-4C8A-BCA3-2036010474AD"),
        Err(TypedIdParseError::InvalidTag)
    );
    assert_eq!(
        CampaignId::from_str("cpn-16E77539-8873-4C8A-BCA3-2036010474AD"),
        Err(TypedIdParseError::InvalidTag)
    );
}

#[test]
fn typed_id_with_a_broken_uuid_has_an_invalid_uuid() {
    assert_eq!(CampaignId::from_str("CPN-"), Err(TypedIdParseError::InvalidUuid));
    assert_eq!(CampaignId::from_str("CPN-not-a-uuid"), Err(TypedIdParseError::InvalidUuid));
    assert_eq!(
        CampaignId::from_str("CPN-16E77539-8873-4C8A-BCA3-2036010474A"),
        Err(TypedIdParseError::InvalidUuid)
    );
}

#[test]
fn typed_id_splits_at_the_first_hyphen() {
    assert_eq!(
        CampaignId::from_str("CP-N-16E77539-8873-4C8A-BCA3-2036010474AD"),
        Err(TypedIdParseError::InvalidTag)
    );
}

#[test]
fn fresh_ids_are_random_version_four_uuids() {
    let a = CampaignId::new();
    let b = CampaignId::new();
    assert_ne!(a, b);
    assert_eq!(a.as_u128() & UUID_MARK_BITS, UUID_MARK_V4);
    assert_eq!(b.as_u128() & UUID_MARK_BITS, UUID_MARK_V4);
    let text = a.to_string();
    assert_eq!(text.len(), 40);
    assert_eq!(&text[18..19], "4");
}

#[test]
fn every_kind_of_record_has_its_tag() {
    assert_eq!(CampaignMarker::tag(), "CPN");
    assert_eq!(CharacterMarker::tag(), "CHR");
    assert_eq!(EncounterMarker::tag(), "ENC");
    assert_eq!(ItemMarker::tag(), "ITM");
    assert_eq!(OperationMarker::tag(), "OPR");
    assert_eq!(InteractionMarker::tag(), "ITR");
    assert_eq!(User::tag(), "USR");
}
