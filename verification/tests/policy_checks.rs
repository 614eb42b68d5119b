use lemmy_apub::error::ApubError;
use lemmy_apub::iri::Iri;
use lemmy_apub::policy::{
    check_apub_id_valid, community_of_moderators_url, contains_iri, generate_activity_id,
    generate_moderators_url, public_address, verify_add_remove_moderator_target, verify_is_public,
    verify_urls_match, ActivityKind, SitePolicy,
};

fn open_site() -> SitePolicy {
    SitePolicy {
        hostname: "local.example".to_string(),
        protocol: "https".to_string(),
        federation_enabled: true,
        blocked: vec![],
        allowed: None,
    }
}

fn iri_of(text: &str) -> Iri {
    Iri::parse(text).unwrap()
}

#[test]
fn a_remote_identifier_is_admitted() {
    assert_eq!(check_apub_id_valid(&iri_of("https://remote.example/activities/like/1"), &open_site()), Ok(()));
}

#[test]
fn an_identifier_on_this_server_is_refused() {
    assert_eq!(
        check_apub_id_valid(&iri_of("https://local.example/activities/like/1"), &open_site()),
        Err(ApubError::InvalidIdentity)
    );
}

#[test]
fn an_identifier_without_domain_is_refused() {
    assert_eq!(
        check_apub_id_valid(&iri_of("https://127.0.0.1/activities/like/1"), &open_site()),
        Err(ApubError::InvalidIdentity)
    );
}

#[test]
fn nothing_is_admitted_while_federation_is_off() {
    let mut site = open_site();
    site.federation_enabled = false;
    assert_eq!(
        check_apub_id_valid(&iri_of("https://remote.example/activities/like/1"), &site),
        Err(ApubError::InvalidIdentity)
    );
}

#[test]
fn another_scheme_than_the_sites_is_refused() {
    assert_eq!(
        check_apub_id_valid(&iri_of("http://remote.example/activities/like/1"), &open_site()),
        Err(ApubError::InvalidIdentity)
    );
}

#[test]
fn a_blocked_domain_is_refused() {
    let mut site = open_site();
    site.blocked = vec!["spam.example".to_string(), "remote.example".to_string()];
    assert_eq!(
        check_apub_id_valid(&iri_of("https://remote.example/activities/like/1"), &site),
        Err(ApubError::InvalidIdentity)
    );
    assert_eq!(check_apub_id_valid(&iri_of("https://other.example/activities/like/1"), &site), Ok(()));
}

#[test]
fn an_allow_list_shuts_out_everyone_else() {
    let mut site = open_site();
    site.allowed = Some(vec!["friend.example".to_string()]);
    assert_eq!(check_apub_id_valid(&iri_of("https://friend.example/activities/like/1"), &site), Ok(()));
    assert_eq!(
        check_apub_id_valid(&iri_of("https://remote.example/activities/like/1"), &site),
        Err(ApubError::InvalidIdentity)
    );
    site.allowed = Some(vec![]);
    assert_eq!(
        check_apub_id_valid(&iri_of("https://friend.example/activities/like/1"), &site),
        Err(ApubError::InvalidIdentity)
    );
}

#[test]
fn the_public_address_is_the_well_known_one() {
    assert_eq!(public_address().as_str(), "https://www.w3.org/ns/activitystreams#Public");
}

#[test]
fn public_in_either_list_is_public() {
    let public = iri_of("https://www.w3.org/ns/activitystreams#Public");
    let community = iri_of("https://remote.example/c/main");
    assert_eq!(verify_is_public(&vec![public.clone()], &vec![community.clone()]), Ok(()));
    assert_eq!(verify_is_public(&vec![community.clone()], &vec![public.clone()]), Ok(()));
    assert_eq!(verify_is_public(&vec![community.clone(), public], &vec![]), Ok(()));
}

#[test]
fn without_the_public_address_addressing_is_violated() {
    let community = iri_of("https://remote.example/c/main");
    assert_eq!(verify_is_public(&vec![], &vec![]), Err(ApubError::AddressingPolicyViolation));
    assert_eq!(
        verify_is_public(&vec![community.clone()], &vec![community]),
        Err(ApubError::AddressingPolicyViolation)
    );
}

#[test]
fn contains_iri_finds_by_serialisation() {
    let list = vec![iri_of("https://a.example/inbox"), iri_of("https://b.example/inbox")];
    assert!(contains_iri(&list, &iri_of("https://B.example/inbox")));
    assert!(!contains_iri(&list, &iri_of("https://c.example/inbox")));
    assert!(!contains_iri(&vec![], &iri_of("https://a.example/inbox")));
}

#[test]
fn differing_urls_are_an_actor_mismatch() {
    let alice = iri_of("https://remote.example/u/alice");
    let bob = iri_of("https://remote.example/u/bob");
    assert_eq!(verify_urls_match(&alice, &alice.clone()), Ok(()));
    assert_eq!(verify_urls_match(&alice, &bob), Err(ApubError::ActorMismatch));
}

#[test]
fn activity_ids_are_built_from_site_kind_and_token() {
    let site = open_site();
    let id = generate_activity_id(ActivityKind::Remove, &site, "5f1c").unwrap();
    assert_eq!(id.as_str(), "https://local.example/activities/remove/5f1c");
    let id = generate_activity_id(ActivityKind::Undo, &site, "77").unwrap();
    assert_eq!(id.as_str(), "https://local.example/activities/undo/77");
    let id = generate_activity_id(ActivityKind::Dislike, &site, "a-b").unwrap();
    assert_eq!(id.as_str(), "https://local.example/activities/dislike/a-b");
}

#[test]
fn activity_ids_of_every_kind_carry_its_name() {
    assert_eq!(ActivityKind::Add.as_path(), "add");
    assert_eq!(ActivityKind::Remove.as_path(), "remove");
    assert_eq!(ActivityKind::Like.as_path(), "like");
    assert_eq!(ActivityKind::Dislike.as_path(), "dislike");
    assert_eq!(ActivityKind::Undo.as_path(), "undo");
    assert_eq!(ActivityKind::Announce.as_path(), "announce");
}

#[test]
fn an_activity_id_that_is_no_url_is_malformed() {
    let mut site = open_site();
    site.protocol = "".to_string();
    assert_eq!(generate_activity_id(ActivityKind::Add, &site, "1"), Err(ApubError::MalformedEnvelope));
}

#[test]
fn the_moderator_list_hangs_below_the_community() {
    let list = generate_moderators_url(&iri_of("https://remote.example/c/main")).unwrap();
    assert_eq!(list.as_str(), "https://remote.example/c/main/moderators");
}

#[test]
fn the_community_is_found_from_its_moderator_list() {
    let community = community_of_moderators_url(&iri_of("https://remote.example/c/main/moderators")).unwrap();
    assert_eq!(community.as_str(), "https://remote.example/c/main");
}

#[test]
fn a_target_that_is_no_moderator_list_is_no_target() {
    assert_eq!(
        community_of_moderators_url(&iri_of("https://remote.example/c/main")),
        Err(ApubError::NotAuthorized)
    );
}

#[test]
fn the_target_must_be_the_communitys_own_list() {
    let community = iri_of("https://remote.example/c/main");
    assert_eq!(
        verify_add_remove_moderator_target(&iri_of("https://remote.example/c/main/moderators"), &community),
        Ok(())
    );
    assert_eq!(
        verify_add_remove_moderator_target(&iri_of("https://remote.example/c/other/moderators"), &community),
        Err(ApubError::NotAuthorized)
    );
}
