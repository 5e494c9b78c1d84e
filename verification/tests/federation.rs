use apub_core::activity::ActivityLog;
use apub_core::actor::{ActorIdentity, ActorType, ActorVariant};
use apub_core::config::FederationConfig;
use apub_core::convert::{
    create_tombstone, Entity, EntityKind, FederatedObject, FromApub, ToApub,
};
use apub_core::dispatch::{
    collect_inbox_targets, finish_dispatch, ApubLikeableType, ApubObjectType, RetryPolicy,
};
use apub_core::error::FederationError;
use apub_core::ident::ApubUrl;
use apub_core::trust::{check_actor_domain, check_is_apub_id_valid};
use apub_core::webfinger::{
    resolve_webfinger_response, select_webfinger_link, webfinger_fetch_url, MentionData,
    WebFingerLink, WebFingerResponse,
};

fn test_config() -> FederationConfig {
    FederationConfig {
        scheme: "https".to_owned(),
        allowed_instances: vec!["other.tld".to_owned()],
        hostname: "example.com:8536".to_owned(),
    }
}

fn parse(s: &str) -> ApubUrl {
    ApubUrl::parse(s).expect("should parse")
}

fn actor(id: &str, variant: ActorVariant) -> ActorIdentity {
    ActorIdentity {
        actor_id: id.to_owned(),
        public_key: Some("PUBLIC KEY PEM".to_owned()),
        private_key: None,
        user_id: 42,
        variant,
    }
}

#[test]
fn parse_extracts_components() {
    let u = parse("https://example.com:8536/u/alice");
    assert_eq!(u.raw, "https://example.com:8536/u/alice");
    assert_eq!(u.scheme, "https");
    assert_eq!(u.host, Some("example.com".to_owned()));
    assert_eq!(u.domain, Some("example.com".to_owned()));
    assert_eq!(u.port, Some(8536));
    assert_eq!(u.path, "/u/alice");
}

#[test]
fn parse_canonicalizes() {
    let u = parse("HTTPS://EXAMPLE.com/u/alice");
    assert_eq!(u.scheme, "https");
    assert_eq!(u.host, Some("example.com".to_owned()));
    assert_eq!(u.raw, "https://example.com/u/alice");
}

#[test]
fn parse_rejects_garbage() {
    assert!(ApubUrl::parse("not a url").is_none());
    assert!(ApubUrl::parse("/u/alice").is_none());
}

#[test]
fn trust_accepts_local_identifier_with_port_stripped() {
    // Local hostname carries a port; the candidate's domain does not.
    let config = test_config();
    let id = parse("https://example.com:8536/u/alice");
    assert_eq!(check_is_apub_id_valid(&id, &config), Ok(()));
}

#[test]
fn trust_rejects_wrong_scheme_regardless_of_domain() {
    let config = test_config();
    let allowed = parse("http://other.tld/u/bob");
    let local = parse("http://example.com:8536/u/alice");
    assert_eq!(
        check_is_apub_id_valid(&allowed, &config),
        Err(FederationError::InvalidScheme)
    );
    assert_eq!(
        check_is_apub_id_valid(&local, &config),
        Err(FederationError::InvalidScheme)
    );
}

#[test]
fn trust_accepts_allow_listed_domain() {
    let config = test_config();
    let id = parse("https://other.tld/u/bob");
    assert_eq!(check_is_apub_id_valid(&id, &config), Ok(()));
}

#[test]
fn trust_rejects_unlisted_domain() {
    let config = test_config();
    let id = parse("https://stranger.tld/u/eve");
    assert_eq!(
        check_is_apub_id_valid(&id, &config),
        Err(FederationError::DomainNotAllowed)
    );
}

#[test]
fn trust_rejects_identifier_without_domain() {
    let config = test_config();
    let id = parse("https://127.0.0.1/u/eve");
    assert_eq!(
        check_is_apub_id_valid(&id, &config),
        Err(FederationError::NoDomain)
    );
}

#[test]
fn actor_domain_matches_expected() {
    let config = test_config();
    let id = parse("https://other.tld/u/bob");
    let expected = parse("https://other.tld/inbox");
    assert_eq!(
        check_actor_domain(&id, Some(&expected), &config),
        Ok("https://other.tld/u/bob".to_owned())
    );
}

#[test]
fn actor_domain_mismatch_is_rejected() {
    let config = test_config();
    let id = parse("https://stranger.tld/u/bob");
    let expected = parse("https://other.tld/inbox");
    assert_eq!(
        check_actor_domain(&id, Some(&expected), &config),
        Err(FederationError::DomainMismatch)
    );
}

#[test]
fn actor_domain_without_expectation_uses_trust_check() {
    let config = test_config();
    let ok = parse("https://other.tld/u/bob");
    let bad = parse("https://stranger.tld/u/eve");
    assert_eq!(
        check_actor_domain(&ok, None, &config),
        Ok("https://other.tld/u/bob".to_owned())
    );
    assert_eq!(
        check_actor_domain(&bad, None, &config),
        Err(FederationError::DomainNotAllowed)
    );
}

#[test]
fn shared_inbox_keeps_host_and_port_only() {
    let alice = actor("https://example.com:8536/u/alice", ActorVariant::User);
    assert_eq!(
        alice.get_shared_inbox_url(),
        Ok("https://example.com:8536/inbox".to_owned())
    );
}

#[test]
fn shared_inbox_ignores_actor_path() {
    let alice = actor("https://example.com:8536/u/alice", ActorVariant::User);
    let community = actor("https://example.com:8536/c/main", ActorVariant::Community);
    assert_eq!(alice.get_shared_inbox_url(), community.get_shared_inbox_url());
}

#[test]
fn shared_inbox_without_port() {
    let bob = actor("https://other.tld/u/bob", ActorVariant::User);
    assert_eq!(
        bob.get_shared_inbox_url(),
        Ok("https://other.tld/inbox".to_owned())
    );
}

#[test]
fn malformed_actor_id_fails_endpoint_derivation() {
    let broken = actor("not a url", ActorVariant::User);
    assert_eq!(
        broken.get_shared_inbox_url(),
        Err(FederationError::MalformedActorId)
    );
    assert!(broken.actor_id().is_err());
}

#[test]
fn derived_endpoints_append_suffixes() {
    let alice = actor("https://other.tld/u/alice", ActorVariant::User);
    assert_eq!(
        alice.get_inbox_url().unwrap().raw,
        "https://other.tld/u/alice/inbox"
    );
    assert_eq!(
        alice.get_outbox_url().unwrap().raw,
        "https://other.tld/u/alice/outbox"
    );
    assert_eq!(
        alice.get_followers_url().unwrap().raw,
        "https://other.tld/u/alice/followers"
    );
    assert_eq!(alice.get_following_url(), "https://other.tld/u/alice/following");
    assert_eq!(alice.get_liked_url(), "https://other.tld/u/alice/liked");
}

#[test]
fn public_key_ext_carries_main_key_id() {
    let alice = actor("https://other.tld/u/alice", ActorVariant::User);
    let key = alice.get_public_key_ext().unwrap();
    assert_eq!(key.id, "https://other.tld/u/alice#main-key");
    assert_eq!(key.owner, "https://other.tld/u/alice");
    assert_eq!(key.public_key_pem, "PUBLIC KEY PEM");
}

#[test]
fn missing_public_key_is_an_error() {
    let mut alice = actor("https://other.tld/u/alice", ActorVariant::User);
    alice.public_key = None;
    assert!(matches!(
        alice.get_public_key_ext(),
        Err(FederationError::MissingPublicKey)
    ));
}

#[test]
fn tombstone_needs_deletion_and_timestamp() {
    let id = "https://other.tld/post/1".to_owned();
    let t = create_tombstone(true, &id, Some(1_600_000_000), "Page").unwrap();
    assert_eq!(t.id, "https://other.tld/post/1");
    assert_eq!(t.former_type, "Page");
    assert_eq!(t.deleted_time, 1_600_000_000);
    assert!(matches!(
        create_tombstone(false, &id, Some(1_600_000_000), "Page"),
        Err(FederationError::NotDeleted)
    ));
    assert!(matches!(
        create_tombstone(false, &id, None, "Page"),
        Err(FederationError::NotDeleted)
    ));
    assert!(matches!(
        create_tombstone(true, &id, None, "Page"),
        Err(FederationError::MissingDeletionTimestamp)
    ));
}

fn sample_entity() -> Entity {
    Entity {
        ap_id: parse("https://other.tld/post/1"),
        creator_id: "https://other.tld/u/bob".to_owned(),
        kind: EntityKind::Post,
        content: "hello fediverse".to_owned(),
        deleted: false,
        updated: Some(1_600_000_000),
        local_id: 7,
    }
}

#[test]
fn to_apub_maps_fields() {
    let entity = sample_entity();
    let wire = entity.to_apub();
    assert_eq!(wire.id.raw, "https://other.tld/post/1");
    assert_eq!(wire.attributed_to, "https://other.tld/u/bob");
    assert_eq!(wire.kind, "Page");
    assert_eq!(wire.content, "hello fediverse");
    assert_eq!(wire.updated, Some(1_600_000_000));
}

#[test]
fn apub_round_trip_preserves_federation_fields() {
    let config = test_config();
    let entity = sample_entity();
    let wire = entity.to_apub();
    let back = Entity::from_apub(&wire, &config, None).unwrap();
    assert_eq!(back.ap_id.raw, entity.ap_id.raw);
    assert_eq!(back.creator_id, entity.creator_id);
    assert_eq!(back.kind, entity.kind);
    assert_eq!(back.content, entity.content);
    assert_eq!(back.updated, entity.updated);
}

#[test]
fn from_apub_rejects_unknown_vocabulary() {
    let config = test_config();
    let wire = FederatedObject {
        id: parse("https://other.tld/post/1"),
        attributed_to: "https://other.tld/u/bob".to_owned(),
        kind: "Video".to_owned(),
        content: String::new(),
        updated: None,
    };
    assert!(matches!(
        Entity::from_apub(&wire, &config, None),
        Err(FederationError::Deserialize)
    ));
}

#[test]
fn from_apub_checks_delivery_domain() {
    let config = test_config();
    let wire = sample_entity().to_apub();
    let wrong_origin = parse("https://stranger.tld/u/eve");
    assert!(matches!(
        Entity::from_apub(&wire, &config, Some(&wrong_origin)),
        Err(FederationError::DomainMismatch)
    ));
}

#[test]
fn entity_tombstone_uses_updated_as_deletion_time() {
    let mut entity = sample_entity();
    entity.deleted = true;
    let t = entity.to_tombstone().unwrap();
    assert_eq!(t.id, "https://other.tld/post/1");
    assert_eq!(t.former_type, "Page");
    assert_eq!(t.deleted_time, 1_600_000_000);
    entity.deleted = false;
    assert!(matches!(
        entity.to_tombstone(),
        Err(FederationError::NotDeleted)
    ));
}

#[test]
fn webfinger_url_is_well_known() {
    let mention = MentionData {
        name: "bob".to_owned(),
        domain: "remote.tld".to_owned(),
    };
    assert_eq!(
        webfinger_fetch_url(&mention, "https"),
        "https://remote.tld/.well-known/webfinger?resource=acct:bob@remote.tld"
    );
}

#[test]
fn webfinger_selects_matching_link() {
    let res = WebFingerResponse {
        links: vec![
            WebFingerLink {
                media_type: Some("text/html".to_owned()),
                href: Some("https://remote.tld/@bob".to_owned()),
            },
            WebFingerLink {
                media_type: Some("application/activity+json".to_owned()),
                href: Some("https://remote.tld/u/bob".to_owned()),
            },
        ],
    };
    let url = resolve_webfinger_response(&res).unwrap();
    assert_eq!(url.raw, "https://remote.tld/u/bob");
}

#[test]
fn webfinger_without_matching_link_fails() {
    let res = WebFingerResponse {
        links: vec![WebFingerLink {
            media_type: Some("text/html".to_owned()),
            href: Some("https://remote.tld/@bob".to_owned()),
        }],
    };
    assert!(matches!(
        select_webfinger_link(&res),
        Err(FederationError::NoMatchingLink)
    ));
}

#[test]
fn webfinger_link_without_target_fails() {
    let res = WebFingerResponse {
        links: vec![WebFingerLink {
            media_type: Some("application/activity+json".to_owned()),
            href: None,
        }],
    };
    assert!(matches!(
        select_webfinger_link(&res),
        Err(FederationError::NoHref)
    ));
}

#[test]
fn webfinger_unparseable_target_fails_decode() {
    let res = WebFingerResponse {
        links: vec![WebFingerLink {
            media_type: Some("application/activity+json".to_owned()),
            href: Some("not a url".to_owned()),
        }],
    };
    assert!(matches!(
        resolve_webfinger_response(&res),
        Err(FederationError::Decode)
    ));
}

#[test]
fn inbox_targets_collapse_per_host() {
    let followers = vec![
        parse("https://one.tld/u/a"),
        parse("https://one.tld/u/b"),
        parse("https://two.tld:8536/u/c"),
    ];
    let targets = collect_inbox_targets(&followers).unwrap();
    assert_eq!(
        targets,
        vec![
            "https://one.tld/inbox".to_owned(),
            "https://two.tld:8536/inbox".to_owned(),
        ]
    );
}

#[test]
fn inbox_targets_need_a_host() {
    let followers = vec![parse("mailto:bob@remote.tld")];
    assert!(matches!(
        collect_inbox_targets(&followers),
        Err(FederationError::MalformedActorId)
    ));
}

#[test]
fn dispatch_reports_partial_failure_and_still_logs() {
    let mut log = ActivityLog::new();
    let targets = vec![
        "https://one.tld/inbox".to_owned(),
        "https://two.tld/inbox".to_owned(),
        "https://three.tld/inbox".to_owned(),
    ];
    let delivered = vec![true, false, true];
    let result = finish_dispatch(&mut log, 42, "{\"type\":\"Create\"}".to_owned(), &targets, &delivered);
    match result {
        Err(FederationError::PartialDeliveryFailure(failed)) => {
            assert_eq!(failed, vec!["https://two.tld/inbox".to_owned()]);
        }
        other => panic!("expected a partial delivery failure, got {:?}", other),
    }
    assert_eq!(log.len(), 1);
    let entry = log.entry(0);
    assert_eq!(entry.user_id, 42);
    assert_eq!(entry.data, "{\"type\":\"Create\"}");
    assert!(entry.local);
}

#[test]
fn dispatch_with_all_delivered_is_ok() {
    let mut log = ActivityLog::new();
    let targets = vec!["https://one.tld/inbox".to_owned()];
    let delivered = vec![true];
    assert_eq!(
        finish_dispatch(&mut log, 7, "payload".to_owned(), &targets, &delivered),
        Ok(())
    );
    assert_eq!(log.len(), 1);
}

#[test]
fn activity_log_appends_in_order() {
    let mut log = ActivityLog::new();
    assert_eq!(log.len(), 0);
    apub_core::activity::insert_activity(&mut log, 1, "first".to_owned(), true);
    apub_core::activity::insert_activity(&mut log, 2, "second".to_owned(), false);
    assert_eq!(log.len(), 2);
    assert_eq!(log.entry(0).data, "first");
    assert_eq!(log.entry(1).data, "second");
    assert!(!log.entry(1).local);
}

#[test]
fn retry_policy_retries_transient_failures_only() {
    let policy = RetryPolicy {
        max_attempts: 3,
        base_delay_ms: 100,
    };
    assert_eq!(policy.next_retry(0, true), Some(100));
    assert_eq!(policy.next_retry(1, true), Some(200));
    assert_eq!(policy.next_retry(2, true), None);
    assert_eq!(policy.next_retry(0, false), None);
}

#[test]
fn send_create_plans_targets_and_payload() {
    let creator = actor("https://example.com:8536/u/alice", ActorVariant::User);
    let followers = vec![parse("https://one.tld/u/a"), parse("https://one.tld/u/b")];
    let plan = sample_entity().send_create(&creator, &followers).unwrap();
    assert_eq!(plan.activity.kind, "Create");
    assert_eq!(plan.activity.actor, "https://example.com:8536/u/alice");
    assert_eq!(plan.activity.object.id.raw, "https://other.tld/post/1");
    assert_eq!(plan.sender_user_id, 42);
    assert_eq!(plan.targets, vec!["https://one.tld/inbox".to_owned()]);
}

#[test]
fn send_like_plans_reaction() {
    let creator = actor("https://example.com:8536/u/alice", ActorVariant::User);
    let followers = vec![parse("https://two.tld/u/c")];
    let plan = sample_entity().send_like(&creator, &followers).unwrap();
    assert_eq!(plan.activity.kind, "Like");
    assert_eq!(plan.targets, vec!["https://two.tld/inbox".to_owned()]);
}

#[test]
fn users_follow_and_communities_do_not() {
    let user = actor("https://example.com:8536/u/alice", ActorVariant::User);
    let community = actor("https://example.com:8536/c/main", ActorVariant::Community);
    let target = parse("https://other.tld/c/books");
    let plan = user.send_follow(&target).unwrap().expect("a user follows");
    assert_eq!(plan.kind, "Follow");
    assert_eq!(plan.actor, "https://example.com:8536/u/alice");
    assert_eq!(plan.object_id, "https://other.tld/c/books");
    assert_eq!(plan.target, "https://other.tld/inbox");
    assert!(community.send_follow(&target).unwrap().is_none());
}

#[test]
fn unfollow_is_an_undo() {
    let user = actor("https://example.com:8536/u/alice", ActorVariant::User);
    let target = parse("https://other.tld/c/books");
    let plan = user.send_unfollow(&target).unwrap().expect("a user unfollows");
    assert_eq!(plan.kind, "Undo");
    assert_eq!(plan.target, "https://other.tld/inbox");
}

#[test]
fn communities_accept_follows_and_users_do_not() {
    let user = actor("https://example.com:8536/u/alice", ActorVariant::User);
    let community = actor("https://example.com:8536/c/main", ActorVariant::Community);
    let follower = parse("https://other.tld/u/bob");
    let plan = community
        .send_accept_follow(&follower)
        .unwrap()
        .expect("a community accepts");
    assert_eq!(plan.kind, "Accept");
    assert_eq!(plan.actor, "https://example.com:8536/c/main");
    assert_eq!(plan.target, "https://other.tld/inbox");
    assert!(user.send_accept_follow(&follower).unwrap().is_none());
}

#[test]
fn actor_deletion_is_announced_to_followers() {
    let community = actor("https://example.com:8536/c/main", ActorVariant::Community);
    let admin = actor("https://example.com:8536/u/alice", ActorVariant::User);
    let followers = vec![parse("https://one.tld/u/a"), parse("https://one.tld/u/b")];
    let plan = community.send_delete(&admin, &followers).unwrap();
    assert_eq!(plan.kind, "Delete");
    assert_eq!(plan.actor, "https://example.com:8536/u/alice");
    assert_eq!(plan.object_id, "https://example.com:8536/c/main");
    assert_eq!(plan.targets, vec!["https://one.tld/inbox".to_owned()]);
    let undo = community.send_undo_remove(&admin, &followers).unwrap();
    assert_eq!(undo.kind, "Undo");
}

#[test]
fn content_type_is_activity_json() {
    assert_eq!(apub_core::apub_json_content_type(), "application/activity+json");
}

#[test]
fn deleted_objects_are_served_gone() {
    assert_eq!(apub_core::apub_response_status(false), 200);
    assert_eq!(apub_core::apub_response_status(true), 410);
}
