use undo_block_user::codec::FieldValue;
use undo_block_user::error::ActivityError;
use undo_block_user::error::ResolveError;
use undo_block_user::error::ValidationError;
use undo_block_user::model::ActivityKind;
use undo_block_user::model::BlockUserFromCommunity;
use undo_block_user::model::Community;
use undo_block_user::model::Entity;
use undo_block_user::model::Person;
use undo_block_user::model::ScalarValue;
use undo_block_user::model::UndoBlockUserFromCommunity;
use undo_block_user::outbound::generate_activity_id;
use undo_block_user::resolver::Resolver;
use undo_block_user::resolver::DEFAULT_FETCH_LIMIT;
use undo_block_user::store::BanStore;
use undo_block_user::verify::verify_is_public;

const PUBLIC: &str = "https://www.w3.org/ns/activitystreams#Public";
const CONTEXT: &str = "https://www.w3.org/ns/activitystreams";

const ALICE_URI: &str = "https://alpha.example/u/alice";
const PETE_URI: &str = "https://gamma.example/u/pete";
const COMMUNITY_URI: &str = "https://beta.example/c/tech";

fn alice() -> Person {
    Person {
        id: 10,
        actor_id: ALICE_URI.to_string(),
        inbox: "https://alpha.example/u/alice/inbox".to_string(),
        shared_inbox: Some("https://alpha.example/inbox".to_string()),
    }
}

fn pete() -> Person {
    Person {
        id: 20,
        actor_id: PETE_URI.to_string(),
        inbox: "https://gamma.example/u/pete/inbox".to_string(),
        shared_inbox: None,
    }
}

fn tech_community(members: Vec<i32>, moderators: Vec<i32>) -> Community {
    Community {
        id: 1,
        actor_id: COMMUNITY_URI.to_string(),
        members,
        moderators,
    }
}

fn inner_block() -> BlockUserFromCommunity {
    BlockUserFromCommunity {
        actor: ALICE_URI.to_string(),
        to: vec![PUBLIC.to_string()],
        object: PETE_URI.to_string(),
        cc: vec![COMMUNITY_URI.to_string()],
        kind: ActivityKind::Block,
        id: "https://alpha.example/activities/block/b1".to_string(),
        context: CONTEXT.to_string(),
        unparsed: Vec::new(),
    }
}

fn undo_activity() -> UndoBlockUserFromCommunity {
    UndoBlockUserFromCommunity {
        actor: ALICE_URI.to_string(),
        to: vec![PUBLIC.to_string()],
        object: inner_block(),
        cc: vec![COMMUNITY_URI.to_string()],
        kind: ActivityKind::Undo,
        id: "https://alpha.example/activities/undo/u1".to_string(),
        context: CONTEXT.to_string(),
        unparsed: Vec::new(),
    }
}

/// A resolver already knowing every reference the activity speaks of.
fn full_resolver(community: Community) -> Resolver {
    let mut resolver = Resolver::new(DEFAULT_FETCH_LIMIT);
    let events = vec![
        (ALICE_URI.to_string(), Some(Entity::Person(alice()))),
        (COMMUNITY_URI.to_string(), Some(Entity::Community(community))),
        (PETE_URI.to_string(), Some(Entity::Person(pete()))),
    ];
    assert_eq!(resolver.resolve_chain(events), Ok(()));
    resolver
}

#[test]
fn moderator_undo_passes_all_gates_and_unbans() {
    let resolver = full_resolver(tech_community(vec![10, 20], vec![10]));
    let mut store = BanStore::new();
    store.ban(1, 20);
    assert!(store.contains(1, 20));

    let undo = undo_activity();
    assert_eq!(undo.verify(&resolver), Ok(()));
    assert_eq!(undo.receive(&resolver, &mut store), Ok(()));
    assert!(!store.contains(1, 20));
}

#[test]
fn receive_is_idempotent() {
    let resolver = full_resolver(tech_community(vec![10, 20], vec![10]));
    let mut store = BanStore::new();
    store.ban(1, 20);

    assert_eq!(undo_activity().receive(&resolver, &mut store), Ok(()));
    assert!(!store.contains(1, 20));
    // The row is already gone: the second receive still succeeds and
    // leaves the relation as it is.
    assert_eq!(undo_activity().receive(&resolver, &mut store), Ok(()));
    assert!(!store.contains(1, 20));
}

#[test]
fn missing_public_marker_is_rejected_before_anything_else() {
    let resolver = full_resolver(tech_community(vec![10, 20], vec![10]));
    let mut undo = undo_activity();
    undo.to = vec![COMMUNITY_URI.to_string()];
    assert_eq!(
        undo.verify(&resolver),
        Err(ActivityError::Validation(ValidationError::NotPublic))
    );
}

#[test]
fn not_public_means_no_mutation() {
    let resolver = full_resolver(tech_community(vec![10, 20], vec![10]));
    let mut store = BanStore::new();
    store.ban(1, 20);

    let mut undo = undo_activity();
    undo.to = Vec::new();
    assert_eq!(
        undo.verify(&resolver),
        Err(ActivityError::Validation(ValidationError::NotPublic))
    );
    // verify never touches the store; the row is exactly as before.
    assert!(store.contains(1, 20));
}

#[test]
fn plain_member_is_no_moderator() {
    // Alice is a member but holds no moderator privilege.
    let resolver = full_resolver(tech_community(vec![10, 20], Vec::new()));
    assert_eq!(
        undo_activity().verify(&resolver),
        Err(ActivityError::Validation(ValidationError::NotAModerator))
    );
}

#[test]
fn demoted_moderator_leaves_ban_untouched() {
    // Alice issued the original block as a moderator but has since been
    // demoted: the undo fails the authorization gate and the row stays.
    let resolver = full_resolver(tech_community(vec![10, 20], vec![99]));
    let mut store = BanStore::new();
    store.ban(1, 20);

    assert_eq!(
        undo_activity().verify(&resolver),
        Err(ActivityError::Validation(ValidationError::NotAModerator))
    );
    assert!(store.contains(1, 20));
}

#[test]
fn stranger_is_not_in_community() {
    let resolver = full_resolver(tech_community(vec![20], vec![99]));
    assert_eq!(
        undo_activity().verify(&resolver),
        Err(ActivityError::Validation(ValidationError::ActorNotInCommunity))
    );
}

#[test]
fn foreign_identity_is_rejected() {
    let resolver = full_resolver(tech_community(vec![10, 20], vec![10]));
    let mut undo = undo_activity();
    // The declared identity lives on another host than the actor.
    undo.id = "https://mallory.example/activities/undo/u1".to_string();
    assert_eq!(
        undo.verify(&resolver),
        Err(ActivityError::Validation(ValidationError::Malformed))
    );
}

#[test]
fn same_host_different_paths_pass_the_origin_gate() {
    // Identity and actor differ in path but share the host: the origin
    // gate passes and verification reaches the later gates.
    let resolver = full_resolver(tech_community(vec![10, 20], vec![10]));
    assert_eq!(undo_activity().verify(&resolver), Ok(()));
}

#[test]
fn missing_community_reference_is_malformed() {
    let resolver = full_resolver(tech_community(vec![10, 20], vec![10]));
    let mut undo = undo_activity();
    undo.object.cc = Vec::new();
    assert_eq!(
        undo.verify(&resolver),
        Err(ActivityError::Validation(ValidationError::Malformed))
    );
}

#[test]
fn unknown_references_fail_as_not_found() {
    let resolver = Resolver::new(DEFAULT_FETCH_LIMIT);
    assert_eq!(
        undo_activity().verify(&resolver),
        Err(ActivityError::Resolution(ResolveError::NotFound))
    );
}

#[test]
fn chain_past_the_budget_fails_without_corruption() {
    let mut resolver = Resolver::new(2);
    let events = vec![
        (ALICE_URI.to_string(), Some(Entity::Person(alice()))),
        (PETE_URI.to_string(), Some(Entity::Person(pete()))),
        (
            COMMUNITY_URI.to_string(),
            Some(Entity::Community(tech_community(vec![10], vec![10]))),
        ),
    ];
    assert_eq!(
        resolver.resolve_chain(events),
        Err(ResolveError::FetchBudgetExceeded)
    );
    // What was resolved before the budget ran out is kept intact.
    assert!(resolver.lookup(&ALICE_URI.to_string()).is_some());
    assert!(resolver.lookup(&PETE_URI.to_string()).is_some());
    assert!(resolver.lookup(&COMMUNITY_URI.to_string()).is_none());
    assert_eq!(resolver.used, 2);
}

#[test]
fn known_references_cost_nothing() {
    let mut resolver = Resolver::new(2);
    let first = vec![(ALICE_URI.to_string(), Some(Entity::Person(alice())))];
    assert_eq!(resolver.resolve_chain(first), Ok(()));
    assert_eq!(resolver.used, 1);
    // Resolving the same reference again is answered locally.
    let again = vec![(ALICE_URI.to_string(), Some(Entity::Person(alice())))];
    assert_eq!(resolver.resolve_chain(again), Ok(()));
    assert_eq!(resolver.used, 1);
}

#[test]
fn failed_fetch_is_a_network_error() {
    let mut resolver = Resolver::new(5);
    let events = vec![(ALICE_URI.to_string(), None)];
    assert_eq!(resolver.resolve_chain(events), Err(ResolveError::NetworkError));
}

#[test]
fn public_marker_is_recognized() {
    assert_eq!(verify_is_public(&vec![PUBLIC.to_string()]), Ok(()));
    assert_eq!(
        verify_is_public(&vec![COMMUNITY_URI.to_string()]),
        Err(ValidationError::NotPublic)
    );
    // The marker may stand anywhere in the recipient set.
    assert_eq!(
        verify_is_public(&vec![COMMUNITY_URI.to_string(), PUBLIC.to_string()]),
        Ok(())
    );
}

#[test]
fn round_trip_preserves_extension_fields() {
    let mut undo = undo_activity();
    undo.unparsed = vec![
        ("audience".to_string(), ScalarValue::Text("https://beta.example/c/tech/followers".to_string())),
        ("sensitive".to_string(), ScalarValue::Raw("false".to_string())),
        ("tag".to_string(), ScalarValue::TextList(vec!["a".to_string(), "b".to_string()])),
    ];
    undo.object.unparsed = vec![
        ("summary".to_string(), ScalarValue::Raw("{\"en\":\"undone\"}".to_string())),
    ];
    let expected = {
        let mut e = undo_activity();
        e.unparsed = clone_bag(&undo.unparsed);
        e.object.unparsed = clone_bag(&undo.object.unparsed);
        e
    };
    let fields = undo.into_fields();
    let back = UndoBlockUserFromCommunity::from_fields(fields).expect("round trip");
    assert_eq!(back, expected);
}

#[test]
fn wire_layout_is_the_documented_one() {
    let fields = undo_activity().into_fields();
    let names: Vec<&str> = fields.iter().map(|f| f.0.as_str()).collect();
    assert_eq!(names, vec!["actor", "to", "object", "cc", "type", "id", "@context"]);
    match &fields[4].1 {
        FieldValue::Scalar(ScalarValue::Text(t)) => assert_eq!(t, "Undo"),
        other => panic!("unexpected type field: {:?}", other),
    }
}

#[test]
fn wrong_discriminant_does_not_parse() {
    let mut fields = undo_activity().into_fields();
    fields[4].1 = FieldValue::Scalar(ScalarValue::Text("Create".to_string()));
    assert_eq!(
        UndoBlockUserFromCommunity::from_fields(fields),
        Err(ValidationError::Malformed)
    );
}

#[test]
fn truncated_field_list_does_not_parse() {
    let mut fields = undo_activity().into_fields();
    fields.truncate(5);
    assert_eq!(
        UndoBlockUserFromCommunity::from_fields(fields),
        Err(ValidationError::Malformed)
    );
}

#[test]
fn nested_object_extension_does_not_parse() {
    let mut fields = undo_activity().into_fields();
    fields.push(("oddball".to_string(), FieldValue::Object(Vec::new())));
    assert_eq!(
        UndoBlockUserFromCommunity::from_fields(fields),
        Err(ValidationError::Malformed)
    );
}

#[test]
fn block_round_trip() {
    let mut block = inner_block();
    block.unparsed = vec![("endTime".to_string(), ScalarValue::Raw("null".to_string()))];
    let expected = {
        let mut e = inner_block();
        e.unparsed = clone_bag(&block.unparsed);
        e
    };
    let back = BlockUserFromCommunity::from_fields(block.into_fields()).expect("round trip");
    assert_eq!(back, expected);
}

#[test]
fn send_constructs_a_complete_delivery() {
    let community = tech_community(vec![10, 20], vec![10]);
    let target = pete();
    let actor = alice();
    let delivery = UndoBlockUserFromCommunity::send(
        &community,
        &target,
        &actor,
        &"https://alpha.example".to_string(),
        &"b7".to_string(),
        &"u9".to_string(),
    );
    assert_eq!(delivery.id, "https://alpha.example/activities/undo/u9");
    assert_eq!(delivery.activity.id, delivery.id);
    assert_eq!(delivery.activity.actor, ALICE_URI);
    assert_eq!(delivery.activity.to, vec![PUBLIC.to_string()]);
    assert_eq!(delivery.activity.cc, vec![COMMUNITY_URI.to_string()]);
    assert_eq!(delivery.activity.kind, ActivityKind::Undo);
    assert_eq!(delivery.activity.context, CONTEXT);
    assert_eq!(delivery.activity.object.actor, ALICE_URI);
    assert_eq!(delivery.activity.object.object, PETE_URI);
    assert_eq!(delivery.activity.object.to, vec![PUBLIC.to_string()]);
    assert_eq!(delivery.activity.object.cc, vec![COMMUNITY_URI.to_string()]);
    assert_eq!(
        delivery.activity.object.id,
        "https://alpha.example/activities/block/b7"
    );
    // Pete has no shared inbox: delivery goes to his direct inbox.
    assert_eq!(delivery.inboxes, vec!["https://gamma.example/u/pete/inbox".to_string()]);
}

#[test]
fn delivery_prefers_the_shared_inbox() {
    let community = tech_community(vec![10, 20], vec![10]);
    let target = alice();
    let actor = alice();
    let delivery = UndoBlockUserFromCommunity::send(
        &community,
        &target,
        &actor,
        &"https://alpha.example".to_string(),
        &"b1".to_string(),
        &"u1".to_string(),
    );
    assert_eq!(delivery.inboxes, vec!["https://alpha.example/inbox".to_string()]);
}

#[test]
fn minted_identifiers_follow_the_local_prefix() {
    let id = generate_activity_id(
        ActivityKind::Block,
        &"http://localhost:8536".to_string(),
        &"0f3a".to_string(),
    );
    assert_eq!(id, "http://localhost:8536/activities/block/0f3a");
}

#[test]
fn error_labels_are_stable() {
    assert_eq!(
        ActivityError::Validation(ValidationError::NotPublic).label(),
        "not_public"
    );
    assert_eq!(
        ActivityError::Validation(ValidationError::NotAModerator).label(),
        "not_a_moderator"
    );
    assert_eq!(
        ActivityError::Resolution(ResolveError::FetchBudgetExceeded).label(),
        "fetch_budget_exceeded"
    );
}

/// Clone a bag: the library moves bags through the codec, so expected
/// values are rebuilt from a copy.
fn clone_bag(bag: &Vec<(String, ScalarValue)>) -> Vec<(String, ScalarValue)> {
    bag.iter()
        .map(|(k, v)| {
            let v2 = match v {
                ScalarValue::Text(s) => ScalarValue::Text(s.clone()),
                ScalarValue::TextList(l) => ScalarValue::TextList(l.clone()),
                ScalarValue::Raw(s) => ScalarValue::Raw(s.clone()),
            };
            (k.clone(), v2)
        })
        .collect()
}
