use elefren::entities::Empty;
use elefren::entities::account::MetadataField;
use elefren::entities::announcement::AnnouncementReaction;
use elefren::entities::announcement::AnnouncementReactionCustomEmoji;
use elefren::entities::application::Application;
use elefren::entities::attachment::MediaType;
use elefren::entities::card::CardType;
use elefren::entities::context::Context;
use elefren::entities::event::Event;
use elefren::entities::notification::Notification;
use elefren::entities::push::Alerts;
use elefren::entities::push::Subscription;
use elefren::entities::push::add_subscription;
use elefren::entities::push::update_data;
use elefren::entities::status::Status;
use elefren::entities::visibility::Visibility;

#[test]
fn announcement_reaction_getters() {
    let emoji = AnnouncementReactionCustomEmoji::new(
        "https://e/x.png".to_string(),
        "https://e/x-static.png".to_string(),
    );
    assert_eq!(emoji.url(), "https://e/x.png");
    assert_eq!(emoji.static_url(), "https://e/x-static.png");
    let reaction = AnnouncementReaction::new("🦣".to_string(), 7, true, Some(emoji));
    assert_eq!(reaction.name(), "🦣");
    assert_eq!(reaction.count(), 7);
    assert!(reaction.me());
    assert_eq!(reaction.emoji().unwrap().url(), "https://e/x.png");
}

#[test]
fn application_getters() {
    let app = Application::new(
        "client".to_string(),
        Some("https://app.example".to_string()),
        None,
        "id123".to_string(),
        "sekrit".to_string(),
    );
    assert_eq!(app.name(), "client");
    assert_eq!(app.website().map(|s| s.as_str()), Some("https://app.example"));
    assert_eq!(app.vapid_key(), None);
    assert_eq!(app.client_id(), "id123");
    assert_eq!(app.client_secret(), "sekrit");
}

#[test]
fn metadata_field_round_trip() {
    let field = MetadataField::new("pronouns", "they/them");
    assert_eq!(field.name(), "pronouns");
    assert_eq!(field.value(), "they/them");
}

#[test]
fn visibility_defaults_to_public() {
    assert_eq!(Visibility::default(), Visibility::Public);
}

#[test]
fn alerts_default_is_all_unset() {
    let alerts = Alerts::default();
    assert_eq!(alerts.follow, None);
    assert_eq!(alerts.favourite, None);
    assert_eq!(alerts.reblog, None);
    assert_eq!(alerts.mention, None);
}

#[test]
fn push_forms_hold_their_parts() {
    let form = add_subscription::Form {
        subscription: add_subscription::Subscription {
            endpoint: "https://push.example".to_string(),
            keys: add_subscription::Keys { p256dh: "key".to_string(), auth: "auth".to_string() },
        },
        data: Some(add_subscription::Data { alerts: Some(Alerts::default()) }),
    };
    assert_eq!(form.subscription.endpoint, "https://push.example");
    let update = update_data::Form {
        id: "5".to_string(),
        data: update_data::Data { alerts: None },
    };
    assert_eq!(update.id, "5");
    let sub = Subscription {
        id: "5".to_string(),
        endpoint: "https://push.example".to_string(),
        server_key: "sk".to_string(),
        alerts: None,
    };
    assert_eq!(sub.server_key, "sk");
}

#[test]
fn status_and_notification_keep_their_json() {
    let status = Status::from_json("{\"id\":\"1\"}".to_string());
    assert_eq!(status.json(), "{\"id\":\"1\"}");
    let n = Notification::from_json("{\"id\":\"2\"}".to_string());
    assert_eq!(n.json(), "{\"id\":\"2\"}");
    let ev = Event::Delete("3".to_string());
    assert!(matches!(ev, Event::Delete(_)));
}

#[test]
fn context_holds_both_directions() {
    let ctx = Context {
        ancestors: vec![Status::from_json("{}".to_string())],
        descendants: Vec::new(),
    };
    assert_eq!(ctx.ancestors.len(), 1);
    assert!(ctx.descendants.is_empty());
}

#[test]
fn enum_kinds_compare() {
    assert_eq!(MediaType::Image, MediaType::Image);
    assert_ne!(MediaType::Video, MediaType::Gifv);
    assert_eq!(CardType::Link, CardType::Link);
    assert_ne!(CardType::Photo, CardType::Rich);
    assert_eq!(Empty {}, Empty {});
}
