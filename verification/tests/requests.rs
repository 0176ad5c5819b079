use misskey_client::common::{ChartSpan, NoteVisibility, NotificationType, ReactionAcceptance};
use misskey_client::requests::channels::GetFavoriteChannels;
use misskey_client::requests::charts::{
    CommonChartRequestBody, GetActiveUsersChart, GetApRequestChart, GetDriveChart, GetFederationChart,
};
use misskey_client::requests::i::notifications::GetNotifications;
use misskey_client::requests::i::GetSelfData;
use misskey_client::requests::notes::{CreateNote, DeleteNote, SearchNote};
use misskey_client::requests::users::{GetLiteUserInfo, GetNotes};
use misskey_client::traits::json::{ConstParamJsonRequest, FixedEndpointJsonRequest, JsonRequest};
use misskey_client::traits::{ChannelId, NoteId, UserId};
use misskey_client::MaybeMultiple;

fn path<R: JsonRequest>(request: &R) -> (String, bool) {
    (request.endpoint(), request.can_be_empty())
}

#[test]
fn every_call_has_its_path() {
    assert_eq!(path(&GetFavoriteChannels), ("/channels/my-favorites".to_string(), false));
    assert_eq!(path(&GetSelfData), ("/i".to_string(), false));
    assert_eq!(path(&GetNotifications::new()), ("/i/notifications".to_string(), false));
    let body = CommonChartRequestBody::new(ChartSpan::Day);
    assert_eq!(path(&GetActiveUsersChart::new(body)), ("/charts/active-users".to_string(), false));
    assert_eq!(path(&GetApRequestChart::new(body)), ("/charts/ap-request".to_string(), false));
    assert_eq!(path(&GetDriveChart::new(body)), ("/charts/drive".to_string(), false));
    assert_eq!(path(&GetFederationChart::new(body)), ("/charts/federation".to_string(), false));
    assert_eq!(path(&CreateNote::note("x")), ("/notes/create".to_string(), true));
    assert_eq!(path(&SearchNote::new("x")), ("/notes/search".to_string(), false));
    assert_eq!(path(&DeleteNote::new("x")), ("/notes/delete".to_string(), true));
    assert_eq!(path(&GetLiteUserInfo::from_name("x")), ("/users/show".to_string(), false));
    assert_eq!(path(&GetNotes::new("x")), ("/users/notes".to_string(), false));
}

#[test]
fn fixed_paths_are_constants_of_the_type() {
    assert_eq!(<CreateNote as ConstParamJsonRequest>::ENDPOINT, "/notes/create");
    assert!(<CreateNote as ConstParamJsonRequest>::CAN_BE_EMPTY);
    assert!(<DeleteNote as ConstParamJsonRequest>::CAN_BE_EMPTY);
    assert!(!<GetSelfData as ConstParamJsonRequest>::CAN_BE_EMPTY);
    assert_eq!(<GetNotifications as FixedEndpointJsonRequest>::ENDPOINT, "/i/notifications");
    assert_eq!(<GetNotifications as ConstParamJsonRequest>::ENDPOINT, "/i/notifications");
    assert!(!<GetNotifications as ConstParamJsonRequest>::CAN_BE_EMPTY);
}

#[test]
fn chart_body_defaults_and_setters() {
    let body = CommonChartRequestBody::new(ChartSpan::Hour);
    assert_eq!((body.span, body.limit, body.offset), (ChartSpan::Hour, 30, None));
    let body = body.limit(7).offset(3);
    assert_eq!((body.span, body.limit, body.offset), (ChartSpan::Hour, 7, Some(3)));
    let body = body.offset(0).limit(usize::MAX);
    assert_eq!((body.limit, body.offset), (usize::MAX, Some(0)));
    assert_eq!(GetDriveChart::new(body).common_body.limit, usize::MAX);
    assert_eq!(GetActiveUsersChart::new(body).common_body.offset, Some(0));
    assert_eq!(GetApRequestChart::new(body).common_body.span, ChartSpan::Hour);
    assert_eq!(GetFederationChart::new(body).common_body.span, ChartSpan::Hour);
}

#[test]
fn notifications_defaults() {
    let call = GetNotifications::new();
    assert_eq!(call.get_limit(), 10);
    assert_eq!(call.get_since_id(), &None);
    assert_eq!(call.get_until_id(), &None);
    assert!(call.get_mark_as_read());
    assert!(call.get_include_types().is_empty());
    assert!(call.get_exclude_types().is_empty());
}

#[test]
fn notifications_setters() {
    let call = GetNotifications::new()
        .limit(50)
        .since("a".to_string())
        .until("z".to_string())
        .mark_as_read(false);
    assert_eq!(call.get_limit(), 50);
    assert_eq!(call.get_since_id(), &Some("a".to_string()));
    assert_eq!(call.get_until_id(), &Some("z".to_string()));
    assert!(!call.get_mark_as_read());
}

#[test]
fn notification_kinds_are_sets() {
    let call = GetNotifications::new()
        .include_type(NotificationType::Reply)
        .include_type(NotificationType::Mention)
        .include_type(NotificationType::Reply)
        .exclude(NotificationType::Test)
        .exclude(NotificationType::Test);
    assert_eq!(call.get_include_types(), &vec![NotificationType::Reply, NotificationType::Mention]);
    assert_eq!(call.get_exclude_types(), &vec![NotificationType::Test]);
    let call = call
        .include_all(vec![NotificationType::Mention, NotificationType::Quote, NotificationType::Quote])
        .exclude_all(vec![NotificationType::App, NotificationType::Test, NotificationType::App]);
    assert_eq!(
        call.get_include_types(),
        &vec![NotificationType::Reply, NotificationType::Mention, NotificationType::Quote]
    );
    assert_eq!(call.get_exclude_types(), &vec![NotificationType::Test, NotificationType::App]);
    // The other settings stay as they were.
    assert_eq!(call.get_limit(), 10);
    assert!(call.get_mark_as_read());
}

fn assert_fresh(note: &CreateNote, text: &str, renote_id: Option<&str>) {
    assert_eq!(note.visibility, NoteVisibility::Public);
    assert!(note.visible_user_ids.is_empty());
    assert_eq!(note.cw, None);
    assert!(!note.local_only);
    assert_eq!(note.reaction_acceptance, None);
    assert!(!note.no_extract_mentions);
    assert!(!note.no_extract_hashtags);
    assert!(!note.no_extract_emojis);
    assert_eq!(note.reply_id, None);
    assert_eq!(note.renote_id.as_deref(), renote_id);
    assert_eq!(note.channel_id, None);
    assert_eq!(note.text, text);
    assert!(!note.no_created_note);
}

#[test]
fn note_constructors() {
    assert_fresh(&CreateNote::note("hello"), "hello", None);
    assert_fresh(&CreateNote::renote("n1"), "", Some("n1"));
    assert_fresh(&CreateNote::renote("n1".to_string()), "", Some("n1"));
    assert_fresh(&CreateNote::quote("look", &"n2".to_string()), "look", Some("n2"));
    let note = CreateNote::new("hi", NoteVisibility::Home);
    assert_eq!(note.visibility, NoteVisibility::Home);
    assert_fresh(&note.visibility(NoteVisibility::Public), "hi", None);
}

#[test]
fn note_setters_change_one_thing() {
    let note = CreateNote::note("hello").visibility(NoteVisibility::Followers);
    assert_eq!(note.visibility, NoteVisibility::Followers);
    assert_fresh(&note.visibility(NoteVisibility::Public), "hello", None);

    let note = CreateNote::note("hello").cw("careful");
    assert_eq!(note.cw.as_deref(), Some("careful"));
    assert_eq!(note.text, "hello");

    let note = CreateNote::note("hello").local_only(true);
    assert!(note.local_only);
    assert_fresh(&note.local_only(false), "hello", None);

    let note = CreateNote::note("hello").reaction_acceptance(ReactionAcceptance::LikeOnly);
    assert_eq!(note.reaction_acceptance, Some(ReactionAcceptance::LikeOnly));

    let note = CreateNote::note("hello").reply("n3");
    assert_eq!(note.reply_id.as_deref(), Some("n3"));
    assert_eq!(note.renote_id, None);

    let note = CreateNote::note("hello").channel("c1".to_string());
    assert_eq!(note.channel_id.as_deref(), Some("c1"));

    let note = CreateNote::note("hello").no_created_note(true);
    assert!(note.no_created_note);
    assert_fresh(&note.no_created_note(false), "hello", None);
}

#[test]
fn naming_the_readers_makes_the_note_specified() {
    let note = CreateNote::note("hello").visible_users(vec!["u1".to_string(), "u2".to_string()]);
    assert_eq!(note.visibility, NoteVisibility::Specified);
    assert_eq!(note.visible_user_ids, vec!["u1".to_string(), "u2".to_string()]);
    assert_eq!(note.text, "hello");
}

#[test]
fn search_defaults_and_setters() {
    let call = SearchNote::new("cats");
    assert_eq!(call.query, "cats");
    assert_eq!((call.since_id, call.until_id, call.host), (None, None, None));
    assert_eq!((call.limit, call.offset), (10, 0));
    assert_eq!((call.user_id.clone(), call.channel_id.clone()), (None, None));
    let call = call
        .since("a")
        .until("z")
        .host("example.com")
        .limit(5)
        .offset(20)
        .user_id("u".to_string())
        .channel_id("c".to_string());
    assert_eq!(call.query, "cats");
    assert_eq!((call.since_id, call.until_id, call.host), (Some("a"), Some("z"), Some("example.com")));
    assert_eq!((call.limit, call.offset), (5, 20));
    assert_eq!((call.user_id, call.channel_id), (Some("u".to_string()), Some("c".to_string())));
}

#[test]
fn delete_names_the_note() {
    assert_eq!(DeleteNote::new("n1").note_id, "n1");
    assert_eq!(DeleteNote::new("n2".to_string()).note_id, "n2");
    assert_eq!(DeleteNote::new(&"n3".to_string()).clone().note_id, "n3");
}

#[test]
fn user_is_named_or_identified() {
    let call = GetLiteUserInfo::from_name("alice");
    assert_eq!((call.username, call.user_id, call.detailed), (Some("alice"), None, false));
    let call = GetLiteUserInfo::from_id("u1");
    assert_eq!((call.username, call.user_id, call.detailed), (None, Some("u1"), false));
}

#[test]
fn user_notes_defaults_and_setters() {
    let call = GetNotes::new("u1");
    assert_eq!(call.user_id, "u1");
    assert_eq!((call.with_replies, call.with_renotes, call.with_channel_notes), (false, true, false));
    assert_eq!(call.limit, 10);
    assert_eq!((call.since_id.clone(), call.until_id.clone()), (None, None));
    assert_eq!((call.since_date, call.until_date), (None, None));
    assert_eq!((call.allow_partial, call.with_files), (false, false));
    let call = call
        .with_replies(true)
        .with_renotes(false)
        .with_channel_notes(true)
        .limit(100)
        .since_id("a".to_string())
        .until_id("z".to_string())
        .since_date(1_700_000_000)
        .until_date(-1)
        .allow_partial(true)
        .with_files(true);
    assert_eq!(call.user_id, "u1");
    assert_eq!((call.with_replies, call.with_renotes, call.with_channel_notes), (true, false, true));
    assert_eq!(call.limit, 100);
    assert_eq!((call.since_id, call.until_id), (Some("a".to_string()), Some("z".to_string())));
    assert_eq!((call.since_date, call.until_date), (Some(1_700_000_000), Some(-1)));
    assert_eq!((call.allow_partial, call.with_files), (true, true));
}

#[test]
fn identifiers_come_from_strings() {
    assert_eq!("n".to_note_id(), "n");
    assert_eq!("n".to_string().to_note_id(), "n");
    assert_eq!((&"n".to_string()).to_note_id(), "n");
    assert_eq!("u".to_user_id(), "u");
    assert_eq!("u".to_string().to_user_id(), "u");
    assert_eq!((&"u".to_string()).to_user_id(), "u");
    assert_eq!("c".to_channel_id(), "c");
    assert_eq!("c".to_string().to_channel_id(), "c");
    assert_eq!((&"c".to_string()).to_channel_id(), "c");
}

/// A note of the caller's own making.
#[derive(Clone)]
struct OwnNote {
    id: String,
}

impl NoteId for OwnNote {
    fn to_note_id(self) -> String {
        self.id
    }
}

#[test]
fn identifiers_come_from_values_and_from_references_to_them() {
    let note = OwnNote { id: "n9".to_string() };
    assert_eq!((&note).to_note_id(), "n9");
    assert_eq!(CreateNote::renote(&note).renote_id.as_deref(), Some("n9"));
    assert_eq!(CreateNote::note("x").reply(&note).reply_id.as_deref(), Some("n9"));
    assert_eq!(DeleteNote::new(&note).note_id, "n9");
    assert_eq!(DeleteNote::new(note).note_id, "n9");
}

#[test]
fn one_or_several() {
    let one = MaybeMultiple::Single(1u8);
    let several = MaybeMultiple::Multiple(vec![1u8, 2]);
    assert!(matches!(one, MaybeMultiple::Single(1)));
    assert!(matches!(several, MaybeMultiple::Multiple(v) if v == vec![1, 2]));
}
