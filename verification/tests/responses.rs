use misskey_client::responses::channels::LiteChannelInfo;
use misskey_client::responses::charts::{
    ActiveUserChart, ApRequestChart, DriveChart, DriveChartDetail, FederationChart,
};
use misskey_client::responses::notes::{
    AchievementInfo, FieldInfo, FileProperties, PollChoiceInfo, RoleInfo,
};
use misskey_client::responses::users::{BadgeRoleInfo, InstanceInfo, RelationInfo};

#[test]
fn channel_getters() {
    let channel = LiteChannelInfo {
        id: "c1".to_string(),
        name: "general".to_string(),
        user_id: None,
        color: "#fff".to_string(),
        is_sensitive: false,
        allow_renote_to_external: true,
    };
    assert_eq!(channel.id(), "c1");
    assert_eq!(channel.name(), "general");
    assert_eq!(channel.user_id(), &None);
    assert_eq!(channel.color(), "#fff");
    assert!(!*channel.is_sensitive());
    assert!(*channel.allow_renote_to_external());
}

#[test]
fn chart_getters() {
    let detail = |n: usize| DriveChartDetail {
        inc_count: vec![n],
        inc_size: vec![n + 1],
        dec_count: vec![n + 2],
        dec_size: vec![n + 3],
    };
    let chart = DriveChart { local: detail(1), remote: detail(10) };
    assert_eq!(chart.local().inc_count(), &vec![1]);
    assert_eq!(chart.local().dec_size(), &vec![4]);
    assert_eq!(chart.remote().inc_size(), &vec![11]);
    assert_eq!(chart.remote().dec_count(), &vec![12]);

    let chart = ApRequestChart { deliver_failed: vec![1], deliver_succeeded: vec![2, 3], inbox_received: vec![] };
    assert_eq!(chart.deliver_failed(), &vec![1]);
    assert_eq!(chart.deliver_succeeded(), &vec![2, 3]);
    assert!(chart.inbox_received().is_empty());

    let chart = FederationChart {
        delivered_instances: vec![1],
        inbox_instances: vec![2],
        stalled: vec![3],
        sub: vec![4],
        public: vec![5],
        pubsub: vec![6],
        sub_active: vec![7],
        pub_active: vec![8],
    };
    assert_eq!(chart.get_pub(), &vec![5]);
    assert_eq!(chart.sub(), &vec![4]);
    assert_eq!(chart.pubsub(), &vec![6]);
    assert_eq!(chart.pub_active(), &vec![8]);

    let chart = ActiveUserChart {
        read_write: vec![1],
        read: vec![2],
        write: vec![3],
        registered_within_week: vec![4],
        registered_within_month: vec![5],
        registered_within_year: vec![6],
        registered_outside_week: vec![7],
        registered_outside_month: vec![8],
        registered_outside_year: vec![9],
    };
    assert_eq!(chart.read_write(), &vec![1]);
    assert_eq!(chart.registered_outside_year(), &vec![9]);
}

#[test]
fn note_part_getters() {
    let properties = FileProperties { avg_color: Some("red".to_string()), height: Some(2), orientation: None, width: Some(3) };
    assert_eq!(properties.avg_color(), &Some("red".to_string()));
    assert_eq!((properties.height(), properties.orientation(), properties.width()), (&Some(2), &None, &Some(3)));
    let choice = PollChoiceInfo { is_voted: true, text: "yes".to_string(), votes: 4 };
    assert_eq!((*choice.is_voted(), choice.text().as_str(), *choice.votes()), (true, "yes", 4));
    let achievement = AchievementInfo { name: "first".to_string(), unlocked_at: 99 };
    assert_eq!((achievement.name().as_str(), *achievement.unlocked_at()), ("first", 99));
    let field = FieldInfo { name: "site".to_string(), value: "example.com".to_string() };
    assert_eq!((field.name().as_str(), field.value().as_str()), ("site", "example.com"));
    let role = RoleInfo {
        color: None,
        description: "d".to_string(),
        display_order: -3,
        icon_url: None,
        id: "r".to_string(),
        is_administrator: false,
        is_moderator: true,
        name: "mods".to_string(),
    };
    assert_eq!(*role.display_order(), -3);
    assert!(*role.is_moderator());
    assert_eq!(role.name(), "mods");
}

#[test]
fn user_part_getters() {
    let instance = InstanceInfo {
        name: Some("n".to_string()),
        software_name: Some("misskey".to_string()),
        software_version: None,
        icon_url: None,
        favicon_url: None,
        theme_color: None,
    };
    assert_eq!(instance.software_name(), &Some("misskey".to_string()));
    assert_eq!(instance.software_version(), &None);
    let badge = BadgeRoleInfo { name: "b".to_string(), icon_url: None, display_order: 2, behavior: None };
    assert_eq!((badge.name().as_str(), *badge.display_order()), ("b", 2));
    let relation = RelationInfo {
        id: "u".to_string(),
        is_following: true,
        has_pending_follow_request_from_you: false,
        has_pending_follow_request_to_you: false,
        is_followed: true,
        is_blocking: false,
        is_blocked: false,
        is_muted: false,
        is_renote_muted: true,
    };
    assert!(*relation.is_following() && *relation.is_followed() && *relation.is_renote_muted());
    assert!(!*relation.is_blocking());
}
