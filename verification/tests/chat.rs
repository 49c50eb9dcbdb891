use chatdraft::chat::{Group, PhotoField, RawChat};
use grammers_session::{PackedChat, PackedType};
use grammers_tl_types::types::ChatPhoto;

fn sample_photo() -> ChatPhoto {
    ChatPhoto { has_video: false, photo_id: 77, stripped_thumb: None, dc_id: 2 }
}

fn empty(id: i64) -> RawChat {
    RawChat::Empty { id }
}

fn small(id: i64, title: &str, photo: PhotoField) -> RawChat {
    RawChat::Chat { id, title: title.to_string(), photo }
}

fn forbidden(id: i64, title: &str) -> RawChat {
    RawChat::Forbidden { id, title: title.to_string() }
}

fn channel(id: i64, access_hash: Option<i64>) -> RawChat {
    RawChat::Channel {
        id,
        broadcast: false,
        access_hash,
        title: "mega".to_string(),
        username: Some("megagroup".to_string()),
        usernames: Some(vec!["first".to_string(), "second".to_string()]),
        photo: PhotoField::Photo(sample_photo()),
    }
}

fn channel_forbidden(id: i64, access_hash: i64) -> RawChat {
    RawChat::ChannelForbidden { id, broadcast: false, access_hash, title: "closed".to_string() }
}

#[test]
fn from_raw_keeps_the_id_of_every_shape() {
    assert_eq!(Group::from_raw(empty(1)).id(), 1);
    assert_eq!(Group::from_raw(small(2, "a", PhotoField::Empty)).id(), 2);
    assert_eq!(Group::from_raw(forbidden(-3, "b")).id(), -3);
    assert_eq!(Group::from_raw(channel(i64::MAX, Some(9))).id(), i64::MAX);
    assert_eq!(Group::from_raw(channel_forbidden(i64::MIN, 9)).id(), i64::MIN);
}

#[test]
fn from_raw_keeps_the_record() {
    let raw = channel(10, Some(11));
    let group = Group::from_raw(raw.clone());
    assert_eq!(group.raw(), &raw);
    assert!(!group.raw().is_broadcast());
}

#[test]
fn is_broadcast_reads_the_flag_of_channel_shapes() {
    assert!(!empty(1).is_broadcast());
    assert!(!small(1, "a", PhotoField::Empty).is_broadcast());
    assert!(!forbidden(1, "a").is_broadcast());
    assert!(!channel(1, None).is_broadcast());
    assert!(!channel_forbidden(1, 2).is_broadcast());
    let news = RawChat::Channel {
        id: 1,
        broadcast: true,
        access_hash: Some(5),
        title: "news".to_string(),
        username: None,
        usernames: None,
        photo: PhotoField::Empty,
    };
    assert!(news.is_broadcast());
    let closed_news =
        RawChat::ChannelForbidden { id: 1, broadcast: true, access_hash: 5, title: String::new() };
    assert!(closed_news.is_broadcast());
}

#[test]
fn is_megagroup_exactly_for_channel_shapes() {
    assert!(!Group::from_raw(empty(1)).is_megagroup());
    assert!(!Group::from_raw(small(1, "a", PhotoField::Empty)).is_megagroup());
    assert!(!Group::from_raw(forbidden(1, "a")).is_megagroup());
    assert!(Group::from_raw(channel(1, Some(2))).is_megagroup());
    assert!(Group::from_raw(channel_forbidden(1, 2)).is_megagroup());
}

#[test]
fn pack_of_small_shapes_has_no_access_hash() {
    let expected = PackedChat { ty: PackedType::Chat, id: 42, access_hash: None };
    assert_eq!(Group::from_raw(empty(42)).pack(), expected);
    assert_eq!(Group::from_raw(small(42, "a", PhotoField::Empty)).pack(), expected);
    assert_eq!(Group::from_raw(forbidden(42, "a")).pack(), expected);
}

#[test]
fn pack_of_channel_shapes_is_a_megagroup_with_access_hash() {
    assert_eq!(
        Group::from_raw(channel(7, Some(-99))).pack(),
        PackedChat { ty: PackedType::Megagroup, id: 7, access_hash: Some(-99) }
    );
    assert_eq!(
        Group::from_raw(channel_forbidden(8, 123)).pack(),
        PackedChat { ty: PackedType::Megagroup, id: 8, access_hash: Some(123) }
    );
}

#[test]
fn pack_of_channel_without_access_hash_carries_none() {
    assert_eq!(
        Group::from_raw(channel(7, None)).pack(),
        PackedChat { ty: PackedType::Megagroup, id: 7, access_hash: None }
    );
}

#[test]
fn title_is_absent_for_the_placeholder_only() {
    assert_eq!(Group::from_raw(empty(1)).title(), None);
    assert_eq!(Group::from_raw(small(1, "friends", PhotoField::Empty)).title(), Some("friends"));
    assert_eq!(Group::from_raw(forbidden(1, "")).title(), Some(""));
    assert_eq!(Group::from_raw(channel(1, None)).title(), Some("mega"));
    assert_eq!(Group::from_raw(channel_forbidden(1, 2)).title(), Some("closed"));
}

#[test]
fn username_only_for_a_channel() {
    assert_eq!(Group::from_raw(empty(1)).username(), None);
    assert_eq!(Group::from_raw(small(1, "a", PhotoField::Empty)).username(), None);
    assert_eq!(Group::from_raw(forbidden(1, "a")).username(), None);
    assert_eq!(Group::from_raw(channel_forbidden(1, 2)).username(), None);
    assert_eq!(Group::from_raw(channel(1, Some(2))).username(), Some("megagroup"));
}

#[test]
fn usernames_keep_their_order() {
    assert_eq!(Group::from_raw(channel(1, Some(2))).usernames(), vec!["first", "second"]);
}

#[test]
fn usernames_are_empty_where_there_are_none() {
    let bare = RawChat::Channel {
        id: 1,
        broadcast: false,
        access_hash: Some(2),
        title: "t".to_string(),
        username: None,
        usernames: None,
        photo: PhotoField::Empty,
    };
    let group = Group::from_raw(bare);
    assert!(group.usernames().is_empty());
    assert_eq!(group.username(), None);
    assert!(Group::from_raw(empty(1)).usernames().is_empty());
    assert!(Group::from_raw(small(1, "a", PhotoField::Empty)).usernames().is_empty());
    assert!(Group::from_raw(forbidden(1, "a")).usernames().is_empty());
    assert!(Group::from_raw(channel_forbidden(1, 2)).usernames().is_empty());
}

#[test]
fn photo_is_absent_for_sentinel_and_unreachable_chats() {
    assert_eq!(Group::from_raw(empty(1)).photo(), None);
    assert_eq!(Group::from_raw(forbidden(1, "a")).photo(), None);
    assert_eq!(Group::from_raw(channel_forbidden(1, 2)).photo(), None);
    assert_eq!(Group::from_raw(small(1, "a", PhotoField::Empty)).photo(), None);
    let bare = RawChat::Channel {
        id: 1,
        broadcast: false,
        access_hash: None,
        title: "t".to_string(),
        username: None,
        usernames: None,
        photo: PhotoField::Empty,
    };
    assert_eq!(Group::from_raw(bare).photo(), None);
}

#[test]
fn photo_is_given_where_the_record_has_one() {
    let photo = sample_photo();
    assert_eq!(
        Group::from_raw(small(1, "a", PhotoField::Photo(photo.clone()))).photo(),
        Some(&photo)
    );
    assert_eq!(Group::from_raw(channel(1, Some(2))).photo(), Some(&photo));
}

#[test]
fn clone_gives_the_same_group() {
    let group = Group::from_raw(channel(5, Some(6)));
    let copy = group.clone();
    assert_eq!(copy, group);
    assert_eq!(copy.id(), 5);
    assert_eq!(copy.photo(), Some(&sample_photo()));
    assert_eq!(copy.usernames(), vec!["first", "second"]);
    assert_eq!(copy.pack(), group.pack());
    let small_group = Group::from_raw(small(3, "three", PhotoField::Photo(sample_photo())));
    assert_eq!(small_group.clone(), small_group);
}
