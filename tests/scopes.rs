use spotify_auth::scope::{Scope, ScopeList};

fn three_scopes() -> ScopeList {
    ScopeList::create(vec![
        Scope::UserReadPrivate,
        Scope::UserReadPlaybackState,
        Scope::UserReadPlaybackState,
    ])
}

#[test]
fn test() {
    assert!(three_scopes().contains(Scope::UserReadPrivate));
    assert!(ScopeList::empty()
        .add(Scope::UserReadPrivate)
        .add(Scope::UserReadEmail)
        .contains(Scope::UserReadPrivate));

    assert_eq!(
        Some(String::from("user-read-email user-read-private")),
        ScopeList::empty()
            .add(Scope::UserReadPrivate)
            .add(Scope::UserReadEmail)
            .joined_names()
    )
}

#[test]
fn empty_list_joins_to_nothing() {
    assert_eq!(ScopeList::empty().joined_names(), None);
}

#[test]
fn single_scope_joins_to_its_name() {
    let list = ScopeList::empty().add(Scope::Streaming);
    assert_eq!(list.joined_names(), Some(String::from("streaming")));
}

#[test]
fn duplicates_are_kept_in_joined_names() {
    assert_eq!(
        three_scopes().joined_names(),
        Some(String::from(
            "user-read-private user-read-playback-state user-read-playback-state"
        ))
    );
}

#[test]
fn prepend_order_is_head_first() {
    let list = ScopeList::empty()
        .add(Scope::UserTopRead)
        .add(Scope::UgcImageUpload)
        .add(Scope::AppRemoteControl);
    assert_eq!(
        list.joined_names(),
        Some(String::from("app-remote-control ugc-image-upload user-top-read"))
    );
    assert_eq!(list.len(), 3);
    assert_eq!(list.get(0), Scope::AppRemoteControl);
}

#[test]
fn contains_after_prepend() {
    let list = ScopeList::empty().add(Scope::UserFollowRead);
    assert!(!list.contains(Scope::UserFollowModify));
    let list = list.add(Scope::UserFollowModify);
    assert!(list.contains(Scope::UserFollowModify));
    assert!(list.contains(Scope::UserFollowRead));
    assert!(!list.contains(Scope::Streaming));
    assert!(!ScopeList::empty().contains(Scope::Streaming));
}

#[test]
fn names_and_lookup() {
    for scope in Scope::all() {
        assert_eq!(Scope::from_name(scope.name()), Some(scope));
    }
    assert_eq!(Scope::all().len(), 18);
    assert_eq!(Scope::UserModifyPlaybackState.name(), "user-modify-playback-state");
    assert_eq!(Scope::from_name("playlist-read-collaborative"), Some(Scope::PlaylistReadCollaborative));
    assert_eq!(Scope::from_name("user-read"), None);
    assert_eq!(Scope::from_name(""), None);
}

#[test]
fn copied_list_keeps_order() {
    let list = three_scopes();
    let copy = list.copied();
    assert_eq!(copy.joined_names(), list.joined_names());
}
