use vstd::prelude::*;
use vstd::string::*;

verus! {

/// A permission that the provider's API recognises, known by a fixed
/// lowercase hyphenated name.
#[derive(Debug, Clone, Copy, PartialEq, Eq, Hash, Structural)]
pub enum Scope {
    UgcImageUpload,
    UserLibraryModify,
    UserLibraryRead,
    AppRemoteControl,
    Streaming,
    PlaylistReadPrivate,
    PlaylistReadCollaborative,
    PlaylistModifyPublic,
    PlaylistModifyPrivate,
    UserFollowModify,
    UserFollowRead,
    UserReadRecentlyPlayed,
    UserTopRead,
    UserReadPrivate,
    UserReadEmail,
    UserReadCurrentlyPlaying,
    UserReadPlaybackState,
    UserModifyPlaybackState,
}

impl Scope {
    /// The name under which the provider knows this scope.
    pub open spec fn spec_name(self) -> Seq<char> {
        match self {
            Scope::UgcImageUpload => "ugc-image-upload"@,
            Scope::UserLibraryModify => "user-library-modify"@,
            Scope::UserLibraryRead => "user-library-read"@,
            Scope::AppRemoteControl => "app-remote-control"@,
            Scope::Streaming => "streaming"@,
            Scope::PlaylistReadPrivate => "playlist-read-private"@,
            Scope::PlaylistReadCollaborative => "playlist-read-collaborative"@,
            Scope::PlaylistModifyPublic => "playlist-modify-public"@,
            Scope::PlaylistModifyPrivate => "playlist-modify-private"@,
            Scope::UserFollowModify => "user-follow-modify"@,
            Scope::UserFollowRead => "user-follow-read"@,
            Scope::UserReadRecentlyPlayed => "user-read-recently-played"@,
            Scope::UserTopRead => "user-top-read"@,
            Scope::UserReadPrivate => "user-read-private"@,
            Scope::UserReadEmail => "user-read-email"@,
            Scope::UserReadCurrentlyPlaying => "user-read-currently-playing"@,
            Scope::UserReadPlaybackState => "user-read-playback-state"@,
            Scope::UserModifyPlaybackState => "user-modify-playback-state"@,
        }
    }

    /// The name under which the provider knows this scope.
    pub fn name(&self) -> (r: &'static str)
        ensures
            r@ == self.spec_name(),
    {
        match self {
            Scope::UgcImageUpload => "ugc-image-upload",
            Scope::UserLibraryModify => "user-library-modify",
            Scope::UserLibraryRead => "user-library-read",
            Scope::AppRemoteControl => "app-remote-control",
            Scope::Streaming => "streaming",
            Scope::PlaylistReadPrivate => "playlist-read-private",
            Scope::PlaylistReadCollaborative => "playlist-read-collaborative",
            Scope::PlaylistModifyPublic => "playlist-modify-public",
            Scope::PlaylistModifyPrivate => "playlist-modify-private",
            Scope::UserFollowModify => "user-follow-modify",
            Scope::UserFollowRead => "user-follow-read",
            Scope::UserReadRecentlyPlayed => "user-read-recently-played",
            Scope::UserTopRead => "user-top-read",
            Scope::UserReadPrivate => "user-read-private",
            Scope::UserReadEmail => "user-read-email",
            Scope::UserReadCurrentlyPlaying => "user-read-currently-playing",
            Scope::UserReadPlaybackState => "user-read-playback-state",
            Scope::UserModifyPlaybackState => "user-modify-playback-state",
        }
    }

    /// Every scope, in the provider's documentation order.
    pub fn all() -> (r: Vec<Scope>)
        ensures
            forall|s: Scope| r@.contains(s),
    {
        let r = vec![
            Scope::UgcImageUpload,
            Scope::UserLibraryModify,
            Scope::UserLibraryRead,
            Scope::AppRemoteControl,
            Scope::Streaming,
            Scope::PlaylistReadPrivate,
            Scope::PlaylistReadCollaborative,
            Scope::PlaylistModifyPublic,
            Scope::PlaylistModifyPrivate,
            Scope::UserFollowModify,
            Scope::UserFollowRead,
            Scope::UserReadRecentlyPlayed,
            Scope::UserTopRead,
            Scope::UserReadPrivate,
            Scope::UserReadEmail,
            Scope::UserReadCurrentlyPlaying,
            Scope::UserReadPlaybackState,
            Scope::UserModifyPlaybackState,
        ];
        proof {
            assert forall|s: Scope| r@.contains(s) by {
                match s {
                    Scope::UgcImageUpload => assert(r@[0] == s),
                    Scope::UserLibraryModify => assert(r@[1] == s),
                    Scope::UserLibraryRead => assert(r@[2] == s),
                    Scope::AppRemoteControl => assert(r@[3] == s),
                    Scope::Streaming => assert(r@[4] == s),
                    Scope::PlaylistReadPrivate => assert(r@[5] == s),
                    Scope::PlaylistReadCollaborative => assert(r@[6] == s),
                    Scope::PlaylistModifyPublic => assert(r@[7] == s),
                    Scope::PlaylistModifyPrivate => assert(r@[8] == s),
                    Scope::UserFollowModify => assert(r@[9] == s),
                    Scope::UserFollowRead => assert(r@[10] == s),
                    Scope::UserReadRecentlyPlayed => assert(r@[11] == s),
                    Scope::UserTopRead => assert(r@[12] == s),
                    Scope::UserReadPrivate => assert(r@[13] == s),
                    Scope::UserReadEmail => assert(r@[14] == s),
                    Scope::UserReadCurrentlyPlaying => assert(r@[15] == s),
                    Scope::UserReadPlaybackState => assert(r@[16] == s),
                    Scope::UserModifyPlaybackState => assert(r@[17] == s),
                }
            }
        }
        r
    }

    /// Looks a scope up by its name.
    pub fn from_name(name: &str) -> (r: Option<Scope>)
        ensures
            r matches Some(s) ==> s.spec_name() == name@,
            r is None ==> forall|s: Scope| s.spec_name() != name@,
    {
        let all = Scope::all();
        let wanted = name.to_owned();
        let mut i: usize = 0;
        while i < all.len()
            invariant
                0 <= i <= all@.len(),
                wanted@ == name@,
                forall|s: Scope| all@.contains(s),
                forall|j: int| 0 <= j < i ==> all@[j].spec_name() != name@,
            decreases all@.len() - i,
        {
            let candidate = String::from_str(all[i].name());
            if candidate == wanted {
                return Some(all[i]);
            }
            i += 1;
        }
        proof {
            assert forall|s: Scope| s.spec_name() != name@ by {
                assert(all@.contains(s));
                let j = choose|j: int| 0 <= j < all@.len() && all@[j] == s;
            }
        }
        None
    }
}


/// The names of `scopes`, head first, each but the last followed by one space.
pub open spec fn names_joined(scopes: Seq<Scope>) -> Seq<char>
    decreases scopes.len(),
{
    if scopes.len() <= 1 {
        if scopes.len() == 1 {
            scopes[0].spec_name()
        } else {
            Seq::empty()
        }
    } else {
        names_joined(scopes.drop_last()) + " "@ + scopes.last().spec_name()
    }
}

/// What `joined_names` gives for a list whose scopes are `scopes`: nothing
/// for the empty list, the joined names otherwise.
pub open spec fn joined_names_of(scopes: Seq<Scope>) -> Option<Seq<char>> {
    if scopes.len() == 0 {
        None
    } else {
        Some(names_joined(scopes))
    }
}

/// An ordered list of scopes, head first. Built from the empty list by
/// prepending one scope at a time; a scope may occur more than once.
#[derive(Debug)]
pub struct ScopeList {
    scopes: Vec<Scope>,
}

impl View for ScopeList {
    type V = Seq<Scope>;

    closed spec fn view(&self) -> Seq<Scope> {
        self.scopes@
    }
}

impl ScopeList {
    /// The list with no scope.
    pub fn empty() -> (r: ScopeList)
        ensures
            r@ == Seq::<Scope>::empty(),
    {
        ScopeList { scopes: Vec::new() }
    }

    /// The list that holds `scopes` in the order given, head first.
    pub fn create(scopes: Vec<Scope>) -> (r: ScopeList)
        ensures
            r@ == scopes@,
    {
        ScopeList { scopes }
    }

    /// A new list with `scope` in front of the scopes of this one.
    pub fn add(self, scope: Scope) -> (r: ScopeList)
        ensures
            r@ == seq![scope] + self@,
    {
        let mut scopes: Vec<Scope> = Vec::new();
        scopes.push(scope);
        let mut i: usize = 0;
        while i < self.scopes.len()
            invariant
                0 <= i <= self.scopes@.len(),
                scopes@ == seq![scope] + self.scopes@.take(i as int),
            decreases self.scopes@.len() - i,
        {
            scopes.push(self.scopes[i]);
            i += 1;
            assert(scopes@ =~= seq![scope] + self.scopes@.take(i as int));
        }
        assert(self.scopes@.take(i as int) =~= self.scopes@);
        ScopeList { scopes }
    }

    /// The number of entries, repeated scopes counted each time.
    pub fn len(&self) -> (r: usize)
        ensures
            r == self@.len(),
    {
        self.scopes.len()
    }

    /// The entry at `index`, counted from the head.
    pub fn get(&self, index: usize) -> (r: Scope)
        requires
            index < self@.len(),
        ensures
            r == self@[index as int],
    {
        self.scopes[index]
    }

    /// A second list with the same scopes in the same order.
    pub fn copied(&self) -> (r: ScopeList)
        ensures
            r@ == self@,
    {
        let mut scopes: Vec<Scope> = Vec::with_capacity(self.scopes.len());
        let mut i: usize = 0;
        while i < self.scopes.len()
            invariant
                0 <= i <= self.scopes@.len(),
                scopes@ == self.scopes@.take(i as int),
            decreases self.scopes@.len() - i,
        {
            scopes.push(self.scopes[i]);
            i += 1;
            assert(scopes@ =~= self.scopes@.take(i as int));
        }
        assert(self.scopes@.take(i as int) =~= self.scopes@);
        ScopeList { scopes }
    }

    /// Whether `scope` occurs anywhere in the list, by identity.
    pub fn contains(&self, scope: Scope) -> (r: bool)
        ensures
            r == self@.contains(scope),
    {
        let mut i: usize = 0;
        while i < self.scopes.len()
            invariant
                0 <= i <= self.scopes@.len(),
                forall|j: int| 0 <= j < i ==> self.scopes@[j] != scope,
            decreases self.scopes@.len() - i,
        {
            if self.scopes[i] == scope {
                return true;
            }
            i += 1;
        }
        false
    }

    /// The names of the scopes, head first and separated by single spaces;
    /// nothing at all for the empty list.
    pub fn joined_names(&self) -> (r: Option<String>)
        ensures
            r matches Some(s) ==> joined_names_of(self@) == Some(s@),
            r is None ==> joined_names_of(self@) is None,
    {
        if self.scopes.len() == 0 {
            return None;
        }
        let mut names = String::from_str(self.scopes[0].name());
        let mut i: usize = 1;
        assert(self.scopes@.take(1) =~= seq![self.scopes@[0]]);
        while i < self.scopes.len()
            invariant
                1 <= i <= self.scopes@.len(),
                names@ == names_joined(self.scopes@.take(i as int)),
            decreases self.scopes@.len() - i,
        {
            names.append(" ");
            names.append(self.scopes[i].name());
            i += 1;
            assert(self.scopes@.take(i as int).drop_last() =~= self.scopes@.take(i - 1));
        }
        assert(self.scopes@.take(i as int) =~= self.scopes@);
        Some(names)
    }
}

/// Prepending a scope puts its name in front of the joined names of the
/// list, separated by one space; onto the empty list it gives the name alone.
/// So a list of `c1, ..., cn` joins to `name(c1) + " " + ... + " " + name(cn)`,
/// and the empty list joins to nothing.
pub proof fn lemma_joined_names_prepend(list: ScopeList, scope: Scope)
    ensures
        joined_names_of(Seq::<Scope>::empty()) is None,
        list@.len() == 0 ==> joined_names_of(seq![scope] + list@) == Some(scope.spec_name()),
        list@.len() > 0 ==> joined_names_of(seq![scope] + list@) == Some(
            scope.spec_name() + " "@ + names_joined(list@),
        ),
{
    lemma_names_joined_prepend(list@, scope);
}

proof fn lemma_names_joined_prepend(scopes: Seq<Scope>, scope: Scope)
    ensures
        scopes.len() == 0 ==> names_joined(seq![scope] + scopes) == scope.spec_name(),
        scopes.len() > 0 ==> names_joined(seq![scope] + scopes) == scope.spec_name() + " "@
            + names_joined(scopes),
    decreases scopes.len(),
{
    let whole = seq![scope] + scopes;
    if scopes.len() == 0 {
        assert(whole.len() == 1);
    } else if scopes.len() == 1 {
        assert(whole.drop_last() =~= seq![scope]);
        assert(whole.last() == scopes[0]);
        assert(names_joined(seq![scope]) == scope.spec_name());
        assert(names_joined(scopes) == scopes[0].spec_name());
    } else {
        lemma_names_joined_prepend(scopes.drop_last(), scope);
        assert(whole.drop_last() =~= seq![scope] + scopes.drop_last());
        assert(whole.last() == scopes.last());
        let head = scope.spec_name() + " "@;
        let init = names_joined(scopes.drop_last());
        let tail = " "@ + scopes.last().spec_name();
        assert(names_joined(whole) == head + init + tail);
        assert(names_joined(scopes) == init + tail);
        assert(head + init + tail =~= head + (init + tail));
    }
}

/// Prepending a scope makes the list contain it, and keeps every scope that
/// the list contained before.
pub proof fn lemma_contains_after_prepend(list: ScopeList, scope: Scope, other: Scope)
    ensures
        (seq![scope] + list@).contains(scope),
        list@.contains(other) ==> (seq![scope] + list@).contains(other),
{
    let whole = seq![scope] + list@;
    assert(whole[0] == scope);
    if list@.contains(other) {
        let j = choose|j: int| 0 <= j < list@.len() && list@[j] == other;
        assert(whole[j + 1] == other);
    }
}

} // verus!
