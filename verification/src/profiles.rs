//! Profiles: the settings that go with one game, and the store that holds them.

use vstd::prelude::*;
use vstd::string::StringExecFns;
use crate::config::dirs_config_path;
use crate::config::ConfigManager;
use crate::core_logic::Sensitivity;
use crate::text::join_path;
use crate::text::joined_path;
use crate::text::lowercase_of;
use crate::text::same_text;
use crate::text::to_lowercase;

verus! {

/// The sensitivity that a lower-case name stands for; any name that is not one of
/// the other two stands for the balanced one.
pub open spec fn lenient_sensitivity(name: Seq<char>) -> Sensitivity {
    if name == "conservative"@ {
        Sensitivity::Conservative
    } else if name == "aggressive"@ {
        Sensitivity::Aggressive
    } else {
        Sensitivity::Balanced
    }
}

/// The sensitivity that a lower-case name stands for.
pub fn sensitivity_or_balanced(name: &str) -> (s: Sensitivity)
    ensures
        s == lenient_sensitivity(name@),
{
    if same_text(name, "conservative") {
        Sensitivity::Conservative
    } else if same_text(name, "aggressive") {
        Sensitivity::Aggressive
    } else {
        Sensitivity::Balanced
    }
}

/// The settings that go with one game.
#[derive(Debug, Clone, PartialEq, Eq)]
pub struct GameProfile {
    /// The game's identifier in the store it was bought from.
    pub app_id: String,
    /// The game's name, for display.
    pub name: String,
    /// Lower end of the range of refresh rates.
    pub min_hz: u32,
    /// Upper end of the range of refresh rates.
    pub max_hz: u32,
    /// Name of the sensitivity.
    pub sensitivity: String,
    /// Whether the deviation of the frame rate may change the sensitivity.
    pub adaptive_sensitivity: bool,
}

impl GameProfile {
    /// A profile with adaptation switched off.
    pub fn new(app_id: String, name: String, min_hz: u32, max_hz: u32, sensitivity: String) -> (p:
        Self)
        ensures
            p == (GameProfile {
                app_id,
                name,
                min_hz,
                max_hz,
                sensitivity,
                adaptive_sensitivity: false,
            }),
    {
        Self { app_id, name, min_hz, max_hz, sensitivity, adaptive_sensitivity: false }
    }

    /// The sensitivity that the profile names, whatever the case of the letters; a
    /// name that is none of the three stands for the balanced one.
    pub fn get_sensitivity(&self) -> (s: Sensitivity)
        ensures
            s == lenient_sensitivity(lowercase_of(self.sensitivity@)),
    {
        let lower: String = to_lowercase(self.sensitivity.as_str());
        sensitivity_or_balanced(lower.as_str())
    }

    /// A copy of the profile.
    pub fn duplicate(&self) -> (p: Self)
        ensures
            p == *self,
    {
        Self {
            app_id: self.app_id.clone(),
            name: self.name.clone(),
            min_hz: self.min_hz,
            max_hz: self.max_hz,
            sensitivity: self.sensitivity.clone(),
            adaptive_sensitivity: self.adaptive_sensitivity,
        }
    }
}

/// The settings in force while no game with a profile runs.
#[derive(Debug, Clone, PartialEq, Eq)]
pub struct GlobalDefault {
    /// Lower end of the range of refresh rates.
    pub min_hz: u32,
    /// Upper end of the range of refresh rates.
    pub max_hz: u32,
    /// Name of the sensitivity.
    pub sensitivity: String,
    /// Whether the deviation of the frame rate may change the sensitivity.
    pub adaptive_sensitivity: bool,
}

impl Default for GlobalDefault {
    fn default() -> (d: Self)
        ensures
            d.min_hz == 40,
            d.max_hz == 90,
            d.sensitivity@ == "balanced"@,
            !d.adaptive_sensitivity,
    {
        Self {
            min_hz: 40,
            max_hz: 90,
            sensitivity: String::from_str("balanced"),
            adaptive_sensitivity: false,
        }
    }
}

impl GlobalDefault {
    /// A copy of the settings.
    pub fn duplicate(&self) -> (d: Self)
        ensures
            d == *self,
    {
        Self {
            min_hz: self.min_hz,
            max_hz: self.max_hz,
            sensitivity: self.sensitivity.clone(),
            adaptive_sensitivity: self.adaptive_sensitivity,
        }
    }
}

/// The profiles of a run of entries, each under its game's identifier; a later entry
/// takes the place of an earlier one for the same game.
pub open spec fn profile_map(entries: Seq<GameProfile>) -> Map<Seq<char>, GameProfile>
    decreases entries.len(),
{
    if entries.len() == 0 {
        Map::empty()
    } else {
        profile_map(entries.drop_last()).insert(entries.last().app_id@, entries.last())
    }
}

/// No two entries are for the same game.
pub open spec fn distinct_ids(entries: Seq<GameProfile>) -> bool {
    forall|i: int, j: int|
        0 <= i < entries.len() && 0 <= j < entries.len() && i != j ==> (#[trigger] entries[i]).app_id@
            != (#[trigger] entries[j]).app_id@
}

/// A game has a profile in the map exactly when one of the entries is for it.
pub proof fn lemma_profile_map_domain(entries: Seq<GameProfile>, app_id: Seq<char>)
    ensures
        profile_map(entries).contains_key(app_id) <==> exists|i: int|
            0 <= i < entries.len() && (#[trigger] entries[i]).app_id@ == app_id,
    decreases entries.len(),
{
    if entries.len() > 0 {
        let front = entries.drop_last();
        lemma_profile_map_domain(front, app_id);
        if profile_map(entries).contains_key(app_id) {
            if entries.last().app_id@ == app_id {
                assert(entries[entries.len() - 1].app_id@ == app_id);
            } else {
                let i = choose|i: int| 0 <= i < front.len() && (#[trigger] front[i]).app_id@ == app_id;
                assert(entries[i].app_id@ == app_id);
            }
        }
        if exists|i: int| 0 <= i < entries.len() && (#[trigger] entries[i]).app_id@ == app_id {
            let i = choose|i: int|
                0 <= i < entries.len() && (#[trigger] entries[i]).app_id@ == app_id;
            if i < front.len() {
                assert(front[i].app_id@ == app_id);
            }
        }
    }
}

/// Among entries for distinct games, each entry is the profile of its game.
pub proof fn lemma_profile_map_entry(entries: Seq<GameProfile>, i: int)
    requires
        distinct_ids(entries),
        0 <= i < entries.len(),
    ensures
        profile_map(entries).contains_key(entries[i].app_id@),
        profile_map(entries)[entries[i].app_id@] == entries[i],
    decreases entries.len(),
{
    let front = entries.drop_last();
    if i < entries.len() - 1 {
        assert(distinct_ids(front)) by {
            assert forall|a: int, b: int|
                0 <= a < front.len() && 0 <= b < front.len() && a != b implies (
            #[trigger] front[a]).app_id@ != (#[trigger] front[b]).app_id@ by {
                assert(front[a] == entries[a] && front[b] == entries[b]);
            }
        }
        lemma_profile_map_entry(front, i);
        assert(front[i] == entries[i]);
        assert(entries[i].app_id@ != entries[entries.len() - 1].app_id@);
    }
}

/// Leaving out the last of some entries for distinct games leaves entries for
/// distinct games.
pub proof fn lemma_distinct_front(entries: Seq<GameProfile>)
    requires
        distinct_ids(entries),
        entries.len() > 0,
    ensures
        distinct_ids(entries.drop_last()),
{
    let front = entries.drop_last();
    assert forall|a: int, b: int|
        0 <= a < front.len() && 0 <= b < front.len() && a != b implies (#[trigger] front[a]).app_id@
        != (#[trigger] front[b]).app_id@ by {
        assert(front[a] == entries[a] && front[b] == entries[b]);
    }
}

/// Putting a profile in the place of the entry for the same game changes the map at
/// that game and nowhere else.
pub proof fn lemma_profile_map_update(entries: Seq<GameProfile>, i: int, profile: GameProfile)
    requires
        distinct_ids(entries),
        0 <= i < entries.len(),
        profile.app_id@ == entries[i].app_id@,
    ensures
        distinct_ids(entries.update(i, profile)),
        profile_map(entries.update(i, profile)) == profile_map(entries).insert(
            profile.app_id@,
            profile,
        ),
    decreases entries.len(),
{
    let updated = entries.update(i, profile);
    assert(distinct_ids(updated)) by {
        assert forall|a: int, b: int|
            0 <= a < updated.len() && 0 <= b < updated.len() && a != b implies (
        #[trigger] updated[a]).app_id@ != (#[trigger] updated[b]).app_id@ by {
            assert(updated[a].app_id@ == entries[a].app_id@);
            assert(updated[b].app_id@ == entries[b].app_id@);
        }
    }
    let front = entries.drop_last();
    lemma_distinct_front(entries);
    if i == entries.len() - 1 {
        assert(updated.drop_last() =~= front);
        assert(profile_map(updated) =~= profile_map(entries).insert(profile.app_id@, profile));
    } else {
        lemma_profile_map_update(front, i, profile);
        assert(updated.drop_last() =~= front.update(i, profile));
        assert(updated.last() == entries.last());
        assert(entries[i].app_id@ != entries[entries.len() - 1].app_id@);
        assert(profile_map(updated) =~= profile_map(entries).insert(profile.app_id@, profile));
    }
}

/// Adding a profile for a game that has none adds it to the map.
pub proof fn lemma_profile_map_push(entries: Seq<GameProfile>, profile: GameProfile)
    requires
        distinct_ids(entries),
        !profile_map(entries).contains_key(profile.app_id@),
    ensures
        distinct_ids(entries.push(profile)),
        profile_map(entries.push(profile)) == profile_map(entries).insert(
            profile.app_id@,
            profile,
        ),
{
    let grown = entries.push(profile);
    assert(grown.drop_last() =~= entries);
    assert forall|a: int, b: int|
        0 <= a < grown.len() && 0 <= b < grown.len() && a != b implies (#[trigger] grown[a]).app_id@
        != (#[trigger] grown[b]).app_id@ by {
        lemma_profile_map_domain(entries, profile.app_id@);
        if a < entries.len() {
            assert(grown[a] == entries[a]);
        }
        if b < entries.len() {
            assert(grown[b] == entries[b]);
        }
    }
}

/// Taking an entry out takes its game out of the map and nothing else.
pub proof fn lemma_profile_map_remove(entries: Seq<GameProfile>, i: int)
    requires
        distinct_ids(entries),
        0 <= i < entries.len(),
    ensures
        distinct_ids(entries.remove(i)),
        profile_map(entries.remove(i)) == profile_map(entries).remove(entries[i].app_id@),
    decreases entries.len(),
{
    let removed = entries.remove(i);
    assert(distinct_ids(removed)) by {
        assert forall|a: int, b: int|
            0 <= a < removed.len() && 0 <= b < removed.len() && a != b implies (
        #[trigger] removed[a]).app_id@ != (#[trigger] removed[b]).app_id@ by {
            let from_a = if a < i {
                a
            } else {
                a + 1
            };
            let from_b = if b < i {
                b
            } else {
                b + 1
            };
            assert(removed[a] == entries[from_a]);
            assert(removed[b] == entries[from_b]);
        }
    }
    let front = entries.drop_last();
    lemma_distinct_front(entries);
    if i == entries.len() - 1 {
        assert(removed =~= front);
        lemma_profile_map_domain(front, entries[i].app_id@);
        if profile_map(front).contains_key(entries[i].app_id@) {
            let j = choose|j: int|
                0 <= j < front.len() && (#[trigger] front[j]).app_id@ == entries[i].app_id@;
            assert(front[j] == entries[j]);
        }
        assert(profile_map(removed) =~= profile_map(entries).remove(entries[i].app_id@));
    } else {
        lemma_profile_map_remove(front, i);
        assert(removed.drop_last() =~= front.remove(i));
        assert(removed.last() == entries.last());
        assert(front[i] == entries[i]);
        assert(entries[i].app_id@ != entries[entries.len() - 1].app_id@);
        assert(profile_map(removed) =~= profile_map(entries).remove(entries[i].app_id@));
    }
}

/// The store of profiles as a mathematical value.
pub struct ProfileStore {
    /// The profile of each game that has one.
    pub profiles: Map<Seq<char>, GameProfile>,
    /// The game that runs, if any.
    pub current_app_id: Option<Seq<char>>,
    /// The settings in force while no game with a profile runs.
    pub global_default: GlobalDefault,
}

impl ProfileStore {
    /// The settings in force: those of the running game's profile, where it has one,
    /// and the global ones otherwise: the range, the sensitivity and whether
    /// adaptation is on.
    pub open spec fn current_settings(self) -> (u32, u32, Sensitivity, bool) {
        if self.current_app_id is Some && self.profiles.contains_key(
            self.current_app_id->Some_0,
        ) {
            let profile = self.profiles[self.current_app_id->Some_0];
            (
                profile.min_hz,
                profile.max_hz,
                lenient_sensitivity(lowercase_of(profile.sensitivity@)),
                profile.adaptive_sensitivity,
            )
        } else {
            (
                self.global_default.min_hz,
                self.global_default.max_hz,
                lenient_sensitivity(lowercase_of(self.global_default.sensitivity@)),
                self.global_default.adaptive_sensitivity,
            )
        }
    }
}

/// Holds the profiles, the game that runs, and the global settings.
#[derive(Debug)]
pub struct ProfileManager {
    profiles: Vec<GameProfile>,
    current_app_id: Option<String>,
    /// The settings in force while no game with a profile runs.
    pub global_default: GlobalDefault,
}

impl View for ProfileManager {
    type V = ProfileStore;

    closed spec fn view(&self) -> ProfileStore {
        ProfileStore {
            profiles: profile_map(self.profiles@),
            current_app_id: match self.current_app_id {
                Some(app_id) => Some(app_id@),
                None => None,
            },
            global_default: self.global_default,
        }
    }
}

impl Default for ProfileManager {
    fn default() -> (m: Self)
        ensures
            m.wf(),
            m@.profiles == Map::<Seq<char>, GameProfile>::empty(),
            m@.current_app_id is None,
            m@.global_default.min_hz == 40,
            m@.global_default.max_hz == 90,
            m@.global_default.sensitivity@ == "balanced"@,
            !m@.global_default.adaptive_sensitivity,
    {
        Self {
            profiles: Vec::new(),
            current_app_id: None,
            global_default: GlobalDefault::default(),
        }
    }
}

impl ProfileManager {
    /// The profiles held, in the order in which their games first got one.
    pub closed spec fn entries(&self) -> Seq<GameProfile> {
        self.profiles@
    }

    /// No two of the profiles held are for the same game.
    pub closed spec fn wf(&self) -> bool {
        distinct_ids(self.profiles@)
    }

    /// The profiles held are for distinct games and make up the map of the store.
    pub proof fn lemma_entries(&self)
        requires
            self.wf(),
        ensures
            distinct_ids(self.entries()),
            self@.profiles == profile_map(self.entries()),
    {
    }

    /// The place the profiles are stored at.
    pub fn profiles_path(home: Option<&str>) -> (p: String)
        ensures
            p@ == joined_path(
                ConfigManager::config_dir(
                    match home {
                        Some(home) => Some(home@),
                        None => None,
                    },
                ),
                "profiles.json"@,
            ),
    {
        let dir: String = dirs_config_path(home);
        join_path(dir.as_str(), "profiles.json")
    }

    /// The place of the entry for a game, if there is one.
    fn position(&self, app_id: &str) -> (r: Option<usize>)
        ensures
            match r {
                Some(i) => i < self.profiles@.len() && self.profiles@[i as int].app_id@ == app_id@,
                None => forall|i: int|
                    0 <= i < self.profiles@.len() ==> (#[trigger] self.profiles@[i]).app_id@
                        != app_id@,
            },
    {
        let n: usize = self.profiles.len();
        let mut i: usize = 0;
        while i < n
            invariant
                n == self.profiles@.len(),
                i <= n,
                forall|j: int| 0 <= j < i ==> (#[trigger] self.profiles@[j]).app_id@ != app_id@,
            decreases n - i,
        {
            if same_text(self.profiles[i].app_id.as_str(), app_id) {
                return Some(i);
            }
            i = i + 1;
        }
        None
    }

    /// The profile of a game, if it has one.
    pub fn get_profile(&self, app_id: &str) -> (r: Option<&GameProfile>)
        requires
            self.wf(),
        ensures
            r is Some <==> self@.profiles.contains_key(app_id@),
            r matches Some(profile) ==> *profile == self@.profiles[app_id@],
    {
        proof {
            lemma_profile_map_domain(self.profiles@, app_id@);
        }
        match self.position(app_id) {
            Some(i) => {
                proof {
                    lemma_profile_map_entry(self.profiles@, i as int);
                }
                Some(&self.profiles[i])
            },
            None => None,
        }
    }

    /// Gives a game the profile, in the place of the one it had, if any.
    pub fn set_profile(&mut self, profile: GameProfile)
        requires
            old(self).wf(),
        ensures
            final(self).wf(),
            final(self)@ == (ProfileStore {
                profiles: old(self)@.profiles.insert(profile.app_id@, profile),
                ..old(self)@
            }),
    {
        proof {
            lemma_profile_map_domain(self.profiles@, profile.app_id@);
        }
        match self.position(profile.app_id.as_str()) {
            Some(i) => {
                proof {
                    lemma_profile_map_update(self.profiles@, i as int, profile);
                }
                self.profiles.set(i, profile);
            },
            None => {
                proof {
                    lemma_profile_map_push(self.profiles@, profile);
                }
                self.profiles.push(profile);
            },
        }
    }

    /// Takes a game's profile out of the store and returns it, if the game had one.
    pub fn remove_profile(&mut self, app_id: &str) -> (r: Option<GameProfile>)
        requires
            old(self).wf(),
        ensures
            final(self).wf(),
            r is Some <==> old(self)@.profiles.contains_key(app_id@),
            r matches Some(profile) ==> profile == old(self)@.profiles[app_id@],
            final(self)@ == (ProfileStore {
                profiles: old(self)@.profiles.remove(app_id@),
                ..old(self)@
            }),
    {
        proof {
            lemma_profile_map_domain(self.profiles@, app_id@);
        }
        match self.position(app_id) {
            Some(i) => {
                proof {
                    lemma_profile_map_entry(self.profiles@, i as int);
                    lemma_profile_map_remove(self.profiles@, i as int);
                }
                Some(self.profiles.remove(i))
            },
            None => {
                assert(old(self)@.profiles.remove(app_id@) =~= old(self)@.profiles);
                None
            },
        }
    }

    /// Every profile held, in the order in which the games first got one.
    pub fn get_all_profiles(&self) -> (all: Vec<&GameProfile>)
        ensures
            all@.len() == self.entries().len(),
            forall|i: int| 0 <= i < all@.len() ==> *(#[trigger] all@[i]) == self.entries()[i],
    {
        let n: usize = self.profiles.len();
        let mut all: Vec<&GameProfile> = Vec::new();
        let mut i: usize = 0;
        while i < n
            invariant
                n == self.profiles@.len(),
                i <= n,
                all@.len() == i,
                forall|j: int| 0 <= j < i ==> *(#[trigger] all@[j]) == self.profiles@[j],
            decreases n - i,
        {
            all.push(&self.profiles[i]);
            i = i + 1;
        }
        all
    }

    /// Says which game runs, or that none does.
    pub fn set_current_game(&mut self, app_id: Option<String>)
        requires
            old(self).wf(),
        ensures
            final(self).wf(),
            final(self)@ == (ProfileStore {
                current_app_id: match app_id {
                    Some(id) => Some(id@),
                    None => None,
                },
                ..old(self)@
            }),
    {
        self.current_app_id = app_id;
    }

    /// The game that runs, if any.
    pub fn get_current_game(&self) -> (r: Option<&String>)
        ensures
            match r {
                Some(id) => self@.current_app_id == Some(id@),
                None => self@.current_app_id is None,
            },
    {
        self.current_app_id.as_ref()
    }

    /// The settings in force: the range, the sensitivity and whether adaptation is
    /// on, from the running game's profile where it has one and from the global
    /// settings otherwise.
    pub fn get_current_settings(&self) -> (r: (u32, u32, Sensitivity, bool))
        requires
            self.wf(),
        ensures
            r == self@.current_settings(),
    {
        match &self.current_app_id {
            Some(app_id) => {
                match self.get_profile(app_id.as_str()) {
                    Some(profile) => {
                        return (
                            profile.min_hz,
                            profile.max_hz,
                            profile.get_sensitivity(),
                            profile.adaptive_sensitivity,
                        );
                    },
                    None => {},
                }
            },
            None => {},
        }
        let lower: String = to_lowercase(self.global_default.sensitivity.as_str());
        (
            self.global_default.min_hz,
            self.global_default.max_hz,
            sensitivity_or_balanced(lower.as_str()),
            self.global_default.adaptive_sensitivity,
        )
    }

    /// Sets the settings in force while no game with a profile runs.
    pub fn set_global_default(
        &mut self,
        min_hz: u32,
        max_hz: u32,
        sensitivity: String,
        adaptive: bool,
    )
        requires
            old(self).wf(),
        ensures
            final(self).wf(),
            final(self)@ == (ProfileStore {
                global_default: GlobalDefault {
                    min_hz,
                    max_hz,
                    sensitivity,
                    adaptive_sensitivity: adaptive,
                },
                ..old(self)@
            }),
    {
        self.global_default =
        GlobalDefault { min_hz, max_hz, sensitivity, adaptive_sensitivity: adaptive };
    }
}

/// The store of profiles as it is sent to a client.
#[derive(Debug, Clone)]
pub struct ProfileListResponse {
    /// Every profile held.
    pub profiles: Vec<GameProfile>,
    /// The game that runs, if any.
    pub current_app_id: Option<String>,
    /// The settings in force while no game with a profile runs.
    pub global_default: GlobalDefault,
}

impl ProfileListResponse {
    /// What the store holds, for a client.
    pub fn from_manager(manager: &ProfileManager) -> (r: Self)
        ensures
            r.profiles@ == manager.entries(),
            match r.current_app_id {
                Some(id) => manager@.current_app_id == Some(id@),
                None => manager@.current_app_id is None,
            },
            r.global_default == manager@.global_default,
    {
        let n: usize = manager.profiles.len();
        let mut profiles: Vec<GameProfile> = Vec::new();
        let mut i: usize = 0;
        while i < n
            invariant
                n == manager.profiles@.len(),
                i <= n,
                profiles@ == manager.profiles@.take(i as int),
            decreases n - i,
        {
            profiles.push(manager.profiles[i].duplicate());
            assert(profiles@ =~= manager.profiles@.take(i as int + 1));
            i = i + 1;
        }
        assert(manager.profiles@.take(n as int) =~= manager.profiles@);
        let current_app_id: Option<String> = match &manager.current_app_id {
            Some(id) => Some(id.clone()),
            None => None,
        };
        Self { profiles, current_app_id, global_default: manager.global_default.duplicate() }
    }
}

} // verus!
