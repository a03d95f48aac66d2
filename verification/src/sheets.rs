//! Per-class animation catalogs: which eight-direction sheets each loadout
//! has, how many frames each facing holds and how long each frame lasts.
//! Texture and atlas handles live with the renderer; this model keeps the
//! frame data the animation rules read.

use vstd::prelude::*;
use crate::text::{owned, str_eq};

verus! {

/// Frame data of one eight-direction animation clip.
#[derive(Clone, Debug)]
pub struct DirectionSheetSet {
    /// Per-facing frame durations in milliseconds.
    pub durations_ms: [Vec<u32>; 8],
    /// Per-facing frame counts (0 = no sheet for that facing).
    pub frame_counts: [usize; 8],
}

impl Default for DirectionSheetSet {
    fn default() -> (r: Self)
        ensures
            forall|i: int| 0 <= i < 8 ==> r.frame_counts@[i] == 0 && r.durations_ms@[i]@.len() == 0,
    {
        DirectionSheetSet {
            durations_ms: [
                Vec::new(),
                Vec::new(),
                Vec::new(),
                Vec::new(),
                Vec::new(),
                Vec::new(),
                Vec::new(),
                Vec::new(),
            ],
            frame_counts: [0, 0, 0, 0, 0, 0, 0, 0],
        }
    }
}

impl DirectionSheetSet {
    /// A clip is usable once any facing has frames.
    pub open spec fn ready(&self) -> bool {
        exists|i: int| 0 <= i < 8 && #[trigger] self.frame_counts@[i] > 0
    }

    /// Whether any facing has frames.
    pub fn is_ready(&self) -> (r: bool)
        ensures
            r == self.ready(),
    {
        let mut i: usize = 0;
        while i < 8
            invariant
                i <= 8,
                forall|k: int| 0 <= k < i ==> self.frame_counts@[k] == 0,
            decreases 8 - i,
        {
            if self.frame_counts[i] > 0 {
                return true;
            }
            i = i + 1;
        }
        false
    }
}

/// One loadout folder (`empty`, `sword`, `gun-and-rope`, ...).
#[derive(Clone, Debug)]
pub struct LoadoutAnimationSet {
    pub idle: DirectionSheetSet,
    pub walking: DirectionSheetSet,
    pub running: DirectionSheetSet,
    pub slashing: DirectionSheetSet,
    pub night_idle: DirectionSheetSet,
    /// When walking art is missing but running exists, walking plays the
    /// running clips.
    pub walk_uses_run_anim: bool,
}

impl Default for LoadoutAnimationSet {
    fn default() -> (r: Self)
        ensures
            !r.idle.ready(),
            !r.walking.ready(),
            !r.running.ready(),
            !r.slashing.ready(),
            !r.night_idle.ready(),
            !r.walk_uses_run_anim,
    {
        LoadoutAnimationSet {
            idle: DirectionSheetSet::default(),
            walking: DirectionSheetSet::default(),
            running: DirectionSheetSet::default(),
            slashing: DirectionSheetSet::default(),
            night_idle: DirectionSheetSet::default(),
            walk_uses_run_anim: false,
        }
    }
}

impl LoadoutAnimationSet {
    pub open spec fn walkable(&self) -> bool {
        self.walking.ready() || self.walk_uses_run_anim || self.running.ready()
    }

    pub open spec fn runnable(&self) -> bool {
        self.running.ready()
    }

    /// Walking is possible with walking art, or with running art standing in.
    pub fn can_walk(&self) -> (r: bool)
        ensures
            r == self.walkable(),
    {
        self.walking.is_ready() || self.walk_uses_run_anim || self.running.is_ready()
    }

    /// Running needs running art.
    pub fn can_run(&self) -> (r: bool)
        ensures
            r == self.runnable(),
    {
        self.running.is_ready()
    }

    /// Whether an idle, walking or running clip is loaded.
    pub fn has_locomotion_art(&self) -> (r: bool)
        ensures
            r == (self.idle.ready() || self.walking.ready() || self.running.ready()),
    {
        self.idle.is_ready() || self.walking.is_ready() || self.running.is_ready()
    }
}

/// A loadout id with its clips.
#[derive(Clone, Debug)]
pub struct LoadoutEntry {
    pub id: String,
    pub animations: LoadoutAnimationSet,
}

/// Position of the first entry named `id`, or -1.
pub open spec fn first_entry_index(entries: Seq<LoadoutEntry>, id: Seq<char>) -> int
    decreases entries.len(),
{
    if entries.len() == 0 {
        -1
    } else if entries[0].id@ == id {
        0
    } else {
        let rest = first_entry_index(entries.drop_first(), id);
        if rest < 0 { -1 } else { rest + 1 }
    }
}

pub proof fn lemma_first_entry_index(entries: Seq<LoadoutEntry>, id: Seq<char>)
    ensures
        -1 <= first_entry_index(entries, id) < entries.len(),
        first_entry_index(entries, id) >= 0 ==> entries[first_entry_index(entries, id)].id@ == id,
        first_entry_index(entries, id) >= 0 ==> forall|k: int|
            0 <= k < first_entry_index(entries, id) ==> entries[k].id@ != id,
        first_entry_index(entries, id) < 0 ==> forall|k: int|
            0 <= k < entries.len() ==> entries[k].id@ != id,
    decreases entries.len(),
{
    if entries.len() > 0 && entries[0].id@ != id {
        lemma_first_entry_index(entries.drop_first(), id);
        assert forall|k: int| 1 <= k < entries.len() implies entries[k] == entries.drop_first()[k - 1] by {}
    }
}

/// The clips of the first entry named `id`.
pub open spec fn find_loadout(entries: Seq<LoadoutEntry>, id: Seq<char>) -> Option<LoadoutAnimationSet> {
    let i = first_entry_index(entries, id);
    if i < 0 { None } else { Some(entries[i].animations) }
}

/// Look up the first entry named `id`.
pub fn find_entry(entries: &Vec<LoadoutEntry>, id: &str) -> (r: Option<usize>)
    ensures
        match r {
            Some(i) => i as int == first_entry_index(entries@, id@) && i < entries@.len(),
            None => first_entry_index(entries@, id@) < 0,
        },
{
    proof { lemma_first_entry_index(entries@, id@); }
    let mut i: usize = 0;
    while i < entries.len()
        invariant
            i <= entries.len(),
            forall|k: int| 0 <= k < i ==> entries@[k].id@ != id@,
            -1 <= first_entry_index(entries@, id@) < entries@.len(),
            first_entry_index(entries@, id@) >= 0 ==> entries@[first_entry_index(entries@, id@)].id@ == id@,
            first_entry_index(entries@, id@) >= 0 ==> forall|k: int|
                0 <= k < first_entry_index(entries@, id@) ==> entries@[k].id@ != id@,
            first_entry_index(entries@, id@) < 0 ==> forall|k: int|
                0 <= k < entries@.len() ==> entries@[k].id@ != id@,
        decreases entries.len() - i,
    {
        if str_eq(entries[i].id.as_str(), id) {
            return Some(i);
        }
        i = i + 1;
    }
    None
}

/// All runtime animation data for one character class.
#[derive(Clone, Debug)]
pub struct CharacterAnimationCatalog {
    pub loadouts: Vec<LoadoutEntry>,
    /// Set once the catalog was built from loaded entries.
    pub loaded: bool,
}

impl Default for CharacterAnimationCatalog {
    fn default() -> (r: Self)
        ensures
            r.loadouts@.len() == 0,
            !r.loaded_flag(),
    {
        CharacterAnimationCatalog { loadouts: Vec::new(), loaded: false }
    }
}

impl CharacterAnimationCatalog {
    pub open spec fn loaded_flag(&self) -> bool {
        self.loaded
    }

    /// A loaded catalog over the given entries.
    pub fn from_entries(loadouts: Vec<LoadoutEntry>) -> (r: Self)
        ensures
            r.loadouts@ == loadouts@,
            r.loaded_flag(),
    {
        CharacterAnimationCatalog { loadouts, loaded: true }
    }

    /// Whether the catalog was built from loaded entries.
    pub fn is_loaded(&self) -> (r: bool)
        ensures
            r == self.loaded_flag(),
    {
        self.loaded
    }

    pub open spec fn spec_loadout(&self, id: Seq<char>) -> Option<LoadoutAnimationSet> {
        find_loadout(self.loadouts@, id)
    }

    /// Clips of the loadout named `id` (the first such entry).
    pub fn loadout(&self, id: &str) -> (r: Option<&LoadoutAnimationSet>)
        ensures
            match r {
                Some(set) => self.spec_loadout(id@) == Some(*set),
                None => self.spec_loadout(id@) is None,
            },
    {
        match find_entry(&self.loadouts, id) {
            Some(i) => Some(&self.loadouts[i].animations),
            None => None,
        }
    }

    /// Clips of the first loadout (the class default).
    pub fn default_loadout(&self) -> (r: Option<&LoadoutAnimationSet>)
        ensures
            match r {
                Some(set) => self.loadouts@.len() > 0 && *set == self.loadouts@[0].animations,
                None => self.loadouts@.len() == 0,
            },
    {
        if self.loadouts.len() == 0 {
            None
        } else {
            Some(&self.loadouts[0].animations)
        }
    }

    /// A loadout is usable for locomotion once it has idle, walking or
    /// running art; otherwise it must still be loaded.
    pub fn needs_load(&self, id: &str) -> (r: bool)
        ensures
            r == match self.spec_loadout(id@) {
                Some(set) => !(set.idle.ready() || set.walking.ready() || set.running.ready()),
                None => true,
            },
    {
        match self.loadout(id) {
            Some(set) => !set.has_locomotion_art(),
            None => true,
        }
    }

    /// Store freshly loaded clips under `id`: replace the first entry with
    /// that id, or append a new entry.
    pub fn store_loadout(&mut self, id: &str, animations: LoadoutAnimationSet)
        ensures
            first_entry_index(old(self).loadouts@, id@) >= 0 ==> final(self).loadouts@ == old(self).loadouts@.update(
                first_entry_index(old(self).loadouts@, id@),
                LoadoutEntry { id: old(self).loadouts@[first_entry_index(old(self).loadouts@, id@)].id, animations },
            ),
            first_entry_index(old(self).loadouts@, id@) < 0 ==> final(self).loadouts@.len() == old(self).loadouts@.len() + 1
                && final(self).loadouts@.drop_last() == old(self).loadouts@
                && final(self).loadouts@.last().id@ == id@
                && final(self).loadouts@.last().animations == animations,
            final(self).loaded_flag() == old(self).loaded_flag(),
            final(self).spec_loadout(id@) == Some(animations),
    {
        proof { lemma_first_entry_index(self.loadouts@, id@); }
        match find_entry(&self.loadouts, id) {
            Some(i) => {
                let old_id = self.loadouts[i].id.clone();
                let ghost before = self.loadouts@;
                self.loadouts.set(i, LoadoutEntry { id: old_id, animations });
                proof {
                    lemma_entry_update_keeps_first(before, i as int, id@, self.loadouts@);
                }
            },
            None => {
                let ghost before = self.loadouts@;
                self.loadouts.push(LoadoutEntry { id: owned(id), animations });
                proof {
                    lemma_entry_push_first(before, self.loadouts@, id@);
                }
            },
        }
    }
}

proof fn lemma_entry_update_keeps_first(before: Seq<LoadoutEntry>, i: int, id: Seq<char>, after: Seq<LoadoutEntry>)
    requires
        0 <= i < before.len(),
        i == first_entry_index(before, id),
        after.len() == before.len(),
        after[i].id@ == before[i].id@,
        forall|k: int| 0 <= k < before.len() && k != i ==> after[k] == before[k],
    ensures
        first_entry_index(after, id) == i,
    decreases before.len(),
{
    lemma_first_entry_index(before, id);
    if i > 0 {
        assert(before[0].id@ != id);
        assert(after[0] == before[0]);
        lemma_entry_update_keeps_first(before.drop_first(), i - 1, id, after.drop_first());
    }
}

proof fn lemma_entry_push_first(before: Seq<LoadoutEntry>, after: Seq<LoadoutEntry>, id: Seq<char>)
    requires
        first_entry_index(before, id) < 0,
        after.len() == before.len() + 1,
        forall|k: int| 0 <= k < before.len() ==> after[k] == before[k],
        after[before.len() as int].id@ == id,
    ensures
        first_entry_index(after, id) == before.len(),
    decreases before.len(),
{
    lemma_first_entry_index(before, id);
    if before.len() > 0 {
        assert(after[0] == before[0]);
        lemma_entry_push_first(before.drop_first(), after.drop_first(), id);
    }
}

/// A class name with its catalog.
#[derive(Clone, Debug)]
pub struct ClassCatalogEntry {
    pub class: String,
    pub catalog: CharacterAnimationCatalog,
}

/// Position of the entry for `class`, or -1.
pub open spec fn class_index(entries: Seq<ClassCatalogEntry>, class: Seq<char>) -> int
    decreases entries.len(),
{
    if entries.len() == 0 {
        -1
    } else if entries[0].class@ == class {
        0
    } else {
        let rest = class_index(entries.drop_first(), class);
        if rest < 0 { -1 } else { rest + 1 }
    }
}

pub proof fn lemma_class_index(entries: Seq<ClassCatalogEntry>, class: Seq<char>)
    ensures
        -1 <= class_index(entries, class) < entries.len(),
        class_index(entries, class) >= 0 ==> entries[class_index(entries, class)].class@ == class,
        class_index(entries, class) >= 0 ==> forall|k: int|
            0 <= k < class_index(entries, class) ==> entries[k].class@ != class,
        class_index(entries, class) < 0 ==> forall|k: int|
            0 <= k < entries.len() ==> entries[k].class@ != class,
    decreases entries.len(),
{
    if entries.len() > 0 && entries[0].class@ != class {
        lemma_class_index(entries.drop_first(), class);
        assert forall|k: int| 1 <= k < entries.len() implies entries[k] == entries.drop_first()[k - 1] by {}
    }
}

/// All character animation catalogs of the lab, one per class name.
#[derive(Clone, Debug)]
pub struct CharacterAnimationCatalogs {
    pub by_class: Vec<ClassCatalogEntry>,
}

impl Default for CharacterAnimationCatalogs {
    fn default() -> (r: Self)
        ensures
            r.by_class@.len() == 0,
    {
        CharacterAnimationCatalogs { by_class: Vec::new() }
    }
}

impl CharacterAnimationCatalogs {
    /// The catalog registered for `class`.
    pub open spec fn spec_catalog(&self, class: Seq<char>) -> Option<CharacterAnimationCatalog> {
        let i = class_index(self.by_class@, class);
        if i < 0 { None } else { Some(self.by_class@[i].catalog) }
    }

    fn find_class(&self, class: &str) -> (r: Option<usize>)
        ensures
            match r {
                Some(i) => i as int == class_index(self.by_class@, class@) && i < self.by_class@.len(),
                None => class_index(self.by_class@, class@) < 0,
            },
    {
        proof { lemma_class_index(self.by_class@, class@); }
        let mut i: usize = 0;
        while i < self.by_class.len()
            invariant
                i <= self.by_class.len(),
                forall|k: int| 0 <= k < i ==> self.by_class@[k].class@ != class@,
                -1 <= class_index(self.by_class@, class@) < self.by_class@.len(),
                class_index(self.by_class@, class@) >= 0 ==> self.by_class@[class_index(self.by_class@, class@)].class@ == class@,
                class_index(self.by_class@, class@) >= 0 ==> forall|k: int|
                    0 <= k < class_index(self.by_class@, class@) ==> self.by_class@[k].class@ != class@,
                class_index(self.by_class@, class@) < 0 ==> forall|k: int|
                    0 <= k < self.by_class@.len() ==> self.by_class@[k].class@ != class@,
            decreases self.by_class.len() - i,
        {
            if str_eq(self.by_class[i].class.as_str(), class) {
                return Some(i);
            }
            i = i + 1;
        }
        None
    }

    /// Register `catalog` for `class`, replacing any earlier one.
    pub fn insert(&mut self, class: &str, catalog: CharacterAnimationCatalog)
        ensures
            final(self).spec_catalog(class@) == Some(catalog),
            forall|c: Seq<char>| c != class@ ==> #[trigger] final(self).spec_catalog(c) == old(self).spec_catalog(c),
    {
        let ghost before = self.by_class@;
        proof { lemma_class_index(before, class@); }
        match self.find_class(class) {
            Some(i) => {
                let name = self.by_class[i].class.clone();
                self.by_class.set(i, ClassCatalogEntry { class: name, catalog });
                proof {
                    lemma_class_update(before, i as int, self.by_class@, class@);
                }
            },
            None => {
                self.by_class.push(ClassCatalogEntry { class: owned(class), catalog });
                proof {
                    lemma_class_push(before, self.by_class@, class@);
                }
            },
        }
        proof {
            assert forall|c: Seq<char>| c != class@ implies #[trigger] self.spec_catalog(c) == old(self).spec_catalog(c) by {
                lemma_class_index(before, c);
                lemma_class_index(self.by_class@, c);
            }
        }
    }

    /// The catalog registered for `class`.
    pub fn catalog(&self, class: &str) -> (r: Option<&CharacterAnimationCatalog>)
        ensures
            match r {
                Some(c) => self.spec_catalog(class@) == Some(*c),
                None => self.spec_catalog(class@) is None,
            },
    {
        match self.find_class(class) {
            Some(i) => Some(&self.by_class[i].catalog),
            None => None,
        }
    }

    /// Store freshly loaded clips for `loadout` in the catalog of `class`
    /// (nothing happens when the class has no catalog).
    pub fn store_class_loadout(&mut self, class: &str, loadout: &str, animations: LoadoutAnimationSet)
        ensures
            match old(self).spec_catalog(class@) {
                Some(c) => final(self).spec_catalog(class@) is Some
                    && final(self).spec_catalog(class@).unwrap().spec_loadout(loadout@) == Some(animations),
                None => final(self).by_class@ == old(self).by_class@,
            },
            forall|c: Seq<char>| c != class@ ==> #[trigger] final(self).spec_catalog(c) == old(self).spec_catalog(c),
    {
        let ghost before = self.by_class@;
        proof { lemma_class_index(before, class@); }
        match self.find_class(class) {
            Some(i) => {
                let mut entry = self.by_class.remove(i);
                assert(entry == before[i as int]);
                entry.catalog.store_loadout(loadout, animations);
                self.by_class.insert(i, entry);
                proof {
                    assert forall|k: int| 0 <= k < before.len() && k != i implies self.by_class@[k] == before[k] by {
                        if k < i {
                        } else {
                        }
                    }
                    lemma_class_update(before, i as int, self.by_class@, class@);
                }
            },
            None => {},
        }
        proof {
            assert forall|c: Seq<char>| c != class@ implies #[trigger] self.spec_catalog(c) == old(self).spec_catalog(c) by {
                lemma_class_index(before, c);
                lemma_class_index(self.by_class@, c);
                let j = class_index(before, c);
                if j >= 0 {
                    assert(before[j].class@ == c);
                    assert(self.by_class@[j] == before[j]);
                }
            }
        }
    }
}

proof fn lemma_class_update(before: Seq<ClassCatalogEntry>, i: int, after: Seq<ClassCatalogEntry>, class: Seq<char>)
    requires
        0 <= i < before.len(),
        i == class_index(before, class),
        after.len() == before.len(),
        after[i].class@ == before[i].class@,
        forall|k: int| 0 <= k < before.len() && k != i ==> after[k] == before[k],
    ensures
        class_index(after, class) == i,
        forall|c: Seq<char>| c != class ==> #[trigger] class_index(after, c) == class_index(before, c),
    decreases before.len(),
{
    lemma_class_index(before, class);
    if i > 0 {
        assert(after[0] == before[0]);
        lemma_class_update(before.drop_first(), i - 1, after.drop_first(), class);
    }
    assert forall|c: Seq<char>| c != class implies #[trigger] class_index(after, c) == class_index(before, c) by {
        lemma_class_index_same(before, after, c, i);
    }
}

proof fn lemma_class_index_same(before: Seq<ClassCatalogEntry>, after: Seq<ClassCatalogEntry>, c: Seq<char>, i: int)
    requires
        0 <= i < before.len(),
        after.len() == before.len(),
        after[i].class@ == before[i].class@,
        forall|k: int| 0 <= k < before.len() && k != i ==> after[k] == before[k],
    ensures
        class_index(after, c) == class_index(before, c),
    decreases before.len(),
{
    if before.len() > 0 {
        assert(after[0].class@ == before[0].class@);
        if before[0].class@ != c {
            if i > 0 {
                lemma_class_index_same(before.drop_first(), after.drop_first(), c, i - 1);
            } else {
                assert(after.drop_first() =~= before.drop_first());
            }
        }
    }
}

proof fn lemma_class_push(before: Seq<ClassCatalogEntry>, after: Seq<ClassCatalogEntry>, class: Seq<char>)
    requires
        class_index(before, class) < 0,
        after.len() == before.len() + 1,
        forall|k: int| 0 <= k < before.len() ==> after[k] == before[k],
        after[before.len() as int].class@ == class,
    ensures
        class_index(after, class) == before.len(),
        forall|c: Seq<char>| c != class ==> #[trigger] class_index(after, c) == class_index(before, c),
    decreases before.len(),
{
    lemma_class_index(before, class);
    if before.len() > 0 {
        assert(after[0] == before[0]);
        lemma_class_push(before.drop_first(), after.drop_first(), class);
    }
    assert forall|c: Seq<char>| c != class implies #[trigger] class_index(after, c) == class_index(before, c) by {
        lemma_class_push_other(before, after, c, class);
    }
}

proof fn lemma_class_push_other(before: Seq<ClassCatalogEntry>, after: Seq<ClassCatalogEntry>, c: Seq<char>, class: Seq<char>)
    requires
        c != class,
        after.len() == before.len() + 1,
        forall|k: int| 0 <= k < before.len() ==> after[k] == before[k],
        after[before.len() as int].class@ == class,
    ensures
        class_index(after, c) == class_index(before, c),
    decreases before.len(),
{
    if before.len() == 0 {
        assert(after.drop_first().len() == 0);
        assert(class_index(after.drop_first(), c) == -1);
    } else {
        assert(after[0] == before[0]);
        lemma_class_push_other(before.drop_first(), after.drop_first(), c, class);
    }
}

} // verus!
