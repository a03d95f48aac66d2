//! Per-class patrol loadout cycles, gait limits and action demos.
//!
//! Each crew role maps to an asset slug, a loadout Tab cycle and a patrol
//! action (slash / shoot / play). Gait rules gate sprinting per loadout.

use vstd::prelude::*;
use crate::crew::LabActionDemo;
use crate::direction::EightDirection;
use crate::roles::CharacterRole;
use crate::sheets::{CharacterAnimationCatalog, CharacterAnimationCatalogs, LoadoutAnimationSet};
use crate::text::{owned, str_eq};

verus! {

/// Locomotion limits for a specific loadout folder.
#[derive(Clone, Copy, Debug, PartialEq, Eq, Structural)]
pub struct LoadoutGaitRules {
    pub can_run: bool,
}

impl Default for LoadoutGaitRules {
    fn default() -> (r: Self)
        ensures
            r.can_run,
    {
        LoadoutGaitRules { can_run: true }
    }
}

/// Running is ruled out only for the musician holding the drum.
pub open spec fn spec_can_run(class: Seq<char>, loadout: Seq<char>) -> bool {
    !(class == "musician"@ && loadout == "drum_hold"@)
}

/// Gait limits of a class holding a loadout.
pub fn gait_rules_for(class: &str, loadout: &str) -> (r: LoadoutGaitRules)
    ensures
        r.can_run == spec_can_run(class@, loadout@),
{
    if str_eq(class, "musician") && str_eq(loadout, "drum_hold") {
        LoadoutGaitRules { can_run: false }
    } else {
        LoadoutGaitRules::default()
    }
}

/// Patrol profile of a class: loadout Tab cycle, starting facing and demo action.
pub struct ClassPatrolConfig {
    pub loadouts: Vec<&'static str>,
    pub start_facing: EightDirection,
    pub action_demo: LabActionDemo,
}

/// The loadout Tab cycle of each role (the first entry is the default).
pub open spec fn role_loadouts(role: CharacterRole) -> Seq<Seq<char>> {
    match role {
        CharacterRole::SwordsmanBoarder => seq!["sword"@, "empty"@],
        CharacterRole::GunnerMarksman => seq!["empty"@, "pistol"@, "rifle"@],
        CharacterRole::Helmsman => seq!["empty"@, "gun-and-rope"@, "dual-axe"@],
        CharacterRole::Navigator => seq!["empty"@, "eyeglass-and-compass"@],
        CharacterRole::DoctorSurgeon => seq!["empty"@, "needle"@, "saw"@, "saw-and-needle"@],
        CharacterRole::Shipwright => seq!["empty"@, "hammer-and-box"@],
        CharacterRole::CookQuartermaster => seq!["empty-hands"@, "knife"@, "spoon-and-stew"@],
        CharacterRole::MusicianBosun => seq![
            "empty_hands"@,
            "flute"@,
            "guitar"@,
            "trumpet"@,
            "drum_hold"@,
            "drum_on_back"@,
        ],
        CharacterRole::HistorianScholar => seq!["amulet-shovel"@, "amulet"@, "pickaxe"@],
    }
}

/// The facing each role starts its patrol with.
pub open spec fn role_start_facing(role: CharacterRole) -> EightDirection {
    match role {
        CharacterRole::SwordsmanBoarder => EightDirection::North,
        CharacterRole::GunnerMarksman => EightDirection::East,
        CharacterRole::Helmsman => EightDirection::South,
        CharacterRole::Navigator => EightDirection::NorthEast,
        CharacterRole::DoctorSurgeon => EightDirection::West,
        CharacterRole::Shipwright => EightDirection::SouthWest,
        CharacterRole::CookQuartermaster => EightDirection::SouthEast,
        CharacterRole::MusicianBosun => EightDirection::South,
        CharacterRole::HistorianScholar => EightDirection::NorthWest,
    }
}

/// The demo action of each role.
pub open spec fn role_action_demo(role: CharacterRole) -> LabActionDemo {
    match role {
        CharacterRole::SwordsmanBoarder => LabActionDemo::Slash,
        CharacterRole::GunnerMarksman => LabActionDemo::Shoot,
        CharacterRole::Helmsman => LabActionDemo::Slash,
        CharacterRole::Navigator => LabActionDemo::Play,
        CharacterRole::DoctorSurgeon => LabActionDemo::Play,
        CharacterRole::Shipwright => LabActionDemo::Slash,
        CharacterRole::CookQuartermaster => LabActionDemo::Play,
        CharacterRole::MusicianBosun => LabActionDemo::Play,
        CharacterRole::HistorianScholar => LabActionDemo::Slash,
    }
}

/// Views of a list of string slices.
pub open spec fn str_views(s: Seq<&str>) -> Seq<Seq<char>> {
    s.map_values(|x: &str| x@)
}

/// Views of a list of owned strings.
pub open spec fn string_views(s: Seq<String>) -> Seq<Seq<char>> {
    s.map_values(|x: String| x@)
}

/// Patrol profile of a role.
pub fn config_for(role: CharacterRole) -> (r: ClassPatrolConfig)
    ensures
        str_views(r.loadouts@) == role_loadouts(role),
        r.start_facing == role_start_facing(role),
        r.action_demo == role_action_demo(role),
{
    let r = match role {
        CharacterRole::SwordsmanBoarder => ClassPatrolConfig {
            loadouts: vec!["sword", "empty"],
            start_facing: EightDirection::North,
            action_demo: LabActionDemo::Slash,
        },
        CharacterRole::GunnerMarksman => ClassPatrolConfig {
            loadouts: vec!["empty", "pistol", "rifle"],
            start_facing: EightDirection::East,
            action_demo: LabActionDemo::Shoot,
        },
        CharacterRole::Helmsman => ClassPatrolConfig {
            loadouts: vec!["empty", "gun-and-rope", "dual-axe"],
            start_facing: EightDirection::South,
            action_demo: LabActionDemo::Slash,
        },
        CharacterRole::Navigator => ClassPatrolConfig {
            loadouts: vec!["empty", "eyeglass-and-compass"],
            start_facing: EightDirection::NorthEast,
            action_demo: LabActionDemo::Play,
        },
        CharacterRole::DoctorSurgeon => ClassPatrolConfig {
            loadouts: vec!["empty", "needle", "saw", "saw-and-needle"],
            start_facing: EightDirection::West,
            action_demo: LabActionDemo::Play,
        },
        CharacterRole::Shipwright => ClassPatrolConfig {
            loadouts: vec!["empty", "hammer-and-box"],
            start_facing: EightDirection::SouthWest,
            action_demo: LabActionDemo::Slash,
        },
        CharacterRole::CookQuartermaster => ClassPatrolConfig {
            loadouts: vec!["empty-hands", "knife", "spoon-and-stew"],
            start_facing: EightDirection::SouthEast,
            action_demo: LabActionDemo::Play,
        },
        CharacterRole::MusicianBosun => ClassPatrolConfig {
            loadouts: vec!["empty_hands", "flute", "guitar", "trumpet", "drum_hold", "drum_on_back"],
            start_facing: EightDirection::South,
            action_demo: LabActionDemo::Play,
        },
        CharacterRole::HistorianScholar => ClassPatrolConfig {
            loadouts: vec!["amulet-shovel", "amulet", "pickaxe"],
            start_facing: EightDirection::NorthWest,
            action_demo: LabActionDemo::Slash,
        },
    };
    assert(str_views(r.loadouts@) =~= role_loadouts(role));
    r
}

/// Demo action of a role.
pub fn action_demo_for_role(role: CharacterRole) -> (r: LabActionDemo)
    ensures
        r == role_action_demo(role),
{
    config_for(role).action_demo
}

/// Whether a loadout supports the requested locomotion.
pub open spec fn spec_can_locomote(
    class: Seq<char>,
    loadout: Seq<char>,
    set: LoadoutAnimationSet,
    want_run: bool,
) -> bool {
    if want_run {
        set.runnable() && spec_can_run(class, loadout)
    } else {
        set.walkable()
    }
}

/// Running needs running art and a gait rule that allows it; walking needs
/// walking art (or running art standing in).
pub fn loadout_can_locomote(
    class: &str,
    loadout: &str,
    set: &LoadoutAnimationSet,
    want_run: bool,
) -> (r: bool)
    ensures
        r == spec_can_locomote(class@, loadout@, *set, want_run),
{
    if want_run {
        set.can_run() && gait_rules_for(class, loadout).can_run
    } else {
        set.can_walk()
    }
}

/// Whether the catalog holds loadout `id` and it supports the locomotion.
pub open spec fn loadout_supports(
    class: Seq<char>,
    catalog: CharacterAnimationCatalog,
    id: Seq<char>,
    want_run: bool,
) -> bool {
    match catalog.spec_loadout(id) {
        Some(set) => spec_can_locomote(class, id, set, want_run),
        None => false,
    }
}

/// Position of the first entry of `cycle` that supports the locomotion, or -1.
pub open spec fn first_supported(
    class: Seq<char>,
    cycle: Seq<Seq<char>>,
    catalog: CharacterAnimationCatalog,
    want_run: bool,
) -> int
    decreases cycle.len(),
{
    if cycle.len() == 0 {
        -1
    } else if loadout_supports(class, catalog, cycle[0], want_run) {
        0
    } else {
        let rest = first_supported(class, cycle.drop_first(), catalog, want_run);
        if rest < 0 { -1 } else { rest + 1 }
    }
}

pub proof fn lemma_first_supported(
    class: Seq<char>,
    cycle: Seq<Seq<char>>,
    catalog: CharacterAnimationCatalog,
    want_run: bool,
)
    ensures
        -1 <= first_supported(class, cycle, catalog, want_run) < cycle.len(),
        first_supported(class, cycle, catalog, want_run) >= 0 ==> loadout_supports(
            class,
            catalog,
            cycle[first_supported(class, cycle, catalog, want_run)],
            want_run,
        ),
        forall|k: int|
            0 <= k < cycle.len() && (first_supported(class, cycle, catalog, want_run) < 0 || k
                < first_supported(class, cycle, catalog, want_run)) ==> !loadout_supports(
                class,
                catalog,
                #[trigger] cycle[k],
                want_run,
            ),
    decreases cycle.len(),
{
    if cycle.len() > 0 && !loadout_supports(class, catalog, cycle[0], want_run) {
        lemma_first_supported(class, cycle.drop_first(), catalog, want_run);
        assert forall|k: int| 1 <= k < cycle.len() implies cycle[k] == cycle.drop_first()[k - 1] by {}
    }
}

fn supports(
    class: &str,
    catalog: &CharacterAnimationCatalog,
    id: &str,
    want_run: bool,
) -> (r: bool)
    ensures
        r == loadout_supports(class@, *catalog, id@, want_run),
{
    match catalog.loadout(id) {
        Some(set) => loadout_can_locomote(class, id, set, want_run),
        None => false,
    }
}

/// Pick a loadout in `cycle` that supports walk or run locomotion: `None`
/// when the current one already does, else the first entry of the cycle that
/// does (or `None` if no entry does).
pub fn pick_loadout_for_locomotion(
    class: &str,
    cycle: &Vec<String>,
    catalog: &CharacterAnimationCatalog,
    want_run: bool,
    current: &str,
) -> (r: Option<String>)
    ensures
        ({
            let views = string_views(cycle@);
            let i = first_supported(class@, views, *catalog, want_run);
            if loadout_supports(class@, *catalog, current@, want_run) {
                r is None
            } else if i < 0 {
                r is None
            } else {
                r is Some && r.unwrap()@ == views[i]
            }
        }),
{
    if supports(class, catalog, current, want_run) {
        return None;
    }
    let ghost views = string_views(cycle@);
    proof { lemma_first_supported(class@, views, *catalog, want_run); }
    let mut i: usize = 0;
    while i < cycle.len()
        invariant
            i <= cycle.len(),
            views == string_views(cycle@),
            views.len() == cycle@.len(),
            !loadout_supports(class@, *catalog, current@, want_run),
            forall|k: int| 0 <= k < i ==> !loadout_supports(class@, *catalog, #[trigger] views[k], want_run),
            -1 <= first_supported(class@, views, *catalog, want_run) < views.len(),
            first_supported(class@, views, *catalog, want_run) >= 0 ==> loadout_supports(
                class@,
                *catalog,
                views[first_supported(class@, views, *catalog, want_run)],
                want_run,
            ),
            forall|k: int|
                0 <= k < views.len() && (first_supported(class@, views, *catalog, want_run) < 0 || k
                    < first_supported(class@, views, *catalog, want_run)) ==> !loadout_supports(
                    class@,
                    *catalog,
                    #[trigger] views[k],
                    want_run,
                ),
        decreases cycle.len() - i,
    {
        assert(views[i as int] == cycle@[i as int]@);
        if supports(class, catalog, cycle[i].as_str(), want_run) {
            let r = cycle[i].clone();
            proof {
                let f = first_supported(class@, views, *catalog, want_run);
                if f >= 0 && f < i {
                    assert(!loadout_supports(class@, *catalog, views[f], want_run));
                }
                assert(loadout_supports(class@, *catalog, views[i as int], want_run));
                assert(f == i);
                assert(r@ == views[i as int]);
            }
            return Some(r);
        }
        i = i + 1;
    }
    proof {
        let f = first_supported(class@, views, *catalog, want_run);
        if f >= 0 {
            assert(!loadout_supports(class@, *catalog, views[f], want_run));
        }
    }
    None
}

/// Position of the first entry equal to `x`, or -1.
pub open spec fn first_position(s: Seq<Seq<char>>, x: Seq<char>) -> int
    decreases s.len(),
{
    if s.len() == 0 {
        -1
    } else if s[0] == x {
        0
    } else {
        let rest = first_position(s.drop_first(), x);
        if rest < 0 { -1 } else { rest + 1 }
    }
}

proof fn lemma_first_position(s: Seq<Seq<char>>, x: Seq<char>)
    ensures
        -1 <= first_position(s, x) < s.len(),
        first_position(s, x) >= 0 ==> s[first_position(s, x)] == x,
        forall|k: int| 0 <= k < s.len() && (first_position(s, x) < 0 || k < first_position(s, x)) ==> #[trigger] s[k] != x,
    decreases s.len(),
{
    if s.len() > 0 && s[0] != x {
        lemma_first_position(s.drop_first(), x);
        assert forall|k: int| 1 <= k < s.len() implies s[k] == s.drop_first()[k - 1] by {}
    }
}

/// The loadout after `current` in a Tab cycle (from the start when `current`
/// is not in the cycle), wrapping around.
pub open spec fn next_in_cycle(cycle: Seq<Seq<char>>, current: Seq<char>) -> Seq<char> {
    let p = first_position(cycle, current);
    let idx = if p < 0 { 0 } else { p };
    cycle[(idx + 1) % (cycle.len() as int)]
}

/// In a list without repeats, each entry is found at its own position.
proof fn lemma_first_position_distinct(s: Seq<Seq<char>>, k: int)
    requires
        0 <= k < s.len(),
        forall|i: int, j: int| 0 <= i < j < s.len() ==> s[i] != s[j],
    ensures
        first_position(s, s[k]) == k,
{
    lemma_first_position(s, s[k]);
    let p = first_position(s, s[k]);
    if p != k {
        if p < k {
            assert(s[p] == s[k]);
        } else {
            assert(s[k] != s[k]);
        }
    }
}

/// No role repeats a loadout in its Tab cycle.
pub proof fn lemma_role_loadouts_distinct(role: CharacterRole)
    ensures
        forall|i: int, j: int| 0 <= i < j < role_loadouts(role).len() ==> role_loadouts(role)[i] != role_loadouts(role)[j],
{
    reveal_strlit("sword");
    reveal_strlit("empty");
    reveal_strlit("pistol");
    reveal_strlit("rifle");
    reveal_strlit("gun-and-rope");
    reveal_strlit("dual-axe");
    reveal_strlit("eyeglass-and-compass");
    reveal_strlit("needle");
    reveal_strlit("saw");
    reveal_strlit("saw-and-needle");
    reveal_strlit("hammer-and-box");
    reveal_strlit("empty-hands");
    reveal_strlit("knife");
    reveal_strlit("spoon-and-stew");
    reveal_strlit("empty_hands");
    reveal_strlit("flute");
    reveal_strlit("guitar");
    reveal_strlit("trumpet");
    reveal_strlit("drum_hold");
    reveal_strlit("drum_on_back");
    reveal_strlit("amulet-shovel");
    reveal_strlit("amulet");
    reveal_strlit("pickaxe");
    let s = role_loadouts(role);
    assert forall|i: int, j: int| 0 <= i < j < s.len() implies s[i] != s[j] by {
        if s[i] == s[j] {
            assert(s[i].len() == s[j].len());
            assert(s[i][0] == s[j][0]);
            assert(s[i][s[i].len() - 1] == s[j][s[j].len() - 1]);
        }
    }
}

/// Tab walks a role's loadouts in order: from each loadout it reaches the
/// next one of the cycle, and from the last back to the first.
pub proof fn law_tab_steps_in_order(role: CharacterRole, k: int)
    requires
        0 <= k < role_loadouts(role).len(),
    ensures
        next_in_cycle(role_loadouts(role), role_loadouts(role)[k])
            == role_loadouts(role)[(k + 1) % (role_loadouts(role).len() as int)],
{
    lemma_role_loadouts_distinct(role);
    lemma_first_position_distinct(role_loadouts(role), k);
}

/// The loadout held after `presses` Tab presses from `start`.
pub open spec fn after_tabs(role: CharacterRole, start: Seq<char>, presses: nat) -> Seq<char>
    decreases presses,
{
    if presses == 0 {
        start
    } else {
        next_in_cycle(role_loadouts(role), after_tabs(role, start, (presses - 1) as nat))
    }
}

proof fn lemma_after_tabs_position(role: CharacterRole, k0: int, presses: nat)
    requires
        0 <= k0 < role_loadouts(role).len(),
    ensures
        after_tabs(role, role_loadouts(role)[k0], presses)
            == role_loadouts(role)[(k0 + presses) % (role_loadouts(role).len() as int)],
    decreases presses,
{
    let n = role_loadouts(role).len() as int;
    if presses > 0 {
        lemma_after_tabs_position(role, k0, (presses - 1) as nat);
        let m = (k0 + presses - 1) % n;
        assert(0 <= m < n) by (nonlinear_arith)
            requires n > 0, k0 + presses - 1 >= 0, m == (k0 + presses - 1) % n;
        law_tab_steps_in_order(role, m);
        assert((m + 1) % n == (k0 + presses) % n) by (nonlinear_arith)
            requires n > 0, k0 + presses - 1 >= 0, m == (k0 + presses - 1) % n;
    } else {
        assert(k0 % n == k0) by (nonlinear_arith)
            requires n > 0, 0 <= k0 < n;
    }
}

/// Pressing Tab from any loadout of a role visits every loadout of its cycle
/// exactly once and, after as many presses as the cycle is long, is back at
/// the start.
pub proof fn law_tab_cycle_visits_all(role: CharacterRole, k0: int)
    requires
        0 <= k0 < role_loadouts(role).len(),
    ensures
        after_tabs(role, role_loadouts(role)[k0], role_loadouts(role).len()) == role_loadouts(role)[k0],
        forall|a: nat, b: nat| a < b < role_loadouts(role).len() ==> #[trigger] after_tabs(role, role_loadouts(role)[k0], a)
            != #[trigger] after_tabs(role, role_loadouts(role)[k0], b),
        forall|j: int| 0 <= j < role_loadouts(role).len() ==> exists|a: nat| a < role_loadouts(role).len()
            && #[trigger] after_tabs(role, role_loadouts(role)[k0], a) == #[trigger] role_loadouts(role)[j],
{
    let l = role_loadouts(role);
    let n = l.len() as int;
    lemma_role_loadouts_distinct(role);
    lemma_after_tabs_position(role, k0, n as nat);
    assert((k0 + n) % n == k0) by (nonlinear_arith)
        requires n > 0, 0 <= k0 < n;
    assert forall|a: nat, b: nat| a < b < n implies #[trigger] after_tabs(role, l[k0], a) != #[trigger] after_tabs(role, l[k0], b) by {
        lemma_after_tabs_position(role, k0, a);
        lemma_after_tabs_position(role, k0, b);
        let x = (k0 + a) % n;
        let y = (k0 + b) % n;
        assert(0 <= x < n && 0 <= y < n && x != y) by (nonlinear_arith)
            requires n > 0, 0 <= k0 < n, a < b < n, x == (k0 + a) % n, y == (k0 + b) % n;
    }
    assert forall|j: int| 0 <= j < n implies exists|a: nat| a < n && #[trigger] after_tabs(role, l[k0], a) == #[trigger] l[j] by {
        let a: nat = ((j - k0 + n) % n) as nat;
        assert(0 <= (j - k0 + n) % n < n && (k0 + (j - k0 + n) % n) % n == j) by (nonlinear_arith)
            requires n > 0, 0 <= k0 < n, 0 <= j < n;
        lemma_after_tabs_position(role, k0, a);
    }
}

/// Next loadout in the class cycle (Tab).
pub fn next_loadout_in_cycle(role: CharacterRole, current: &str) -> (r: String)
    ensures
        r@ == next_in_cycle(role_loadouts(role), current@),
{
    let loadouts = config_for(role).loadouts;
    proof {
        lemma_role_loadouts_len(role);
    }
    let idx = match position_of(&loadouts, current) {
        Some(p) => p,
        None => 0,
    };
    let next = (idx + 1) % loadouts.len();
    owned(loadouts[next])
}

/// Position of the first entry equal to `x`.
pub fn position_of(list: &Vec<&str>, x: &str) -> (r: Option<usize>)
    ensures
        match r {
            Some(i) => i as int == first_position(str_views(list@), x@) && i < list@.len(),
            None => first_position(str_views(list@), x@) < 0,
        },
{
    let ghost views = str_views(list@);
    proof { lemma_first_position(views, x@); }
    let mut i: usize = 0;
    while i < list.len()
        invariant
            i <= list.len(),
            views == str_views(list@),
            views.len() == list@.len(),
            forall|k: int| 0 <= k < i ==> #[trigger] views[k] != x@,
            -1 <= first_position(views, x@) < views.len(),
            first_position(views, x@) >= 0 ==> views[first_position(views, x@)] == x@,
            forall|k: int| 0 <= k < views.len() && (first_position(views, x@) < 0 || k < first_position(views, x@)) ==> #[trigger] views[k] != x@,
        decreases list.len() - i,
    {
        if str_eq(list[i], x) {
            proof {
                let f = first_position(views, x@);
                if f >= 0 && f < i {
                    assert(views[f] != x@);
                }
                assert(views[i as int] == x@);
            }
            return Some(i);
        }
        i = i + 1;
    }
    proof {
        let f = first_position(views, x@);
        if f >= 0 {
            assert(views[f] != x@);
        }
    }
    None
}

proof fn lemma_role_loadouts_len(role: CharacterRole)
    ensures
        2 <= role_loadouts(role).len() <= 6,
{
}

/// Bare-hands / empty loadout id of a role (Q).
pub open spec fn role_bare_hands(role: CharacterRole) -> Seq<char> {
    match role {
        CharacterRole::CookQuartermaster => "empty-hands"@,
        CharacterRole::MusicianBosun => "empty_hands"@,
        CharacterRole::HistorianScholar => "amulet"@,
        _ => "empty"@,
    }
}

/// Bare-hands / empty loadout id for Q.
pub fn bare_hands_loadout_for_role(role: CharacterRole) -> (r: &'static str)
    ensures
        r@ == role_bare_hands(role),
{
    match role {
        CharacterRole::CookQuartermaster => "empty-hands",
        CharacterRole::MusicianBosun => "empty_hands",
        CharacterRole::HistorianScholar => "amulet",
        _ => "empty",
    }
}

/// Whether a class holding a loadout has an action clip (slash / shoot / play).
pub open spec fn spec_can_attack(catalogs: CharacterAnimationCatalogs, class: Seq<char>, loadout: Seq<char>) -> bool {
    match catalogs.spec_catalog(class) {
        Some(c) => match c.spec_loadout(loadout) {
            Some(set) => set.slashing.ready(),
            None => false,
        },
        None => false,
    }
}

/// Whether the current loadout has action sheets (slash / shoot / play).
pub fn loadout_can_attack(
    catalogs: &CharacterAnimationCatalogs,
    class: &str,
    loadout: &str,
) -> (r: bool)
    ensures
        r == spec_can_attack(*catalogs, class@, loadout@),
{
    match catalogs.catalog(class) {
        Some(c) => match c.loadout(loadout) {
            Some(set) => set.slashing.is_ready(),
            None => false,
        },
        None => false,
    }
}

} // verus!
