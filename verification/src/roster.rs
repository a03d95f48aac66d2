//! The character roster shown on character select, the creatable classes,
//! and the rules of the character-creation name field.

use vstd::prelude::*;
use crate::roles::CharacterRole;
use crate::text::owned;

verus! {

/// Maximum saved characters.
pub const ROSTER_CAPACITY: usize = 16;

/// Slots shown per roster page.
pub const SLOTS_PER_PAGE: usize = 4;

/// Number of roster pages.
pub const PAGE_COUNT: usize = 4;

/// Longest name, in UTF-8 bytes.
pub const NAME_MAX_LEN: usize = 16;

/// A saved character: name and role.
#[derive(Clone, Debug)]
pub struct SavedCharacter {
    pub name: String,
    pub role: CharacterRole,
}

/// Unicode White_Space, the characters `str::trim` removes.
pub open spec fn is_white_space(c: char) -> bool {
    let u = c as u32;
    (0x9 <= u <= 0xD) || u == 0x20 || u == 0x85 || u == 0xA0 || u == 0x1680 || (0x2000 <= u <= 0x200A) || u == 0x2028
        || u == 0x2029 || u == 0x202F || u == 0x205F || u == 0x3000
}

fn white_space(c: char) -> (r: bool)
    ensures
        r == is_white_space(c),
{
    let u = c as u32;
    (0x9 <= u && u <= 0xD) || u == 0x20 || u == 0x85 || u == 0xA0 || u == 0x1680 || (0x2000 <= u && u <= 0x200A)
        || u == 0x2028 || u == 0x2029 || u == 0x202F || u == 0x205F || u == 0x3000
}

/// ASCII upper-case letters mapped to lower case, other characters kept.
pub open spec fn ascii_lower(c: char) -> char {
    if 'A' <= c <= 'Z' { ((c as u32) + 32) as char } else { c }
}

fn to_ascii_lower(c: char) -> (r: char)
    ensures
        r == ascii_lower(c),
{
    if 'A' <= c && c <= 'Z' {
        let b = (c as u8) + 32;
        b as char
    } else {
        c
    }
}

/// Start of `s` without leading white space.
pub open spec fn trim_start_index(s: Seq<char>) -> int
    decreases s.len(),
{
    if s.len() == 0 || !is_white_space(s[0]) { 0 } else { 1 + trim_start_index(s.drop_first()) }
}

/// `s` without leading and trailing white space.
pub open spec fn trimmed(s: Seq<char>) -> Seq<char>
    decreases s.len(),
{
    if s.len() == 0 {
        s
    } else if is_white_space(s[0]) {
        trimmed(s.drop_first())
    } else if is_white_space(s.last()) {
        trimmed(s.drop_last())
    } else {
        s
    }
}

/// The form under which names are compared: trimmed, ASCII lower case.
pub open spec fn name_key(s: Seq<char>) -> Seq<char> {
    trimmed(s).map_values(|c: char| ascii_lower(c))
}

/// The trimmed part of `s` is empty or starts and ends with non-white space.
proof fn lemma_trimmed_clean(s: Seq<char>)
    ensures
        trimmed(s).len() == 0 || (!is_white_space(trimmed(s)[0]) && !is_white_space(trimmed(s).last())),
    decreases s.len(),
{
    if s.len() > 0 {
        if is_white_space(s[0]) {
            lemma_trimmed_clean(s.drop_first());
        } else if is_white_space(s.last()) {
            lemma_trimmed_clean(s.drop_last());
        }
    }
}

/// Trimming twice trims once.
pub proof fn lemma_trimmed_idempotent(s: Seq<char>)
    ensures
        trimmed(trimmed(s)) == trimmed(s),
        name_key(trimmed(s)) == name_key(s),
{
    lemma_trimmed_clean(s);
}

/// No two saved names are equal once trimmed and ASCII lower-cased.
pub open spec fn names_unique(cs: Seq<SavedCharacter>) -> bool {
    forall|a: int, b: int| 0 <= a < b < cs.len() ==> name_key((#[trigger] cs[a]).name@) != name_key((#[trigger] cs[b]).name@)
}

/// Creating a character keeps the roster's names unique: the new character
/// is saved under the trimmed typed name, which no saved name matched.
pub proof fn law_created_names_stay_unique(cs: Seq<SavedCharacter>, name: Seq<char>, added: SavedCharacter)
    requires
        names_unique(cs),
        !(exists|k: int| 0 <= k < cs.len() && name_key((#[trigger] cs[k]).name@) == name_key(name)),
        added.name@ == trimmed(name),
    ensures
        names_unique(cs.push(added)),
{
    lemma_trimmed_idempotent(name);
    let t = cs.push(added);
    assert forall|a: int, b: int| 0 <= a < b < t.len() implies name_key((#[trigger] t[a]).name@) != name_key((#[trigger] t[b]).name@) by {
        assert(t[a] == cs[a]);
        if b < cs.len() {
            assert(t[b] == cs[b]);
        } else {
            assert(t[b] == added);
        }
    }
}

/// Bounds of the trimmed part of `s`.
proof fn lemma_trimmed_range(s: Seq<char>, a: int, b: int)
    requires
        0 <= a <= b <= s.len(),
        forall|k: int| 0 <= k < a ==> is_white_space(#[trigger] s[k]),
        forall|k: int| b <= k < s.len() ==> is_white_space(#[trigger] s[k]),
        a == b || (!is_white_space(s[a]) && !is_white_space(s[b - 1])),
    ensures
        trimmed(s) == s.subrange(a, b),
    decreases s.len(),
{
    if s.len() == 0 {
        assert(s.subrange(a, b) =~= s);
    } else if a > 0 {
        assert forall|k: int| 0 <= k < a - 1 implies is_white_space(#[trigger] s.drop_first()[k]) by {
            assert(s.drop_first()[k] == s[k + 1]);
        }
        assert forall|k: int| b - 1 <= k < s.len() - 1 implies is_white_space(#[trigger] s.drop_first()[k]) by {
            assert(s.drop_first()[k] == s[k + 1]);
        }
        lemma_trimmed_range(s.drop_first(), a - 1, b - 1);
        assert(s.drop_first().subrange(a - 1, b - 1) =~= s.subrange(a, b));
    } else if b < s.len() {
        if a == b {
            if s.len() > 0 && is_white_space(s[0]) {
                assert forall|k: int| 0 <= k < s.len() - 1 implies is_white_space(#[trigger] s.drop_first()[k]) by {
                    assert(s.drop_first()[k] == s[k + 1]);
                }
                lemma_trimmed_range(s.drop_first(), 0, 0);
                assert(s.drop_first().subrange(0, 0) =~= s.subrange(a, b));
            }
        } else {
            assert forall|k: int| b <= k < s.len() - 1 implies is_white_space(#[trigger] s.drop_last()[k]) by {}
            lemma_trimmed_range(s.drop_last(), a, b);
            assert(s.drop_last().subrange(a, b) =~= s.subrange(a, b));
        }
    } else {
        if a == b {
            assert(s.subrange(a, b) =~= Seq::<char>::empty());
        } else {
            assert(s.subrange(a, b) =~= s);
        }
    }
}

/// Char positions `[a, b)` of the trimmed part of `s`.
fn trim_bounds(s: &str) -> (r: (usize, usize))
    ensures
        r.0 <= r.1 <= s@.len(),
        trimmed(s@) == s@.subrange(r.0 as int, r.1 as int),
{
    let n = s.unicode_len();
    let mut a: usize = 0;
    while a < n && white_space(s.get_char(a))
        invariant
            n == s@.len(),
            a <= n,
            forall|k: int| 0 <= k < a ==> is_white_space(#[trigger] s@[k]),
        decreases n - a,
    {
        a = a + 1;
    }
    let mut b: usize = n;
    while b > a && white_space(s.get_char(b - 1))
        invariant
            n == s@.len(),
            a <= b <= n,
            forall|k: int| 0 <= k < a ==> is_white_space(#[trigger] s@[k]),
            forall|k: int| b <= k < n ==> is_white_space(#[trigger] s@[k]),
            a < n ==> !is_white_space(s@[a as int]),
        decreases b - a,
    {
        b = b - 1;
    }
    proof {
        if a < b {
            assert(!is_white_space(s@[a as int]));
        }
        lemma_trimmed_range(s@, a as int, b as int);
    }
    (a, b)
}

/// Whether two names are equal once trimmed and ASCII lower-cased.
pub fn same_name(x: &str, y: &str) -> (r: bool)
    ensures
        r == (name_key(x@) == name_key(y@)),
{
    let (xa, xb) = trim_bounds(x);
    let (ya, yb) = trim_bounds(y);
    let ghost kx = name_key(x@);
    let ghost ky = name_key(y@);
    if xb - xa != yb - ya {
        assert(kx.len() != ky.len());
        return false;
    }
    let mut k: usize = 0;
    while k < xb - xa
        invariant
            xa <= xb <= x@.len(),
            ya <= yb <= y@.len(),
            xb - xa == yb - ya,
            k <= xb - xa,
            kx == name_key(x@),
            ky == name_key(y@),
            trimmed(x@) == x@.subrange(xa as int, xb as int),
            trimmed(y@) == y@.subrange(ya as int, yb as int),
            forall|t: int| 0 <= t < k ==> kx[t] == ky[t],
        decreases xb - xa - k,
    {
        let cx = to_ascii_lower(x.get_char(xa + k));
        let cy = to_ascii_lower(y.get_char(ya + k));
        if cx != cy {
            assert(kx[k as int] == cx && ky[k as int] == cy);
            return false;
        }
        k = k + 1;
    }
    assert(kx =~= ky);
    true
}

/// Saved characters.
#[derive(Clone, Debug)]
pub struct CharacterRoster {
    pub characters: Vec<SavedCharacter>,
}

impl Default for CharacterRoster {
    fn default() -> (r: Self)
        ensures
            r.characters@.len() == 0,
    {
        CharacterRoster { characters: Vec::new() }
    }
}

impl CharacterRoster {
    /// Room for another character.
    pub fn has_room(&self) -> (r: bool)
        ensures
            r == (self.characters@.len() < 16),
    {
        self.characters.len() < ROSTER_CAPACITY
    }

    /// A saved character already has this name, ignoring surrounding white
    /// space and ASCII case.
    pub fn name_taken(&self, name: &str) -> (r: bool)
        ensures
            r == exists|k: int| 0 <= k < self.characters@.len() && name_key((#[trigger] self.characters@[k]).name@) == name_key(name@),
    {
        let mut k: usize = 0;
        while k < self.characters.len()
            invariant
                k <= self.characters@.len(),
                forall|j: int| 0 <= j < k ==> name_key((#[trigger] self.characters@[j]).name@) != name_key(name@),
            decreases self.characters@.len() - k,
        {
            if same_name(self.characters[k].name.as_str(), name) {
                return true;
            }
            k = k + 1;
        }
        false
    }
}

/// A creatable class: role, display name, description and pose sprite.
#[derive(Clone, Copy, Debug)]
pub struct ClassChoice {
    pub role: CharacterRole,
    pub name: &'static str,
    pub blurb: &'static str,
    pub sprite_path: &'static str,
}

/// Roles offered on the creation screen, in list order.
pub open spec fn choice_roles() -> Seq<CharacterRole> {
    seq![
        CharacterRole::SwordsmanBoarder,
        CharacterRole::GunnerMarksman,
        CharacterRole::Navigator,
        CharacterRole::DoctorSurgeon,
        CharacterRole::Shipwright,
        CharacterRole::CookQuartermaster,
        CharacterRole::HistorianScholar,
    ]
}

/// The creatable classes in list order.
pub fn class_choices() -> (r: Vec<ClassChoice>)
    ensures
        r@.len() == 7,
        forall|i: int| 0 <= i < 7 ==> (#[trigger] r@[i]).role == choice_roles()[i],
{
    let r = vec![
        ClassChoice {
            role: CharacterRole::SwordsmanBoarder,
            name: "Swordsman",
            blurb: "A boarding specialist who excels in close-quarters melee. First over the rail when ships lock together.",
            sprite_path: "sprites/characters/player_default/swordsman/swordsman_charater_select.png",
        },
        ClassChoice {
            role: CharacterRole::GunnerMarksman,
            name: "Marksman",
            blurb: "A deadly shot with cannon and pistol. Turns powder and patience into broadsides that find their mark.",
            sprite_path: "sprites/characters/player_default/marksman/marksman_charater_select.png",
        },
        ClassChoice {
            role: CharacterRole::Navigator,
            name: "Navigator",
            blurb: "Reads the stars, charts, and currents. Finds faster routes and spots danger from the crow's nest first.",
            sprite_path: "sprites/characters/player_default/navigator/navigator_charater_select.png",
        },
        ClassChoice {
            role: CharacterRole::DoctorSurgeon,
            name: "Doctor",
            blurb: "Surgeon and healer of the crew. Keeps hands on deck and patches the wounds the sea leaves behind.",
            sprite_path: "sprites/characters/player_default/doctor/doctor_charater_select.png",
        },
        ClassChoice {
            role: CharacterRole::Shipwright,
            name: "Shipwright",
            blurb: "Master of timber and tar. Repairs the hull mid-storm and keeps the ship afloat against all odds.",
            sprite_path: "sprites/characters/player_default/shipwright/shipwright_charater_select.png",
        },
        ClassChoice {
            role: CharacterRole::CookQuartermaster,
            name: "Cook",
            blurb: "Quartermaster of the galley. Stretches the stores, lifts morale, and keeps the crew fed and fighting.",
            sprite_path: "sprites/characters/player_default/cook/cook_charater_select.png",
        },
        ClassChoice {
            role: CharacterRole::HistorianScholar,
            name: "Archaeologist",
            blurb: "Scholar of lost coasts and buried hoards. Deciphers maps and relics others would sail right past.",
            sprite_path: "sprites/characters/player_default/archaeologist/archaeologist_charater_select.png",
        },
    ];
    r
}

/// Why a new character was refused.
#[derive(Clone, Copy, Debug, PartialEq, Eq, Structural)]
pub enum CreateError {
    /// The name is empty once trimmed.
    EmptyName,
    /// Another saved character has this name.
    NameTaken,
    /// The roster holds 16 characters.
    RosterFull,
}

/// The hint shown for a refusal.
pub fn create_error_hint(e: CreateError) -> (r: &'static str)
    ensures
        e == CreateError::EmptyName ==> r@ == "Enter a name first"@,
        e == CreateError::NameTaken ==> r@ == "That name is already taken"@,
        e == CreateError::RosterFull ==> r@ == "Roster is full"@,
{
    match e {
        CreateError::EmptyName => "Enter a name first",
        CreateError::NameTaken => "That name is already taken",
        CreateError::RosterFull => "Roster is full",
    }
}

/// Confirm character creation with the typed `name` and the class at
/// `selection`: the trimmed name must be non-empty and not taken, and the
/// roster must have room; then the character joins the roster.
pub fn confirm_creation(roster: &mut CharacterRoster, name: &str, selection: usize) -> (r: Result<(), CreateError>)
    requires
        selection < 7,
    ensures
        trimmed(name@).len() == 0 ==> r == Err::<(), CreateError>(CreateError::EmptyName),
        trimmed(name@).len() != 0 && (exists|k: int| 0 <= k < old(roster).characters@.len()
            && name_key((#[trigger] old(roster).characters@[k]).name@) == name_key(name@))
            ==> r == Err::<(), CreateError>(CreateError::NameTaken),
        r is Err ==> final(roster).characters@ == old(roster).characters@,
        trimmed(name@).len() != 0 && !(exists|k: int| 0 <= k < old(roster).characters@.len()
            && name_key((#[trigger] old(roster).characters@[k]).name@) == name_key(name@))
            && old(roster).characters@.len() < 16 ==> r is Ok,
        r == Err::<(), CreateError>(CreateError::RosterFull) <==> (trimmed(name@).len() != 0 && !(exists|k: int| 0 <= k < old(roster).characters@.len()
            && name_key((#[trigger] old(roster).characters@[k]).name@) == name_key(name@)) && old(roster).characters@.len() >= 16),
        r is Ok ==> final(roster).characters@.len() == old(roster).characters@.len() + 1
            && final(roster).characters@.drop_last() == old(roster).characters@
            && final(roster).characters@.last().name@ == trimmed(name@)
            && final(roster).characters@.last().role == choice_roles()[selection as int],
        names_unique(old(roster).characters@) ==> names_unique(final(roster).characters@),
        old(roster).characters@.len() <= 16 ==> final(roster).characters@.len() <= 16,
{
    let (a, b) = trim_bounds(name);
    if a == b {
        return Err(CreateError::EmptyName);
    }
    if roster.name_taken(name) {
        return Err(CreateError::NameTaken);
    }
    if !roster.has_room() {
        return Err(CreateError::RosterFull);
    }
    let choices = class_choices();
    let role = choices[selection].role;
    let piece = name.substring_char(a, b);
    let ghost before = roster.characters@;
    let added = SavedCharacter { name: owned(piece), role };
    roster.characters.push(added);
    proof {
        if names_unique(before) {
            law_created_names_stay_unique(before, name@, added);
        }
    }
    Ok(())
}

/// UTF-8 length of a character.
pub open spec fn utf8_len(c: char) -> int {
    let u = c as u32;
    if u < 0x80 { 1 } else if u < 0x800 { 2 } else if u < 0x10000 { 3 } else { 4 }
}

/// UTF-8 length of a character sequence.
pub open spec fn utf8_size(s: Seq<char>) -> int
    decreases s.len(),
{
    if s.len() == 0 { 0 } else { utf8_size(s.drop_last()) + utf8_len(s.last()) }
}

/// The name being typed on the creation screen, with its UTF-8 length.
#[derive(Clone, Debug)]
pub struct CreationName {
    pub chars: Vec<char>,
    pub byte_len: usize,
}

impl CreationName {
    /// The byte length matches the characters.
    pub open spec fn wf(&self) -> bool {
        self.byte_len == utf8_size(self.chars@)
    }

    /// An empty name.
    pub fn new() -> (r: Self)
        ensures
            r.wf(),
            r.chars@.len() == 0,
    {
        CreationName { chars: Vec::new(), byte_len: 0 }
    }

    /// Backspace: drop the last character, if any.
    pub fn backspace(&mut self)
        requires
            old(self).wf(),
        ensures
            final(self).wf(),
            old(self).chars@.len() == 0 ==> final(self).chars@ == old(self).chars@,
            old(self).chars@.len() > 0 ==> final(self).chars@ == old(self).chars@.drop_last(),
    {
        if self.chars.len() > 0 {
            let ghost before = self.chars@;
            let c = self.chars.pop().unwrap();
            assert(before.drop_last() =~= self.chars@);
            proof { lemma_utf8_size_bounds(self.chars@); }
            self.byte_len = self.byte_len - utf8_char_len(c);
        }
    }

    /// Space: appended only after a first character and below the length limit.
    pub fn type_space(&mut self)
        requires
            old(self).wf(),
        ensures
            final(self).wf(),
            (old(self).byte_len < 16 && old(self).chars@.len() > 0) ==> final(self).chars@ == old(self).chars@.push(' '),
            !(old(self).byte_len < 16 && old(self).chars@.len() > 0) ==> final(self).chars@ == old(self).chars@,
    {
        if self.byte_len < NAME_MAX_LEN && self.chars.len() > 0 {
            let ghost before = self.chars@;
            self.chars.push(' ');
            assert(self.chars@.drop_last() =~= before);
            self.byte_len = self.byte_len + 1;
        }
    }

    /// A typed character: letters, digits (Unicode alphanumerics, as told by
    /// `alphanumeric`), the apostrophe and the hyphen are appended while the
    /// name is below the length limit.
    pub fn type_char(&mut self, ch: char, alphanumeric: bool)
        requires
            old(self).wf(),
        ensures
            final(self).wf(),
            ((alphanumeric || ch == '\'' || ch == '-') && old(self).byte_len < 16) ==> final(self).chars@ == old(self).chars@.push(ch),
            !((alphanumeric || ch == '\'' || ch == '-') && old(self).byte_len < 16) ==> final(self).chars@ == old(self).chars@,
    {
        if (alphanumeric || ch == '\'' || ch == '-') && self.byte_len < NAME_MAX_LEN {
            let ghost before = self.chars@;
            self.chars.push(ch);
            assert(self.chars@.drop_last() =~= before);
            self.byte_len = self.byte_len + utf8_char_len(ch);
        }
    }
}

/// Whether `c` is alphanumeric in Unicode's sense (Alphabetic or Numeric).
pub uninterp spec fn unicode_alphanumeric(c: char) -> bool;

/// Calls `char::is_alphanumeric` of std. The result is named by
/// `unicode_alphanumeric`; for ASCII the documented classes are stated: the
/// letters and digits are alphanumeric, every other ASCII character is not.
/// What it answers outside ASCII rests on Unicode's tables and is left unsaid.
#[verifier::external_body]
fn char_is_alphanumeric(c: char) -> (r: bool)
    ensures
        r == unicode_alphanumeric(c),
        (c as u32) < 0x80 ==> (r <==> (('a' <= c && c <= 'z') || ('A' <= c && c <= 'Z') || ('0' <= c && c <= '9'))),
{
    c.is_alphanumeric()
}

/// The name after typing `chars` one by one.
pub open spec fn typed_chars(chars: Seq<char>, text: Seq<char>) -> Seq<char>
    decreases text.len(),
{
    if text.len() == 0 {
        chars
    } else {
        let prev = typed_chars(chars, text.drop_last());
        let ch = text.last();
        if (unicode_alphanumeric(ch) || ch == '\'' || ch == '-') && utf8_size(prev) < 16 {
            prev.push(ch)
        } else {
            prev
        }
    }
}

impl CreationName {
    /// Typed text: each character is kept when `type_char` accepts it.
    /// Returns whether any character was kept.
    pub fn type_text(&mut self, text: &str) -> (changed: bool)
        requires
            old(self).wf(),
        ensures
            final(self).wf(),
            final(self).chars@ == typed_chars(old(self).chars@, text@),
            changed == (final(self).chars@.len() != old(self).chars@.len()),
    {
        let ghost start = self.chars@;
        let start_len = self.chars.len();
        let n = text.unicode_len();
        let mut i: usize = 0;
        while i < n
            invariant
                n == text@.len(),
                i <= n,
                self.wf(),
                self.chars@ == typed_chars(start, text@.subrange(0, i as int)),
                self.chars@.len() >= start.len(),
            decreases n - i,
        {
            let ch = text.get_char(i);
            let alnum = char_is_alphanumeric(ch);
            self.type_char(ch, alnum);
            proof {
                let t = text@.subrange(0, i + 1);
                assert(t.drop_last() =~= text@.subrange(0, i as int));
                assert(t.last() == ch);
            }
            i = i + 1;
        }
        assert(text@.subrange(0, n as int) =~= text@);
        self.chars.len() != start_len
    }
}

/// Hint shown once the name has been edited.
pub const NAME_EDITED_HINT: &'static str = "Enter a unique name";

proof fn lemma_utf8_size_bounds(s: Seq<char>)
    ensures
        0 <= utf8_size(s) <= 4 * s.len(),
    decreases s.len(),
{
    if s.len() > 0 {
        lemma_utf8_size_bounds(s.drop_last());
    }
}

fn utf8_char_len(c: char) -> (r: usize)
    ensures
        r == utf8_len(c),
{
    let u = c as u32;
    if u < 0x80 { 1 } else if u < 0x800 { 2 } else if u < 0x10000 { 3 } else { 4 }
}

/// Text of the name plate: the typed name, or a prompt when empty.
pub fn name_plate_text(name: &str) -> (r: String)
    ensures
        name@.len() == 0 ==> r@ == "Enter name..."@,
        name@.len() != 0 ==> r@ == name@,
{
    if name.unicode_len() == 0 {
        owned("Enter name...")
    } else {
        owned(name)
    }
}

} // verus!
