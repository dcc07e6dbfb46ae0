//! Values shared by the file formats: game versions, split paths and interned strings.
use vstd::prelude::*;

verus! {

/// The id of a localised text.
#[derive(Debug, Clone, Copy, PartialEq, Eq, Structural, Hash)]
pub struct LocaleId(pub u32);

/// A Just Dance game, in the order of release.
#[derive(Debug, Clone, Copy, PartialEq, Eq, Structural, Hash)]
pub enum Game {
    JustDance2015,
    JustDance2016,
    JustDance2017,
    JustDance2018,
    JustDance2019,
    JustDance2020,
    JustDanceChina,
    JustDance2021,
    JustDance2022,
}

impl Game {
    /// The position of the game in the order of release.
    pub open spec fn order(self) -> nat {
        match self {
            Game::JustDance2015 => 0,
            Game::JustDance2016 => 1,
            Game::JustDance2017 => 2,
            Game::JustDance2018 => 3,
            Game::JustDance2019 => 4,
            Game::JustDance2020 => 5,
            Game::JustDanceChina => 6,
            Game::JustDance2021 => 7,
            Game::JustDance2022 => 8,
        }
    }

    /// The position of the game in the order of release.
    pub fn rank(&self) -> (r: u8)
        ensures
            r == self.order(),
    {
        match self {
            Game::JustDance2015 => 0,
            Game::JustDance2016 => 1,
            Game::JustDance2017 => 2,
            Game::JustDance2018 => 3,
            Game::JustDance2019 => 4,
            Game::JustDance2020 => 5,
            Game::JustDanceChina => 6,
            Game::JustDance2021 => 7,
            Game::JustDance2022 => 8,
        }
    }
}

/// The platform a game was built for.
#[derive(Debug, Clone, Copy, PartialEq, Eq, Structural, Hash)]
pub enum Platform {
    Wii,
    WiiU,
    Nx,
}

impl Platform {
    /// The position of the platform in the order of release.
    pub open spec fn order(self) -> nat {
        match self {
            Platform::Wii => 0,
            Platform::WiiU => 1,
            Platform::Nx => 2,
        }
    }

    /// The position of the platform in the order of release.
    pub fn rank(&self) -> (r: u8)
        ensures
            r == self.order(),
    {
        match self {
            Platform::Wii => 0,
            Platform::WiiU => 1,
            Platform::Nx => 2,
        }
    }
}

/// One build of a game: the game, the platform and a build number.
/// Builds are ordered by game, then platform, then build number.
#[derive(Debug, Clone, Copy, PartialEq, Eq, Structural, Hash)]
pub struct UniqueGameId {
    pub game: Game,
    pub platform: Platform,
    pub id: u32,
}

impl UniqueGameId {
    /// The first build of Just Dance 2019 for the Switch.
    pub fn nx2019v1() -> (r: UniqueGameId)
        ensures
            r == (UniqueGameId { game: Game::JustDance2019, platform: Platform::Nx, id: 1 }),
    {
        UniqueGameId { game: Game::JustDance2019, platform: Platform::Nx, id: 1 }
    }

    /// The second build of Just Dance 2019 for the Switch.
    pub fn nx2019v2() -> (r: UniqueGameId)
        ensures
            r == (UniqueGameId { game: Game::JustDance2019, platform: Platform::Nx, id: 2 }),
    {
        UniqueGameId { game: Game::JustDance2019, platform: Platform::Nx, id: 2 }
    }

    /// Just Dance 2020 for the Switch.
    pub fn nx2020() -> (r: UniqueGameId)
        ensures
            r == (UniqueGameId { game: Game::JustDance2020, platform: Platform::Nx, id: 1 }),
    {
        UniqueGameId { game: Game::JustDance2020, platform: Platform::Nx, id: 1 }
    }

    /// Just Dance 2016 for the Wii U.
    pub fn wiiu2016() -> (r: UniqueGameId)
        ensures
            r == (UniqueGameId { game: Game::JustDance2016, platform: Platform::WiiU, id: 1 }),
    {
        UniqueGameId { game: Game::JustDance2016, platform: Platform::WiiU, id: 1 }
    }

    /// Whether this build comes at or after `other`.
    pub open spec fn at_least(self, other: UniqueGameId) -> bool {
        ||| self.game.order() > other.game.order()
        ||| (self.game.order() == other.game.order() && self.platform.order() > other.platform.order())
        ||| (self.game.order() == other.game.order() && self.platform.order() == other.platform.order()
            && self.id >= other.id)
    }

    /// Whether this build comes at or after `other`.
    pub fn is_at_least(&self, other: &UniqueGameId) -> (r: bool)
        ensures
            r == self.at_least(*other),
    {
        let (g, h) = (self.game.rank(), other.game.rank());
        let (p, q) = (self.platform.rank(), other.platform.rank());
        g > h || (g == h && p > q) || (g == h && p == q && self.id >= other.id)
    }
}

/// The games in the order of their release, as the enumeration lists them.
pub open spec fn games_in_release_order() -> Seq<Game> {
    seq![
        Game::JustDance2015, Game::JustDance2016, Game::JustDance2017, Game::JustDance2018,
        Game::JustDance2019, Game::JustDance2020, Game::JustDanceChina, Game::JustDance2021,
        Game::JustDance2022,
    ]
}

/// The platforms in the order of their release, as the enumeration lists them.
pub open spec fn platforms_in_release_order() -> Seq<Platform> {
    seq![Platform::Wii, Platform::WiiU, Platform::Nx]
}

/// Whether `a` comes before `b` in the list `l`.
pub open spec fn listed_before<A>(l: Seq<A>, a: A, b: A) -> bool {
    exists|i: int, j: int| 0 <= i < j < l.len() && l[i] == a && l[j] == b
}

/// The rank of a game is its position in the order of release, and that of a
/// platform its position in the order of release of the platforms.
pub proof fn lemma_order_is_release_position(g: Game, p: Platform)
    ensures
        g.order() < games_in_release_order().len(),
        games_in_release_order()[g.order() as int] == g,
        p.order() < platforms_in_release_order().len(),
        platforms_in_release_order()[p.order() as int] == p,
{
}

/// A build is at least another exactly where it comes no earlier by game
/// release, then by platform release, then by build number.
pub proof fn lemma_at_least_is_release_order(u: UniqueGameId, v: UniqueGameId)
    ensures
        u.at_least(v) <==> {
            ||| listed_before(games_in_release_order(), v.game, u.game)
            ||| (u.game == v.game && listed_before(platforms_in_release_order(), v.platform, u.platform))
            ||| (u.game == v.game && u.platform == v.platform && u.id >= v.id)
        },
{
    let gs = games_in_release_order();
    let ps = platforms_in_release_order();
    lemma_order_is_release_position(u.game, u.platform);
    lemma_order_is_release_position(v.game, v.platform);
    assert forall|i: int| 0 <= i < gs.len() implies #[trigger] gs[i].order() == i by {}
    assert forall|i: int| 0 <= i < ps.len() implies #[trigger] ps[i].order() == i by {}
    if u.game.order() > v.game.order() {
        assert(listed_before(gs, v.game, u.game)) by {
            assert(gs[v.game.order() as int] == v.game && gs[u.game.order() as int] == u.game);
        }
    }
    if listed_before(gs, v.game, u.game) {
        let (i, j) = choose|i: int, j: int| 0 <= i < j < gs.len() && gs[i] == v.game && gs[j] == u.game;
        assert(gs[i].order() == i && gs[j].order() == j);
    }
    if u.game == v.game && u.platform.order() > v.platform.order() {
        assert(listed_before(ps, v.platform, u.platform)) by {
            assert(ps[v.platform.order() as int] == v.platform && ps[u.platform.order() as int] == u.platform);
        }
    }
    if listed_before(ps, v.platform, u.platform) {
        let (i, j) = choose|i: int, j: int| 0 <= i < j < ps.len() && ps[i] == v.platform && ps[j] == u.platform;
        assert(ps[i].order() == i && ps[j].order() == j);
    }
    if u.game.order() == v.game.order() {
        assert(u.game == v.game);
    }
    if u.platform.order() == v.platform.order() {
        assert(u.platform == v.platform);
    }
}

/// A color as four `f32` channels (red, green, blue, alpha), each held as the
/// bits of its IEEE 754 single-precision value.
#[derive(Debug, Clone, Copy, PartialEq, Eq, Hash)]
pub struct Color {
    pub color: (u32, u32, u32, u32),
}

/// A path split into its directory and its file name, with the string id of
/// the whole path as the engine stores it. In a file it is the directory and
/// the file name as `u32be`-length strings, the id as `u32be`, and a flag word.
#[derive(Debug, Clone, PartialEq, Eq, Hash)]
pub struct SplitPath {
    pub path: Vec<u8>,
    pub filename: Vec<u8>,
    pub id: u32,
}

impl Default for SplitPath {
    /// The empty path, whose string id is `0xFFFF_FFFF` as for every empty string.
    fn default() -> (r: SplitPath)
        ensures
            r.path@.len() == 0,
            r.filename@.len() == 0,
            r.id == 0xFFFF_FFFF,
    {
        SplitPath { path: Vec::new(), filename: Vec::new(), id: 0xFFFF_FFFF }
    }
}

impl SplitPath {
    /// Whether both the directory and the file name are empty.
    pub fn is_empty(&self) -> (r: bool)
        ensures
            r == (self.path@.len() == 0 && self.filename@.len() == 0),
    {
        self.path.len() == 0 && self.filename.len() == 0
    }
}

/// One round of mixing of Bob Jenkins' `lookup2` hash.
pub open spec fn jenkins_mix(a: u32, b: u32, c: u32) -> (u32, u32, u32) {
    let a = ((a - b - c) as u32) ^ (c >> 13u32);
    let b = ((b - c - a) as u32) ^ (a << 8u32);
    let c = ((c - a - b) as u32) ^ (b >> 13u32);
    let a = ((a - b - c) as u32) ^ (c >> 12u32);
    let b = ((b - c - a) as u32) ^ (a << 16u32);
    let c = ((c - a - b) as u32) ^ (b >> 5u32);
    let a = ((a - b - c) as u32) ^ (c >> 3u32);
    let b = ((b - c - a) as u32) ^ (a << 10u32);
    let c = ((c - a - b) as u32) ^ (b >> 15u32);
    (a, b, c)
}

/// The byte `k[i]`, or 0 past the end of `k`.
pub open spec fn byte_or_zero(k: Seq<u8>, i: int) -> int {
    if 0 <= i < k.len() { k[i] as int } else { 0 }
}

/// The little-endian word of the bytes `k[i..i + 4]`, with 0 past the end of `k`.
pub open spec fn le_word(k: Seq<u8>, i: int) -> int {
    byte_or_zero(k, i) + byte_or_zero(k, i + 1) * 0x100 + byte_or_zero(k, i + 2) * 0x1_0000
        + byte_or_zero(k, i + 3) * 0x100_0000
}

/// `lookup2` over the bytes `k` that are left, from the state `(a, b, c)`, for
/// a key of `n` bytes in all: twelve bytes a round, then the last bytes and the
/// length.
pub open spec fn jenkins_rounds(k: Seq<u8>, a: u32, b: u32, c: u32, n: nat) -> u32
    decreases k.len(),
{
    if k.len() >= 12 {
        let (a2, b2, c2) = jenkins_mix((a + le_word(k, 0)) as u32, (b + le_word(k, 4)) as u32, (c + le_word(k, 8)) as u32);
        jenkins_rounds(k.subrange(12, k.len() as int), a2, b2, c2, n)
    } else {
        let a2 = (a + le_word(k, 0)) as u32;
        let b2 = (b + le_word(k, 4)) as u32;
        let c2 = (c + n + byte_or_zero(k, 8) * 0x100 + byte_or_zero(k, 9) * 0x1_0000 + byte_or_zero(k, 10) * 0x100_0000) as u32;
        jenkins_mix(a2, b2, c2).2
    }
}

/// Bob Jenkins' `lookup2` hash of the bytes `k`, with the initial value 0.
pub open spec fn jenkins_lookup2(k: Seq<u8>) -> u32 {
    jenkins_rounds(k, 0x9E37_79B9, 0x9E37_79B9, 0, k.len())
}

/// The ASCII byte of `c` in upper case.
pub open spec fn ascii_upper(c: char) -> u8 {
    if 'a' <= c <= 'z' { ((c as u32) - 32) as u8 } else { c as u8 }
}

/// The string id the engine gives the text `t`: the `lookup2` hash of its
/// bytes in upper case.
pub open spec fn engine_string_id(t: Seq<char>) -> u32 {
    jenkins_lookup2(t.map_values(|c: char| ascii_upper(c)))
}

proof fn lemma_navigation_default_rounds()
    by (bit_vector)
    ensures
        ((0x9E3779B9u32 + 0x4956414E) as u32) == 0xE78DBB07u32,
        ((0x9E3779B9u32 + 0x49544147) as u32) == 0xE78BBB00u32,
        ((0x0u32 + 0x445F4E4F) as u32) == 0x445F4E4Fu32,
        jenkins_mix(0xE78DBB07u32, 0xE78BBB00u32, 0x445F4E4Fu32).0 == 0x3DB73397u32,
        jenkins_mix(0xE78DBB07u32, 0xE78BBB00u32, 0x445F4E4Fu32).1 == 0x38F13438u32,
        jenkins_mix(0xE78DBB07u32, 0xE78BBB00u32, 0x445F4E4Fu32).2 == 0x8018D7DEu32,
        ((0x3DB73397u32 + 0x55414645) as u32) == 0x92F879DCu32,
        ((0x38F13438u32 + 0x544C) as u32) == 0x38F18884u32,
        ((0x8018D7DEu32 + 0x12) as u32) == 0x8018D7F0u32,
        jenkins_mix(0x92F879DCu32, 0x38F18884u32, 0x8018D7F0u32).2 == 0x144531FFu32,
{
}

proof fn lemma_navigation_default_id()
    ensures
        engine_string_id("navigation_default"@) == 0x144531FF,
{
    reveal_strlit("navigation_default");
    let k = "navigation_default"@.map_values(|c: char| ascii_upper(c));
    assert(k =~= seq![0x4Eu8, 0x41u8, 0x56u8, 0x49u8, 0x47u8, 0x41u8, 0x54u8, 0x49u8, 0x4Fu8, 0x4Eu8, 0x5Fu8, 0x44u8, 0x45u8, 0x46u8, 0x41u8, 0x55u8, 0x4Cu8, 0x54u8]);
    assert(k.subrange(12, 18) =~= seq![0x45u8, 0x46u8, 0x41u8, 0x55u8, 0x4Cu8, 0x54u8]);
    lemma_navigation_default_rounds();
    reveal_with_fuel(jenkins_rounds, 3);
}

proof fn lemma_navigation_row_rounds()
    by (bit_vector)
    ensures
        ((0x9E3779B9u32 + 0x4956414E) as u32) == 0xE78DBB07u32,
        ((0x9E3779B9u32 + 0x49544147) as u32) == 0xE78BBB00u32,
        ((0x0u32 + 0x525F4E4F) as u32) == 0x525F4E4Fu32,
        jenkins_mix(0xE78DBB07u32, 0xE78BBB00u32, 0x525F4E4Fu32).0 == 0xBC051F44u32,
        jenkins_mix(0xE78DBB07u32, 0xE78BBB00u32, 0x525F4E4Fu32).1 == 0x667C472Eu32,
        jenkins_mix(0xE78DBB07u32, 0xE78BBB00u32, 0x525F4E4Fu32).2 == 0x7386292Eu32,
        ((0xBC051F44u32 + 0x574F) as u32) == 0xBC057693u32,
        ((0x667C472Eu32 + 0x0) as u32) == 0x667C472Eu32,
        ((0x7386292Eu32 + 0xE) as u32) == 0x7386293Cu32,
        jenkins_mix(0xBC057693u32, 0x667C472Eu32, 0x7386293Cu32).2 == 0x1576B015u32,
{
}

proof fn lemma_navigation_row_id()
    ensures
        engine_string_id("navigation_row"@) == 0x1576B015,
{
    reveal_strlit("navigation_row");
    let k = "navigation_row"@.map_values(|c: char| ascii_upper(c));
    assert(k =~= seq![0x4Eu8, 0x41u8, 0x56u8, 0x49u8, 0x47u8, 0x41u8, 0x54u8, 0x49u8, 0x4Fu8, 0x4Eu8, 0x5Fu8, 0x52u8, 0x4Fu8, 0x57u8]);
    assert(k.subrange(12, 14) =~= seq![0x4Fu8, 0x57u8]);
    lemma_navigation_row_rounds();
    reveal_with_fuel(jenkins_rounds, 3);
}

proof fn lemma_navigation_speed_rounds()
    by (bit_vector)
    ensures
        ((0x9E3779B9u32 + 0x4956414E) as u32) == 0xE78DBB07u32,
        ((0x9E3779B9u32 + 0x49544147) as u32) == 0xE78BBB00u32,
        ((0x0u32 + 0x535F4E4F) as u32) == 0x535F4E4Fu32,
        jenkins_mix(0xE78DBB07u32, 0xE78BBB00u32, 0x535F4E4Fu32).0 == 0xA39C674Eu32,
        jenkins_mix(0xE78DBB07u32, 0xE78BBB00u32, 0x535F4E4Fu32).1 == 0x5F6DF630u32,
        jenkins_mix(0xE78DBB07u32, 0xE78BBB00u32, 0x535F4E4Fu32).2 == 0x40A7E7E5u32,
        ((0xA39C674Eu32 + 0x44454550) as u32) == 0xE7E1AC9Eu32,
        ((0x5F6DF630u32 + 0x0) as u32) == 0x5F6DF630u32,
        ((0x40A7E7E5u32 + 0x10) as u32) == 0x40A7E7F5u32,
        jenkins_mix(0xE7E1AC9Eu32, 0x5F6DF630u32, 0x40A7E7F5u32).2 == 0x28102F02u32,
{
}

proof fn lemma_navigation_speed_id()
    ensures
        engine_string_id("navigation_speed"@) == 0x28102F02,
{
    reveal_strlit("navigation_speed");
    let k = "navigation_speed"@.map_values(|c: char| ascii_upper(c));
    assert(k =~= seq![0x4Eu8, 0x41u8, 0x56u8, 0x49u8, 0x47u8, 0x41u8, 0x54u8, 0x49u8, 0x4Fu8, 0x4Eu8, 0x5Fu8, 0x53u8, 0x50u8, 0x45u8, 0x45u8, 0x44u8]);
    assert(k.subrange(12, 16) =~= seq![0x50u8, 0x45u8, 0x45u8, 0x44u8]);
    lemma_navigation_speed_rounds();
    reveal_with_fuel(jenkins_rounds, 3);
}

proof fn lemma_menu_valid_rounds()
    by (bit_vector)
    ensures
        ((0x9E3779B9u32 + 0x554E454D) as u32) == 0xF385BF06u32,
        ((0x9E3779B9u32 + 0x4C41565F) as u32) == 0xEA78D018u32,
        ((0x0u32 + 0x44490A) as u32) == 0x44490Au32,
        jenkins_mix(0xF385BF06u32, 0xEA78D018u32, 0x44490Au32).2 == 0x40A15156u32,
{
}

proof fn lemma_menu_valid_id()
    ensures
        engine_string_id("menu_valid"@) == 0x40A15156,
{
    reveal_strlit("menu_valid");
    let k = "menu_valid"@.map_values(|c: char| ascii_upper(c));
    assert(k =~= seq![0x4Du8, 0x45u8, 0x4Eu8, 0x55u8, 0x5Fu8, 0x56u8, 0x41u8, 0x4Cu8, 0x49u8, 0x44u8]);
    lemma_menu_valid_rounds();
    reveal_with_fuel(jenkins_rounds, 2);
}

proof fn lemma_menu_lstick_right_rounds()
    by (bit_vector)
    ensures
        ((0x9E3779B9u32 + 0x554E454D) as u32) == 0xF385BF06u32,
        ((0x9E3779B9u32 + 0x54534C5F) as u32) == 0xF28AC618u32,
        ((0x0u32 + 0x5F4B4349) as u32) == 0x5F4B4349u32,
        jenkins_mix(0xF385BF06u32, 0xF28AC618u32, 0x5F4B4349u32).0 == 0x78F56732u32,
        jenkins_mix(0xF385BF06u32, 0xF28AC618u32, 0x5F4B4349u32).1 == 0x8FF0A46Fu32,
        jenkins_mix(0xF385BF06u32, 0xF28AC618u32, 0x5F4B4349u32).2 == 0xCE5E67A2u32,
        ((0x78F56732u32 + 0x48474952) as u32) == 0xC13CB084u32,
        ((0x8FF0A46Fu32 + 0x54) as u32) == 0x8FF0A4C3u32,
        ((0xCE5E67A2u32 + 0x11) as u32) == 0xCE5E67B3u32,
        jenkins_mix(0xC13CB084u32, 0x8FF0A4C3u32, 0xCE5E67B3u32).2 == 0x418FAF9Au32,
{
}

proof fn lemma_menu_lstick_right_id()
    ensures
        engine_string_id("menu_lstick_right"@) == 0x418FAF9A,
{
    reveal_strlit("menu_lstick_right");
    let k = "menu_lstick_right"@.map_values(|c: char| ascii_upper(c));
    assert(k =~= seq![0x4Du8, 0x45u8, 0x4Eu8, 0x55u8, 0x5Fu8, 0x4Cu8, 0x53u8, 0x54u8, 0x49u8, 0x43u8, 0x4Bu8, 0x5Fu8, 0x52u8, 0x49u8, 0x47u8, 0x48u8, 0x54u8]);
    assert(k.subrange(12, 17) =~= seq![0x52u8, 0x49u8, 0x47u8, 0x48u8, 0x54u8]);
    lemma_menu_lstick_right_rounds();
    reveal_with_fuel(jenkins_rounds, 3);
}

proof fn lemma_navigation_rounds()
    by (bit_vector)
    ensures
        ((0x9E3779B9u32 + 0x4956414E) as u32) == 0xE78DBB07u32,
        ((0x9E3779B9u32 + 0x49544147) as u32) == 0xE78BBB00u32,
        ((0x0u32 + 0x4E4F0A) as u32) == 0x4E4F0Au32,
        jenkins_mix(0xE78DBB07u32, 0xE78BBB00u32, 0x4E4F0Au32).2 == 0x4C556308u32,
{
}

proof fn lemma_navigation_id()
    ensures
        engine_string_id("navigation"@) == 0x4C556308,
{
    reveal_strlit("navigation");
    let k = "navigation"@.map_values(|c: char| ascii_upper(c));
    assert(k =~= seq![0x4Eu8, 0x41u8, 0x56u8, 0x49u8, 0x47u8, 0x41u8, 0x54u8, 0x49u8, 0x4Fu8, 0x4Eu8]);
    lemma_navigation_rounds();
    reveal_with_fuel(jenkins_rounds, 2);
}

proof fn lemma_menu_phone_right_rounds()
    by (bit_vector)
    ensures
        ((0x9E3779B9u32 + 0x554E454D) as u32) == 0xF385BF06u32,
        ((0x9E3779B9u32 + 0x4F48505F) as u32) == 0xED7FCA18u32,
        ((0x0u32 + 0x525F454E) as u32) == 0x525F454Eu32,
        jenkins_mix(0xF385BF06u32, 0xED7FCA18u32, 0x525F454Eu32).0 == 0xD3C19E37u32,
        jenkins_mix(0xF385BF06u32, 0xED7FCA18u32, 0x525F454Eu32).1 == 0x7104CAC4u32,
        jenkins_mix(0xF385BF06u32, 0xED7FCA18u32, 0x525F454Eu32).2 == 0xB9FF9404u32,
        ((0xD3C19E37u32 + 0x54484749) as u32) == 0x2809E580u32,
        ((0x7104CAC4u32 + 0x0) as u32) == 0x7104CAC4u32,
        ((0xB9FF9404u32 + 0x10) as u32) == 0xB9FF9414u32,
        jenkins_mix(0x2809E580u32, 0x7104CAC4u32, 0xB9FF9414u32).2 == 0x6DC2DBB2u32,
{
}

proof fn lemma_menu_phone_right_id()
    ensures
        engine_string_id("menu_phone_right"@) == 0x6DC2DBB2,
{
    reveal_strlit("menu_phone_right");
    let k = "menu_phone_right"@.map_values(|c: char| ascii_upper(c));
    assert(k =~= seq![0x4Du8, 0x45u8, 0x4Eu8, 0x55u8, 0x5Fu8, 0x50u8, 0x48u8, 0x4Fu8, 0x4Eu8, 0x45u8, 0x5Fu8, 0x52u8, 0x49u8, 0x47u8, 0x48u8, 0x54u8]);
    assert(k.subrange(12, 16) =~= seq![0x49u8, 0x47u8, 0x48u8, 0x54u8]);
    lemma_menu_phone_right_rounds();
    reveal_with_fuel(jenkins_rounds, 3);
}

proof fn lemma_menu_dpad_right_rounds()
    by (bit_vector)
    ensures
        ((0x9E3779B9u32 + 0x554E454D) as u32) == 0xF385BF06u32,
        ((0x9E3779B9u32 + 0x4150445F) as u32) == 0xDF87BE18u32,
        ((0x0u32 + 0x49525F44) as u32) == 0x49525F44u32,
        jenkins_mix(0xF385BF06u32, 0xDF87BE18u32, 0x49525F44u32).0 == 0x74EA81D2u32,
        jenkins_mix(0xF385BF06u32, 0xDF87BE18u32, 0x49525F44u32).1 == 0xC431ED8Bu32,
        jenkins_mix(0xF385BF06u32, 0xDF87BE18u32, 0x49525F44u32).2 == 0x3E4F50B4u32,
        ((0x74EA81D2u32 + 0x544847) as u32) == 0x753ECA19u32,
        ((0xC431ED8Bu32 + 0x0) as u32) == 0xC431ED8Bu32,
        ((0x3E4F50B4u32 + 0xF) as u32) == 0x3E4F50C3u32,
        jenkins_mix(0x753ECA19u32, 0xC431ED8Bu32, 0x3E4F50C3u32).2 == 0x7233490Cu32,
{
}

proof fn lemma_menu_dpad_right_id()
    ensures
        engine_string_id("menu_dpad_right"@) == 0x7233490C,
{
    reveal_strlit("menu_dpad_right");
    let k = "menu_dpad_right"@.map_values(|c: char| ascii_upper(c));
    assert(k =~= seq![0x4Du8, 0x45u8, 0x4Eu8, 0x55u8, 0x5Fu8, 0x44u8, 0x50u8, 0x41u8, 0x44u8, 0x5Fu8, 0x52u8, 0x49u8, 0x47u8, 0x48u8, 0x54u8]);
    assert(k.subrange(12, 15) =~= seq![0x47u8, 0x48u8, 0x54u8]);
    lemma_menu_dpad_right_rounds();
    reveal_with_fuel(jenkins_rounds, 3);
}

proof fn lemma_navigation_age_rounds()
    by (bit_vector)
    ensures
        ((0x9E3779B9u32 + 0x4956414E) as u32) == 0xE78DBB07u32,
        ((0x9E3779B9u32 + 0x49544147) as u32) == 0xE78BBB00u32,
        ((0x0u32 + 0x415F4E4F) as u32) == 0x415F4E4Fu32,
        jenkins_mix(0xE78DBB07u32, 0xE78BBB00u32, 0x415F4E4Fu32).0 == 0x2F8F196Bu32,
        jenkins_mix(0xE78DBB07u32, 0xE78BBB00u32, 0x415F4E4Fu32).1 == 0x41314948u32,
        jenkins_mix(0xE78DBB07u32, 0xE78BBB00u32, 0x415F4E4Fu32).2 == 0x3959D0D2u32,
        ((0x2F8F196Bu32 + 0x4547) as u32) == 0x2F8F5EB2u32,
        ((0x41314948u32 + 0x0) as u32) == 0x41314948u32,
        ((0x3959D0D2u32 + 0xE) as u32) == 0x3959D0E0u32,
        jenkins_mix(0x2F8F5EB2u32, 0x41314948u32, 0x3959D0E0u32).2 == 0x7411331Eu32,
{
}

proof fn lemma_navigation_age_id()
    ensures
        engine_string_id("navigation_age"@) == 0x7411331E,
{
    reveal_strlit("navigation_age");
    let k = "navigation_age"@.map_values(|c: char| ascii_upper(c));
    assert(k =~= seq![0x4Eu8, 0x41u8, 0x56u8, 0x49u8, 0x47u8, 0x41u8, 0x54u8, 0x49u8, 0x4Fu8, 0x4Eu8, 0x5Fu8, 0x41u8, 0x47u8, 0x45u8]);
    assert(k.subrange(12, 14) =~= seq![0x47u8, 0x45u8]);
    lemma_navigation_age_rounds();
    reveal_with_fuel(jenkins_rounds, 3);
}

proof fn lemma_gotodefault_rounds()
    by (bit_vector)
    ensures
        ((0x9E3779B9u32 + 0x4F544F47) as u32) == 0xED8BC900u32,
        ((0x9E3779B9u32 + 0x41464544) as u32) == 0xDF7DBEFDu32,
        ((0x0u32 + 0x544C550B) as u32) == 0x544C550Bu32,
        jenkins_mix(0xED8BC900u32, 0xDF7DBEFDu32, 0x544C550Bu32).2 == 0x83B258E1u32,
{
}

proof fn lemma_gotodefault_id()
    ensures
        engine_string_id("gotodefault"@) == 0x83B258E1,
{
    reveal_strlit("gotodefault");
    let k = "gotodefault"@.map_values(|c: char| ascii_upper(c));
    assert(k =~= seq![0x47u8, 0x4Fu8, 0x54u8, 0x4Fu8, 0x44u8, 0x45u8, 0x46u8, 0x41u8, 0x55u8, 0x4Cu8, 0x54u8]);
    lemma_gotodefault_rounds();
    reveal_with_fuel(jenkins_rounds, 2);
}

proof fn lemma_navigation_kids_rounds()
    by (bit_vector)
    ensures
        ((0x9E3779B9u32 + 0x4956414E) as u32) == 0xE78DBB07u32,
        ((0x9E3779B9u32 + 0x49544147) as u32) == 0xE78BBB00u32,
        ((0x0u32 + 0x4B5F4E4F) as u32) == 0x4B5F4E4Fu32,
        jenkins_mix(0xE78DBB07u32, 0xE78BBB00u32, 0x4B5F4E4Fu32).0 == 0xFF340B3Au32,
        jenkins_mix(0xE78DBB07u32, 0xE78BBB00u32, 0x4B5F4E4Fu32).1 == 0xFB82DC5Bu32,
        jenkins_mix(0xE78DBB07u32, 0xE78BBB00u32, 0x4B5F4E4Fu32).2 == 0x874577E9u32,
        ((0xFF340B3Au32 + 0x534449) as u32) == 0xFF874F83u32,
        ((0xFB82DC5Bu32 + 0x0) as u32) == 0xFB82DC5Bu32,
        ((0x874577E9u32 + 0xF) as u32) == 0x874577F8u32,
        jenkins_mix(0xFF874F83u32, 0xFB82DC5Bu32, 0x874577F8u32).2 == 0x8E09B64Au32,
{
}

proof fn lemma_navigation_kids_id()
    ensures
        engine_string_id("navigation_kids"@) == 0x8E09B64A,
{
    reveal_strlit("navigation_kids");
    let k = "navigation_kids"@.map_values(|c: char| ascii_upper(c));
    assert(k =~= seq![0x4Eu8, 0x41u8, 0x56u8, 0x49u8, 0x47u8, 0x41u8, 0x54u8, 0x49u8, 0x4Fu8, 0x4Eu8, 0x5Fu8, 0x4Bu8, 0x49u8, 0x44u8, 0x53u8]);
    assert(k.subrange(12, 15) =~= seq![0x49u8, 0x44u8, 0x53u8]);
    lemma_navigation_kids_rounds();
    reveal_with_fuel(jenkins_rounds, 3);
}

proof fn lemma_asyncplayervideo_rounds()
    by (bit_vector)
    ensures
        ((0x9E3779B9u32 + 0x4E595341) as u32) == 0xEC90CCFAu32,
        ((0x9E3779B9u32 + 0x414C5043) as u32) == 0xDF83C9FCu32,
        ((0x0u32 + 0x56524559) as u32) == 0x56524559u32,
        jenkins_mix(0xEC90CCFAu32, 0xDF83C9FCu32, 0x56524559u32).0 == 0xE1D34F22u32,
        jenkins_mix(0xEC90CCFAu32, 0xDF83C9FCu32, 0x56524559u32).1 == 0xF20E4FF9u32,
        jenkins_mix(0xEC90CCFAu32, 0xDF83C9FCu32, 0x56524559u32).2 == 0xEC178979u32,
        ((0xE1D34F22u32 + 0x4F454449) as u32) == 0x3118936Bu32,
        ((0xF20E4FF9u32 + 0x0) as u32) == 0xF20E4FF9u32,
        ((0xEC178979u32 + 0x10) as u32) == 0xEC178989u32,
        jenkins_mix(0x3118936Bu32, 0xF20E4FF9u32, 0xEC178989u32).2 == 0xAA55B6BDu32,
{
}

proof fn lemma_asyncplayervideo_id()
    ensures
        engine_string_id("asyncplayervideo"@) == 0xAA55B6BD,
{
    reveal_strlit("asyncplayervideo");
    let k = "asyncplayervideo"@.map_values(|c: char| ascii_upper(c));
    assert(k =~= seq![0x41u8, 0x53u8, 0x59u8, 0x4Eu8, 0x43u8, 0x50u8, 0x4Cu8, 0x41u8, 0x59u8, 0x45u8, 0x52u8, 0x56u8, 0x49u8, 0x44u8, 0x45u8, 0x4Fu8]);
    assert(k.subrange(12, 16) =~= seq![0x49u8, 0x44u8, 0x45u8, 0x4Fu8]);
    lemma_asyncplayervideo_rounds();
    reveal_with_fuel(jenkins_rounds, 3);
}

proof fn lemma_navigation_big_items_rounds()
    by (bit_vector)
    ensures
        ((0x9E3779B9u32 + 0x4956414E) as u32) == 0xE78DBB07u32,
        ((0x9E3779B9u32 + 0x49544147) as u32) == 0xE78BBB00u32,
        ((0x0u32 + 0x425F4E4F) as u32) == 0x425F4E4Fu32,
        jenkins_mix(0xE78DBB07u32, 0xE78BBB00u32, 0x425F4E4Fu32).0 == 0x32E9A43Cu32,
        jenkins_mix(0xE78DBB07u32, 0xE78BBB00u32, 0x425F4E4Fu32).1 == 0x1F282B0Bu32,
        jenkins_mix(0xE78DBB07u32, 0xE78BBB00u32, 0x425F4E4Fu32).2 == 0xBA5AD21Cu32,
        ((0x32E9A43Cu32 + 0x495F4749) as u32) == 0x7C48EB85u32,
        ((0x1F282B0Bu32 + 0x534D4554) as u32) == 0x7275705Fu32,
        ((0xBA5AD21Cu32 + 0x14) as u32) == 0xBA5AD230u32,
        jenkins_mix(0x7C48EB85u32, 0x7275705Fu32, 0xBA5AD230u32).2 == 0xB20E35D5u32,
{
}

proof fn lemma_navigation_big_items_id()
    ensures
        engine_string_id("navigation_big_items"@) == 0xB20E35D5,
{
    reveal_strlit("navigation_big_items");
    let k = "navigation_big_items"@.map_values(|c: char| ascii_upper(c));
    assert(k =~= seq![0x4Eu8, 0x41u8, 0x56u8, 0x49u8, 0x47u8, 0x41u8, 0x54u8, 0x49u8, 0x4Fu8, 0x4Eu8, 0x5Fu8, 0x42u8, 0x49u8, 0x47u8, 0x5Fu8, 0x49u8, 0x54u8, 0x45u8, 0x4Du8, 0x53u8]);
    assert(k.subrange(12, 20) =~= seq![0x49u8, 0x47u8, 0x5Fu8, 0x49u8, 0x54u8, 0x45u8, 0x4Du8, 0x53u8]);
    lemma_navigation_big_items_rounds();
    reveal_with_fuel(jenkins_rounds, 3);
}

proof fn lemma_menu_phone_left_rounds()
    by (bit_vector)
    ensures
        ((0x9E3779B9u32 + 0x554E454D) as u32) == 0xF385BF06u32,
        ((0x9E3779B9u32 + 0x4F48505F) as u32) == 0xED7FCA18u32,
        ((0x0u32 + 0x4C5F454E) as u32) == 0x4C5F454Eu32,
        jenkins_mix(0xF385BF06u32, 0xED7FCA18u32, 0x4C5F454Eu32).0 == 0x164B6D86u32,
        jenkins_mix(0xF385BF06u32, 0xED7FCA18u32, 0x4C5F454Eu32).1 == 0x804FC3EFu32,
        jenkins_mix(0xF385BF06u32, 0xED7FCA18u32, 0x4C5F454Eu32).2 == 0x1A83223Au32,
        ((0x164B6D86u32 + 0x544645) as u32) == 0x169FB3CBu32,
        ((0x804FC3EFu32 + 0x0) as u32) == 0x804FC3EFu32,
        ((0x1A83223Au32 + 0xF) as u32) == 0x1A832249u32,
        jenkins_mix(0x169FB3CBu32, 0x804FC3EFu32, 0x1A832249u32).2 == 0xC33B4C02u32,
{
}

proof fn lemma_menu_phone_left_id()
    ensures
        engine_string_id("menu_phone_left"@) == 0xC33B4C02,
{
    reveal_strlit("menu_phone_left");
    let k = "menu_phone_left"@.map_values(|c: char| ascii_upper(c));
    assert(k =~= seq![0x4Du8, 0x45u8, 0x4Eu8, 0x55u8, 0x5Fu8, 0x50u8, 0x48u8, 0x4Fu8, 0x4Eu8, 0x45u8, 0x5Fu8, 0x4Cu8, 0x45u8, 0x46u8, 0x54u8]);
    assert(k.subrange(12, 15) =~= seq![0x45u8, 0x46u8, 0x54u8]);
    lemma_menu_phone_left_rounds();
    reveal_with_fuel(jenkins_rounds, 3);
}

proof fn lemma_menu_dpad_left_rounds()
    by (bit_vector)
    ensures
        ((0x9E3779B9u32 + 0x554E454D) as u32) == 0xF385BF06u32,
        ((0x9E3779B9u32 + 0x4150445F) as u32) == 0xDF87BE18u32,
        ((0x0u32 + 0x454C5F44) as u32) == 0x454C5F44u32,
        jenkins_mix(0xF385BF06u32, 0xDF87BE18u32, 0x454C5F44u32).0 == 0xBC8D9109u32,
        jenkins_mix(0xF385BF06u32, 0xDF87BE18u32, 0x454C5F44u32).1 == 0xC9B7FC17u32,
        jenkins_mix(0xF385BF06u32, 0xDF87BE18u32, 0x454C5F44u32).2 == 0xEE790F0Eu32,
        ((0xBC8D9109u32 + 0x5446) as u32) == 0xBC8DE54Fu32,
        ((0xC9B7FC17u32 + 0x0) as u32) == 0xC9B7FC17u32,
        ((0xEE790F0Eu32 + 0xE) as u32) == 0xEE790F1Cu32,
        jenkins_mix(0xBC8DE54Fu32, 0xC9B7FC17u32, 0xEE790F1Cu32).2 == 0xD64E0E2Au32,
{
}

proof fn lemma_menu_dpad_left_id()
    ensures
        engine_string_id("menu_dpad_left"@) == 0xD64E0E2A,
{
    reveal_strlit("menu_dpad_left");
    let k = "menu_dpad_left"@.map_values(|c: char| ascii_upper(c));
    assert(k =~= seq![0x4Du8, 0x45u8, 0x4Eu8, 0x55u8, 0x5Fu8, 0x44u8, 0x50u8, 0x41u8, 0x44u8, 0x5Fu8, 0x4Cu8, 0x45u8, 0x46u8, 0x54u8]);
    assert(k.subrange(12, 14) =~= seq![0x46u8, 0x54u8]);
    lemma_menu_dpad_left_rounds();
    reveal_with_fuel(jenkins_rounds, 3);
}

proof fn lemma_menu_lstick_left_rounds()
    by (bit_vector)
    ensures
        ((0x9E3779B9u32 + 0x554E454D) as u32) == 0xF385BF06u32,
        ((0x9E3779B9u32 + 0x54534C5F) as u32) == 0xF28AC618u32,
        ((0x0u32 + 0x5F4B4349) as u32) == 0x5F4B4349u32,
        jenkins_mix(0xF385BF06u32, 0xF28AC618u32, 0x5F4B4349u32).0 == 0x78F56732u32,
        jenkins_mix(0xF385BF06u32, 0xF28AC618u32, 0x5F4B4349u32).1 == 0x8FF0A46Fu32,
        jenkins_mix(0xF385BF06u32, 0xF28AC618u32, 0x5F4B4349u32).2 == 0xCE5E67A2u32,
        ((0x78F56732u32 + 0x5446454C) as u32) == 0xCD3BAC7Eu32,
        ((0x8FF0A46Fu32 + 0x0) as u32) == 0x8FF0A46Fu32,
        ((0xCE5E67A2u32 + 0x10) as u32) == 0xCE5E67B2u32,
        jenkins_mix(0xCD3BAC7Eu32, 0x8FF0A46Fu32, 0xCE5E67B2u32).2 == 0xD9B1E95Cu32,
{
}

proof fn lemma_menu_lstick_left_id()
    ensures
        engine_string_id("menu_lstick_left"@) == 0xD9B1E95C,
{
    reveal_strlit("menu_lstick_left");
    let k = "menu_lstick_left"@.map_values(|c: char| ascii_upper(c));
    assert(k =~= seq![0x4Du8, 0x45u8, 0x4Eu8, 0x55u8, 0x5Fu8, 0x4Cu8, 0x53u8, 0x54u8, 0x49u8, 0x43u8, 0x4Bu8, 0x5Fu8, 0x4Cu8, 0x45u8, 0x46u8, 0x54u8]);
    assert(k.subrange(12, 16) =~= seq![0x4Cu8, 0x45u8, 0x46u8, 0x54u8]);
    lemma_menu_lstick_left_rounds();
    reveal_with_fuel(jenkins_rounds, 3);
}

proof fn lemma_decel_rounds()
    by (bit_vector)
    ensures
        ((0x9E3779B9u32 + 0x45434544) as u32) == 0xE37ABEFDu32,
        ((0x9E3779B9u32 + 0x4C) as u32) == 0x9E377A05u32,
        ((0x0u32 + 0x5) as u32) == 0x5u32,
        jenkins_mix(0xE37ABEFDu32, 0x9E377A05u32, 0x5u32).2 == 0xDFEFDBFBu32,
{
}

proof fn lemma_decel_id()
    ensures
        engine_string_id("decel"@) == 0xDFEFDBFB,
{
    reveal_strlit("decel");
    let k = "decel"@.map_values(|c: char| ascii_upper(c));
    assert(k =~= seq![0x44u8, 0x45u8, 0x43u8, 0x45u8, 0x4Cu8]);
    lemma_decel_rounds();
    reveal_with_fuel(jenkins_rounds, 2);
}

/// A string that a file stores as its string id: one of the names the engine
/// interns for carousels and actions, or the empty string.
#[derive(Debug, Clone, Copy, PartialEq, Eq, Structural, Hash)]
pub enum InternedString {
    NavigationDefault,
    NavigationRow,
    NavigationSpeed,
    MenuValid,
    MenuLstickRight,
    Navigation,
    MenuPhoneRight,
    MenuDpadRight,
    NavigationAge,
    Gotodefault,
    NavigationKids,
    Asyncplayervideo,
    NavigationBigItems,
    MenuPhoneLeft,
    MenuDpadLeft,
    MenuLstickLeft,
    Decel,
    Empty,
}

impl InternedString {
    /// The string id that stands for this string in a file.
    pub open spec fn spec_id(self) -> u32 {
        match self {
            InternedString::NavigationDefault => 0x1445_31FF,
            InternedString::NavigationRow => 0x1576_B015,
            InternedString::NavigationSpeed => 0x2810_2F02,
            InternedString::MenuValid => 0x40A1_5156,
            InternedString::MenuLstickRight => 0x418F_AF9A,
            InternedString::Navigation => 0x4C55_6308,
            InternedString::MenuPhoneRight => 0x6DC2_DBB2,
            InternedString::MenuDpadRight => 0x7233_490C,
            InternedString::NavigationAge => 0x7411_331E,
            InternedString::Gotodefault => 0x83B2_58E1,
            InternedString::NavigationKids => 0x8E09_B64A,
            InternedString::Asyncplayervideo => 0xAA55_B6BD,
            InternedString::NavigationBigItems => 0xB20E_35D5,
            InternedString::MenuPhoneLeft => 0xC33B_4C02,
            InternedString::MenuDpadLeft => 0xD64E_0E2A,
            InternedString::MenuLstickLeft => 0xD9B1_E95C,
            InternedString::Decel => 0xDFEF_DBFB,
            InternedString::Empty => 0xFFFF_FFFF,
        }
    }

    /// Whether `id` stands for one of the interned strings.
    pub open spec fn known(id: u32) -> bool {
        id == 0x1445_31FF
            || id == 0x1576_B015
            || id == 0x2810_2F02
            || id == 0x40A1_5156
            || id == 0x418F_AF9A
            || id == 0x4C55_6308
            || id == 0x6DC2_DBB2
            || id == 0x7233_490C
            || id == 0x7411_331E
            || id == 0x83B2_58E1
            || id == 0x8E09_B64A
            || id == 0xAA55_B6BD
            || id == 0xB20E_35D5
            || id == 0xC33B_4C02
            || id == 0xD64E_0E2A
            || id == 0xD9B1_E95C
            || id == 0xDFEF_DBFB
            || id == 0xFFFF_FFFF
    }

    /// The string id that stands for this string in a file.
    pub fn id(&self) -> (r: u32)
        ensures
            r == self.spec_id(),
    {
        match self {
            InternedString::NavigationDefault => 0x1445_31FF,
            InternedString::NavigationRow => 0x1576_B015,
            InternedString::NavigationSpeed => 0x2810_2F02,
            InternedString::MenuValid => 0x40A1_5156,
            InternedString::MenuLstickRight => 0x418F_AF9A,
            InternedString::Navigation => 0x4C55_6308,
            InternedString::MenuPhoneRight => 0x6DC2_DBB2,
            InternedString::MenuDpadRight => 0x7233_490C,
            InternedString::NavigationAge => 0x7411_331E,
            InternedString::Gotodefault => 0x83B2_58E1,
            InternedString::NavigationKids => 0x8E09_B64A,
            InternedString::Asyncplayervideo => 0xAA55_B6BD,
            InternedString::NavigationBigItems => 0xB20E_35D5,
            InternedString::MenuPhoneLeft => 0xC33B_4C02,
            InternedString::MenuDpadLeft => 0xD64E_0E2A,
            InternedString::MenuLstickLeft => 0xD9B1_E95C,
            InternedString::Decel => 0xDFEF_DBFB,
            InternedString::Empty => 0xFFFF_FFFF,
        }
    }

    /// Every interned string has an id of its own, so reading back the id of a
    /// string gives that string.
    pub proof fn lemma_ids_distinct(x: InternedString, y: InternedString)
        ensures
            InternedString::known(x.spec_id()),
            x.spec_id() == y.spec_id() ==> x == y,
    {
    }

    /// Every interned string but the empty one is stored as the string id the
    /// engine gives its text (see `engine_string_id`); the empty string, and
    /// only it, as `0xFFFF_FFFF`.
    pub proof fn lemma_id_of_text(x: InternedString)
        ensures
            x.text().len() > 0 ==> x.spec_id() == engine_string_id(x.text()),
            x.text().len() == 0 <==> x.spec_id() == 0xFFFF_FFFF,
    {
        match x {
        InternedString::NavigationDefault => {
            reveal_strlit("navigation_default");
            lemma_navigation_default_id();
        },
        InternedString::NavigationRow => {
            reveal_strlit("navigation_row");
            lemma_navigation_row_id();
        },
        InternedString::NavigationSpeed => {
            reveal_strlit("navigation_speed");
            lemma_navigation_speed_id();
        },
        InternedString::MenuValid => {
            reveal_strlit("menu_valid");
            lemma_menu_valid_id();
        },
        InternedString::MenuLstickRight => {
            reveal_strlit("menu_lstick_right");
            lemma_menu_lstick_right_id();
        },
        InternedString::Navigation => {
            reveal_strlit("navigation");
            lemma_navigation_id();
        },
        InternedString::MenuPhoneRight => {
            reveal_strlit("menu_phone_right");
            lemma_menu_phone_right_id();
        },
        InternedString::MenuDpadRight => {
            reveal_strlit("menu_dpad_right");
            lemma_menu_dpad_right_id();
        },
        InternedString::NavigationAge => {
            reveal_strlit("navigation_age");
            lemma_navigation_age_id();
        },
        InternedString::Gotodefault => {
            reveal_strlit("gotodefault");
            lemma_gotodefault_id();
        },
        InternedString::NavigationKids => {
            reveal_strlit("navigation_kids");
            lemma_navigation_kids_id();
        },
        InternedString::Asyncplayervideo => {
            reveal_strlit("asyncplayervideo");
            lemma_asyncplayervideo_id();
        },
        InternedString::NavigationBigItems => {
            reveal_strlit("navigation_big_items");
            lemma_navigation_big_items_id();
        },
        InternedString::MenuPhoneLeft => {
            reveal_strlit("menu_phone_left");
            lemma_menu_phone_left_id();
        },
        InternedString::MenuDpadLeft => {
            reveal_strlit("menu_dpad_left");
            lemma_menu_dpad_left_id();
        },
        InternedString::MenuLstickLeft => {
            reveal_strlit("menu_lstick_left");
            lemma_menu_lstick_left_id();
        },
        InternedString::Decel => {
            reveal_strlit("decel");
            lemma_decel_id();
        },
            InternedString::Empty => {
                reveal_strlit("");
            },
        }
    }

    /// The string that `id` stands for; `None` for an id that is not interned.
    pub fn from_id(id: u32) -> (r: Option<InternedString>)
        ensures
            match r {
                Some(x) => InternedString::known(id) && x.spec_id() == id
                    && (x.text().len() > 0 ==> engine_string_id(x.text()) == id)
                    && (x.text().len() == 0 <==> id == 0xFFFF_FFFF),
                None => !InternedString::known(id),
            },
    {
        proof {
            assert forall|x: InternedString| #[trigger] x.spec_id() == id implies
                (x.text().len() > 0 ==> engine_string_id(x.text()) == id)
                && (x.text().len() == 0 <==> id == 0xFFFF_FFFF) by {
                InternedString::lemma_id_of_text(x);
            }
        }
        match id {
            0x1445_31FF => Some(InternedString::NavigationDefault),
            0x1576_B015 => Some(InternedString::NavigationRow),
            0x2810_2F02 => Some(InternedString::NavigationSpeed),
            0x40A1_5156 => Some(InternedString::MenuValid),
            0x418F_AF9A => Some(InternedString::MenuLstickRight),
            0x4C55_6308 => Some(InternedString::Navigation),
            0x6DC2_DBB2 => Some(InternedString::MenuPhoneRight),
            0x7233_490C => Some(InternedString::MenuDpadRight),
            0x7411_331E => Some(InternedString::NavigationAge),
            0x83B2_58E1 => Some(InternedString::Gotodefault),
            0x8E09_B64A => Some(InternedString::NavigationKids),
            0xAA55_B6BD => Some(InternedString::Asyncplayervideo),
            0xB20E_35D5 => Some(InternedString::NavigationBigItems),
            0xC33B_4C02 => Some(InternedString::MenuPhoneLeft),
            0xD64E_0E2A => Some(InternedString::MenuDpadLeft),
            0xD9B1_E95C => Some(InternedString::MenuLstickLeft),
            0xDFEF_DBFB => Some(InternedString::Decel),
            0xFFFF_FFFF => Some(InternedString::Empty),
            _ => None,
        }
    }

    /// The text of the string.
    pub fn as_str(&self) -> (r: &'static str)
        ensures
            r@ == self.text(),
    {
        match self {
            InternedString::NavigationDefault => "navigation_default",
            InternedString::NavigationRow => "navigation_row",
            InternedString::NavigationSpeed => "navigation_speed",
            InternedString::MenuValid => "menu_valid",
            InternedString::MenuLstickRight => "menu_lstick_right",
            InternedString::Navigation => "navigation",
            InternedString::MenuPhoneRight => "menu_phone_right",
            InternedString::MenuDpadRight => "menu_dpad_right",
            InternedString::NavigationAge => "navigation_age",
            InternedString::Gotodefault => "gotodefault",
            InternedString::NavigationKids => "navigation_kids",
            InternedString::Asyncplayervideo => "asyncplayervideo",
            InternedString::NavigationBigItems => "navigation_big_items",
            InternedString::MenuPhoneLeft => "menu_phone_left",
            InternedString::MenuDpadLeft => "menu_dpad_left",
            InternedString::MenuLstickLeft => "menu_lstick_left",
            InternedString::Decel => "decel",
            InternedString::Empty => "",
        }
    }

    /// The text of the string.
    pub open spec fn text(self) -> Seq<char> {
        match self {
            InternedString::NavigationDefault => "navigation_default"@,
            InternedString::NavigationRow => "navigation_row"@,
            InternedString::NavigationSpeed => "navigation_speed"@,
            InternedString::MenuValid => "menu_valid"@,
            InternedString::MenuLstickRight => "menu_lstick_right"@,
            InternedString::Navigation => "navigation"@,
            InternedString::MenuPhoneRight => "menu_phone_right"@,
            InternedString::MenuDpadRight => "menu_dpad_right"@,
            InternedString::NavigationAge => "navigation_age"@,
            InternedString::Gotodefault => "gotodefault"@,
            InternedString::NavigationKids => "navigation_kids"@,
            InternedString::Asyncplayervideo => "asyncplayervideo"@,
            InternedString::NavigationBigItems => "navigation_big_items"@,
            InternedString::MenuPhoneLeft => "menu_phone_left"@,
            InternedString::MenuDpadLeft => "menu_dpad_left"@,
            InternedString::MenuLstickLeft => "menu_lstick_left"@,
            InternedString::Decel => "decel"@,
            InternedString::Empty => ""@,
        }
    }
}

} // verus!
