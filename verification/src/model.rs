use vstd::prelude::*;

verus! {

/// Why a lookup, refresh or render attempt failed.
#[derive(Clone, Copy, PartialEq, Eq, Structural, Debug)]
pub enum LookupError {
    /// The remote data API could not be reached.
    RemoteUnavailable,
    /// The remote data API answered with data in an unexpected shape.
    RemoteMalformed,
    /// A fetched record could not be reconciled with what was requested.
    DataConsistency,
}

/// A team record as the remote data API describes it. The roster partitions
/// hold player ids: `lineup` and `rotation` are ordered and active, `bullpen`
/// and `bench` are reserves that only the full ("forbidden") view reveals.
#[derive(Debug, Clone)]
pub struct Team {
    pub id: String,
    pub full_name: String,
    pub nickname: String,
    pub location: String,
    pub slogan: String,
    /// Hex colour string as the API sends it, e.g. `"#a01e1e"`: one prefix
    /// character, then base-16 digits.
    pub main_color: String,
    /// The team emoji's Unicode code point as a hex string with a
    /// two-character prefix, e.g. `"0x1f980"`.
    pub emoji: String,
    pub lineup: Vec<String>,
    pub rotation: Vec<String>,
    pub bullpen: Vec<String>,
    pub bench: Vec<String>,
    pub total_shames: u64,
    pub total_shamings: u64,
    pub season_shames: u64,
    pub season_shamings: u64,
    pub championships: u64,
}

/// A player record. Star ratings are held in hundredths of a star
/// (0 to 500); the numeric "forbidden" stats are held already formatted,
/// since this library never computes on them.
#[derive(Debug, Clone)]
pub struct Player {
    pub id: String,
    pub name: String,
    /// Batting stars, in hundredths of a star.
    pub batting: u32,
    /// Pitching stars, in hundredths of a star.
    pub pitching: u32,
    /// Baserunning stars, in hundredths of a star.
    pub baserunning: u32,
    /// Defense stars, in hundredths of a star.
    pub defense: u32,
    pub bat: Option<String>,
    pub armor: Option<String>,
    pub ritual: Option<String>,
    /// Index into the fixed coffee-style label table.
    pub coffee: Option<usize>,
    /// Index into the fixed blood-type label table.
    pub blood: Option<usize>,
    pub fate: String,
    pub total_fingers: u64,
    pub peanut_allergy: bool,
    pub anticapitalism: String,
    pub base_thirst: String,
    pub buoyancy: String,
    pub chasiness: String,
    pub coldness: String,
    pub continuation: String,
    pub divinity: String,
    pub ground_friction: String,
    pub indulgence: String,
    pub laserlikeness: String,
    pub martyrdom: String,
    pub moxie: String,
    pub musclitude: String,
    pub omniscience: String,
    pub overpowerment: String,
    pub patheticism: String,
    pub ruthlessness: String,
    pub shakespearianism: String,
    pub suppression: String,
    pub tenaciousness: String,
    pub thwackability: String,
    pub tragicness: String,
    pub unthwackability: String,
    pub watchfulness: String,
    pub pressurization: String,
    pub cinnamon: String,
}

/// One labeled field of a rendered message.
#[derive(Debug)]
pub struct Field {
    pub name: String,
    pub value: String,
    pub inline: bool,
}

/// The author block of a rendered message.
#[derive(Debug)]
pub struct Author {
    pub name: String,
    pub url: String,
    pub icon_url: String,
}

/// A rendered rich message, ready for the messaging transport to send.
#[derive(Debug)]
pub struct MessagePayload {
    pub title: String,
    pub url: String,
    pub color: Option<u32>,
    pub thumbnail: Option<String>,
    pub description: Option<String>,
    pub author: Option<Author>,
    pub fields: Vec<Field>,
}

/// The views of a sequence of strings, element by element.
pub open spec fn str_views(v: Seq<String>) -> Seq<Seq<char>> {
    v.map_values(|s: String| s@)
}

/// Two team records hold the same data, field by field (strings and id
/// sequences compared by their contents).
pub open spec fn team_eq(a: Team, b: Team) -> bool {
    &&& a.id@ == b.id@
    &&& a.full_name@ == b.full_name@
    &&& a.nickname@ == b.nickname@
    &&& a.location@ == b.location@
    &&& a.slogan@ == b.slogan@
    &&& a.main_color@ == b.main_color@
    &&& a.emoji@ == b.emoji@
    &&& str_views(a.lineup@) == str_views(b.lineup@)
    &&& str_views(a.rotation@) == str_views(b.rotation@)
    &&& str_views(a.bullpen@) == str_views(b.bullpen@)
    &&& str_views(a.bench@) == str_views(b.bench@)
    &&& a.total_shames == b.total_shames
    &&& a.total_shamings == b.total_shamings
    &&& a.season_shames == b.season_shames
    &&& a.season_shamings == b.season_shamings
    &&& a.championships == b.championships
}

/// Clones a vector of strings, keeping every element equal.
pub fn clone_strings(v: &Vec<String>) -> (r: Vec<String>)
    ensures
        r@ == v@,
{
    let mut out: Vec<String> = Vec::new();
    let mut i: usize = 0;
    while i < v.len()
        invariant
            i <= v.len(),
            out@ == v@.subrange(0, i as int),
        decreases v.len() - i,
    {
        out.push(v[i].clone());
        i = i + 1;
        proof {
            assert(out@ =~= v@.subrange(0, i as int));
        }
    }
    proof {
        assert(out@ =~= v@);
    }
    out
}

/// Clones a team record, keeping every field equal.
pub fn clone_team(t: &Team) -> (r: Team)
    ensures
        team_eq(r, *t),
{
    let r = Team {
        id: t.id.clone(),
        full_name: t.full_name.clone(),
        nickname: t.nickname.clone(),
        location: t.location.clone(),
        slogan: t.slogan.clone(),
        main_color: t.main_color.clone(),
        emoji: t.emoji.clone(),
        lineup: clone_strings(&t.lineup),
        rotation: clone_strings(&t.rotation),
        bullpen: clone_strings(&t.bullpen),
        bench: clone_strings(&t.bench),
        total_shames: t.total_shames,
        total_shamings: t.total_shamings,
        season_shames: t.season_shames,
        season_shamings: t.season_shamings,
        championships: t.championships,
    };
    r
}

} // verus!
