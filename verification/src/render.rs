use vstd::prelude::*;
use crate::model::{Author, Field, LookupError, MessagePayload, Player, Team};
use crate::stars::{render_stars, star_rep};
use crate::text::{
    all_hex, dec_rep, hex_val, maybe_spoiler, parse_hex, push_char, spoil, u64_to_string,
};

verus! {

/// What percent-encoding every non-alphanumeric byte of a string gives; the
/// result depends on the input characters alone.
pub uninterp spec fn pct_of(s: Seq<char>) -> Seq<char>;

/// Relies on percent_encoding::utf8_percent_encode with the NON_ALPHANUMERIC
/// set: every byte outside ASCII letters and digits is written as a percent
/// escape, a pure function of the input text.
#[verifier::external_body]
pub(crate) fn percent_encode_all(s: &str) -> (r: String)
    ensures
        r@ == pct_of(s@),
{
    ::percent_encoding::utf8_percent_encode(s, ::percent_encoding::NON_ALPHANUMERIC).to_string()
}

/// A Unicode scalar value: what a `char` may hold.
pub open spec fn is_scalar(v: nat) -> bool {
    v < 0xD800 || (0xE000 <= v && v <= 0x10FFFF)
}

/// Relies on char::from_u32: `Some` exactly on Unicode scalar values, and
/// the returned character has the given value.
#[verifier::external_body]
pub(crate) fn char_from_u32(v: u32) -> (r: Option<char>)
    ensures
        r is Some <==> is_scalar(v as nat),
        r matches Some(c) ==> c as u32 == v,
{
    char::from_u32(v)
}

/// The character with the given scalar value.
pub open spec fn scalar_char(v: nat) -> char {
    choose|c: char| (#[trigger] (c as u32)) == v
}

/// A character is recovered from its own scalar value.
pub proof fn lemma_scalar_char(c: char)
    ensures
        scalar_char((c as u32) as nat) == c,
{
    assert(exists|x: char| (#[trigger] (x as u32)) == (c as u32) as nat) by {
        assert((c as u32) == (c as u32) as nat);
    }
    let x = choose|x: char| (#[trigger] (x as u32)) == (c as u32) as nat;
    assert(x == c);
}

/// A team's colour string is well formed: a one-character prefix, then one
/// to eight hex digits whose value fits 24-bit RGB.
pub open spec fn valid_color(s: Seq<char>) -> bool {
    &&& 2 <= s.len() <= 9
    &&& all_hex(s.subrange(1, s.len() as int))
    &&& hex_val(s.subrange(1, s.len() as int)) <= 0xFFFFFF
}

/// The 24-bit colour a well-formed colour string carries.
pub open spec fn color_val(s: Seq<char>) -> nat {
    hex_val(s.subrange(1, s.len() as int))
}

/// Parses a team's accent colour: strip the one-character prefix, read the
/// rest as base-16, reject anything else as malformed remote data.
pub fn team_color(t: &Team) -> (r: Result<u32, LookupError>)
    ensures
        r is Ok <==> valid_color(t.main_color@),
        r matches Ok(v) ==> v as nat == color_val(t.main_color@),
        r matches Err(e) ==> e == LookupError::RemoteMalformed,
{
    let n = t.main_color.as_str().unicode_len();
    if n < 2 {
        return Err(LookupError::RemoteMalformed);
    }
    let digits = t.main_color.as_str().substring_char(1, n);
    match parse_hex(digits) {
        Some(v) => {
            if v <= 0xFFFFFF {
                Ok(v)
            } else {
                Err(LookupError::RemoteMalformed)
            }
        },
        None => Err(LookupError::RemoteMalformed),
    }
}

/// A team's emoji string is well formed: a two-character prefix, then one to
/// eight hex digits holding a Unicode scalar value.
pub open spec fn valid_emoji(s: Seq<char>) -> bool {
    &&& 3 <= s.len() <= 10
    &&& all_hex(s.subrange(2, s.len() as int))
    &&& is_scalar(hex_val(s.subrange(2, s.len() as int)))
}

/// The scalar value a well-formed emoji string carries.
pub open spec fn emoji_val(s: Seq<char>) -> nat {
    hex_val(s.subrange(2, s.len() as int))
}

/// Decodes a team's emoji: strip the two-character prefix, read the rest as
/// base-16, take the character with that code point; anything else is
/// malformed remote data.
pub fn team_emoji(t: &Team) -> (r: Result<char, LookupError>)
    ensures
        r is Ok <==> valid_emoji(t.emoji@),
        r matches Ok(c) ==> (c as u32) as nat == emoji_val(t.emoji@),
        r matches Err(e) ==> e == LookupError::RemoteMalformed,
{
    let n = t.emoji.as_str().unicode_len();
    if n < 3 {
        return Err(LookupError::RemoteMalformed);
    }
    let digits = t.emoji.as_str().substring_char(2, n);
    match parse_hex(digits) {
        Some(v) => {
            match char_from_u32(v) {
                Some(c) => Ok(c),
                None => Err(LookupError::RemoteMalformed),
            }
        },
        None => Err(LookupError::RemoteMalformed),
    }
}

/// The thumbnail URL for an emoji character: the percent-encoded character
/// interpolated into the emoji-image CDN template.
pub open spec fn emoji_png(c: char) -> Seq<char> {
    "https://emojicdn.elk.sh/"@ + pct_of(seq![c]) + "?style=twitter"@
}

/// Builds the emoji thumbnail URL.
fn emoji_png_url(c: char) -> (r: String)
    ensures
        r@ == emoji_png(c),
{
    let mut es = String::new();
    push_char(&mut es, c);
    proof {
        assert(es@ =~= seq![c]);
    }
    let enc = percent_encode_all(es.as_str());
    let mut url = String::new();
    url.append("https://emojicdn.elk.sh/");
    url.append(enc.as_str());
    url.append("?style=twitter");
    proof {
        assert(url@ =~= emoji_png(c));
    }
    url
}

/// The deep-link URL of a team page.
pub open spec fn team_url_of(id: Seq<char>) -> Seq<char> {
    "https://www.blaseball.com/team/"@ + id
}

/// The deep-link URL of a player page.
pub open spec fn player_url_of(id: Seq<char>) -> Seq<char> {
    "https://www.blaseball.com/player/"@ + id
}

/// Builds a team's deep-link URL.
fn team_url(id: &String) -> (r: String)
    ensures
        r@ == team_url_of(id@),
{
    let mut url = String::new();
    url.append("https://www.blaseball.com/team/");
    url.append(id.as_str());
    proof {
        assert(url@ =~= team_url_of(id@));
    }
    url
}

/// Builds a player's deep-link URL.
fn player_url(id: &String) -> (r: String)
    ensures
        r@ == player_url_of(id@),
{
    let mut url = String::new();
    url.append("https://www.blaseball.com/player/");
    url.append(id.as_str());
    proof {
        assert(url@ =~= player_url_of(id@));
    }
    url
}

/// The names of a list of players, in order.
pub open spec fn pnames(ps: Seq<Player>) -> Seq<Seq<char>> {
    ps.map_values(|p: Player| p.name@)
}

/// A bullet list: one line per name, each introduced by a bullet and a
/// space.
pub open spec fn bullets(names: Seq<Seq<char>>) -> Seq<char>
    decreases names.len(),
{
    if names.len() == 0 {
        Seq::empty()
    } else {
        bullets(names.drop_last()) + "\u{2022} "@ + names.last() + "\n"@
    }
}

/// Appends the bullet list of the players' names in positions
/// `from..to`.
fn append_bullets(text: &mut String, players: &Vec<Player>, from: usize, to: usize)
    requires
        from <= to <= players@.len(),
    ensures
        final(text)@ == old(text)@ + bullets(pnames(players@).subrange(from as int, to as int)),
{
    let ghost base = text@;
    let mut i: usize = from;
    proof {
        assert(pnames(players@).subrange(from as int, from as int) =~= Seq::<Seq<char>>::empty());
        assert(base + Seq::<char>::empty() =~= base);
    }
    while i < to
        invariant
            from <= i <= to <= players@.len(),
            text@ == base + bullets(pnames(players@).subrange(from as int, i as int)),
        decreases to - i,
    {
        text.append("\u{2022} ");
        text.append(players[i].name.as_str());
        text.append("\n");
        i = i + 1;
        proof {
            let sub = pnames(players@).subrange(from as int, i as int);
            assert(sub.drop_last() =~= pnames(players@).subrange(from as int, i as int - 1));
            assert(sub.last() == players@[i as int - 1].name@);
            assert(text@ =~= base + bullets(sub));
        }
    }
}

/// The description of a team message: the slogan between emphasis markers,
/// the first nine supplied players as the lineup, the next five as the
/// rotation, and, in forbidden mode only, the remaining players in a
/// spoiler-wrapped unused section.
pub open spec fn team_description(slogan: Seq<char>, names: Seq<Seq<char>>, forbidden: bool) -> Seq<
    char,
> {
    let l9 = if names.len() < 9 {
        names.len() as int
    } else {
        9
    };
    let r5 = if names.len() < 14 {
        names.len() as int
    } else {
        14
    };
    "*"@ + slogan + "*\n\nLineup:\n"@ + bullets(names.subrange(0, l9)) + "\nRotation:\n"@
        + bullets(names.subrange(l9, r5)) + (if forbidden {
        "||\nUnused:\n"@ + bullets(names.subrange(r5, names.len() as int)) + "||"@
    } else {
        Seq::empty()
    })
}

/// The view of a message field: name, value and inline flag.
pub open spec fn field_views(fs: Seq<Field>) -> Seq<(Seq<char>, Seq<char>, bool)> {
    fs.map_values(|f: Field| (f.name@, f.value@, f.inline))
}

/// Pushes one inline field, spoiler-wrapping the value when asked.
fn push_field(fields: &mut Vec<Field>, name: &str, value: &str, spoiler: bool)
    ensures
        field_views(final(fields)@) == field_views(old(fields)@) + seq![
            (name@, spoil(value@, spoiler), true),
        ],
{
    let f = Field { name: name.to_owned(), value: maybe_spoiler(value, spoiler), inline: true };
    fields.push(f);
    proof {
        assert(field_views(fields@) =~= field_views(old(fields)@) + seq![
            (name@, spoil(value@, spoiler), true),
        ]);
    }
}

/// The five numeric counter fields of a team message.
pub open spec fn team_fields(t: Team) -> Seq<(Seq<char>, Seq<char>, bool)> {
    seq![
        ("Total Shames"@, dec_rep(t.total_shames as nat), true),
        ("Total Shamings"@, dec_rep(t.total_shamings as nat), true),
        ("Season Shames"@, dec_rep(t.season_shames as nat), true),
        ("Season Shamings"@, dec_rep(t.season_shamings as nat), true),
        ("Championships"@, dec_rep(t.championships as nat), true),
    ]
}

/// Renders a team as a rich message: title, accent colour, emoji thumbnail,
/// deep link, the description with lineup, rotation and (forbidden mode
/// only) unused sections, and the five counter fields. A malformed colour
/// or emoji string is a `RemoteMalformed` error.
pub fn render_team(team: &Team, players: &Vec<Player>, forbidden: bool) -> (r: Result<
    MessagePayload,
    LookupError,
>)
    ensures
        r is Ok <==> valid_color(team.main_color@) && valid_emoji(team.emoji@),
        r matches Err(e) ==> e == LookupError::RemoteMalformed,
        r matches Ok(m) ==> {
            &&& m.title@ == team.full_name@
            &&& m.url@ == team_url_of(team.id@)
            &&& m.color matches Some(c) && c as nat == color_val(team.main_color@)
            &&& m.thumbnail matches Some(u) && u@ == emoji_png(
                scalar_char(emoji_val(team.emoji@)),
            )
            &&& m.description matches Some(d) && d@ == team_description(
                team.slogan@,
                pnames(players@),
                forbidden,
            )
            &&& m.author is None
            &&& field_views(m.fields@) == team_fields(*team)
        },
{
    let color = match team_color(team) {
        Ok(c) => c,
        Err(e) => {
            return Err(e);
        },
    };
    let emoji = match team_emoji(team) {
        Ok(c) => c,
        Err(e) => {
            return Err(e);
        },
    };
    let png = emoji_png_url(emoji);
    proof {
        lemma_scalar_char(emoji);
    }
    let url = team_url(&team.id);

    let mut text = String::new();
    text.append("*");
    text.append(team.slogan.as_str());
    text.append("*\n\nLineup:\n");
    let l9 = if players.len() < 9 {
        players.len()
    } else {
        9
    };
    let r5 = if players.len() < 14 {
        players.len()
    } else {
        14
    };
    append_bullets(&mut text, players, 0, l9);
    text.append("\nRotation:\n");
    append_bullets(&mut text, players, l9, r5);
    if forbidden {
        text.append("||\nUnused:\n");
        append_bullets(&mut text, players, r5, players.len());
        text.append("||");
    }
    proof {
        assert(text@ =~= team_description(team.slogan@, pnames(players@), forbidden));
    }

    let mut fields: Vec<Field> = Vec::new();
    let v1 = u64_to_string(team.total_shames);
    push_field(&mut fields, "Total Shames", v1.as_str(), false);
    let v2 = u64_to_string(team.total_shamings);
    push_field(&mut fields, "Total Shamings", v2.as_str(), false);
    let v3 = u64_to_string(team.season_shames);
    push_field(&mut fields, "Season Shames", v3.as_str(), false);
    let v4 = u64_to_string(team.season_shamings);
    push_field(&mut fields, "Season Shamings", v4.as_str(), false);
    let v5 = u64_to_string(team.championships);
    push_field(&mut fields, "Championships", v5.as_str(), false);
    proof {
        assert(field_views(fields@) =~= team_fields(*team));
    }

    Ok(
        MessagePayload {
            title: team.full_name.clone(),
            url,
            color: Some(color),
            thumbnail: Some(png),
            description: Some(text),
            author: None,
            fields,
        },
    )
}

/// Some id in the list has these contents.
pub open spec fn contains_id(v: Seq<String>, id: Seq<char>) -> bool {
    exists|j: int| 0 <= j < v.len() && (#[trigger] v[j])@ == id
}

/// Whether the list of ids holds the given id.
fn vec_contains_id(v: &Vec<String>, id: &String) -> (r: bool)
    ensures
        r == contains_id(v@, id@),
{
    let mut j: usize = 0;
    while j < v.len()
        invariant
            j <= v@.len(),
            forall|l: int| 0 <= l < j ==> (#[trigger] v@[l])@ != id@,
        decreases v@.len() - j,
    {
        if v[j] == *id {
            return true;
        }
        j = j + 1;
    }
    false
}

/// A player is unused when its id stands in neither the lineup nor the
/// rotation of its team.
pub open spec fn player_unused(t: Team, p: Player) -> bool {
    !contains_id(t.lineup@, p.id@) && !contains_id(t.rotation@, p.id@)
}

/// The fixed coffee-style label table.
pub open spec fn coffee_label(i: int) -> Seq<char> {
    if i == 0 {
        "Black"@
    } else if i == 1 {
        "Light & Sweet"@
    } else if i == 2 {
        "Macchiato"@
    } else if i == 3 {
        "Cream & Sugar"@
    } else if i == 4 {
        "Cold Brew"@
    } else if i == 5 {
        "Flat White"@
    } else if i == 6 {
        "Americano"@
    } else if i == 7 {
        "Espresso"@
    } else if i == 8 {
        "Heavy Foam"@
    } else if i == 9 {
        "Latte"@
    } else if i == 10 {
        "Decaf"@
    } else if i == 11 {
        "Milk Substitute"@
    } else if i == 12 {
        "Plenty of Sugar"@
    } else if i == 13 {
        "Anything"@
    } else {
        Seq::empty()
    }
}

/// The fixed blood-type label table.
pub open spec fn blood_label(i: int) -> Seq<char> {
    if i == 0 {
        "A"@
    } else if i == 1 {
        "AA"@
    } else if i == 2 {
        "AAA"@
    } else if i == 3 {
        "Acidic"@
    } else if i == 4 {
        "Basic"@
    } else if i == 5 {
        "O"@
    } else if i == 6 {
        "O No"@
    } else if i == 7 {
        "H\u{2082}O"@
    } else if i == 8 {
        "Electric"@
    } else if i == 9 {
        "Love"@
    } else if i == 10 {
        "Fire"@
    } else if i == 11 {
        "Psychic"@
    } else if i == 12 {
        "Grass"@
    } else {
        Seq::empty()
    }
}

/// The number of coffee-style labels.
pub const COFFEE_STYLES: usize = 14;

/// The number of blood-type labels.
pub const BLOOD_TYPES: usize = 13;

/// The player's coffee index, if present, points into the label table.
pub open spec fn valid_coffee(p: Player) -> bool {
    match p.coffee {
        Some(i) => i < COFFEE_STYLES,
        None => true,
    }
}

/// The player's blood index, if present, points into the label table.
pub open spec fn valid_blood(p: Player) -> bool {
    match p.blood {
        Some(i) => i < BLOOD_TYPES,
        None => true,
    }
}

/// The coffee-style label for an in-range index.
fn coffee_label_str(i: usize) -> (r: String)
    requires
        i < COFFEE_STYLES,
    ensures
        r@ == coffee_label(i as int),
{
    if i == 0 {
        "Black".to_owned()
    } else if i == 1 {
        "Light & Sweet".to_owned()
    } else if i == 2 {
        "Macchiato".to_owned()
    } else if i == 3 {
        "Cream & Sugar".to_owned()
    } else if i == 4 {
        "Cold Brew".to_owned()
    } else if i == 5 {
        "Flat White".to_owned()
    } else if i == 6 {
        "Americano".to_owned()
    } else if i == 7 {
        "Espresso".to_owned()
    } else if i == 8 {
        "Heavy Foam".to_owned()
    } else if i == 9 {
        "Latte".to_owned()
    } else if i == 10 {
        "Decaf".to_owned()
    } else if i == 11 {
        "Milk Substitute".to_owned()
    } else if i == 12 {
        "Plenty of Sugar".to_owned()
    } else {
        "Anything".to_owned()
    }
}

/// The blood-type label for an in-range index.
fn blood_label_str(i: usize) -> (r: String)
    requires
        i < BLOOD_TYPES,
    ensures
        r@ == blood_label(i as int),
{
    if i == 0 {
        "A".to_owned()
    } else if i == 1 {
        "AA".to_owned()
    } else if i == 2 {
        "AAA".to_owned()
    } else if i == 3 {
        "Acidic".to_owned()
    } else if i == 4 {
        "Basic".to_owned()
    } else if i == 5 {
        "O".to_owned()
    } else if i == 6 {
        "O No".to_owned()
    } else if i == 7 {
        "H\u{2082}O".to_owned()
    } else if i == 8 {
        "Electric".to_owned()
    } else if i == 9 {
        "Love".to_owned()
    } else if i == 10 {
        "Fire".to_owned()
    } else if i == 11 {
        "Psychic".to_owned()
    } else {
        "Grass".to_owned()
    }
}

/// An optional text field: present only when the value exists and is
/// non-empty, spoiler-wrapped for an unused player.
pub open spec fn opt_text_field(name: Seq<char>, o: Option<String>, unused: bool) -> Seq<
    (Seq<char>, Seq<char>, bool),
> {
    match o {
        Some(s) => if s@.len() > 0 {
            seq![(name, spoil(s@, unused), true)]
        } else {
            Seq::empty()
        },
        None => Seq::empty(),
    }
}

/// The four star-rating fields, spoiler-wrapped for an unused player.
pub open spec fn star_fields(p: Player, unused: bool) -> Seq<(Seq<char>, Seq<char>, bool)> {
    seq![
        ("Batting"@, spoil(star_rep(p.batting as nat), unused), true),
        ("Pitching"@, spoil(star_rep(p.pitching as nat), unused), true),
        ("Baserunning"@, spoil(star_rep(p.baserunning as nat), unused), true),
        ("Defense"@, spoil(star_rep(p.defense as nat), unused), true),
    ]
}

/// The forbidden-knowledge fields: every hidden numeric stat under its
/// human-cased label, the finger count, and the peanut allergy, all
/// spoiler-wrapped whatever the player's status.
pub open spec fn forbidden_stat_fields(p: Player) -> Seq<(Seq<char>, Seq<char>, bool)> {
    seq![
        ("Anticapitalism"@, spoil(p.anticapitalism@, true), true),
        ("Base Thirst"@, spoil(p.base_thirst@, true), true),
        ("Buoyancy"@, spoil(p.buoyancy@, true), true),
        ("Chasiness"@, spoil(p.chasiness@, true), true),
        ("Coldness"@, spoil(p.coldness@, true), true),
        ("Continuation"@, spoil(p.continuation@, true), true),
        ("Divinity"@, spoil(p.divinity@, true), true),
        ("Ground Friction"@, spoil(p.ground_friction@, true), true),
        ("Indulgence"@, spoil(p.indulgence@, true), true),
        ("Laserlikeness"@, spoil(p.laserlikeness@, true), true),
        ("Martyrdom"@, spoil(p.martyrdom@, true), true),
        ("Moxie"@, spoil(p.moxie@, true), true),
        ("Musclitude"@, spoil(p.musclitude@, true), true),
        ("Omniscience"@, spoil(p.omniscience@, true), true),
        ("Overpowerment"@, spoil(p.overpowerment@, true), true),
        ("Patheticism"@, spoil(p.patheticism@, true), true),
        ("Ruthlessness"@, spoil(p.ruthlessness@, true), true),
        ("Shakespearianism"@, spoil(p.shakespearianism@, true), true),
        ("Suppression"@, spoil(p.suppression@, true), true),
        ("Tenaciousness"@, spoil(p.tenaciousness@, true), true),
        ("Thwackability"@, spoil(p.thwackability@, true), true),
        ("Tragicness"@, spoil(p.tragicness@, true), true),
        ("Unthwackability"@, spoil(p.unthwackability@, true), true),
        ("Watchfulness"@, spoil(p.watchfulness@, true), true),
        ("Pressurization"@, spoil(p.pressurization@, true), true),
        ("Cinnamon"@, spoil(p.cinnamon@, true), true),
        ("||Fingers||"@, spoil(dec_rep(p.total_fingers as nat), true), true),
        ("Peanut Allergy"@, (if p.peanut_allergy { "||`Yes`||"@ } else { "||`No `||"@ }), true),
    ]
}

/// Every field of a player message, in order.
pub open spec fn player_fields(t: Team, p: Player, forbidden: bool) -> Seq<
    (Seq<char>, Seq<char>, bool),
> {
    let unused = player_unused(t, p);
    (if unused {
        seq![("Team"@, spoil(t.full_name@, true), true)]
    } else {
        Seq::empty()
    }) + star_fields(p, unused) + opt_text_field("Bat"@, p.bat, unused) + opt_text_field(
        "Armor"@,
        p.armor,
        unused,
    ) + opt_text_field("Pregame Ritual"@, p.ritual, unused) + (match p.coffee {
        Some(i) => seq![("Coffee Style"@, spoil(coffee_label(i as int), unused), true)],
        None => Seq::empty(),
    }) + (match p.blood {
        Some(i) => seq![("Blood Type"@, spoil(blood_label(i as int), unused), true)],
        None => Seq::empty(),
    }) + seq![("Fate"@, spoil(p.fate@, unused), true)] + (if forbidden {
        forbidden_stat_fields(p)
    } else {
        Seq::empty()
    })
}

/// Pushes one inline field whose value is already fully formed.
fn push_field_text(fields: &mut Vec<Field>, name: &str, value: &str)
    ensures
        field_views(final(fields)@) == field_views(old(fields)@) + seq![(name@, value@, true)],
{
    let f = Field { name: name.to_owned(), value: value.to_owned(), inline: true };
    fields.push(f);
    proof {
        assert(field_views(fields@) =~= field_views(old(fields)@) + seq![(name@, value@, true)]);
    }
}

/// Pushes the forbidden-knowledge fields.
#[verifier::rlimit(100)]
fn push_forbidden_fields(fields: &mut Vec<Field>, player: &Player)
    ensures
        field_views(final(fields)@) == field_views(old(fields)@) + forbidden_stat_fields(*player),
{
    push_field(fields, "Anticapitalism", player.anticapitalism.as_str(), true);
    push_field(fields, "Base Thirst", player.base_thirst.as_str(), true);
    push_field(fields, "Buoyancy", player.buoyancy.as_str(), true);
    push_field(fields, "Chasiness", player.chasiness.as_str(), true);
    push_field(fields, "Coldness", player.coldness.as_str(), true);
    push_field(fields, "Continuation", player.continuation.as_str(), true);
    push_field(fields, "Divinity", player.divinity.as_str(), true);
    push_field(fields, "Ground Friction", player.ground_friction.as_str(), true);
    push_field(fields, "Indulgence", player.indulgence.as_str(), true);
    push_field(fields, "Laserlikeness", player.laserlikeness.as_str(), true);
    push_field(fields, "Martyrdom", player.martyrdom.as_str(), true);
    push_field(fields, "Moxie", player.moxie.as_str(), true);
    push_field(fields, "Musclitude", player.musclitude.as_str(), true);
    push_field(fields, "Omniscience", player.omniscience.as_str(), true);
    push_field(fields, "Overpowerment", player.overpowerment.as_str(), true);
    push_field(fields, "Patheticism", player.patheticism.as_str(), true);
    push_field(fields, "Ruthlessness", player.ruthlessness.as_str(), true);
    push_field(fields, "Shakespearianism", player.shakespearianism.as_str(), true);
    push_field(fields, "Suppression", player.suppression.as_str(), true);
    push_field(fields, "Tenaciousness", player.tenaciousness.as_str(), true);
    push_field(fields, "Thwackability", player.thwackability.as_str(), true);
    push_field(fields, "Tragicness", player.tragicness.as_str(), true);
    push_field(fields, "Unthwackability", player.unthwackability.as_str(), true);
    push_field(fields, "Watchfulness", player.watchfulness.as_str(), true);
    push_field(fields, "Pressurization", player.pressurization.as_str(), true);
    push_field(fields, "Cinnamon", player.cinnamon.as_str(), true);
    let fing = u64_to_string(player.total_fingers);
    push_field(fields, "||Fingers||", fing.as_str(), true);
    if player.peanut_allergy {
        push_field_text(fields, "Peanut Allergy", "||`Yes`||");
    } else {
        push_field_text(fields, "Peanut Allergy", "||`No `||");
    }
    proof {
        assert(field_views(fields@) =~= field_views(old(fields)@) + forbidden_stat_fields(
            *player,
        ));
    }
}

/// Renders a player as a rich message. The title is the player's name,
/// spoiler-wrapped when the player is unused; an unused player gets a
/// spoiler-wrapped team field instead of the author block and accent
/// colour; star ratings, equipment, coffee, blood and fate fields follow,
/// spoiler-wrapped when unused; forbidden mode appends the hidden stats,
/// always spoiler-wrapped. A malformed colour or emoji string is a
/// `RemoteMalformed` error; an out-of-range coffee or blood index is a
/// `DataConsistency` error.
#[verifier::rlimit(100)]
pub fn render_player(team: &Team, player: &Player, forbidden: bool) -> (r: Result<
    MessagePayload,
    LookupError,
>)
    ensures
        r is Ok <==> valid_color(team.main_color@) && valid_emoji(team.emoji@) && valid_coffee(
            *player,
        ) && valid_blood(*player),
        (!valid_color(team.main_color@) || !valid_emoji(team.emoji@)) ==> r == Err::<
            MessagePayload,
            LookupError,
        >(LookupError::RemoteMalformed),
        (valid_color(team.main_color@) && valid_emoji(team.emoji@) && !(valid_coffee(*player)
            && valid_blood(*player))) ==> r == Err::<MessagePayload, LookupError>(
            LookupError::DataConsistency,
        ),
        r matches Ok(m) ==> {
            &&& m.title@ == spoil(player.name@, player_unused(*team, *player))
            &&& m.url@ == player_url_of(player.id@)
            &&& m.thumbnail is None
            &&& m.description is None
            &&& (player_unused(*team, *player) ==> m.color is None && m.author is None)
            &&& (!player_unused(*team, *player) ==> {
                &&& m.color matches Some(c) && c as nat == color_val(team.main_color@)
                &&& m.author matches Some(a) && a.name@ == team.full_name@ && a.url@
                    == team_url_of(team.id@) && a.icon_url@ == emoji_png(
                    scalar_char(emoji_val(team.emoji@)),
                )
            })
            &&& field_views(m.fields@) == player_fields(*team, *player, forbidden)
        },
{
    let unused = !vec_contains_id(&team.lineup, &player.id) && !vec_contains_id(
        &team.rotation,
        &player.id,
    );
    let color = match team_color(team) {
        Ok(c) => c,
        Err(e) => {
            return Err(e);
        },
    };
    let emoji = match team_emoji(team) {
        Ok(c) => c,
        Err(e) => {
            return Err(e);
        },
    };
    let png = emoji_png_url(emoji);
    proof {
        lemma_scalar_char(emoji);
    }
    let url = player_url(&player.id);
    let title = maybe_spoiler(player.name.as_str(), unused);

    let ghost g0 = if unused {
        seq![("Team"@, spoil(team.full_name@, true), true)]
    } else {
        Seq::<(Seq<char>, Seq<char>, bool)>::empty()
    };
    let ghost g1 = g0 + star_fields(*player, unused);
    let ghost g2 = g1 + opt_text_field("Bat"@, player.bat, unused);
    let ghost g3 = g2 + opt_text_field("Armor"@, player.armor, unused);
    let ghost g4 = g3 + opt_text_field("Pregame Ritual"@, player.ritual, unused);

    let mut fields: Vec<Field> = Vec::new();
    proof {
        assert(field_views(fields@) =~= Seq::<(Seq<char>, Seq<char>, bool)>::empty());
    }
    if unused {
        push_field(&mut fields, "Team", team.full_name.as_str(), true);
    }
    proof {
        assert(field_views(fields@) =~= g0);
    }
    let s1 = render_stars(player.batting);
    push_field(&mut fields, "Batting", s1.as_str(), unused);
    let s2 = render_stars(player.pitching);
    push_field(&mut fields, "Pitching", s2.as_str(), unused);
    let s3 = render_stars(player.baserunning);
    push_field(&mut fields, "Baserunning", s3.as_str(), unused);
    let s4 = render_stars(player.defense);
    push_field(&mut fields, "Defense", s4.as_str(), unused);
    proof {
        assert(field_views(fields@) =~= g1);
    }
    match &player.bat {
        Some(b) => {
            if !b.as_str().is_empty() {
                push_field(&mut fields, "Bat", b.as_str(), unused);
            }
        },
        None => {},
    }
    proof {
        assert(field_views(fields@) =~= g2);
    }
    match &player.armor {
        Some(a) => {
            if !a.as_str().is_empty() {
                push_field(&mut fields, "Armor", a.as_str(), unused);
            }
        },
        None => {},
    }
    proof {
        assert(field_views(fields@) =~= g3);
    }
    match &player.ritual {
        Some(rt) => {
            if !rt.as_str().is_empty() {
                push_field(&mut fields, "Pregame Ritual", rt.as_str(), unused);
            }
        },
        None => {},
    }
    proof {
        assert(field_views(fields@) =~= g4);
    }
    match player.coffee {
        Some(i) => {
            if i >= COFFEE_STYLES {
                return Err(LookupError::DataConsistency);
            }
            let lbl = coffee_label_str(i);
            push_field(&mut fields, "Coffee Style", lbl.as_str(), unused);
        },
        None => {},
    }
    let ghost g5 = g4 + (match player.coffee {
        Some(i) => seq![("Coffee Style"@, spoil(coffee_label(i as int), unused), true)],
        None => Seq::empty(),
    });
    proof {
        assert(field_views(fields@) =~= g5);
    }
    match player.blood {
        Some(i) => {
            if i >= BLOOD_TYPES {
                return Err(LookupError::DataConsistency);
            }
            let lbl = blood_label_str(i);
            push_field(&mut fields, "Blood Type", lbl.as_str(), unused);
        },
        None => {},
    }
    let ghost g6 = g5 + (match player.blood {
        Some(i) => seq![("Blood Type"@, spoil(blood_label(i as int), unused), true)],
        None => Seq::empty(),
    });
    proof {
        assert(field_views(fields@) =~= g6);
    }
    push_field(&mut fields, "Fate", player.fate.as_str(), unused);
    let ghost g7 = g6 + seq![("Fate"@, spoil(player.fate@, unused), true)];
    proof {
        assert(field_views(fields@) =~= g7);
    }
    if forbidden {
        push_forbidden_fields(&mut fields, player);
    }
    proof {
        assert(field_views(fields@) =~= player_fields(*team, *player, forbidden));
    }

    let author = if unused {
        None
    } else {
        Some(Author { name: team.full_name.clone(), url: team_url(&team.id), icon_url: png })
    };
    Ok(
        MessagePayload {
            title,
            url,
            color: if unused {
                None
            } else {
                Some(color)
            },
            thumbnail: None,
            description: None,
            author,
            fields,
        },
    )
}

} // verus!
