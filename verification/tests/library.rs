use blasebot::cache::{CacheAction, RosterCache, CACHE_TTL_SECONDS};
use blasebot::model::{LookupError, Player, Team};
use blasebot::render::{render_player, render_team, team_color, team_emoji};
use blasebot::resolve::{resolve_player, resolve_team};
use blasebot::roster::{associate, batch_pairs, build_request, team_player_ids, BATCH_SIZE};
use blasebot::stars::render_stars;
use blasebot::text::{maybe_spoiler, parse_hex, u64_to_string};

fn sample_team(id: &str, full_name: &str, nickname: &str, location: &str) -> Team {
    Team {
        id: id.to_string(),
        full_name: full_name.to_string(),
        nickname: nickname.to_string(),
        location: location.to_string(),
        slogan: "Claws up!".to_string(),
        main_color: "#593037".to_string(),
        emoji: "0x1f980".to_string(),
        lineup: Vec::new(),
        rotation: Vec::new(),
        bullpen: Vec::new(),
        bench: Vec::new(),
        total_shames: 3,
        total_shamings: 4,
        season_shames: 1,
        season_shamings: 2,
        championships: 1,
    }
}

fn sample_player(id: &str, name: &str) -> Player {
    Player {
        id: id.to_string(),
        name: name.to_string(),
        batting: 250,
        pitching: 40,
        baserunning: 500,
        defense: 120,
        bat: None,
        armor: None,
        ritual: None,
        coffee: None,
        blood: None,
        fate: "4".to_string(),
        total_fingers: 10,
        peanut_allergy: false,
        anticapitalism: "0.1".to_string(),
        base_thirst: "0.2".to_string(),
        buoyancy: "0.3".to_string(),
        chasiness: "0.4".to_string(),
        coldness: "0.5".to_string(),
        continuation: "0.6".to_string(),
        divinity: "0.7".to_string(),
        ground_friction: "0.8".to_string(),
        indulgence: "0.9".to_string(),
        laserlikeness: "1.0".to_string(),
        martyrdom: "1.1".to_string(),
        moxie: "1.2".to_string(),
        musclitude: "1.3".to_string(),
        omniscience: "1.4".to_string(),
        overpowerment: "1.5".to_string(),
        patheticism: "1.6".to_string(),
        ruthlessness: "1.7".to_string(),
        shakespearianism: "1.8".to_string(),
        suppression: "1.9".to_string(),
        tenaciousness: "2.0".to_string(),
        thwackability: "2.1".to_string(),
        tragicness: "2.2".to_string(),
        unthwackability: "2.3".to_string(),
        watchfulness: "2.4".to_string(),
        pressurization: "2.5".to_string(),
        cinnamon: "2.6".to_string(),
    }
}

fn candidates(names: &[&str]) -> Vec<(Team, Player)> {
    names
        .iter()
        .enumerate()
        .map(|(i, n)| {
            (
                sample_team(&format!("t{}", i), "Baltimore Crabs", "Crabs", "Baltimore"),
                sample_player(&format!("p{}", i), n),
            )
        })
        .collect()
}

#[test]
fn resolve_player_returns_candidate_from_list() {
    let cs = candidates(&["Jessica Telephone", "Nagomi Mcdaniel", "Axel Trololol"]);
    let idx = resolve_player("nagomi mcdaniels", &cs);
    assert!(idx < cs.len());
    assert_eq!(cs[idx].1.name, "Nagomi Mcdaniel");
}

#[test]
fn resolve_player_exact_match_case_insensitive() {
    let cs = candidates(&["Jessica Telephone", "Nagomi Mcdaniel"]);
    let idx = resolve_player("JESSICA telephone", &cs);
    assert_eq!(idx, 0);
    let idx2 = resolve_player("nagomi mcdaniel", &cs);
    assert_eq!(idx2, 1);
}

#[test]
fn resolve_player_tie_break_earlier_wins() {
    // Two identical names: the earlier candidate is returned.
    let cs = candidates(&["Peanut Bong", "Peanut Bong"]);
    let idx = resolve_player("peanut bong", &cs);
    assert_eq!(idx, 0);
    // Two names at the same distance from the query.
    let cs2 = candidates(&["aaab", "aaac"]);
    let idx2 = resolve_player("aaad", &cs2);
    assert_eq!(idx2, 0);
}

#[test]
fn resolve_player_always_returns_a_guess() {
    let cs = candidates(&["Jessica Telephone"]);
    let idx = resolve_player("zzzzzzzzzzzzzzz", &cs);
    assert_eq!(idx, 0);
}

#[test]
fn resolve_team_threshold_distance_three_not_found() {
    // "crabs" -> "crxyz" is at edit distance exactly 3 from "crabs".
    let teams = vec![sample_team("t0", "Baltimore Crxyz", "Crxyz", "Baltimore Crxyz")];
    assert!(resolve_team("crabs", &teams).is_none());
}

#[test]
fn resolve_team_threshold_distance_two_found() {
    // "crabs" -> "crxys" is at edit distance exactly 2 from "crabs".
    let teams = vec![sample_team("t0", "Baltimore Crxbs", "Crxys", "Baltimore Crxbs")];
    assert_eq!(resolve_team("crabs", &teams), Some(0));
}

#[test]
fn resolve_team_scores_minimum_of_three_fields() {
    let teams = vec![
        sample_team("t0", "Hawaii Fridays", "Fridays", "Hawaii"),
        sample_team("t1", "Baltimore Crabs", "Crabs", "Baltimore"),
    ];
    assert_eq!(resolve_team("baltimore", &teams), Some(1));
    assert_eq!(resolve_team("FRIDAYS", &teams), Some(0));
    assert_eq!(resolve_team("hawaia", &teams), Some(0));
}

#[test]
fn resolve_team_empty_list_not_found() {
    let teams: Vec<Team> = Vec::new();
    assert!(resolve_team("crabs", &teams).is_none());
}

#[test]
fn cache_single_flight_second_caller_awaits() {
    let mut cache = RosterCache::new();
    let first = cache.lookup(false, 1000);
    assert_eq!(first, CacheAction::Refresh);
    // A second call for the same flag, before the refresh reports back,
    // must await rather than fetch again.
    let second = cache.lookup(false, 1000);
    assert_eq!(second, CacheAction::Await);
    // A different flag proceeds independently.
    let other = cache.lookup(true, 1000);
    assert_eq!(other, CacheAction::Refresh);
}

#[test]
fn cache_ttl_serves_before_expiry_and_refreshes_after() {
    let mut cache = RosterCache::new();
    assert_eq!(cache.lookup(false, 1000), CacheAction::Refresh);
    cache.complete_refresh(false, 1000, Vec::new());
    assert_eq!(cache.lookup(false, 1000 + 299), CacheAction::Serve);
    assert_eq!(cache.lookup(false, 1000 + 301), CacheAction::Refresh);
}

#[test]
fn cache_ttl_is_five_minutes() {
    assert_eq!(CACHE_TTL_SECONDS, 300);
}

#[test]
fn cache_failed_refresh_leaves_entry_unset() {
    let mut cache = RosterCache::new();
    assert_eq!(cache.lookup(false, 50), CacheAction::Refresh);
    cache.fail_refresh(false);
    // The next caller retries fully: no stale value is served.
    assert_eq!(cache.lookup(false, 60), CacheAction::Refresh);
}

#[test]
fn stars_none_below_half() {
    assert_eq!(render_stars(0), "*None.*");
    assert_eq!(render_stars(40), "*None.*");
}

#[test]
fn stars_two_and_a_half() {
    assert_eq!(render_stars(250), "\u{2605}\u{2605}\u{2be8}");
}

#[test]
fn stars_five_filled() {
    assert_eq!(render_stars(500), "\u{2605}\u{2605}\u{2605}\u{2605}\u{2605}");
}

#[test]
fn spoiler_wraps_only_when_asked() {
    assert_eq!(maybe_spoiler("secret", true), "||secret||");
    assert_eq!(maybe_spoiler("plain", false), "plain");
}

#[test]
fn hex_parsing_and_decimal_rendering() {
    assert_eq!(parse_hex("ff00aa"), Some(0xff00aa));
    assert_eq!(parse_hex("1F980"), Some(0x1f980));
    assert_eq!(parse_hex(""), None);
    assert_eq!(parse_hex("xyz"), None);
    assert_eq!(parse_hex("123456789"), None);
    assert_eq!(u64_to_string(0), "0");
    assert_eq!(u64_to_string(105), "105");
}

#[test]
fn team_color_strips_prefix_and_parses() {
    let t = sample_team("t0", "Baltimore Crabs", "Crabs", "Baltimore");
    assert_eq!(team_color(&t), Ok(0x593037));
    let mut bad = sample_team("t1", "Bad", "Bad", "Bad");
    bad.main_color = "#zzz".to_string();
    assert_eq!(team_color(&bad), Err(LookupError::RemoteMalformed));
}

#[test]
fn team_emoji_decodes_codepoint() {
    let t = sample_team("t0", "Baltimore Crabs", "Crabs", "Baltimore");
    assert_eq!(team_emoji(&t), Ok('\u{1f980}'));
    let mut bad = sample_team("t1", "Bad", "Bad", "Bad");
    bad.emoji = "0xd800".to_string();
    assert_eq!(team_emoji(&bad), Err(LookupError::RemoteMalformed));
}

#[test]
fn batching_one_hundred_twenty_ids_gives_three_batches() {
    let pairs: Vec<(usize, String)> = (0..120).map(|i| (0usize, format!("id{}", i))).collect();
    let batches = batch_pairs(pairs.clone());
    assert_eq!(batches.len(), 3);
    assert_eq!(batches[0].len(), 50);
    assert_eq!(batches[1].len(), 50);
    assert_eq!(batches[2].len(), 20);
    let merged: Vec<(usize, String)> = batches.into_iter().flatten().collect();
    assert_eq!(merged, pairs);
}

#[test]
fn batching_respects_batch_size_constant() {
    assert_eq!(BATCH_SIZE, 50);
    let pairs: Vec<(usize, String)> = (0..50).map(|i| (0usize, format!("id{}", i))).collect();
    let batches = batch_pairs(pairs);
    assert_eq!(batches.len(), 1);
    assert_eq!(batches[0].len(), 50);
    let none = batch_pairs(Vec::new());
    assert!(none.is_empty());
}

#[test]
fn roster_ids_follow_visibility_flag() {
    let mut t = sample_team("t0", "Baltimore Crabs", "Crabs", "Baltimore");
    t.lineup = vec!["a".to_string(), "b".to_string()];
    t.rotation = vec!["c".to_string()];
    t.bullpen = vec!["d".to_string()];
    t.bench = vec!["e".to_string()];
    assert_eq!(team_player_ids(&t, false), vec!["a", "b", "c"]);
    assert_eq!(team_player_ids(&t, true), vec!["a", "b", "c", "d", "e"]);
}

#[test]
fn associate_reunites_players_with_their_teams() {
    let mut t0 = sample_team("t0", "Baltimore Crabs", "Crabs", "Baltimore");
    t0.lineup = vec!["p0".to_string()];
    let mut t1 = sample_team("t1", "Hawaii Fridays", "Fridays", "Hawaii");
    t1.lineup = vec!["p1".to_string()];
    let teams = vec![t0, t1];
    let pairs = build_request(&teams, false);
    assert_eq!(pairs.len(), 2);
    // The remote may answer in any order; association goes by id.
    let fetched = vec![sample_player("p1", "Second"), sample_player("p0", "First")];
    let joined = associate(&pairs, &teams, fetched).unwrap();
    assert_eq!(joined.len(), 2);
    assert_eq!(joined[0].0.id, "t1");
    assert_eq!(joined[0].1.name, "Second");
    assert_eq!(joined[1].0.id, "t0");
    assert_eq!(joined[1].1.name, "First");
}

#[test]
fn associate_unknown_id_is_data_consistency_error() {
    let mut t0 = sample_team("t0", "Baltimore Crabs", "Crabs", "Baltimore");
    t0.lineup = vec!["p0".to_string()];
    let teams = vec![t0];
    let pairs = build_request(&teams, false);
    let fetched = vec![sample_player("stranger", "Stranger")];
    assert_eq!(
        associate(&pairs, &teams, fetched).unwrap_err(),
        LookupError::DataConsistency
    );
}

#[test]
fn team_render_standard_has_no_unused_section() {
    let mut t = sample_team("t0", "Baltimore Crabs", "Crabs", "Baltimore");
    t.lineup = vec!["p0".to_string()];
    let players: Vec<Player> = (0..16).map(|i| sample_player(&format!("p{}", i), &format!("Player {}", i))).collect();
    let m = render_team(&t, &players, false).unwrap();
    let desc = m.description.unwrap();
    assert!(!desc.contains("Unused"));
    assert!(desc.contains("Lineup:"));
    assert!(desc.contains("Rotation:"));
    assert!(desc.contains("\u{2022} Player 0\n"));
}

#[test]
fn team_render_forbidden_lists_extra_players_as_unused() {
    let t = sample_team("t0", "Baltimore Crabs", "Crabs", "Baltimore");
    let players: Vec<Player> = (0..16).map(|i| sample_player(&format!("p{}", i), &format!("Player {}", i))).collect();
    let m = render_team(&t, &players, true).unwrap();
    let desc = m.description.unwrap();
    // The first nine are the lineup, the next five the rotation, the last
    // two stand spoiler-wrapped under the unused section.
    assert!(desc.contains("||\nUnused:\n\u{2022} Player 14\n\u{2022} Player 15\n||"));
}

#[test]
fn team_render_payload_fields() {
    let t = sample_team("abc-123", "Baltimore Crabs", "Crabs", "Baltimore");
    let m = render_team(&t, &Vec::new(), false).unwrap();
    assert_eq!(m.title, "Baltimore Crabs");
    assert_eq!(m.url, "https://www.blaseball.com/team/abc-123");
    assert_eq!(m.color, Some(0x593037));
    // The crab emoji percent-encodes to its four UTF-8 bytes.
    assert_eq!(
        m.thumbnail.unwrap(),
        "https://emojicdn.elk.sh/%F0%9F%A6%80?style=twitter"
    );
    let names: Vec<String> = m.fields.iter().map(|f| f.name.clone()).collect();
    assert_eq!(
        names,
        vec!["Total Shames", "Total Shamings", "Season Shames", "Season Shamings", "Championships"]
    );
    let values: Vec<String> = m.fields.iter().map(|f| f.value.clone()).collect();
    assert_eq!(values, vec!["3", "4", "1", "2", "1"]);
}

#[test]
fn player_render_active_player_keeps_branding() {
    let mut t = sample_team("t0", "Baltimore Crabs", "Crabs", "Baltimore");
    t.lineup = vec!["p0".to_string()];
    let p = sample_player("p0", "Jessica Telephone");
    let m = render_player(&t, &p, false).unwrap();
    assert_eq!(m.title, "Jessica Telephone");
    assert_eq!(m.url, "https://www.blaseball.com/player/p0");
    assert_eq!(m.color, Some(0x593037));
    let a = m.author.unwrap();
    assert_eq!(a.name, "Baltimore Crabs");
    assert_eq!(a.url, "https://www.blaseball.com/team/t0");
    assert_eq!(a.icon_url, "https://emojicdn.elk.sh/%F0%9F%A6%80?style=twitter");
    // Star fields are plain for an active player.
    assert_eq!(m.fields[0].name, "Batting");
    assert_eq!(m.fields[0].value, "\u{2605}\u{2605}\u{2be8}");
    assert_eq!(m.fields[1].value, "*None.*");
    // Fate is always present.
    assert!(m.fields.iter().any(|f| f.name == "Fate" && f.value == "4"));
}

#[test]
fn player_render_unused_player_is_spoiler_wrapped() {
    let t = sample_team("t0", "Baltimore Crabs", "Crabs", "Baltimore");
    let p = sample_player("p0", "Jessica Telephone");
    let m = render_player(&t, &p, false).unwrap();
    assert_eq!(m.title, "||Jessica Telephone||");
    assert_eq!(m.color, None);
    assert!(m.author.is_none());
    assert_eq!(m.fields[0].name, "Team");
    assert_eq!(m.fields[0].value, "||Baltimore Crabs||");
    assert_eq!(m.fields[1].name, "Batting");
    assert_eq!(m.fields[1].value, "||\u{2605}\u{2605}\u{2be8}||");
    assert!(m.fields.iter().any(|f| f.name == "Fate" && f.value == "||4||"));
}

#[test]
fn player_render_forbidden_stats_always_spoiler_wrapped() {
    let mut t = sample_team("t0", "Baltimore Crabs", "Crabs", "Baltimore");
    t.lineup = vec!["p0".to_string()];
    let mut p = sample_player("p0", "Jessica Telephone");
    p.peanut_allergy = true;
    let m = render_player(&t, &p, true).unwrap();
    // Even for an active (not unused) player the hidden stats stay wrapped.
    assert!(m.fields.iter().any(|f| f.name == "Anticapitalism" && f.value == "||0.1||"));
    assert!(m.fields.iter().any(|f| f.name == "Cinnamon" && f.value == "||2.6||"));
    assert!(m.fields.iter().any(|f| f.name == "||Fingers||" && f.value == "||10||"));
    assert!(m.fields.iter().any(|f| f.name == "Peanut Allergy" && f.value == "||`Yes`||"));
    let std = render_player(&t, &p, false).unwrap();
    assert!(!std.fields.iter().any(|f| f.name == "Anticapitalism"));
}

#[test]
fn player_render_optional_fields() {
    let mut t = sample_team("t0", "Baltimore Crabs", "Crabs", "Baltimore");
    t.lineup = vec!["p0".to_string()];
    let mut p = sample_player("p0", "Jessica Telephone");
    p.bat = Some("The Dial Tone".to_string());
    p.armor = Some("".to_string());
    p.coffee = Some(1);
    p.blood = Some(7);
    let m = render_player(&t, &p, false).unwrap();
    assert!(m.fields.iter().any(|f| f.name == "Bat" && f.value == "The Dial Tone"));
    // An empty equipment string counts as absent.
    assert!(!m.fields.iter().any(|f| f.name == "Armor"));
    assert!(m.fields.iter().any(|f| f.name == "Coffee Style" && f.value == "Light & Sweet"));
    assert!(m.fields.iter().any(|f| f.name == "Blood Type" && f.value == "H\u{2082}O"));
}

#[test]
fn player_render_bad_index_is_data_consistency_error() {
    let t = sample_team("t0", "Baltimore Crabs", "Crabs", "Baltimore");
    let mut p = sample_player("p0", "Jessica Telephone");
    p.coffee = Some(14);
    assert_eq!(render_player(&t, &p, false).unwrap_err(), LookupError::DataConsistency);
    let mut q = sample_player("p1", "Axel Trololol");
    q.blood = Some(13);
    assert_eq!(render_player(&t, &q, false).unwrap_err(), LookupError::DataConsistency);
}

#[test]
fn player_render_bad_color_is_remote_malformed() {
    let mut t = sample_team("t0", "Baltimore Crabs", "Crabs", "Baltimore");
    t.main_color = "nope".to_string();
    let p = sample_player("p0", "Jessica Telephone");
    assert_eq!(render_player(&t, &p, false).unwrap_err(), LookupError::RemoteMalformed);
}

#[test]
fn cache_serves_the_stored_snapshot() {
    let mut cache = RosterCache::new();
    assert_eq!(cache.lookup(true, 10), CacheAction::Refresh);
    let t = sample_team("t0", "Baltimore Crabs", "Crabs", "Baltimore");
    let p = sample_player("p0", "Jessica Telephone");
    cache.complete_refresh(true, 12, vec![(t, p)]);
    assert_eq!(cache.lookup(true, 100), CacheAction::Serve);
    let v = cache.cached_value(true);
    assert_eq!(v.len(), 1);
    assert_eq!(v[0].1.name, "Jessica Telephone");
    // The standard entry is independent of the full one.
    assert_eq!(cache.lookup(false, 100), CacheAction::Refresh);
}

#[test]
fn full_roster_pipeline_resolves_and_renders() {
    let mut t0 = sample_team("crabs", "Baltimore Crabs", "Crabs", "Baltimore");
    t0.lineup = vec!["p0".to_string(), "p1".to_string()];
    t0.bench = vec!["p2".to_string()];
    let teams = vec![t0];
    let pairs = build_request(&teams, true);
    assert_eq!(pairs.len(), 3);
    let batches = batch_pairs(pairs);
    assert_eq!(batches.len(), 1);
    // The remote answers out of order; association reunites by id.
    let fetched = vec![
        sample_player("p2", "Oliver Notarobot"),
        sample_player("p0", "Jessica Telephone"),
        sample_player("p1", "Nagomi Mcdaniel"),
    ];
    let roster = associate(&batches[0], &teams, fetched).unwrap();
    let idx = resolve_player("oliver notarobit", &roster);
    assert_eq!(roster[idx].1.name, "Oliver Notarobot");
    // A bench player is unused, so the render spoiler-wraps it.
    let m = render_player(&roster[idx].0, &roster[idx].1, false).unwrap();
    assert_eq!(m.title, "||Oliver Notarobot||");
}
