use mathbot::{decimal_text, player_slug, stats_reply, stats_url, PlayerStats};

#[test]
fn slug_replaces_hash_and_drops_spaces() {
    assert_eq!(player_slug("Some Player#1234"), "SomePlayer-1234");
    assert_eq!(player_slug(""), "");
    assert_eq!(player_slug("# #"), "--");
}

#[test]
fn url_of_player() {
    assert_eq!(
        stats_url(&player_slug("Tracer#11 ")),
        "https://overfast-api.tekrop.fr/players/Tracer-11/stats/summary"
    );
}

#[test]
fn decimal_of_integers() {
    assert_eq!(decimal_text(0), "0");
    assert_eq!(decimal_text(7), "7");
    assert_eq!(decimal_text(-42), "-42");
    assert_eq!(decimal_text(1000), "1000");
    assert_eq!(decimal_text(i32::MAX), "2147483647");
    assert_eq!(decimal_text(i32::MIN), "-2147483648");
}

#[test]
fn reply_lists_all_figures() {
    let stats = PlayerStats {
        kda: format!("{}", 2.5f32),
        winrate: format!("{}", 51.25f32),
        average_damage: format!("{}", 8000f32),
        average_healing: format!("{}", 12.5f32),
        games_won: 120,
        games_lost: -3,
    };
    let text = stats_reply("Tracer-11", &stats);
    assert_eq!(
        text,
        "\n**STATS FOR PLAYER Tracer-11**\n\u{1F4CA}      **KDA:** 2.5\n\u{1F4CA}      **Winrate:** 51.25%\n\u{1F4A3}      **Average Damage:** 8000\n\u{1F49B}      **Average Healing:** 12.5\n\u{1F4C8}      **Games Won:** 120\n\u{1F4C9}      **Games Lost:** -3\n        "
    );
}
