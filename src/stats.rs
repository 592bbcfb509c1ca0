use vstd::prelude::*;

use crate::text::push_char;

verus! {

/// Start of the address of a player's statistics summary.
pub const STATS_URL_HEAD: &'static str = "https://overfast-api.tekrop.fr/players/";

/// End of the address of a player's statistics summary.
pub const STATS_URL_TAIL: &'static str = "/stats/summary";

/// A player's tag as the statistics service spells it: `#` becomes `-` and
/// spaces are dropped.
pub open spec fn spec_player_slug(player: Seq<char>) -> Seq<char>
    decreases player.len(),
{
    if player.len() == 0 {
        Seq::empty()
    } else {
        let last = player.last();
        let rest = spec_player_slug(player.drop_last());
        if last == '#' {
            rest.push('-')
        } else if last == ' ' {
            rest
        } else {
            rest.push(last)
        }
    }
}

pub open spec fn spec_stats_url(slug: Seq<char>) -> Seq<char> {
    STATS_URL_HEAD@ + slug + STATS_URL_TAIL@
}

/// The decimal digits of `n`, most significant first.
pub open spec fn spec_digits(n: nat) -> Seq<char>
    decreases n,
{
    if n < 10 {
        seq![(48 + n) as char]
    } else {
        spec_digits(n / 10).push((48 + n % 10) as char)
    }
}

/// `n` written in decimal, with a leading `-` when negative.
pub open spec fn spec_decimal(n: int) -> Seq<char> {
    if n < 0 {
        seq!['-'] + spec_digits((-n) as nat)
    } else {
        spec_digits(n as nat)
    }
}

/// A player's summary as the reply shows it. The service's fractional figures
/// arrive as the text they print to; the game counts are whole numbers.
#[derive(Clone, Debug, PartialEq, Eq)]
pub struct PlayerStats {
    pub kda: String,
    pub winrate: String,
    pub average_damage: String,
    pub average_healing: String,
    pub games_won: i32,
    pub games_lost: i32,
}

/// The reply listing `stats` for the player spelt `slug`.
pub open spec fn spec_stats_reply(slug: Seq<char>, stats: PlayerStats) -> Seq<char> {
    "\n**STATS FOR PLAYER "@ + slug + "**\n\u{1F4CA}      **KDA:** "@ + stats.kda@
        + "\n\u{1F4CA}      **Winrate:** "@ + stats.winrate@
        + "%\n\u{1F4A3}      **Average Damage:** "@ + stats.average_damage@
        + "\n\u{1F49B}      **Average Healing:** "@ + stats.average_healing@
        + "\n\u{1F4C8}      **Games Won:** "@ + spec_decimal(stats.games_won as int)
        + "\n\u{1F4C9}      **Games Lost:** "@ + spec_decimal(stats.games_lost as int)
        + "\n        "@
}

/// `player` with `#` turned into `-` and spaces removed.
pub fn player_slug(player: &str) -> (r: String)
    ensures
        r@ == spec_player_slug(player@),
{
    let mut r = String::new();
    for c in it: player.chars()
        invariant
            it.seq() == player@,
            it.index() <= player@.len(),
            r@ == spec_player_slug(player@.take(it.index() as int)),
    {
        proof {
            let k = it.index() as int;
            assert(player@.take(k + 1).drop_last() =~= player@.take(k));
        }
        if c == '#' {
            push_char(&mut r, '-');
        } else if c != ' ' {
            push_char(&mut r, c);
        }
    }
    proof {
        assert(player@.take(player@.len() as int) =~= player@);
    }
    r
}

/// Where the statistics summary of the player spelt `slug` is fetched from.
pub fn stats_url(slug: &str) -> (r: String)
    ensures
        r@ == spec_stats_url(slug@),
{
    let mut r = String::from_str(STATS_URL_HEAD);
    r.append(slug);
    r.append(STATS_URL_TAIL);
    r
}

fn push_digits(s: &mut String, n: u32)
    ensures
        final(s)@ == old(s)@ + spec_digits(n as nat),
    decreases n,
{
    if n >= 10 {
        push_digits(s, n / 10);
    }
    let d: u8 = (n % 10) as u8;
    push_char(s, (48u8 + d) as char);
    proof {
        assert(final(s)@ =~= old(s)@ + spec_digits(n as nat));
    }
}

/// The text that answers a statistics request for the player spelt `slug`.
pub fn stats_reply(slug: &str, stats: &PlayerStats) -> (r: String)
    ensures
        r@ == spec_stats_reply(slug@, *stats),
{
    let mut r = String::from_str("\n**STATS FOR PLAYER ");
    r.append(slug);
    r.append("**\n\u{1F4CA}      **KDA:** ");
    r.append(stats.kda.as_str());
    r.append("\n\u{1F4CA}      **Winrate:** ");
    r.append(stats.winrate.as_str());
    r.append("%\n\u{1F4A3}      **Average Damage:** ");
    r.append(stats.average_damage.as_str());
    r.append("\n\u{1F49B}      **Average Healing:** ");
    r.append(stats.average_healing.as_str());
    r.append("\n\u{1F4C8}      **Games Won:** ");
    r.append(decimal_text(stats.games_won).as_str());
    r.append("\n\u{1F4C9}      **Games Lost:** ");
    r.append(decimal_text(stats.games_lost).as_str());
    r.append("\n        ");
    r
}

/// `n` in decimal.
pub fn decimal_text(n: i32) -> (r: String)
    ensures
        r@ == spec_decimal(n as int),
{
    let mut r = String::new();
    if n < 0 {
        push_char(&mut r, '-');
        let m: u32 = if n == i32::MIN { 2147483648u32 } else { (-n) as u32 };
        push_digits(&mut r, m);
    } else {
        push_digits(&mut r, n as u32);
    }
    r
}

} // verus!
