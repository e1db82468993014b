//! The affix rotation of a season and the registry of affix names.
//!
//! An instant is a whole number of seconds since 1970-01-01T00:00:00Z, which
//! does not depend on a time zone. The rotation starts at [`SEASON_START`]
//! and repeats every twelve weeks. An instant before the season start is
//! treated as lying in week 0.

use crate::clock::unix_now;
use vstd::prelude::*;
use vstd::string::StringExecFns;

verus! {

/// Length of one rotation week in seconds.
pub const WEEK_SECONDS: i64 = 604_800;

/// Start of week 0 of the season, 2021-06-30T00:00:00Z, in seconds since
/// 1970-01-01T00:00:00Z.
pub const SEASON_START: i64 = 1_625_011_200;

/// For each week of the rotation, the IDs of its four affixes.
pub const WEEKLY_AFFIXES: [[u8; 4]; 12] = [
    [10, 11, 124, 128],
    [9, 6, 3, 128],
    [10, 122, 12, 128],
    [9, 123, 4, 128],
    [10, 7, 14, 128],
    [9, 8, 124, 128],
    [10, 6, 13, 128],
    [9, 11, 3, 128],
    [10, 123, 12, 128],
    [9, 122, 14, 128],
    [10, 8, 4, 128],
    [9, 7, 13, 128],
];

/// Whole weeks elapsed at instant `t` since the season started. An instant
/// before the season start counts as week 0.
pub open spec fn week_index(t: int) -> nat {
    if t < SEASON_START {
        0
    } else {
        ((t - SEASON_START) / (WEEK_SECONDS as int)) as nat
    }
}

/// The four affix IDs of the given week of the season, in display order.
pub open spec fn week_affixes(week: nat) -> Seq<u8> {
    WEEKLY_AFFIXES[(week % 12) as int]@
}

/// The four affix IDs active at instant `t`.
pub open spec fn affixes_at(t: int) -> Seq<u8> {
    week_affixes(week_index(t))
}

/// Whole weeks elapsed since the season started, 0 before it.
pub fn get_week_number(unix_seconds: i64) -> (week: u64)
    ensures
        week == week_index(unix_seconds as int),
{
    if unix_seconds < SEASON_START {
        0
    } else {
        ((unix_seconds - SEASON_START) / WEEK_SECONDS) as u64
    }
}

/// The IDs of the four affixes of the given week of the season.
pub fn get_affixes_of_week_number(week: u64) -> (ids: [u8; 4])
    ensures
        ids@ == week_affixes(week as nat),
{
    let slot: usize = (week % 12) as usize;
    WEEKLY_AFFIXES[slot]
}

/// The IDs of the four affixes active at the given instant.
pub fn get_affixes(unix_seconds: i64) -> (ids: [u8; 4])
    ensures
        ids@ == affixes_at(unix_seconds as int),
{
    get_affixes_of_week_number(get_week_number(unix_seconds))
}

/// At the start of the `n`-th week after the season start, the active
/// affixes are entry `n mod 12` of the schedule.
pub proof fn lemma_week_start(n: int)
    requires
        n >= 0,
    ensures
        affixes_at(SEASON_START + n * WEEK_SECONDS) == WEEKLY_AFFIXES[n % 12]@,
{
    assert((n * 604_800) / 604_800 == n) by (nonlinear_arith);
}

/// From the season start on, the active affixes repeat every twelve weeks.
pub proof fn lemma_rotation_period(t: int)
    requires
        t >= SEASON_START,
    ensures
        affixes_at(t) == affixes_at(t + 12 * WEEK_SECONDS),
{
    let e = t - SEASON_START;
    assert((e + 12 * 604_800) / 604_800 == e / 604_800 + 12) by (nonlinear_arith)
        requires
            e >= 0,
    ;
}

/// No shorter whole number of weeks is a period: the twelve weeks of one
/// rotation all differ from the first.
pub proof fn lemma_rotation_period_minimal(p: int)
    requires
        0 < p < 12,
    ensures
        affixes_at(SEASON_START + p * WEEK_SECONDS) != affixes_at(SEASON_START as int),
{
    lemma_week_start(p);
    lemma_week_start(0);
    assert(WEEKLY_AFFIXES[p]@[1] != WEEKLY_AFFIXES[0]@[1] || WEEKLY_AFFIXES[p]@[2]
        != WEEKLY_AFFIXES[0]@[2]);
}

/// Whether the registry has an entry for the ID.
pub open spec fn is_known_affix(id: u8) -> bool {
    1 <= id <= 14 || 119 <= id <= 124 || id == 128
}

/// Whether the registry holds a display symbol for the ID. Some affixes
/// have a name and no symbol.
pub open spec fn has_symbol(id: u8) -> bool {
    id == 3 || id == 4 || 6 <= id <= 14 || 122 <= id <= 124 || id == 128
}

/// The English name of the affix with the given ID, and `"Unknown affix"`
/// for an ID that the registry lacks.
pub open spec fn name_of(id: u8) -> Seq<char> {
    match id {
        1u8 => "Overflowing"@,
        2u8 => "Skittish"@,
        3u8 => "Volcanic"@,
        4u8 => "Necrotic"@,
        5u8 => "Teeming"@,
        6u8 => "Raging"@,
        7u8 => "Bolstering"@,
        8u8 => "Sanguine"@,
        9u8 => "Tyrannical"@,
        10u8 => "Fortified"@,
        11u8 => "Bursting"@,
        12u8 => "Grievous"@,
        13u8 => "Explosive"@,
        14u8 => "Quaking"@,
        119u8 => "Beguiling"@,
        120u8 => "Awakened"@,
        121u8 => "Prideful"@,
        122u8 => "Inspiring"@,
        123u8 => "Spiteful"@,
        124u8 => "Storming"@,
        128u8 => "Tormented"@,
        _ => "Unknown affix"@,
    }
}

/// The display symbol of the affix with the given ID, empty where the
/// registry holds none.
pub open spec fn symbol_of(id: u8) -> Seq<char> {
    match id {
        3u8 => "<:volcanic:941085705545871390>"@,
        4u8 => "<:necrotic:941085705558433862>"@,
        6u8 => "<:raging:941085705491349594>"@,
        7u8 => "<:bolstering:941085705440993340>"@,
        8u8 => "<:sanguine:941085705529085952>"@,
        9u8 => "<:tyrannical:941085705600372756>"@,
        10u8 => "<:fortified:941085705055117363>"@,
        11u8 => "<:bursting:941085705399074846>"@,
        12u8 => "<:grievous:941085705478766612>"@,
        13u8 => "<:explosive:941085705432612954>"@,
        14u8 => "<:quaking:941085705478742076>"@,
        122u8 => "<:inspiring:941085705440993390>"@,
        123u8 => "<:spiteful:941085705214500886>"@,
        124u8 => "<:storming:941085705491329094>"@,
        128u8 => "<:tormented:941085705503907860>"@,
        _ => ""@,
    }
}

/// How an affix is displayed: its symbol, a space and its name, or the name
/// alone where it has no symbol.
pub open spec fn display_of(id: u8) -> Seq<char> {
    if symbol_of(id).len() == 0 {
        name_of(id)
    } else {
        symbol_of(id) + " "@ + name_of(id)
    }
}

/// Every ID has a name that is not empty. The IDs that the registry lacks,
/// and only they, are named `"Unknown affix"`.
pub proof fn lemma_name_total(id: u8)
    ensures
        name_of(id).len() > 0,
        is_known_affix(id) <==> name_of(id) != "Unknown affix"@,
{
    reveal_strlit("Unknown affix");
    reveal_strlit("Overflowing");
    reveal_strlit("Skittish");
    reveal_strlit("Volcanic");
    reveal_strlit("Necrotic");
    reveal_strlit("Teeming");
    reveal_strlit("Raging");
    reveal_strlit("Bolstering");
    reveal_strlit("Sanguine");
    reveal_strlit("Tyrannical");
    reveal_strlit("Fortified");
    reveal_strlit("Bursting");
    reveal_strlit("Grievous");
    reveal_strlit("Explosive");
    reveal_strlit("Quaking");
    reveal_strlit("Beguiling");
    reveal_strlit("Awakened");
    reveal_strlit("Prideful");
    reveal_strlit("Inspiring");
    reveal_strlit("Spiteful");
    reveal_strlit("Storming");
    reveal_strlit("Tormented");
    assert("Unknown affix"@.len() == 13);
    assert(is_known_affix(id) ==> name_of(id).len() <= 11);
}

/// An ID has a symbol that is not empty exactly where the registry holds
/// one; an ID without a name has none.
pub proof fn lemma_symbol_presence(id: u8)
    ensures
        symbol_of(id).len() > 0 <==> has_symbol(id),
        has_symbol(id) ==> is_known_affix(id),
{
    reveal_strlit("");
    reveal_strlit("<:volcanic:941085705545871390>");
    reveal_strlit("<:necrotic:941085705558433862>");
    reveal_strlit("<:raging:941085705491349594>");
    reveal_strlit("<:bolstering:941085705440993340>");
    reveal_strlit("<:sanguine:941085705529085952>");
    reveal_strlit("<:tyrannical:941085705600372756>");
    reveal_strlit("<:fortified:941085705055117363>");
    reveal_strlit("<:bursting:941085705399074846>");
    reveal_strlit("<:grievous:941085705478766612>");
    reveal_strlit("<:explosive:941085705432612954>");
    reveal_strlit("<:quaking:941085705478742076>");
    reveal_strlit("<:inspiring:941085705440993390>");
    reveal_strlit("<:spiteful:941085705214500886>");
    reveal_strlit("<:storming:941085705491329094>");
    reveal_strlit("<:tormented:941085705503907860>");
}

/// The English name of the affix with the given ID.
pub fn affix_name(affix_id: u8) -> (name: &'static str)
    ensures
        name@ == name_of(affix_id),
        name@.len() > 0,
        is_known_affix(affix_id) <==> name@ != "Unknown affix"@,
{
    proof {
        lemma_name_total(affix_id);
    }
    match affix_id {
        1 => "Overflowing",
        2 => "Skittish",
        3 => "Volcanic",
        4 => "Necrotic",
        5 => "Teeming",
        6 => "Raging",
        7 => "Bolstering",
        8 => "Sanguine",
        9 => "Tyrannical",
        10 => "Fortified",
        11 => "Bursting",
        12 => "Grievous",
        13 => "Explosive",
        14 => "Quaking",
        119 => "Beguiling",
        120 => "Awakened",
        121 => "Prideful",
        122 => "Inspiring",
        123 => "Spiteful",
        124 => "Storming",
        128 => "Tormented",
        _ => "Unknown affix",
    }
}

/// The display symbol of the affix with the given ID, empty if it has none.
pub fn affix_emoji(affix_id: u8) -> (symbol: &'static str)
    ensures
        symbol@ == symbol_of(affix_id),
        symbol@.len() > 0 <==> has_symbol(affix_id),
{
    proof {
        lemma_symbol_presence(affix_id);
    }
    match affix_id {
        3 => "<:volcanic:941085705545871390>",
        4 => "<:necrotic:941085705558433862>",
        6 => "<:raging:941085705491349594>",
        7 => "<:bolstering:941085705440993340>",
        8 => "<:sanguine:941085705529085952>",
        9 => "<:tyrannical:941085705600372756>",
        10 => "<:fortified:941085705055117363>",
        11 => "<:bursting:941085705399074846>",
        12 => "<:grievous:941085705478766612>",
        13 => "<:explosive:941085705432612954>",
        14 => "<:quaking:941085705478742076>",
        122 => "<:inspiring:941085705440993390>",
        123 => "<:spiteful:941085705214500886>",
        124 => "<:storming:941085705491329094>",
        128 => "<:tormented:941085705503907860>",
        _ => "",
    }
}

/// The affix as it is listed: symbol and name, without a leading space
/// where there is no symbol.
pub fn affix_name_and_emoji(affix_id: u8) -> (text: String)
    ensures
        text@ == display_of(affix_id),
{
    let name = affix_name(affix_id);
    let symbol = affix_emoji(affix_id);
    if symbol.is_empty() {
        name.to_owned()
    } else {
        let mut text = symbol.to_owned();
        text.append(" ");
        text.append(name);
        text
    }
}

/// The week that a listing is asked for.
#[derive(Clone, Copy, Debug, PartialEq, Eq, Structural)]
pub enum Week {
    /// The week that holds the current instant.
    This,
    /// The week that holds the instant seven days later.
    Next,
}

/// The instant whose affixes are listed when `week` is asked for at `now`.
pub open spec fn listed_instant(week: Week, now: int) -> int {
    match week {
        Week::This => now,
        Week::Next => now + WEEK_SECONDS,
    }
}

/// The word that a listing of the week starts with.
pub open spec fn week_label(week: Week) -> Seq<char> {
    match week {
        Week::This => "This"@,
        Week::Next => "Next"@,
    }
}

/// The listing of a week's four affixes: a heading, then one line for each
/// affix in schedule order.
pub open spec fn listing(week: Week, ids: Seq<u8>) -> Seq<char> {
    week_label(week) + " week's affixes:\n"@ + display_of(ids[0]) + "\n"@ + display_of(ids[1])
        + "\n"@ + display_of(ids[2]) + "\n"@ + display_of(ids[3])
}

/// The answer to a request for the affixes of `week` that is made at
/// instant `now`.
pub open spec fn affix_reply_text(week: Week, now: int) -> Seq<char> {
    listing(week, affixes_at(listed_instant(week, now)))
}

/// The IDs of the four affixes of the week asked for, as of instant `now`.
/// Seven days later is taken on the unbounded time line, so every `now` has
/// a next week.
pub fn get_affixes_of_week(week: Week, now: i64) -> (ids: [u8; 4])
    ensures
        ids@ == affixes_at(listed_instant(week, now as int)),
{
    let elapsed: u64 = get_week_number(now);
    let number: u64 = match week {
        Week::This => elapsed,
        Week::Next => if now >= SEASON_START {
            assert((now - SEASON_START + 604_800) / 604_800 == (now - SEASON_START) / 604_800 + 1)
                by (nonlinear_arith)
                requires
                    now - SEASON_START >= 0,
            ;
            elapsed + 1
        } else {
            assert(now + 604_800 >= SEASON_START ==> (now + 604_800 - SEASON_START) / 604_800
                == 0) by (nonlinear_arith)
                requires
                    now + 604_800 - SEASON_START < 604_800,
            ;
            0
        },
    };
    get_affixes_of_week_number(number)
}

/// Lists the four affixes under the heading of the week.
pub fn affix_listing(week: Week, ids: [u8; 4]) -> (text: String)
    ensures
        text@ == listing(week, ids@),
{
    let mut text = match week {
        Week::This => "This".to_owned(),
        Week::Next => "Next".to_owned(),
    };
    text.append(" week's affixes:\n");
    text.append(affix_name_and_emoji(ids[0]).as_str());
    text.append("\n");
    text.append(affix_name_and_emoji(ids[1]).as_str());
    text.append("\n");
    text.append(affix_name_and_emoji(ids[2]).as_str());
    text.append("\n");
    text.append(affix_name_and_emoji(ids[3]).as_str());
    text
}

/// Answers a request for the affixes of `week` that is made at instant
/// `now`.
pub fn affix_reply(week: Week, now: i64) -> (text: String)
    ensures
        text@ == affix_reply_text(week, now as int),
{
    affix_listing(week, get_affixes_of_week(week, now))
}

/// Answers a request for the affixes of `week` as of the current instant,
/// which is read from the system clock.
pub fn affix_reply_now(week: Week) -> (text: String)
    ensures
        exists|now: i64| text@ == #[trigger] affix_reply_text(week, now as int),
{
    affix_reply(week, unix_now())
}

} // verus!
