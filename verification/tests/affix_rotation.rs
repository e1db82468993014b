use chrono::{TimeZone, Utc};
use sal_9000::affix::{
    affix_listing, affix_name, affix_reply, affix_reply_now, get_affixes, get_affixes_of_week,
    get_affixes_of_week_number, get_week_number, Week, SEASON_START, WEEKLY_AFFIXES, WEEK_SECONDS,
};

fn instant(year: i32, month: u32, day: u32, hour: u32, minute: u32, second: u32) -> i64 {
    Utc.with_ymd_and_hms(year, month, day, hour, minute, second).unwrap().timestamp()
}

#[test]
fn check_affixes() {
    // Check a week's affixes
    let datetime = Utc.with_ymd_and_hms(2022, 2, 9, 21, 0, 0).unwrap();
    let affix_ids = get_affixes(datetime.timestamp());
    let affixes: Vec<&'static str> = affix_ids.iter().map(|id| affix_name(*id)).collect();

    assert_eq!(
        affixes,
        vec!["Fortified", "Spiteful", "Grievous", "Tormented",]
    );

    // Check a different week's affixes
    let datetime = Utc.with_ymd_and_hms(2022, 2, 16, 21, 0, 0).unwrap();
    let affix_ids = get_affixes(datetime.timestamp());
    let affixes: Vec<&'static str> = affix_ids.iter().map(|id| affix_name(*id)).collect();

    assert_eq!(
        affixes,
        vec!["Tyrannical", "Inspiring", "Quaking", "Tormented",]
    );
}

#[test]
fn season_start_is_the_last_day_of_june_2021() {
    assert_eq!(SEASON_START, instant(2021, 6, 30, 0, 0, 0));
    assert_eq!(SEASON_START, 1_625_011_200);
    assert_eq!(WEEK_SECONDS, 7 * 24 * 60 * 60);
}

#[test]
fn ninth_of_february_2022_is_in_week_32() {
    let now = instant(2022, 2, 9, 21, 0, 0);
    assert_eq!(now, 1_644_440_400);
    assert_eq!(get_week_number(now), 32);
    assert_eq!(get_affixes(now), [10, 123, 12, 128]);
}

#[test]
fn sixteenth_of_february_2022_is_in_week_33() {
    let now = instant(2022, 2, 16, 21, 0, 0);
    assert_eq!(get_week_number(now), 33);
    assert_eq!(get_affixes(now), [9, 122, 14, 128]);
}

#[test]
fn season_start_is_in_week_zero() {
    assert_eq!(get_week_number(SEASON_START), 0);
    assert_eq!(get_affixes(SEASON_START), WEEKLY_AFFIXES[0]);
    assert_eq!(get_affixes(SEASON_START), [10, 11, 124, 128]);
}

#[test]
fn week_changes_exactly_at_the_boundary() {
    let boundary = SEASON_START + WEEK_SECONDS;
    assert_eq!(get_week_number(boundary - 1), 0);
    assert_eq!(get_affixes(boundary - 1), WEEKLY_AFFIXES[0]);
    assert_eq!(get_week_number(boundary), 1);
    assert_eq!(get_affixes(boundary), WEEKLY_AFFIXES[1]);
    assert_eq!(get_affixes(boundary), [9, 6, 3, 128]);
}

#[test]
fn every_week_start_follows_the_schedule() {
    for n in 0..100i64 {
        let now = SEASON_START + n * WEEK_SECONDS;
        assert_eq!(get_week_number(now), n as u64);
        assert_eq!(get_affixes(now), WEEKLY_AFFIXES[(n % 12) as usize]);
    }
}

#[test]
fn rotation_repeats_after_twelve_weeks() {
    let mut now = SEASON_START;
    while now < SEASON_START + 30 * WEEK_SECONDS {
        assert_eq!(get_affixes(now), get_affixes(now + 12 * WEEK_SECONDS));
        now += 40_009;
    }
}

#[test]
fn no_week_of_a_rotation_repeats_the_first() {
    for p in 1..12i64 {
        assert_ne!(get_affixes(SEASON_START + p * WEEK_SECONDS), get_affixes(SEASON_START));
    }
}

#[test]
fn instants_before_the_season_count_as_week_zero() {
    assert_eq!(get_week_number(SEASON_START - 1), 0);
    assert_eq!(get_affixes(SEASON_START - 1), WEEKLY_AFFIXES[0]);
    assert_eq!(get_week_number(0), 0);
    assert_eq!(get_week_number(i64::MIN), 0);
    assert_eq!(get_affixes(i64::MIN), WEEKLY_AFFIXES[0]);
}

#[test]
fn the_last_representable_instant_has_a_week() {
    let weeks = (i64::MAX as i128 - SEASON_START as i128) / WEEK_SECONDS as i128;
    assert_eq!(get_week_number(i64::MAX) as i128, weeks);
    assert_eq!(get_affixes(i64::MAX), WEEKLY_AFFIXES[(weeks % 12) as usize]);
}

#[test]
fn next_week_is_seven_days_later() {
    let now = instant(2022, 2, 9, 21, 0, 0);
    assert_eq!(get_affixes_of_week(Week::This, now), get_affixes(now));
    assert_eq!(get_affixes_of_week(Week::Next, now), get_affixes(now + WEEK_SECONDS));
    assert_eq!(get_affixes_of_week(Week::Next, now), [9, 122, 14, 128]);
}

#[test]
fn next_week_before_the_season() {
    // Seven days after this instant the season has run for one second.
    let now = SEASON_START - WEEK_SECONDS + 1;
    assert_eq!(get_affixes_of_week(Week::Next, now), WEEKLY_AFFIXES[0]);
    assert_eq!(get_affixes_of_week(Week::Next, SEASON_START - 1), WEEKLY_AFFIXES[0]);
    assert_eq!(get_affixes_of_week(Week::Next, SEASON_START), WEEKLY_AFFIXES[1]);
    assert_eq!(get_affixes_of_week(Week::Next, i64::MIN), WEEKLY_AFFIXES[0]);
}

#[test]
fn next_week_of_the_last_representable_instant() {
    let weeks = (i64::MAX as i128 + WEEK_SECONDS as i128 - SEASON_START as i128)
        / WEEK_SECONDS as i128;
    assert_eq!(get_affixes_of_week(Week::Next, i64::MAX), WEEKLY_AFFIXES[(weeks % 12) as usize]);
}

#[test]
fn listing_has_a_heading_and_four_lines() {
    assert_eq!(
        affix_listing(Week::This, [10, 123, 12, 128]),
        "This week's affixes:\n\
         <:fortified:941085705055117363> Fortified\n\
         <:spiteful:941085705214500886> Spiteful\n\
         <:grievous:941085705478766612> Grievous\n\
         <:tormented:941085705503907860> Tormented"
    );
}

#[test]
fn listing_of_affixes_without_symbol() {
    assert_eq!(
        affix_listing(Week::Next, [1, 200, 119, 3]),
        "Next week's affixes:\nOverflowing\nUnknown affix\nBeguiling\n<:volcanic:941085705545871390> Volcanic"
    );
}

#[test]
fn reply_lists_the_week_asked_for() {
    let now = instant(2022, 2, 9, 21, 0, 0);
    assert_eq!(affix_reply(Week::This, now), affix_listing(Week::This, [10, 123, 12, 128]));
    assert_eq!(affix_reply(Week::Next, now), affix_listing(Week::Next, [9, 122, 14, 128]));
    assert_eq!(
        affix_reply(Week::Next, now),
        "Next week's affixes:\n\
         <:tyrannical:941085705600372756> Tyrannical\n\
         <:inspiring:941085705440993390> Inspiring\n\
         <:quaking:941085705478742076> Quaking\n\
         <:tormented:941085705503907860> Tormented"
    );
}

#[test]
fn reply_as_of_now_uses_the_clock() {
    let before = Utc::now().timestamp();
    let this = affix_reply_now(Week::This);
    let next = affix_reply_now(Week::Next);
    let after = Utc::now().timestamp();
    assert!(before > SEASON_START);
    assert!(this == affix_reply(Week::This, before) || this == affix_reply(Week::This, after));
    assert!(next == affix_reply(Week::Next, before) || next == affix_reply(Week::Next, after));
    assert_ne!(this, affix_reply(Week::This, before - 5 * WEEK_SECONDS));
}

#[test]
fn week_numbers_wrap_around_the_schedule() {
    assert_eq!(get_affixes_of_week_number(0), [10, 11, 124, 128]);
    assert_eq!(get_affixes_of_week_number(11), [9, 7, 13, 128]);
    assert_eq!(get_affixes_of_week_number(12), [10, 11, 124, 128]);
    assert_eq!(get_affixes_of_week_number(32), [10, 123, 12, 128]);
    assert_eq!(get_affixes_of_week_number(u64::MAX), WEEKLY_AFFIXES[(u64::MAX % 12) as usize]);
}
