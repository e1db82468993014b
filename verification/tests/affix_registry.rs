use sal_9000::affix::{affix_emoji, affix_name, affix_name_and_emoji, WEEKLY_AFFIXES};

const KNOWN: [(u8, &str, &str); 21] = [
    (1, "Overflowing", ""),
    (2, "Skittish", ""),
    (3, "Volcanic", "<:volcanic:941085705545871390>"),
    (4, "Necrotic", "<:necrotic:941085705558433862>"),
    (5, "Teeming", ""),
    (6, "Raging", "<:raging:941085705491349594>"),
    (7, "Bolstering", "<:bolstering:941085705440993340>"),
    (8, "Sanguine", "<:sanguine:941085705529085952>"),
    (9, "Tyrannical", "<:tyrannical:941085705600372756>"),
    (10, "Fortified", "<:fortified:941085705055117363>"),
    (11, "Bursting", "<:bursting:941085705399074846>"),
    (12, "Grievous", "<:grievous:941085705478766612>"),
    (13, "Explosive", "<:explosive:941085705432612954>"),
    (14, "Quaking", "<:quaking:941085705478742076>"),
    (119, "Beguiling", ""),
    (120, "Awakened", ""),
    (121, "Prideful", ""),
    (122, "Inspiring", "<:inspiring:941085705440993390>"),
    (123, "Spiteful", "<:spiteful:941085705214500886>"),
    (124, "Storming", "<:storming:941085705491329094>"),
    (128, "Tormented", "<:tormented:941085705503907860>"),
];

#[test]
fn tormented_and_unknown() {
    assert_eq!(affix_name(128), "Tormented");
    assert_eq!(affix_name(255), "Unknown affix");
}

#[test]
fn every_known_id_has_its_name_and_symbol() {
    for (id, name, symbol) in KNOWN {
        assert_eq!(affix_name(id), name);
        assert_eq!(affix_emoji(id), symbol);
    }
}

#[test]
fn every_id_has_a_name() {
    for id in 0..=u8::MAX {
        let name = affix_name(id);
        assert!(!name.is_empty());
        let known = KNOWN.iter().any(|entry| entry.0 == id);
        assert_eq!(name == "Unknown affix", !known);
        if !known {
            assert_eq!(affix_emoji(id), "");
        }
    }
}

#[test]
fn ids_next_to_the_known_ranges_are_unknown() {
    for id in [0u8, 15, 118, 125, 127, 129] {
        assert_eq!(affix_name(id), "Unknown affix");
        assert_eq!(affix_emoji(id), "");
        assert_eq!(affix_name_and_emoji(id), "Unknown affix");
    }
}

#[test]
fn every_scheduled_affix_is_known() {
    for week in WEEKLY_AFFIXES {
        for id in week {
            assert_ne!(affix_name(id), "Unknown affix");
            assert_ne!(affix_emoji(id), "");
        }
    }
}

#[test]
fn symbol_and_name_are_joined_by_one_space() {
    assert_eq!(affix_name_and_emoji(10), "<:fortified:941085705055117363> Fortified");
    assert_eq!(affix_name_and_emoji(128), "<:tormented:941085705503907860> Tormented");
}

#[test]
fn a_name_without_symbol_has_no_leading_space() {
    assert_eq!(affix_name_and_emoji(1), "Overflowing");
    assert_eq!(affix_name_and_emoji(121), "Prideful");
    for (id, name, symbol) in KNOWN {
        let text = affix_name_and_emoji(id);
        if symbol.is_empty() {
            assert_eq!(text, name);
        } else {
            assert_eq!(text, format!("{} {}", symbol, name));
        }
        assert!(!text.starts_with(' '));
    }
}
