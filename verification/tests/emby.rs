use rustobot::emby::episode_label;
use rustobot::emby::generate_episode_name;
use rustobot::text::parse_u32;
use rustobot::emby::stable_order;
use rustobot::emby::EmbyItemData;
use rustobot::emby::EmbyItemUserData;
use rustobot::emby::EmbyItemsResult;
use rustobot::error::bot_error;
use rustobot::error::BotError;

fn episode(name: &str, number: Option<&str>) -> EmbyItemData {
    EmbyItemData {
        id: format!("id-{}", name),
        name: name.to_string(),
        item_type: "Episode".to_string(),
        path: Some(format!("/mnt/storage/{}.mkv", name)),
        episode_num: number.map(|n| n.to_string()),
        season_num: Some("2".to_string()),
        user_data: None,
    }
}

fn names(items: &[EmbyItemData]) -> Vec<String> {
    items.iter().map(|item| item.name.clone()).collect()
}

#[test]
fn parse_u32_reads_decimal_numbers() {
    assert_eq!(parse_u32("0"), Some(0));
    assert_eq!(parse_u32("7"), Some(7));
    assert_eq!(parse_u32("12"), Some(12));
    assert_eq!(parse_u32("+12"), Some(12));
    assert_eq!(parse_u32("00012"), Some(12));
    assert_eq!(parse_u32("4294967295"), Some(u32::MAX));
}

#[test]
fn parse_u32_refuses_everything_else() {
    assert_eq!(parse_u32(""), None);
    assert_eq!(parse_u32("+"), None);
    assert_eq!(parse_u32("-1"), None);
    assert_eq!(parse_u32("-0"), None);
    assert_eq!(parse_u32("++1"), None);
    assert_eq!(parse_u32("1+"), None);
    assert_eq!(parse_u32(" 1"), None);
    assert_eq!(parse_u32("1 "), None);
    assert_eq!(parse_u32("1_000"), None);
    assert_eq!(parse_u32("12a"), None);
    assert_eq!(parse_u32("1.5"), None);
    assert_eq!(parse_u32("4294967296"), None);
    assert_eq!(parse_u32("99999999999999999999999999"), None);
    assert_eq!(parse_u32("\u{0663}"), None);
    assert_eq!(parse_u32("\u{FF11}"), None);
}

#[test]
fn parse_u32_agrees_with_the_standard_library() {
    let samples = [
        "", "+", "-", "0", "+0", "-0", "1", "10", "010", "+010", "4294967295", "4294967296",
        "42949672950", "18446744073709551616", "1e3", "0x10", "١٢", "1\n", "\t1", "+-1", "1+1",
        "٣", "2147483648", "999999999", "9999999999",
    ];
    for sample in samples {
        assert_eq!(parse_u32(sample), sample.parse::<u32>().ok(), "{:?}", sample);
    }
    for n in [0u32, 1, 9, 10, 99, 100, 65535, 65536, 4294967294, u32::MAX] {
        assert_eq!(parse_u32(&n.to_string()), Some(n));
    }
}

#[test]
fn stable_order_sorts_positions_by_key() {
    assert_eq!(stable_order(&vec![]), Vec::<usize>::new());
    assert_eq!(stable_order(&vec![5]), vec![0]);
    assert_eq!(stable_order(&vec![3, 1, 2]), vec![1, 2, 0]);
    assert_eq!(stable_order(&vec![1, 2, 3]), vec![0, 1, 2]);
    assert_eq!(stable_order(&vec![3, 2, 1]), vec![2, 1, 0]);
}

#[test]
fn stable_order_keeps_equal_keys_in_their_order() {
    assert_eq!(stable_order(&vec![2, 1, 2, 1, 2]), vec![1, 3, 0, 2, 4]);
    assert_eq!(stable_order(&vec![0, 0, 0]), vec![0, 1, 2]);
}

#[test]
fn stable_order_agrees_with_a_stable_sort() {
    let keys: Vec<u32> = (0..200u32).map(|n| (n * 7919 + 13) % 17).collect();
    let mut expected: Vec<usize> = (0..keys.len()).collect();
    expected.sort_by(|a, b| keys[*a].cmp(&keys[*b]));
    assert_eq!(stable_order(&keys), expected);
}

#[test]
fn sorted_items_are_ordered_by_episode_number() {
    let result = EmbyItemsResult {
        items: vec![
            episode("ten", Some("10")),
            episode("two", Some("2")),
            episode("one", Some("1")),
            episode("nine", Some("9")),
        ],
    };
    assert_eq!(names(&result.get_sorted_items()), vec!["one", "two", "nine", "ten"]);
    assert_eq!(result.items.len(), 4);
    assert_eq!(result.get_sorted_items()[0], episode("one", Some("1")));
}

#[test]
fn items_without_a_number_sort_as_zero_and_keep_their_order() {
    let result = EmbyItemsResult {
        items: vec![
            episode("three", Some("3")),
            episode("none", None),
            episode("words", Some("special")),
            episode("zero", Some("0")),
            episode("negative", Some("-4")),
            episode("one", Some("1")),
            episode("huge", Some("4294967296")),
        ],
    };
    assert_eq!(
        names(&result.get_sorted_items()),
        vec!["none", "words", "zero", "negative", "huge", "one", "three"]
    );
}

#[test]
fn sorting_nothing_gives_nothing() {
    let result = EmbyItemsResult { items: vec![] };
    assert_eq!(result.get_sorted_items(), vec![]);
}

#[test]
fn sorted_items_agree_with_a_stable_sort() {
    let mut items = Vec::new();
    for n in 0..60u32 {
        let number = match n % 5 {
            0 => None,
            1 => Some("x".to_string()),
            _ => Some(((n * 31) % 7).to_string()),
        };
        let mut item = episode(&format!("e{}", n), None);
        item.episode_num = number;
        items.push(item);
    }
    let mut expected = items.clone();
    expected.sort_by(|a, b| {
        let a_int: u32 = a.episode_num.clone().unwrap_or("0".to_string()).parse().unwrap_or(0);
        let b_int: u32 = b.episode_num.clone().unwrap_or("0".to_string()).parse().unwrap_or(0);
        a_int.cmp(&b_int)
    });
    assert_eq!(EmbyItemsResult { items }.get_sorted_items(), expected);
}

#[test]
fn episode_name_of_an_episode() {
    let mut item = episode("Pilot", Some("1"));
    assert_eq!(generate_episode_name(item.clone()), "S2E1 - Pilot");
    item.user_data = Some(EmbyItemUserData { played: true });
    assert_eq!(generate_episode_name(item.clone()), "\u{1F7E2}: S2E1 - Pilot");
    item.user_data = Some(EmbyItemUserData { played: false });
    assert_eq!(generate_episode_name(item.clone()), "\u{1F534}: S2E1 - Pilot");
}

#[test]
fn episode_name_of_a_movie() {
    let mut item = episode("Heat", None);
    item.item_type = "Movie".to_string();
    item.season_num = None;
    assert_eq!(generate_episode_name(item.clone()), "Movie - Heat");
    item.user_data = Some(EmbyItemUserData { played: true });
    assert_eq!(generate_episode_name(item.clone()), "\u{1F7E2}: Movie - Heat");
    item.user_data = Some(EmbyItemUserData { played: false });
    assert_eq!(generate_episode_name(item), "\u{1F534}: Movie - Heat");
}

#[test]
fn episode_label_needs_season_and_episode_numbers() {
    let item = episode("Pilot", Some("1"));
    assert_eq!(episode_label(item.clone()), Some("S2E1 - Pilot".to_string()));
    let mut no_episode = item.clone();
    no_episode.episode_num = None;
    assert_eq!(episode_label(no_episode.clone()), None);
    let mut no_season = item.clone();
    no_season.season_num = None;
    assert_eq!(episode_label(no_season), None);
    no_episode.item_type = "Movie".to_string();
    assert_eq!(episode_label(no_episode), Some("Movie - Pilot".to_string()));
}

#[test]
fn item_clone_is_equal() {
    let mut item = episode("Pilot", Some("1"));
    item.user_data = Some(EmbyItemUserData { played: true });
    assert_eq!(item.clone(), item);
}

#[test]
fn bot_error_carries_its_message() {
    assert_eq!(BotError::new("page out of range").message(), "page out of range");
    assert_eq!(bot_error("no such game").message(), "no such game");
    assert_eq!(*bot_error("x"), BotError::new("x"));
    assert_eq!(BotError::new("").message(), "");
}
