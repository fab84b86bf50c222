use rustobot::commands::help_target;
use rustobot::commands::is_valid_game;
use rustobot::commands::label_selector;
use rustobot::commands::log_tail_lines;
use rustobot::commands::managed_label;
use rustobot::commands::ready_message;
use rustobot::emby::all_items_path;
use rustobot::emby::episodes_path;
use rustobot::emby::first_item;
use rustobot::emby::item_info_path;
use rustobot::emby::played_path;
use rustobot::emby::search_path;
use rustobot::emby::seasons_path;
use rustobot::emby::user_path;
use rustobot::emby::EmbyItemData;
use rustobot::emby::EmbyItemUserData;
use rustobot::emby::SearchItemType;
use rustobot::item::parse_item_id;
use rustobot::item::QueueItem;
use rustobot::menu::add_failed_message;
use rustobot::menu::apply_selection;
use rustobot::menu::added_message;
use rustobot::menu::can_name_episodes;
use rustobot::menu::display_name_of;
use rustobot::menu::episode_options;
use rustobot::menu::not_found_message;
use rustobot::menu::now_playing;
use rustobot::menu::playable_path;
use rustobot::menu::queue_options;
use rustobot::menu::queue_placeholder;
use rustobot::menu::queue_selection;
use rustobot::menu::read_selection;
use rustobot::menu::search_menu;
use rustobot::menu::search_options;
use rustobot::menu::season_options;
use rustobot::menu::storage_path;
use rustobot::menu::user_button_label;
use rustobot::menu::user_options;
use rustobot::menu::QueueSelection;
use rustobot::menu::LABEL_LIMIT;
use rustobot::paging::MenuOption;
use rustobot::queue::PlayQueue;
use rustobot::queue::QueueError;

fn record(id: &str, name: &str, item_type: &str) -> EmbyItemData {
    EmbyItemData {
        id: id.to_string(),
        name: name.to_string(),
        item_type: item_type.to_string(),
        path: None,
        episode_num: None,
        season_num: None,
        user_data: None,
    }
}

fn entry(label: &str, value: &str) -> MenuOption {
    MenuOption { label: label.to_string(), value: value.to_string() }
}

#[test]
fn search_options_tell_movies_from_series() {
    let items = vec![
        record("1", "Heat", "Movie"),
        record("2", "Dark", "Series"),
        record("3", "Pilot", "Episode"),
    ];
    let result = search_options(&items);
    assert_eq!(result.result_items, 3);
    assert_eq!(
        result.result_menu_option,
        vec![
            entry("\u{1F4FD}: Heat", "movie_1"),
            entry("\u{1F4FA}: Dark", "series_2"),
            entry("unknown: : Pilot", "unknown_3"),
        ]
    );
    assert_eq!(search_options(&vec![]).result_items, 0);
}

#[test]
fn season_options_show_name_and_identifier() {
    let result = season_options(&vec![record("10", "Season 1", "Season"), record("11", "S2", "")]);
    assert_eq!(result.result_items, 2);
    assert_eq!(result.result_menu_option, vec![entry("Season 1", "10"), entry("S2", "11")]);
}

#[test]
fn user_options_begin_with_no_user() {
    let result = user_options(&vec![record("u1", "ann", "User"), record("u2", "bob", "User")]);
    assert_eq!(result.result_items, 3);
    assert_eq!(
        result.result_menu_option,
        vec![entry("None", "None"), entry("ann", "u1"), entry("bob", "u2")]
    );
    let none = user_options(&vec![]);
    assert_eq!(none.result_items, 1);
    assert_eq!(none.result_menu_option, vec![entry("None", "None")]);
}

#[test]
fn episode_options_show_episode_names() {
    let mut first = record("e1", "Pilot", "Episode");
    first.path = Some("/mnt/storage/e1.mkv".to_string());
    first.season_num = Some("1".to_string());
    first.episode_num = Some("1".to_string());
    first.user_data = Some(EmbyItemUserData { played: true });
    let missing = record("e2", "Lost", "Episode");
    let mut long = first.clone();
    long.id = "e3".to_string();
    long.user_data = None;
    long.name = "x".repeat(100);
    let episodes = vec![first, missing, long];
    assert!(can_name_episodes(&episodes));
    let result = episode_options(&episodes);
    assert_eq!(result.result_items, 3);
    assert_eq!(result.result_menu_option[0], entry("\u{1F7E2}: S1E1 - Pilot", "e1"));
    assert_eq!(result.result_menu_option[1], entry("NOT FOUND: Lost", "Lost"));
    assert_eq!(result.result_menu_option[2].label, format!("S1E1 - {}", "x".repeat(57)));
    assert_eq!(result.result_menu_option[2].label.len(), LABEL_LIMIT);
    assert_eq!(result.result_menu_option[2].value, "e3");
}

#[test]
fn episodes_without_numbers_cannot_be_named() {
    let mut episode = record("e1", "Pilot", "Episode");
    episode.path = Some("/a".to_string());
    assert!(!can_name_episodes(&vec![episode.clone()]));
    episode.season_num = Some("1".to_string());
    assert!(!can_name_episodes(&vec![episode.clone()]));
    episode.episode_num = Some("2".to_string());
    assert!(can_name_episodes(&vec![episode.clone()]));
    let mut movie = record("m", "Heat", "Movie");
    movie.path = Some("/m".to_string());
    assert!(can_name_episodes(&vec![movie, record("x", "no path", "Episode")]));
    assert!(can_name_episodes(&vec![]));
}

#[test]
fn queue_options_show_items_by_uuid() {
    let a = QueueItem::with_id("a".to_string(), "file:///a".to_string(), 1, false);
    let b = QueueItem::with_id(
        "b".to_string(),
        "file:///b".to_string(),
        0x550e8400_e29b_41d4_a716_446655440000,
        true,
    );
    assert_eq!(
        queue_options(&vec![a.clone(), b.clone()]),
        vec![
            entry("a", "00000000-0000-0000-0000-000000000001"),
            entry("b", "550e8400-e29b-41d4-a716-446655440000"),
        ]
    );
    assert_eq!(b.id_text(), uuid::Uuid::from_u128(b.id()).to_string());
    assert_eq!(queue_options(&vec![]), vec![entry("No items in queue!", "empty")]);
}

#[test]
fn queue_placeholder_counts_items() {
    assert_eq!(queue_placeholder(0), "0 Queue Items");
    assert_eq!(queue_placeholder(12), "12 Queue Items");
}

#[test]
fn queue_selection_reads_identifiers() {
    assert_eq!(queue_selection("empty"), QueueSelection::Nothing);
    assert_eq!(queue_selection("unknown"), QueueSelection::Nothing);
    assert_eq!(
        queue_selection("550e8400-e29b-41d4-a716-446655440000"),
        QueueSelection::Remove(0x550e8400_e29b_41d4_a716_446655440000)
    );
    assert_eq!(
        queue_selection("550E8400E29B41D4A716446655440000"),
        QueueSelection::Remove(0x550e8400_e29b_41d4_a716_446655440000)
    );
    assert_eq!(queue_selection(""), QueueSelection::Malformed);
    assert_eq!(queue_selection("Empty"), QueueSelection::Malformed);
    assert_eq!(queue_selection("550e8400"), QueueSelection::Malformed);
}

#[test]
fn queue_option_values_read_back() {
    for _ in 0..20 {
        let item = QueueItem::new("n".to_string(), "file:///n".to_string(), false);
        let options = queue_options(&vec![item.clone()]);
        assert_eq!(queue_selection(&options[0].value), QueueSelection::Remove(item.id()));
        assert_eq!(parse_item_id(&item.id_text()), Some(item.id()));
    }
    assert_eq!(parse_item_id("no uuid"), None);
}

#[test]
fn now_playing_names_the_current_item() {
    let item = QueueItem::with_id("Pilot".to_string(), "file:///p".to_string(), 1, false);
    assert_eq!(now_playing(&Some(item)), "Pilot");
    assert_eq!(now_playing(&None), "No item playing");
}

#[test]
fn user_button_label_names_the_user() {
    assert_eq!(user_button_label(&Some(record("u1", "ann", "User"))), "User: ann");
    assert_eq!(user_button_label(&None), "User: (None)");
}

#[test]
fn display_name_is_the_last_path_segment() {
    assert_eq!(display_name_of("/mnt/storage/show/e01.mkv"), "e01.mkv");
    assert_eq!(display_name_of("http://host/a/b.mp4"), "b.mp4");
    assert_eq!(display_name_of("plain"), "plain");
    assert_eq!(display_name_of("dir/"), "");
}

#[test]
fn storage_path_moves_the_storage_root() {
    assert_eq!(storage_path("/mnt/storage/show/e01.mkv"), "/mnt/zfspool/storage/show/e01.mkv");
    assert_eq!(storage_path("/srv/show/e01.mkv"), "/srv/show/e01.mkv");
    assert_eq!(
        storage_path("/mnt/storage/mnt/storage"),
        "/mnt/zfspool/storage/mnt/zfspool/storage"
    );
}

#[test]
fn playable_path_needs_a_path() {
    let mut item = record("e1", "Pilot", "Episode");
    assert_eq!(playable_path(&item), None);
    item.path = Some("".to_string());
    assert_eq!(playable_path(&item), None);
    item.path = Some("/mnt/storage/e1.mkv".to_string());
    assert_eq!(playable_path(&item), Some("/mnt/zfspool/storage/e1.mkv".to_string()));
}

#[test]
fn queue_messages() {
    assert_eq!(added_message("S1E1 - Pilot"), "added S1E1 - Pilot to queue");
    assert_eq!(not_found_message("Pilot"), "could not find episode info for Pilot");
    assert_eq!(add_failed_message("/a b", "bad"), "error adding /a b to queue: bad");
}

#[test]
fn request_paths() {
    assert_eq!(
        search_path("dark", &vec![SearchItemType::Series]).unwrap(),
        "Items?Recursive=true&IncludeItemTypes=Series&SortBy=SortName&SearchTerm=dark"
    );
    assert_eq!(
        search_path("heat", &vec![SearchItemType::Series, SearchItemType::Movie]).unwrap(),
        "Items?Recursive=true&IncludeItemTypes=Series,Movie&SortBy=SortName&SearchTerm=heat"
    );
    assert_eq!(
        search_path("x", &vec![]).unwrap(),
        "Items?Recursive=true&IncludeItemTypes=&SortBy=SortName&SearchTerm=x"
    );
    assert_eq!(
        search_path("", &vec![SearchItemType::Movie]).unwrap_err().message(),
        "no item types for search passed!"
    );
    assert_eq!(seasons_path("77"), "Shows/77/Seasons");
    assert_eq!(
        episodes_path("5", &None),
        "Items?ParentId=5&Fields=Path&IsMissing=false&SortBy=PremiereDate"
    );
    assert_eq!(
        episodes_path("5", &Some(record("u1", "ann", "User"))),
        "Users/u1/Items?ParentId=5&Fields=Path&IsMissing=false&SortBy=PremiereDate"
    );
    assert_eq!(
        item_info_path("9"),
        "Items?Ids=9&Fields=Path&IsMissing=false&SortBy=PremiereDate"
    );
    assert_eq!(
        all_items_path(SearchItemType::Series),
        "Items?Recursive=true&IncludeItemTypes=Series&SortBy=SortName"
    );
    assert_eq!(
        all_items_path(SearchItemType::Movie),
        "Items?Recursive=true&IncludeItemTypes=Movie&SortBy=SortName"
    );
    assert_eq!(user_path("u1"), "Users/u1");
    assert_eq!(played_path("u1", "m9"), "Users/u1/PlayedItems/m9");
    assert_eq!(SearchItemType::Series.name(), "Series");
    assert_eq!(SearchItemType::Movie.name(), "Movie");
}

#[test]
fn first_item_of_an_answer() {
    let items = vec![record("1", "a", "Movie"), record("2", "b", "Movie")];
    assert_eq!(first_item(&items, "1"), Ok(record("1", "a", "Movie")));
    assert_eq!(
        first_item(&vec![], "17").unwrap_err().message(),
        "Somehow could not find item id 17"
    );
}

#[test]
fn log_tail_lines_are_capped() {
    assert_eq!(log_tail_lines(None), 10);
    assert_eq!(log_tail_lines(Some(5)), 5);
    assert_eq!(log_tail_lines(Some(100)), 100);
    assert_eq!(log_tail_lines(Some(101)), 100);
    assert_eq!(log_tail_lines(Some(i64::MAX)), 100);
    assert_eq!(log_tail_lines(Some(-3)), -3);
}

#[test]
fn label_selector_joins_labels() {
    let labels = vec![
        ("app".to_string(), "game".to_string()),
        ("tier".to_string(), "server".to_string()),
    ];
    assert_eq!(label_selector(&labels), "app=game,tier=server");
    assert_eq!(label_selector(&labels[..1].to_vec()), "app=game");
    assert_eq!(label_selector(&vec![]), "");
    assert_eq!(managed_label(), "rustobot5000.managed=true");
}

#[test]
fn game_names_are_checked_against_deployments() {
    let deployments = vec!["factorio".to_string(), "valheim".to_string()];
    assert!(is_valid_game(&deployments, "valheim"));
    assert!(!is_valid_game(&deployments, "Valheim"));
    assert!(!is_valid_game(&deployments, ""));
    assert!(!is_valid_game(&vec![], "valheim"));
}

#[test]
fn ready_message_counts_replicas() {
    assert_eq!(ready_message(1, 2, "valheim"), "1/2 ready for game valheim");
    assert_eq!(ready_message(0, 0, "x"), "0/0 ready for game x");
    assert_eq!(ready_message(-1, i32::MAX, "x"), "-1/2147483647 ready for game x");
}

#[test]
fn help_target_prefixes_the_invoking_command() {
    assert_eq!(help_target("help", None), None);
    assert_eq!(help_target("help", Some("play".to_string())), Some("play".to_string()));
    assert_eq!(help_target("fruit", None), Some("fruit".to_string()));
    assert_eq!(help_target("fruit", Some("apple".to_string())), Some("fruit apple".to_string()));
}

#[test]
fn read_selection_tells_removals_from_nothing() {
    assert_eq!(read_selection("empty", None), QueueSelection::Nothing);
    assert_eq!(read_selection("unknown", Some(7)), QueueSelection::Nothing);
    assert_eq!(read_selection("anything", Some(7)), QueueSelection::Remove(7));
    assert_eq!(read_selection("anything", None), QueueSelection::Malformed);
    assert_eq!(read_selection("", None), QueueSelection::Malformed);
}

#[test]
fn search_menu_says_when_nothing_was_found() {
    let found = search_options(&vec![record("1", "Heat", "Movie")]);
    assert_eq!(search_menu(&found), vec![entry("\u{1F4FD}: Heat", "movie_1")]);
    let nothing = search_options(&vec![]);
    assert_eq!(search_menu(&nothing), vec![entry("No Results found!", "empty")]);
}

fn queued(ids: &[u128]) -> PlayQueue {
    let mut queue = PlayQueue::new();
    for id in ids {
        queue.add_item(QueueItem::with_id(format!("i{}", id), format!("file:///{}", id), *id, false));
    }
    queue
}

fn ids_of(queue: &PlayQueue) -> Vec<u128> {
    queue.get_queue_items().iter().map(|item| item.id()).collect()
}

#[test]
fn a_removal_takes_the_item_out() {
    let mut queue = queued(&[1, 2, 3]);
    assert_eq!(apply_selection(&mut queue, QueueSelection::Remove(2)), Ok(true));
    assert_eq!(ids_of(&queue), vec![1, 3]);
    assert_eq!(apply_selection(&mut queue, QueueSelection::Remove(9)), Ok(true));
    assert_eq!(ids_of(&queue), vec![1, 3]);
}

#[test]
fn a_pick_that_asks_for_nothing_changes_nothing() {
    let mut queue = queued(&[1, 2, 3]);
    assert_eq!(apply_selection(&mut queue, QueueSelection::Nothing), Ok(false));
    assert_eq!(ids_of(&queue), vec![1, 2, 3]);
}

#[test]
fn a_malformed_identifier_is_an_error_and_changes_nothing() {
    let mut queue = queued(&[1, 2, 3]);
    let selection = queue_selection("not-a-uuid");
    assert_eq!(selection, QueueSelection::Malformed);
    assert_eq!(apply_selection(&mut queue, selection), Err(QueueError::InvalidId));
    assert_eq!(ids_of(&queue), vec![1, 2, 3]);
    assert!(queue.is_idle());
    assert_eq!(QueueError::InvalidId.message(), "identifier is not a valid UUID");
}

#[test]
fn a_picked_queue_entry_removes_its_item() {
    let mut queue = queued(&[7, 8]);
    let options = queue_options(&queue.get_queue_items());
    let selection = queue_selection(&options[1].value);
    assert_eq!(apply_selection(&mut queue, selection), Ok(true));
    assert_eq!(ids_of(&queue), vec![7]);
}
