//! The menus and texts that the player shows: entries made of the media
//! library's records and of the queue's items.
use crate::emby::can_be_named;
use crate::emby::episode_name;
use crate::emby::generate_episode_name;
use crate::emby::EmbyItemData;
use crate::item::parse_item_id;
use crate::item::parsed_uuid;
use crate::item::uuid_text;
use crate::item::QueueItem;
use crate::paging::option_texts;
use crate::paging::EmbySearchResult;
use crate::paging::MenuOption;
use crate::paging::OptionText;
use crate::queue::PlayQueue;
use crate::queue::QueueError;
use crate::queue::QueueState;
use crate::text::append_decimal;
use crate::text::decimal_text;
use crate::text::fitting;
use crate::text::last_segment;
use crate::text::replace_all;
use crate::text::replaced;
use crate::text::split_last;
use crate::text::truncate_text;
use vstd::prelude::*;

verus! {

/// The most bytes that the label of an episode's entry may take.
pub const LABEL_LIMIT: usize = 64;

/// Two texts put together.
fn joined(first: &str, second: &str) -> (r: String)
    ensures
        r@ == first@ + second@,
{
    let mut r = first.to_owned();
    r.append(second);
    r
}

/// The entry of a search result: the label tells a movie from a series by
/// a sign before the name, and the value by a word before the identifier.
pub open spec fn search_option_text(item: EmbyItemData) -> OptionText {
    if item.item_type@ == "Movie"@ {
        OptionText { label: "\u{1F4FD}: "@ + item.name@, value: "movie_"@ + item.id@ }
    } else if item.item_type@ == "Series"@ {
        OptionText { label: "\u{1F4FA}: "@ + item.name@, value: "series_"@ + item.id@ }
    } else {
        OptionText { label: "unknown: : "@ + item.name@, value: "unknown_"@ + item.id@ }
    }
}

/// The entry of a record that is shown by its name and told by its
/// identifier: a season, or a user.
pub open spec fn record_option_text(item: EmbyItemData) -> OptionText {
    OptionText { label: item.name@, value: item.id@ }
}

/// The entry of an episode. One that the library can locate is shown by
/// its episode name, cut to [`LABEL_LIMIT`] bytes, and told by its
/// identifier; one that it cannot locate is marked as not found and told by
/// its name.
pub open spec fn episode_option_text(item: EmbyItemData) -> OptionText {
    if item.path is Some {
        OptionText {
            label: episode_name(item).take(fitting(episode_name(item), LABEL_LIMIT as nat) as int),
            value: item.id@,
        }
    } else {
        OptionText { label: "NOT FOUND: "@ + item.name@, value: item.name@ }
    }
}

/// The entry of a queue item: its name, and its identifier as a UUID.
pub open spec fn queue_option_text(item: QueueItem) -> OptionText {
    OptionText { label: item.display_name@, value: uuid_text(item.id) }
}

/// The entry that stands for no user.
pub open spec fn no_user_option_text() -> OptionText {
    OptionText { label: "None"@, value: "None"@ }
}

/// The entry that an empty queue shows.
pub open spec fn empty_queue_option_text() -> OptionText {
    OptionText { label: "No items in queue!"@, value: "empty"@ }
}

/// The entries of a search result, one for each record in its order.
pub open spec fn search_option_texts(items: Seq<EmbyItemData>) -> Seq<OptionText> {
    Seq::new(items.len(), |i: int| search_option_text(items[i]))
}

/// The entries of seasons or users, one for each record in its order.
pub open spec fn record_option_texts(items: Seq<EmbyItemData>) -> Seq<OptionText> {
    Seq::new(items.len(), |i: int| record_option_text(items[i]))
}

/// The entries of episodes, one for each record in its order.
pub open spec fn episode_option_texts(items: Seq<EmbyItemData>) -> Seq<OptionText> {
    Seq::new(items.len(), |i: int| episode_option_text(items[i]))
}

/// The entries of queue items, one for each item in its order.
pub open spec fn queue_option_texts(items: Seq<QueueItem>) -> Seq<OptionText> {
    Seq::new(items.len(), |i: int| queue_option_text(items[i]))
}

/// Makes the entry of a search result.
pub fn search_option(item: &EmbyItemData) -> (option: MenuOption)
    ensures
        option@ == search_option_text(*item),
{
    if item.item_type == "Movie".to_owned() {
        MenuOption {
            label: joined("\u{1F4FD}: ", item.name.as_str()),
            value: joined("movie_", item.id.as_str()),
        }
    } else if item.item_type == "Series".to_owned() {
        MenuOption {
            label: joined("\u{1F4FA}: ", item.name.as_str()),
            value: joined("series_", item.id.as_str()),
        }
    } else {
        MenuOption {
            label: joined("unknown: : ", item.name.as_str()),
            value: joined("unknown_", item.id.as_str()),
        }
    }
}

/// Makes the entry of a season or a user.
pub fn record_option(item: &EmbyItemData) -> (option: MenuOption)
    ensures
        option@ == record_option_text(*item),
{
    MenuOption { label: item.name.clone(), value: item.id.clone() }
}

/// Makes the entry of an episode.
pub fn episode_option(item: &EmbyItemData) -> (option: MenuOption)
    requires
        item.path is Some ==> can_be_named(*item),
    ensures
        option@ == episode_option_text(*item),
{
    if item.path.is_some() {
        let name = generate_episode_name(item.clone());
        MenuOption { label: truncate_text(name.as_str(), LABEL_LIMIT), value: item.id.clone() }
    } else {
        MenuOption { label: joined("NOT FOUND: ", item.name.as_str()), value: item.name.clone() }
    }
}

/// Makes the entry of a queue item.
pub fn queue_option(item: &QueueItem) -> (option: MenuOption)
    ensures
        option@ == queue_option_text(*item),
        parsed_uuid(option@.value) == Some(item.id),
{
    MenuOption { label: item.display_name.clone(), value: item.id_text() }
}

/// Makes the entries of a search result.
pub fn search_options(items: &Vec<EmbyItemData>) -> (result: EmbySearchResult)
    ensures
        result.result_items == items.len(),
        option_texts(result.result_menu_option@) == search_option_texts(items@),
{
    let mut options: Vec<MenuOption> = Vec::new();
    let mut i: usize = 0;
    while i < items.len()
        invariant
            i <= items.len(),
            options.len() == i,
            forall|k: int| 0 <= k < i ==> (#[trigger] options@[k])@ == search_option_text(items@[k]),
        decreases items.len() - i,
    {
        options.push(search_option(&items[i]));
        i += 1;
    }
    assert(option_texts(options@) =~= search_option_texts(items@));
    EmbySearchResult { result_menu_option: options, result_items: items.len() }
}

/// The entry that a search without results shows.
pub open spec fn no_results_option_text() -> OptionText {
    OptionText { label: "No Results found!"@, value: "empty"@ }
}

/// Makes the menu of a search result: its entries, or the one that says
/// that nothing was found.
pub fn search_menu(result: &EmbySearchResult) -> (options: Vec<MenuOption>)
    ensures
        result.result_items == 0 ==> option_texts(options@) == seq![no_results_option_text()],
        result.result_items != 0 ==> options@ == result.result_menu_option@,
{
    let mut options: Vec<MenuOption> = Vec::new();
    if result.result_items == 0 {
        options.push(
            MenuOption { label: "No Results found!".to_owned(), value: "empty".to_owned() },
        );
        assert(option_texts(options@) =~= seq![no_results_option_text()]);
        return options;
    }
    let mut i: usize = 0;
    while i < result.result_menu_option.len()
        invariant
            i <= result.result_menu_option.len(),
            options@ == result.result_menu_option@.take(i as int),
        decreases result.result_menu_option.len() - i,
    {
        options.push(result.result_menu_option[i].clone());
        assert(result.result_menu_option@.take(i + 1) =~= result.result_menu_option@.take(
            i as int,
        ).push(result.result_menu_option@[i as int]));
        i += 1;
    }
    assert(result.result_menu_option@.take(i as int) =~= result.result_menu_option@);
    options
}

/// Makes the entries of a list of seasons.
pub fn season_options(items: &Vec<EmbyItemData>) -> (result: EmbySearchResult)
    ensures
        result.result_items == items.len(),
        option_texts(result.result_menu_option@) == record_option_texts(items@),
{
    let mut options: Vec<MenuOption> = Vec::new();
    let mut i: usize = 0;
    while i < items.len()
        invariant
            i <= items.len(),
            options.len() == i,
            forall|k: int| 0 <= k < i ==> (#[trigger] options@[k])@ == record_option_text(items@[k]),
        decreases items.len() - i,
    {
        options.push(record_option(&items[i]));
        i += 1;
    }
    assert(option_texts(options@) =~= record_option_texts(items@));
    EmbySearchResult { result_menu_option: options, result_items: items.len() }
}

/// Makes the entries of a list of users: the entry for no user, then one
/// for each user in the list's order.
pub fn user_options(users: &Vec<EmbyItemData>) -> (result: EmbySearchResult)
    requires
        users.len() < usize::MAX,
    ensures
        result.result_items == users.len() + 1,
        option_texts(result.result_menu_option@) == seq![no_user_option_text()]
            + record_option_texts(users@),
{
    let mut options: Vec<MenuOption> = Vec::new();
    options.push(MenuOption { label: "None".to_owned(), value: "None".to_owned() });
    let mut i: usize = 0;
    while i < users.len()
        invariant
            i <= users.len(),
            options.len() == i + 1,
            options@[0]@ == no_user_option_text(),
            forall|k: int| 0 <= k < i ==> (#[trigger] options@[k + 1])@ == record_option_text(
                users@[k],
            ),
        decreases users.len() - i,
    {
        options.push(record_option(&users[i]));
        i += 1;
    }
    assert(option_texts(options@) =~= seq![no_user_option_text()] + record_option_texts(users@))
        by {
        let texts = option_texts(options@);
        let wanted = seq![no_user_option_text()] + record_option_texts(users@);
        assert(texts.len() == wanted.len());
        assert forall|k: int| 0 <= k < texts.len() implies texts[k] == wanted[k] by {
            if k > 0 {
                assert(options@[(k - 1) + 1]@ == record_option_text(users@[k - 1]));
            }
        }
    }
    let count = options.len();
    EmbySearchResult { result_menu_option: options, result_items: count }
}

/// Whether an entry can be made for each episode of a list.
pub open spec fn episodes_can_be_named(episodes: Seq<EmbyItemData>) -> bool {
    forall|i: int|
        0 <= i < episodes.len() && (#[trigger] episodes[i]).path is Some ==> can_be_named(
            episodes[i],
        )
}

/// Makes the entries of a list of episodes.
pub fn episode_options(episodes: &Vec<EmbyItemData>) -> (result: EmbySearchResult)
    requires
        episodes_can_be_named(episodes@),
    ensures
        result.result_items == episodes.len(),
        option_texts(result.result_menu_option@) == episode_option_texts(episodes@),
{
    let mut options: Vec<MenuOption> = Vec::new();
    let mut i: usize = 0;
    while i < episodes.len()
        invariant
            i <= episodes.len(),
            options.len() == i,
            episodes_can_be_named(episodes@),
            forall|k: int| 0 <= k < i ==> (#[trigger] options@[k])@ == episode_option_text(episodes@[k]),
        decreases episodes.len() - i,
    {
        assert(episodes@[i as int].path is Some ==> can_be_named(episodes@[i as int]));
        options.push(episode_option(&episodes[i]));
        i += 1;
    }
    assert(option_texts(options@) =~= episode_option_texts(episodes@));
    EmbySearchResult { result_menu_option: options, result_items: episodes.len() }
}

/// Whether an entry can be made for each episode of a list.
pub fn can_name_episodes(episodes: &Vec<EmbyItemData>) -> (r: bool)
    ensures
        r == episodes_can_be_named(episodes@),
{
    let mut i: usize = 0;
    while i < episodes.len()
        invariant
            i <= episodes.len(),
            forall|k: int|
                0 <= k < i && (#[trigger] episodes@[k]).path is Some ==> can_be_named(
                    episodes@[k],
                ),
        decreases episodes.len() - i,
    {
        let episode = &episodes[i];
        let named = episode.item_type == "Movie".to_owned() || (episode.season_num.is_some()
            && episode.episode_num.is_some());
        if episode.path.is_some() && !named {
            return false;
        }
        i += 1;
    }
    true
}

/// Makes the entries of the queue's menu: one for each item in playback
/// order, or the one that says that nothing is queued.
pub fn queue_options(items: &Vec<QueueItem>) -> (options: Vec<MenuOption>)
    ensures
        items.len() == 0 ==> option_texts(options@) == seq![empty_queue_option_text()],
        items.len() > 0 ==> option_texts(options@) == queue_option_texts(items@),
{
    let mut options: Vec<MenuOption> = Vec::new();
    if items.len() == 0 {
        options.push(
            MenuOption { label: "No items in queue!".to_owned(), value: "empty".to_owned() },
        );
        assert(option_texts(options@) =~= seq![empty_queue_option_text()]);
        return options;
    }
    let mut i: usize = 0;
    while i < items.len()
        invariant
            i <= items.len(),
            options.len() == i,
            forall|k: int| 0 <= k < i ==> (#[trigger] options@[k])@ == queue_option_text(items@[k]),
        decreases items.len() - i,
    {
        options.push(queue_option(&items[i]));
        i += 1;
    }
    assert(option_texts(options@) =~= queue_option_texts(items@));
    options
}

/// The text that stands in the queue's menu before an entry is picked.
pub fn queue_placeholder(count: usize) -> (text: String)
    ensures
        text@ == decimal_text(count as nat) + " Queue Items"@,
{
    let mut text = String::new();
    append_decimal(&mut text, count as u64);
    text.append(" Queue Items");
    assert(text@ =~= decimal_text(count as nat) + " Queue Items"@);
    text
}

/// What picking an entry of the queue's menu asks for.
#[derive(Clone, Copy, Debug, PartialEq, Eq, Structural)]
pub enum QueueSelection {
    /// Nothing: the entry stands for an empty queue or an unknown pick.
    Nothing,
    /// The removal of the item with this identifier.
    Remove(u128),
    /// The value writes no identifier.
    Malformed,
}

/// What a value of the queue's menu asks for, where `id` is the identifier
/// that the value writes: the two values that stand for no item ask for
/// nothing, any other asks for the removal of the item it identifies.
pub open spec fn selection_for(value: Seq<char>, id: Option<u128>) -> QueueSelection {
    if value == "empty"@ || value == "unknown"@ {
        QueueSelection::Nothing
    } else {
        match id {
            Some(id) => QueueSelection::Remove(id),
            None => QueueSelection::Malformed,
        }
    }
}

/// What the value of an entry of the queue's menu asks for.
pub open spec fn queue_selection_of(value: Seq<char>) -> QueueSelection {
    selection_for(value, parsed_uuid(value))
}

/// Tells what a value of the queue's menu asks for, where `id` is the
/// identifier that the value writes.
pub fn read_selection(value: &str, id: Option<u128>) -> (selection: QueueSelection)
    ensures
        selection == selection_for(value@, id),
{
    let text = value.to_owned();
    if text == "empty".to_owned() || text == "unknown".to_owned() {
        QueueSelection::Nothing
    } else {
        match id {
            Some(id) => QueueSelection::Remove(id),
            None => QueueSelection::Malformed,
        }
    }
}

/// Reads what picking an entry of the queue's menu asks for.
pub fn queue_selection(value: &str) -> (selection: QueueSelection)
    ensures
        selection == queue_selection_of(value@),
{
    read_selection(value, parse_item_id(value))
}

/// What a pick in the queue's menu does to the controller, and whether an
/// item was to be removed: a pick that asks for nothing changes nothing, a
/// removal takes the items with the identifier out of the queue, and a
/// value that writes no identifier is an error that changes nothing.
pub open spec fn selection_applied(state: QueueState, selection: QueueSelection) -> (
    QueueState,
    Result<bool, QueueError>,
) {
    match selection {
        QueueSelection::Nothing => (state, Ok(false)),
        QueueSelection::Remove(id) => (state.remove(id), Ok(true)),
        QueueSelection::Malformed => (state, Err(QueueError::InvalidId)),
    }
}

/// Carries out a pick in the queue's menu, and tells whether an item was to
/// be removed.
pub fn apply_selection(queue: &mut PlayQueue, selection: QueueSelection) -> (r: Result<
    bool,
    QueueError,
>)
    ensures
        (final(queue)@, r) == selection_applied(old(queue)@, selection),
{
    match selection {
        QueueSelection::Nothing => Ok(false),
        QueueSelection::Remove(id) => {
            let _ = queue.remove_uri(id);
            Ok(true)
        },
        QueueSelection::Malformed => Err(QueueError::InvalidId),
    }
}

/// Picking the entry that the bot made for a queue item never asks for
/// nothing: the UUID's text is longer than the two values that do, so it
/// is read as an identifier.
pub proof fn lemma_queue_option_is_read_as_id(item: QueueItem)
    ensures
        queue_selection_of(queue_option_text(item).value) == match parsed_uuid(
            uuid_text(item.id),
        ) {
            Some(id) => QueueSelection::Remove(id),
            None => QueueSelection::Malformed,
        },
{
    reveal_strlit("empty");
    reveal_strlit("unknown");
    assert(uuid_text(item.id).len() == 36);
}

/// The name of what is playing, or the words that say that nothing is.
pub fn now_playing(current: &Option<QueueItem>) -> (text: String)
    ensures
        text@ == match current {
            Some(item) => item.display_name@,
            None => "No item playing"@,
        },
{
    match current {
        Some(item) => item.name(),
        None => "No item playing".to_owned(),
    }
}

/// The label of the button that shows and changes the chosen user.
pub fn user_button_label(user: &Option<EmbyItemData>) -> (label: String)
    ensures
        label@ == match user {
            Some(user) => "User: "@ + user.name@,
            None => "User: (None)"@,
        },
{
    match user {
        Some(user) => joined("User: ", user.name.as_str()),
        None => "User: (None)".to_owned(),
    }
}

/// The name under which a medium that is queued by its locator is shown:
/// what stands behind the locator's last `/`.
pub fn display_name_of(locator: &str) -> (name: String)
    ensures
        name@ == last_segment(locator@, '/'),
{
    split_last(locator, '/').1
}

/// Where the streaming host finds a medium that the library locates at
/// `path`: the library's storage root is mounted elsewhere there.
pub open spec fn storage_path_of(path: Seq<char>) -> Seq<char> {
    replaced(path, "/mnt/storage"@, "/mnt/zfspool/storage"@)
}

/// Turns a path of the media library into the path on the streaming host.
pub fn storage_path(path: &str) -> (r: String)
    ensures
        r@ == storage_path_of(path@),
{
    replace_all(path, "/mnt/storage", "/mnt/zfspool/storage")
}

/// The path from which a record can be queued: none where the library
/// gives no path or an empty one.
pub fn playable_path(item: &EmbyItemData) -> (path: Option<String>)
    ensures
        match item.path {
            Some(given) => if given@.len() == 0 {
                path is None
            } else {
                path is Some && path->Some_0@ == storage_path_of(given@)
            },
            None => path is None,
        },
{
    match &item.path {
        Some(given) => {
            if given.as_str().is_empty() {
                None
            } else {
                Some(storage_path(given.as_str()))
            }
        },
        None => None,
    }
}

/// The words that tell a user how many records of a kind were found.
pub fn found_message(count: usize, what: &str) -> (message: String)
    ensures
        message@ == "Found "@ + decimal_text(count as nat) + seq![' '] + what@,
{
    let mut message = "Found ".to_owned();
    append_decimal(&mut message, count as u64);
    proof {
        reveal_strlit(" ");
    }
    message.append(" ");
    message.append(what);
    assert(message@ =~= "Found "@ + decimal_text(count as nat) + seq![' '] + what@);
    message
}

/// The words that tell a user that an item was queued.
pub fn added_message(name: &str) -> (message: String)
    ensures
        message@ == "added "@ + name@ + " to queue"@,
{
    let mut message = joined("added ", name);
    message.append(" to queue");
    message
}

/// The words that tell a user that a record cannot be located.
pub fn not_found_message(name: &str) -> (message: String)
    ensures
        message@ == "could not find episode info for "@ + name@,
{
    joined("could not find episode info for ", name)
}

/// The words that tell a user that queueing failed.
pub fn add_failed_message(path: &str, error: &str) -> (message: String)
    ensures
        message@ == "error adding "@ + path@ + " to queue: "@ + error@,
{
    let mut message = joined("error adding ", path);
    message.append(" to queue: ");
    message.append(error);
    message
}

} // verus!
