//! What the player's buttons and menus mean: the identifiers that the bot
//! gives to its components, and what it reads from the ones that come back.
use crate::text::after_first_segment;
use crate::text::append_decimal;
use crate::text::before_last_segment;
use crate::text::contains_text;
use crate::text::decimal_text;
use crate::text::ends_with;
use crate::text::first_segment;
use crate::text::last_segment;
use crate::text::parse_i64;
use crate::text::parse_u32;
use crate::text::parsed_i64;
use crate::text::parsed_u32;
use crate::text::split_first;
use crate::text::split_last;
use crate::text::starts_with;
use crate::text::text_contains;
use crate::text::text_ends_with;
use crate::text::text_starts_with;
use crate::text::digit_value;
use crate::text::lemma_decimal_text_reads_back;
use crate::text::lemma_joined_holds_parts;
use crate::text::lemma_segments_of_joined;
use vstd::prelude::*;

verus! {

/// What a component of the player asks for.
#[derive(Clone, Copy, Debug, PartialEq, Eq, Structural)]
pub enum Action {
    Play,
    NowPlaying,
    Pause,
    Stop,
    Skip,
    Seek,
    ShowQueue,
    QueueList,
    FirstItemResult,
    SeasonResult,
    EpisodesResult,
    SelectUser,
    UserListResult,
    Search,
}

/// The text by which a component's identifier names an action. The
/// identifier ends with it, but for a seek, whose identifier holds it and
/// goes on with a direction and an amount.
pub open spec fn action_mark(action: Action) -> Seq<char> {
    match action {
        Action::Play => "play"@,
        Action::NowPlaying => "now_playing"@,
        Action::Pause => "pause"@,
        Action::Stop => "stop"@,
        Action::Skip => "skip"@,
        Action::Seek => "_seek_"@,
        Action::ShowQueue => "show_queue"@,
        Action::QueueList => "queue_list"@,
        Action::FirstItemResult => "first_item_result"@,
        Action::SeasonResult => "season_result"@,
        Action::EpisodesResult => "episodes_result"@,
        Action::SelectUser => "select_user"@,
        Action::UserListResult => "user_list_result"@,
        Action::Search => "search"@,
    }
}

/// Whether a component's identifier names `action`.
pub open spec fn names_action(custom_id: Seq<char>, action: Action) -> bool {
    if action == Action::Seek {
        contains_text(custom_id, action_mark(action))
    } else {
        ends_with(custom_id, action_mark(action))
    }
}

/// The actions, in the order in which the player attends to them.
pub open spec fn all_actions() -> Seq<Action> {
    seq![
        Action::Play,
        Action::NowPlaying,
        Action::Pause,
        Action::Stop,
        Action::Skip,
        Action::Seek,
        Action::ShowQueue,
        Action::QueueList,
        Action::FirstItemResult,
        Action::SeasonResult,
        Action::EpisodesResult,
        Action::SelectUser,
        Action::UserListResult,
        Action::Search,
    ]
}

/// The test that an identifier names an action.
pub open spec fn named_by(custom_id: Seq<char>) -> spec_fn(Action) -> bool {
    |action: Action| names_action(custom_id, action)
}

impl Action {
    /// The text by which a component's identifier names the action.
    pub fn mark(&self) -> (mark: &'static str)
        ensures
            mark@ == action_mark(*self),
    {
        match self {
            Action::Play => "play",
            Action::NowPlaying => "now_playing",
            Action::Pause => "pause",
            Action::Stop => "stop",
            Action::Skip => "skip",
            Action::Seek => "_seek_",
            Action::ShowQueue => "show_queue",
            Action::QueueList => "queue_list",
            Action::FirstItemResult => "first_item_result",
            Action::SeasonResult => "season_result",
            Action::EpisodesResult => "episodes_result",
            Action::SelectUser => "select_user",
            Action::UserListResult => "user_list_result",
            Action::Search => "search",
        }
    }

    /// Whether `custom_id` names the action.
    pub fn is_named_by(&self, custom_id: &str) -> (r: bool)
        ensures
            r == names_action(custom_id@, *self),
    {
        match self {
            Action::Seek => text_contains(custom_id, self.mark()),
            _ => text_ends_with(custom_id, self.mark()),
        }
    }
}

/// The actions in the order in which the player attends to them.
fn actions_in_order() -> (actions: Vec<Action>)
    ensures
        actions@ == all_actions(),
{
    let actions = vec![
        Action::Play,
        Action::NowPlaying,
        Action::Pause,
        Action::Stop,
        Action::Skip,
        Action::Seek,
        Action::ShowQueue,
        Action::QueueList,
        Action::FirstItemResult,
        Action::SeasonResult,
        Action::EpisodesResult,
        Action::SelectUser,
        Action::UserListResult,
        Action::Search,
    ];
    assert(actions@ =~= all_actions());
    actions
}

/// The actions that a component's identifier names, in the order in which
/// the player attends to them.
pub fn named_actions(custom_id: &str) -> (actions: Vec<Action>)
    ensures
        actions@ == all_actions().filter(named_by(custom_id@)),
{
    let all = actions_in_order();
    let mut actions: Vec<Action> = Vec::new();
    let mut i: usize = 0;
    assert(all@.take(0).filter(named_by(custom_id@)) =~= Seq::<Action>::empty()) by {
        reveal(Seq::filter);
    }
    while i < all.len()
        invariant
            i <= all.len(),
            all@ == all_actions(),
            actions@ == all@.take(i as int).filter(named_by(custom_id@)),
        decreases all.len() - i,
    {
        proof {
            assert(all@.take(i + 1) =~= all@.take(i as int).push(all@[i as int]));
            all@.take(i as int).lemma_filter_push(all@[i as int], named_by(custom_id@));
        }
        if all[i].is_named_by(custom_id) {
            actions.push(all[i]);
        }
        i += 1;
    }
    assert(all@.take(i as int) =~= all@);
    actions
}

/// Whether a component belongs to the player with the given number: its
/// identifier begins with the number.
pub fn belongs_to_player(custom_id: &str, player: u64) -> (r: bool)
    ensures
        r == starts_with(custom_id@, decimal_text(player as nat)),
{
    let mut prefix = String::new();
    append_decimal(&mut prefix, player);
    assert(prefix@ =~= decimal_text(player as nat));
    text_starts_with(custom_id, prefix.as_str())
}

/// The identifier of the component that asks player `player` for `action`:
/// the player's number, `_`, and the action's mark.
pub open spec fn component_id_text(player: u64, action: Action) -> Seq<char> {
    decimal_text(player as nat) + seq!['_'] + action_mark(action)
}

/// Makes the identifier of the component that asks player `player` for
/// `action`.
pub fn component_id(player: u64, action: Action) -> (id: String)
    ensures
        id@ == component_id_text(player, action),
{
    let mut id = String::new();
    append_decimal(&mut id, player);
    proof {
        reveal_strlit("_");
    }
    id.append("_");
    id.append(action.mark());
    assert(id@ =~= component_id_text(player, action));
    id
}

/// The size of a number of seconds, whichever way it counts.
pub open spec fn magnitude(seconds: i64) -> nat {
    if seconds < 0 {
        (-(seconds as int)) as nat
    } else {
        seconds as nat
    }
}

/// The identifier of the component that asks player `player` to seek by
/// `seconds`: the player's number, `_seek_`, the direction (`minus` or
/// `plus`), `_`, and the amount.
pub open spec fn seek_component_id_text(player: u64, seconds: i64) -> Seq<char> {
    let direction = if seconds < 0 {
        "minus"@
    } else {
        "plus"@
    };
    decimal_text(player as nat) + "_seek_"@ + direction + seq!['_'] + decimal_text(
        magnitude(seconds),
    )
}

/// Makes the identifier of the component that asks player `player` to seek
/// by `seconds`.
pub fn seek_component_id(player: u64, seconds: i64) -> (id: String)
    ensures
        id@ == seek_component_id_text(player, seconds),
{
    let mut id = String::new();
    append_decimal(&mut id, player);
    id.append("_seek_");
    let size: u64 = if seconds < 0 {
        id.append("minus");
        if seconds == i64::MIN {
            0x8000_0000_0000_0000
        } else {
            (-seconds) as u64
        }
    } else {
        id.append("plus");
        seconds as u64
    };
    proof {
        reveal_strlit("_");
    }
    id.append("_");
    append_decimal(&mut id, size);
    assert(id@ =~= seek_component_id_text(player, seconds));
    id
}

/// The number of seconds that a seek component asks for. The identifier
/// ends with a direction and an amount, as in `_seek_minus_300`: the amount
/// is what its last part writes, and it counts back where the part before
/// is `minus`. An amount that is no number, or 0, asks for nothing, and so
/// does one that 64 bits cannot hold with its sign.
pub open spec fn seek_amount(custom_id: Seq<char>) -> Option<i64> {
    let amount: int = match parsed_i64(last_segment(custom_id, '_')) {
        Some(amount) => amount as int,
        None => 0,
    };
    let sign: int = match before_last_segment(custom_id, '_') {
        Some(before) => if last_segment(before, '_') == "minus"@ {
            -1
        } else {
            1
        },
        None => 0,
    };
    if amount != 0 && i64::MIN <= sign * amount <= i64::MAX {
        Some((sign * amount) as i64)
    } else {
        None
    }
}

/// Reads the number of seconds that a seek component asks for.
pub fn seek_request(custom_id: &str) -> (r: Option<i64>)
    ensures
        r == seek_amount(custom_id@),
{
    let (before, last) = split_last(custom_id, '_');
    let amount: i64 = match parse_i64(last.as_str()) {
        Some(amount) => amount,
        None => 0,
    };
    if amount == 0 {
        return None;
    }
    match before {
        None => Some(0),
        Some(before) => {
            let (_, direction) = split_last(before.as_str(), '_');
            if direction == "minus".to_owned() {
                if amount == i64::MIN {
                    None
                } else {
                    Some(-amount)
                }
            } else {
                Some(amount)
            }
        },
    }
}

/// The identifier that the bot gives to a component names the component's
/// action and begins with the player's number.
pub proof fn lemma_component_id_names_action(player: u64, action: Action)
    ensures
        names_action(component_id_text(player, action), action),
        starts_with(component_id_text(player, action), decimal_text(player as nat)),
{
    lemma_joined_holds_parts(decimal_text(player as nat), seq!['_'], action_mark(action));
    lemma_joined_holds_parts(
        decimal_text(player as nat) + seq!['_'],
        action_mark(action),
        Seq::empty(),
    );
    assert(decimal_text(player as nat) + seq!['_'] + action_mark(action) + Seq::<char>::empty()
        =~= component_id_text(player, action));
}

/// The identifier that the bot gives to a seek component reads back as the
/// number of seconds it was made for, names a seek and begins with the
/// player's number. This holds of every amount but 0, which asks for
/// nothing, and the one negative amount whose size 64 bits cannot hold.
pub proof fn lemma_seek_component_id_reads_back(player: u64, seconds: i64)
    requires
        seconds != 0,
        seconds != i64::MIN,
    ensures
        seek_amount(seek_component_id_text(player, seconds)) == Some(seconds),
        names_action(seek_component_id_text(player, seconds), Action::Seek),
        starts_with(seek_component_id_text(player, seconds), decimal_text(player as nat)),
{
    let number = decimal_text(player as nat);
    let direction = if seconds < 0 {
        "minus"@
    } else {
        "plus"@
    };
    let size = magnitude(seconds);
    let amount = decimal_text(size);
    let id = seek_component_id_text(player, seconds);
    let prefix = number + "_seek_"@ + direction;
    reveal_strlit("_seek_");
    reveal_strlit("minus");
    reveal_strlit("plus");
    lemma_decimal_text_reads_back(size);
    assert forall|i: int| 0 <= i < amount.len() implies amount[i] != '_' by {
        assert(digit_value(amount[i]) is Some);
    }
    assert(id =~= prefix + seq!['_'] + amount);
    lemma_segments_of_joined(prefix, '_', amount);
    assert(last_segment(id, '_') == amount);
    assert(before_last_segment(id, '_') == Some(prefix));
    let seek = seq!['_', 's', 'e', 'e', 'k'];
    assert("_seek_"@ =~= seek + seq!['_']);
    assert(prefix =~= (number + seek) + seq!['_'] + direction);
    lemma_segments_of_joined(number + seek, '_', direction);
    assert(last_segment(prefix, '_') == direction);
    assert("plus"@ != "minus"@) by {
        assert("plus"@.len() != "minus"@.len());
    }
    assert(amount[0] != '-' && amount[0] != '+') by {
        assert(digit_value(amount[0]) is Some);
    }
    assert(size <= i64::MAX);
    assert(parsed_i64(amount) == Some(size as i64));
    assert(size != 0);
    if seconds < 0 {
        assert(-1 * (size as int) == seconds);
    } else {
        assert(1 * (size as int) == seconds);
    }
    assert(seek_amount(id) == Some(seconds));
    lemma_joined_holds_parts(number, "_seek_"@, direction + seq!['_'] + amount);
    assert(number + "_seek_"@ + (direction + seq!['_'] + amount) =~= id);
}

/// What the value of a search result's menu entry says: the kind of the
/// record, which is what stands before the first `_`, and its identifier,
/// which is what stands between the first `_` and the second. A value
/// without `_` has the identifier `unknown`.
pub open spec fn selection_of(value: Seq<char>) -> (Seq<char>, Seq<char>) {
    (
        first_segment(value, '_'),
        match after_first_segment(value, '_') {
            Some(rest) => first_segment(rest, '_'),
            None => "unknown"@,
        },
    )
}

/// Reads the kind and the identifier from the value of a search result's
/// menu entry.
pub fn selection_parts(value: &str) -> (r: (String, String))
    ensures
        (r.0@, r.1@) == selection_of(value@),
{
    let (kind, rest) = split_first(value, '_');
    let id = match rest {
        Some(rest) => split_first(rest.as_str(), '_').0,
        None => "unknown".to_owned(),
    };
    (kind, id)
}

/// The kind of record that an entry of a search result stands for.
#[derive(Clone, Copy, Debug, PartialEq, Eq, Structural)]
pub enum SelectedKind {
    Series,
    Movie,
    Unknown,
}

/// The kind that the first part of an entry's value names.
pub open spec fn selected_kind_of(kind: Seq<char>) -> SelectedKind {
    if kind == "series"@ {
        SelectedKind::Series
    } else if kind == "movie"@ {
        SelectedKind::Movie
    } else {
        SelectedKind::Unknown
    }
}

/// Tells the kind that the first part of an entry's value names.
pub fn selected_kind(kind: &str) -> (r: SelectedKind)
    ensures
        r == selected_kind_of(kind@),
{
    let kind = kind.to_owned();
    if kind == "series".to_owned() {
        SelectedKind::Series
    } else if kind == "movie".to_owned() {
        SelectedKind::Movie
    } else {
        SelectedKind::Unknown
    }
}

/// The user that an entry of the user menu stands for: none for the entry
/// `None`, and the user with the value as identifier for any other.
pub fn selected_user(value: &str) -> (user_id: Option<String>)
    ensures
        value@ == "None"@ ==> user_id is None,
        value@ != "None"@ ==> user_id is Some && user_id->Some_0@ == value@,
{
    let text = value.to_owned();
    if text == "None".to_owned() {
        None
    } else {
        Some(text)
    }
}

/// Whether a search asks for everything: it does where the name searched
/// for is `all`.
pub fn wants_all(item_name: &str) -> (r: bool)
    ensures
        r == (item_name@ == "all"@),
{
    item_name.to_owned() == "all".to_owned()
}

/// What the menu of episodes was used for.
#[derive(Debug, PartialEq, Eq)]
pub enum EpisodeChoice {
    /// Another page of the menu, by its number.
    Page(u32),
    /// A link to another page whose number cannot be read.
    BadPage,
    /// An episode, by its identifier.
    Episode(String),
}

/// What the value of an entry of the episode menu says: a value that
/// begins with `page_` asks for the page whose number stands behind its
/// last `_`; any other value is the identifier of an episode.
pub open spec fn episode_choice_of(value: Seq<char>) -> EpisodeChoiceText {
    if starts_with(value, "page_"@) {
        match parsed_u32(last_segment(value, '_')) {
            Some(page) => EpisodeChoiceText::Page(page),
            None => EpisodeChoiceText::BadPage,
        }
    } else {
        EpisodeChoiceText::Episode(value)
    }
}

/// An [`EpisodeChoice`], with its identifier as a sequence.
pub ghost enum EpisodeChoiceText {
    Page(u32),
    BadPage,
    Episode(Seq<char>),
}

impl View for EpisodeChoice {
    type V = EpisodeChoiceText;

    open spec fn view(&self) -> EpisodeChoiceText {
        match self {
            EpisodeChoice::Page(page) => EpisodeChoiceText::Page(*page),
            EpisodeChoice::BadPage => EpisodeChoiceText::BadPage,
            EpisodeChoice::Episode(id) => EpisodeChoiceText::Episode(id@),
        }
    }
}

/// Reads what the menu of episodes was used for.
pub fn episode_choice(value: &str) -> (choice: EpisodeChoice)
    ensures
        choice@ == episode_choice_of(value@),
{
    if text_starts_with(value, "page_") {
        let (_, last) = split_last(value, '_');
        match parse_u32(last.as_str()) {
            Some(page) => EpisodeChoice::Page(page),
            None => EpisodeChoice::BadPage,
        }
    } else {
        EpisodeChoice::Episode(value.to_owned())
    }
}

} // verus!
