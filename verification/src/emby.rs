//! Item records of the media library, and what the bot derives from them.
use crate::error::BotError;
use crate::text::parse_u32;
use crate::text::parsed_u32;
use vstd::prelude::*;

verus! {

/// What the media library remembers of one user about an item.
#[derive(Clone, Copy, Debug, PartialEq, Eq, Structural)]
pub struct EmbyItemUserData {
    /// Whether the user has watched the item.
    pub played: bool,
}

/// One record of the media library: a series, a season, an episode, a movie
/// or a user.
#[derive(Debug, PartialEq, Eq)]
pub struct EmbyItemData {
    pub id: String,
    pub name: String,
    pub item_type: String,
    /// Where the medium lies; absent where the library cannot resolve it.
    pub path: Option<String>,
    /// Number of an episode within its season.
    pub episode_num: Option<String>,
    /// Number of the season that an episode belongs to.
    pub season_num: Option<String>,
    pub user_data: Option<EmbyItemUserData>,
}

/// A list of records, as the media library answers a query.
#[derive(Debug, PartialEq, Eq)]
pub struct EmbyItemsResult {
    pub items: Vec<EmbyItemData>,
}

/// A copy of an optional text.
fn clone_text(text: &Option<String>) -> (r: Option<String>)
    ensures
        r == *text,
{
    match text {
        Some(text) => Some(text.clone()),
        None => None,
    }
}

impl Clone for EmbyItemData {
    fn clone(&self) -> (r: Self)
        ensures
            r == *self,
    {
        EmbyItemData {
            id: self.id.clone(),
            name: self.name.clone(),
            item_type: self.item_type.clone(),
            path: clone_text(&self.path),
            episode_num: clone_text(&self.episode_num),
            season_num: clone_text(&self.season_num),
            user_data: self.user_data,
        }
    }
}

/// The episode number by which a record is ordered: what its `episode_num`
/// writes in decimal, and 0 where it is absent or writes no number.
pub open spec fn episode_number(item: EmbyItemData) -> u32 {
    match item.episode_num {
        Some(text) => match parsed_u32(text@) {
            Some(number) => number,
            None => 0,
        },
        None => 0,
    }
}

/// Whether position `a` comes before position `b` when `keys` are sorted:
/// by the smaller key and, between equal keys, by the earlier position.
pub open spec fn comes_before(keys: Seq<u32>, a: int, b: int) -> bool {
    keys[a] < keys[b] || (keys[a] == keys[b] && a < b)
}

/// Whether `order` lists the first `count` positions of `keys` in sorted
/// order, positions of equal keys in their own order.
pub open spec fn is_stable_order(keys: Seq<u32>, count: int, order: Seq<usize>) -> bool {
    &&& order.len() == count
    &&& forall|k: int| 0 <= k < order.len() ==> 0 <= #[trigger] order[k] < count
    &&& forall|j: int, k: int|
        0 <= j < k < order.len() ==> comes_before(keys, #[trigger] order[j] as int, #[trigger] order[k] as int)
}

/// The episode numbers of a list of records.
pub open spec fn episode_numbers(items: Seq<EmbyItemData>) -> Seq<u32> {
    items.map_values(|item: EmbyItemData| episode_number(item))
}

/// Whether `sorted` holds the records of `items` ordered by episode number,
/// records with the same number in the order that they have in `items`.
pub open spec fn is_sorted_by_episode(sorted: Seq<EmbyItemData>, items: Seq<EmbyItemData>) -> bool {
    exists|order: Seq<usize>|
        {
            &&& #[trigger] is_stable_order(episode_numbers(items), items.len() as int, order)
            &&& sorted.len() == items.len()
            &&& forall|k: int| 0 <= k < sorted.len() ==> sorted[k] == items[order[k] as int]
        }
}

/// The positions of `keys` in sorted order, positions of equal keys in
/// their own order.
pub fn stable_order(keys: &Vec<u32>) -> (order: Vec<usize>)
    ensures
        is_stable_order(keys@, keys.len() as int, order@),
{
    let mut order: Vec<usize> = Vec::new();
    let mut i: usize = 0;
    while i < keys.len()
        invariant
            i <= keys.len(),
            is_stable_order(keys@, i as int, order@),
        decreases keys.len() - i,
    {
        let mut at: usize = order.len();
        while at > 0 && keys[order[at - 1]] > keys[i]
            invariant
                at <= order.len(),
                i < keys.len(),
                is_stable_order(keys@, i as int, order@),
                forall|k: int| at <= k < order.len() ==> keys@[order@[k] as int] > keys@[i as int],
            decreases at,
        {
            at -= 1;
        }
        let ghost before = order@;
        order.insert(at, i);
        proof {
            assert forall|j: int, k: int| 0 <= j < k < order@.len() implies comes_before(
                keys@,
                #[trigger] order@[j] as int,
                #[trigger] order@[k] as int,
            ) by {
                if k < at {
                    assert(order@[j] == before[j] && order@[k] == before[k]);
                } else if k == at {
                    assert(order@[j] == before[j]);
                    if at > 0 {
                        assert(j == at - 1 || comes_before(
                            keys@,
                            before[j] as int,
                            before[at - 1] as int,
                        ));
                    }
                } else if j < at {
                    assert(order@[j] == before[j] && order@[k] == before[k - 1]);
                } else if j == at {
                    assert(order@[k] == before[k - 1]);
                } else {
                    assert(order@[j] == before[j - 1] && order@[k] == before[k - 1]);
                }
            }
            assert forall|k: int| 0 <= k < order@.len() implies 0 <= #[trigger] order@[k] < i + 1 by {
                if k < at {
                    assert(order@[k] == before[k]);
                } else if k > at {
                    assert(order@[k] == before[k - 1]);
                }
            }
        }
        i += 1;
    }
    order
}

/// A stable order lists each position once: it is a rearrangement of the
/// positions, and no position is left out.
pub proof fn lemma_stable_order_is_rearrangement(keys: Seq<u32>, order: Seq<usize>)
    requires
        is_stable_order(keys, keys.len() as int, order),
    ensures
        order.no_duplicates(),
        forall|p: usize| p < keys.len() ==> order.contains(p),
{
    let count = keys.len() as int;
    assert forall|j: int, k: int| 0 <= j < order.len() && 0 <= k < order.len() && j != k implies order[j]
        != order[k] by {
        if j < k {
            assert(comes_before(keys, order[j] as int, order[k] as int));
        } else {
            assert(comes_before(keys, order[k] as int, order[j] as int));
        }
    }
    let positions = order.map_values(|p: usize| p as int);
    assert(positions.no_duplicates()) by {
        assert forall|j: int, k: int|
            0 <= j < positions.len() && 0 <= k < positions.len() && j != k implies positions[j]
            != positions[k] by {
            assert(order[j] != order[k]);
        }
    }
    positions.unique_seq_to_set();
    vstd::set_lib::lemma_int_range(0, count);
    let all = vstd::set_lib::set_int_range(0, count);
    assert(positions.to_set().subset_of(all)) by {
        assert forall|p: int| positions.to_set().contains(p) implies all.contains(p) by {
            let k = choose|k: int| 0 <= k < positions.len() && positions[k] == p;
            assert(0 <= order[k] < count);
        }
    }
    vstd::set_lib::lemma_len_subset(positions.to_set(), all);
    vstd::set_lib::lemma_subset_equality(positions.to_set(), all);
    assert forall|p: usize| p < keys.len() implies order.contains(p) by {
        assert(all.contains(p as int));
        assert(positions.to_set().contains(p as int));
        let k = choose|k: int| 0 <= k < positions.len() && positions[k] == p as int;
        assert(order[k] == p);
    }
}

/// Sorting only rearranges: the sorted list is as long as the list it was
/// made of, each record of that list stands in it, and the episode numbers
/// never fall from one record to the next.
pub proof fn lemma_sorted_by_episode(sorted: Seq<EmbyItemData>, items: Seq<EmbyItemData>)
    requires
        is_sorted_by_episode(sorted, items),
        items.len() <= usize::MAX,
    ensures
        sorted.len() == items.len(),
        forall|p: int| 0 <= p < items.len() ==> sorted.contains(#[trigger] items[p]),
        forall|j: int, k: int|
            0 <= j < k < sorted.len() ==> episode_number(#[trigger] sorted[j]) <= episode_number(
                #[trigger] sorted[k],
            ),
{
    let keys = episode_numbers(items);
    let order = choose|order: Seq<usize>|
        {
            &&& #[trigger] is_stable_order(episode_numbers(items), items.len() as int, order)
            &&& sorted.len() == items.len()
            &&& forall|k: int| 0 <= k < sorted.len() ==> sorted[k] == items[order[k] as int]
        };
    lemma_stable_order_is_rearrangement(keys, order);
    assert forall|p: int| 0 <= p < items.len() implies sorted.contains(#[trigger] items[p]) by {
        let position = p as usize;
        assert(order.contains(position));
        let k = choose|k: int| 0 <= k < order.len() && order[k] == position;
        assert(sorted[k] == items[p]);
    }
    assert forall|j: int, k: int| 0 <= j < k < sorted.len() implies episode_number(
        #[trigger] sorted[j],
    ) <= episode_number(#[trigger] sorted[k]) by {
        assert(comes_before(keys, order[j] as int, order[k] as int));
        assert(sorted[j] == items[order[j] as int]);
        assert(sorted[k] == items[order[k] as int]);
    }
}

impl EmbyItemsResult {
    /// The records ordered by episode number. Records with the same number,
    /// among them all that have none, keep the order they came in.
    pub fn get_sorted_items(&self) -> (sorted: Vec<EmbyItemData>)
        ensures
            is_sorted_by_episode(sorted@, self.items@),
    {
        let mut keys: Vec<u32> = Vec::new();
        let mut i: usize = 0;
        while i < self.items.len()
            invariant
                i <= self.items.len(),
                keys@ == episode_numbers(self.items@.take(i as int)),
            decreases self.items.len() - i,
        {
            let key = match &self.items[i].episode_num {
                Some(text) => match parse_u32(text.as_str()) {
                    Some(number) => number,
                    None => 0,
                },
                None => 0,
            };
            keys.push(key);
            assert(self.items@.take(i + 1) =~= self.items@.take(i as int).push(self.items@[i as int]));
            assert(keys@ =~= episode_numbers(self.items@.take(i + 1)));
            i += 1;
        }
        assert(self.items@.take(i as int) =~= self.items@);
        let order = stable_order(&keys);
        let mut sorted: Vec<EmbyItemData> = Vec::new();
        let mut k: usize = 0;
        while k < order.len()
            invariant
                k <= order.len(),
                order.len() == self.items.len(),
                is_stable_order(episode_numbers(self.items@), self.items.len() as int, order@),
                sorted.len() == k,
                forall|j: int| 0 <= j < k ==> sorted@[j] == self.items@[order@[j] as int],
            decreases order.len() - k,
        {
            let from = order[k];
            assert(0 <= order@[k as int] < self.items.len());
            sorted.push(self.items[from].clone());
            k += 1;
        }
        sorted
    }
}

/// The mark that tells whether a user has watched an item: a green circle
/// where they have, a red one where they have not, and nothing where the
/// record says nothing of a user.
pub open spec fn watched_mark(user_data: Option<EmbyItemUserData>) -> Seq<char> {
    match user_data {
        Some(data) => if data.played {
            "\u{1F7E2}: "@
        } else {
            "\u{1F534}: "@
        },
        None => Seq::empty(),
    }
}

/// Whether a record is a movie.
pub open spec fn is_movie(item: EmbyItemData) -> bool {
    item.item_type@ == "Movie"@
}

/// Whether a name can be made for a record: a movie needs nothing more, any
/// other record needs the numbers of its season and its episode.
pub open spec fn can_be_named(item: EmbyItemData) -> bool {
    is_movie(item) || (item.season_num is Some && item.episode_num is Some)
}

/// The name under which a record is shown: the watched mark, then
/// `Movie - ` and the name for a movie, and `S`, the season number, `E`, the
/// episode number, ` - ` and the name for anything else.
pub open spec fn episode_name(item: EmbyItemData) -> Seq<char> {
    if is_movie(item) {
        watched_mark(item.user_data) + "Movie - "@ + item.name@
    } else {
        watched_mark(item.user_data) + "S"@ + item.season_num->Some_0@ + "E"@
            + item.episode_num->Some_0@ + " - "@ + item.name@
    }
}

/// Makes the name under which a record is shown.
pub fn generate_episode_name(episode: EmbyItemData) -> (name: String)
    requires
        can_be_named(episode),
    ensures
        name@ == episode_name(episode),
{
    let mut name = match episode.user_data {
        Some(data) => {
            if data.played {
                "\u{1F7E2}: ".to_owned()
            } else {
                "\u{1F534}: ".to_owned()
            }
        },
        None => String::new(),
    };
    if episode.item_type == "Movie".to_owned() {
        name.append("Movie - ");
        name.append(episode.name.as_str());
    } else {
        let season = match &episode.season_num {
            Some(season) => season.as_str(),
            None => "",
        };
        let number = match &episode.episode_num {
            Some(number) => number.as_str(),
            None => "",
        };
        name.append("S");
        name.append(season);
        name.append("E");
        name.append(number);
        name.append(" - ");
        name.append(episode.name.as_str());
    }
    name
}

/// Makes the name under which a record is shown, where one can be made.
pub fn episode_label(episode: EmbyItemData) -> (name: Option<String>)
    ensures
        can_be_named(episode) ==> name is Some && name->Some_0@ == episode_name(episode),
        !can_be_named(episode) ==> name is None,
{
    let named = episode.item_type == "Movie".to_owned() || (episode.season_num.is_some()
        && episode.episode_num.is_some());
    if named {
        Some(generate_episode_name(episode))
    } else {
        None
    }
}

/// A kind of record that a search can be narrowed to.
#[derive(Clone, Copy, Debug, PartialEq, Eq, Structural)]
pub enum SearchItemType {
    Series,
    Movie,
}

/// The name by which the media library knows a kind of record.
pub open spec fn item_type_name(item_type: SearchItemType) -> Seq<char> {
    match item_type {
        SearchItemType::Series => "Series"@,
        SearchItemType::Movie => "Movie"@,
    }
}

impl SearchItemType {
    /// The name by which the media library knows the kind.
    pub fn name(&self) -> (name: &'static str)
        ensures
            name@ == item_type_name(*self),
    {
        match self {
            SearchItemType::Series => "Series",
            SearchItemType::Movie => "Movie",
        }
    }
}

/// The names of kinds of records, with a comma between each two.
pub open spec fn item_type_list(item_types: Seq<SearchItemType>) -> Seq<char>
    decreases item_types.len(),
{
    if item_types.len() == 0 {
        Seq::empty()
    } else if item_types.len() == 1 {
        item_type_name(item_types[0])
    } else {
        item_type_list(item_types.drop_last()) + seq![','] + item_type_name(item_types.last())
    }
}

/// Two texts put together.
fn joined(first: &str, second: &str) -> (r: String)
    ensures
        r@ == first@ + second@,
{
    let mut r = first.to_owned();
    r.append(second);
    r
}

/// The request for the records of the given kinds whose name matches
/// `item_name`.
pub open spec fn search_path_text(item_name: Seq<char>, item_types: Seq<SearchItemType>) -> Seq<
    char,
> {
    "Items?Recursive=true&IncludeItemTypes="@ + item_type_list(item_types)
        + "&SortBy=SortName&SearchTerm="@ + item_name
}

/// Makes the request for the records of the given kinds whose name matches
/// `item_name`. An empty name is refused.
pub fn search_path(item_name: &str, item_types: &Vec<SearchItemType>) -> (r: Result<
    String,
    BotError,
>)
    ensures
        item_name@.len() == 0 ==> r is Err && r->Err_0.text()
            == "no item types for search passed!"@,
        item_name@.len() > 0 ==> r is Ok && r->Ok_0@ == search_path_text(
            item_name@,
            item_types@,
        ),
{
    if item_name.is_empty() {
        return Err(BotError::new("no item types for search passed!"));
    }
    let mut path = "Items?Recursive=true&IncludeItemTypes=".to_owned();
    let ghost begin = path@;
    let mut i: usize = 0;
    while i < item_types.len()
        invariant
            i <= item_types.len(),
            path@ == begin + item_type_list(item_types@.take(i as int)),
        decreases item_types.len() - i,
    {
        if i > 0 {
            proof {
                reveal_strlit(",");
            }
            path.append(",");
        }
        path.append(item_types[i].name());
        proof {
            let now = item_types@.take(i + 1);
            assert(now.drop_last() =~= item_types@.take(i as int));
            assert(now.last() == item_types@[i as int]);
            assert(path@ =~= begin + item_type_list(now));
        }
        i += 1;
    }
    assert(item_types@.take(i as int) =~= item_types@);
    path.append("&SortBy=SortName&SearchTerm=");
    path.append(item_name);
    Ok(path)
}

/// Makes the request for the seasons of a series.
pub fn seasons_path(series_id: &str) -> (path: String)
    ensures
        path@ == "Shows/"@ + series_id@ + "/Seasons"@,
{
    let mut path = joined("Shows/", series_id);
    path.append("/Seasons");
    path
}

/// The request for the episodes of a season, as the given user sees them
/// where there is one.
pub open spec fn episodes_path_text(season_id: Seq<char>, user: Option<EmbyItemData>) -> Seq<
    char,
> {
    let prefix = match user {
        Some(user) => "Users/"@ + user.id@ + "/"@,
        None => Seq::empty(),
    };
    prefix + "Items?ParentId="@ + season_id + "&Fields=Path&IsMissing=false&SortBy=PremiereDate"@
}

/// Makes the request for the episodes of a season.
pub fn episodes_path(season_id: &str, user: &Option<EmbyItemData>) -> (path: String)
    ensures
        path@ == episodes_path_text(season_id@, *user),
{
    let mut path = match user {
        Some(user) => {
            let mut prefix = joined("Users/", user.id.as_str());
            prefix.append("/");
            prefix
        },
        None => String::new(),
    };
    path.append("Items?ParentId=");
    path.append(season_id);
    path.append("&Fields=Path&IsMissing=false&SortBy=PremiereDate");
    assert(path@ =~= episodes_path_text(season_id@, *user));
    path
}

/// Makes the request for one record.
pub fn item_info_path(item_id: &str) -> (path: String)
    ensures
        path@ == "Items?Ids="@ + item_id@ + "&Fields=Path&IsMissing=false&SortBy=PremiereDate"@,
{
    let mut path = joined("Items?Ids=", item_id);
    path.append("&Fields=Path&IsMissing=false&SortBy=PremiereDate");
    path
}

/// Makes the request for all records of a kind.
pub fn all_items_path(item_type: SearchItemType) -> (path: String)
    ensures
        path@ == "Items?Recursive=true&IncludeItemTypes="@ + item_type_name(item_type)
            + "&SortBy=SortName"@,
{
    let mut path = joined("Items?Recursive=true&IncludeItemTypes=", item_type.name());
    path.append("&SortBy=SortName");
    path
}

/// Makes the request for one user.
pub fn user_path(user_id: &str) -> (path: String)
    ensures
        path@ == "Users/"@ + user_id@,
{
    joined("Users/", user_id)
}

/// Makes the request that marks a medium as played by a user.
pub fn played_path(user_id: &str, media_id: &str) -> (path: String)
    ensures
        path@ == "Users/"@ + user_id@ + "/PlayedItems/"@ + media_id@,
{
    let mut path = joined("Users/", user_id);
    path.append("/PlayedItems/");
    path.append(media_id);
    path
}

/// The record that a request for one record found: the first of the
/// answer, which is missing where the answer is empty.
pub fn first_item(items: &Vec<EmbyItemData>, item_id: &str) -> (r: Result<EmbyItemData, BotError>)
    ensures
        items.len() > 0 ==> r == Ok::<_, BotError>(items[0]),
        items.len() == 0 ==> r is Err && r->Err_0.text() == "Somehow could not find item id "@
            + item_id@,
{
    if items.len() > 0 {
        Ok(items[0].clone())
    } else {
        let message = joined("Somehow could not find item id ", item_id);
        Err(BotError::new(message.as_str()))
    }
}

} // verus!
