//! Small decisions of the bot's commands.
use crate::text::after_first_segment;
use crate::text::append_signed;
use crate::text::first_segment;
use crate::text::lemma_first_index_of;
use crate::text::parse_u64;
use crate::text::parsed_u64;
use crate::text::split_first;
use crate::text::signed_text;
use vstd::prelude::*;

verus! {

/// The number of log lines that are fetched where none is asked for.
pub const DEFAULT_LOG_LINES: i64 = 10;

/// The most log lines that are fetched at once.
pub const MAX_LOG_LINES: i64 = 100;

/// The label by which the deployments that the bot may manage are marked.
pub fn managed_label() -> (label: &'static str)
    ensures
        label@ == "rustobot5000.managed=true"@,
{
    "rustobot5000.managed=true"
}

/// The number of log lines to fetch: what was asked for, 10 where nothing
/// was, and never more than 100.
pub fn log_tail_lines(lines: Option<i64>) -> (tail: i64)
    ensures
        tail == match lines {
            Some(lines) => if lines <= MAX_LOG_LINES {
                lines
            } else {
                MAX_LOG_LINES
            },
            None => DEFAULT_LOG_LINES,
        },
{
    let wanted = match lines {
        Some(lines) => lines,
        None => DEFAULT_LOG_LINES,
    };
    if wanted <= MAX_LOG_LINES {
        wanted
    } else {
        MAX_LOG_LINES
    }
}

/// Labels written as a selector: `key=value` for each, with a comma
/// between each two.
pub open spec fn selector_text(labels: Seq<(String, String)>) -> Seq<char>
    decreases labels.len(),
{
    if labels.len() == 0 {
        Seq::empty()
    } else if labels.len() == 1 {
        labels[0].0@ + seq!['='] + labels[0].1@
    } else {
        selector_text(labels.drop_last()) + seq![','] + labels.last().0@ + seq!['=']
            + labels.last().1@
    }
}

/// Writes the selector that matches the pods which carry all of `labels`.
pub fn label_selector(labels: &Vec<(String, String)>) -> (selector: String)
    ensures
        selector@ == selector_text(labels@),
{
    let mut selector = String::new();
    let mut i: usize = 0;
    proof {
        reveal_strlit(",");
        reveal_strlit("=");
    }
    while i < labels.len()
        invariant
            i <= labels.len(),
            ","@ == seq![','],
            "="@ == seq!['='],
            selector@ == selector_text(labels@.take(i as int)),
        decreases labels.len() - i,
    {
        if i > 0 {
            selector.append(",");
        }
        selector.append(labels[i].0.as_str());
        selector.append("=");
        selector.append(labels[i].1.as_str());
        proof {
            let now = labels@.take(i + 1);
            assert(now.drop_last() =~= labels@.take(i as int));
            assert(now.last() == labels@[i as int]);
            assert(selector@ =~= selector_text(now));
        }
        i += 1;
    }
    assert(labels@.take(i as int) =~= labels@);
    selector
}

/// Whether `game` is one of the deployments that may be managed.
pub fn is_valid_game(deployments: &Vec<String>, game: &str) -> (valid: bool)
    ensures
        valid == exists|i: int| 0 <= i < deployments.len() && (#[trigger] deployments[i])@ == game@,
{
    let wanted = game.to_owned();
    let mut i: usize = 0;
    while i < deployments.len()
        invariant
            i <= deployments.len(),
            wanted@ == game@,
            forall|k: int| 0 <= k < i ==> (#[trigger] deployments[k])@ != game@,
        decreases deployments.len() - i,
    {
        if deployments[i] == wanted {
            return true;
        }
        i += 1;
    }
    false
}

/// The words that tell how many replicas of a game are ready.
pub fn ready_message(ready: i32, total: i32, game: &str) -> (message: String)
    ensures
        message@ == signed_text(ready as int) + seq!['/'] + signed_text(total as int)
            + " ready for game "@ + game@,
{
    let mut message = String::new();
    append_signed(&mut message, ready as i64);
    proof {
        reveal_strlit("/");
    }
    message.append("/");
    append_signed(&mut message, total as i64);
    message.append(" ready for game ");
    message.append(game);
    assert(message@ =~= signed_text(ready as int) + seq!['/'] + signed_text(total as int)
        + " ready for game "@ + game@);
    message
}

/// The command that help is wanted for. Where help was reached as a
/// subcommand of another command, that command is put before what was asked
/// for, or stands alone where nothing was.
pub fn help_target(invoked: &str, command: Option<String>) -> (target: Option<String>)
    ensures
        invoked@ == "help"@ ==> target == command,
        invoked@ != "help"@ ==> target is Some && target->Some_0@ == match command {
            Some(command) => invoked@ + seq![' '] + command@,
            None => invoked@,
        },
{
    if invoked.to_owned() == "help".to_owned() {
        return command;
    }
    let mut target = invoked.to_owned();
    match command {
        Some(command) => {
            proof {
                reveal_strlit(" ");
            }
            target.append(" ");
            target.append(command.as_str());
        },
        None => {},
    }
    Some(target)
}

/// The numbers that a list writes, with a comma between each two, or
/// `None` where a part of the list writes no number.
pub open spec fn guild_ids_of(list: Seq<char>) -> Option<Seq<u64>>
    decreases list.len(),
    via guild_ids_decrease
{
    match parsed_u64(first_segment(list, ',')) {
        None => None,
        Some(id) => match after_first_segment(list, ',') {
            None => Some(seq![id]),
            Some(rest) => match guild_ids_of(rest) {
                None => None,
                Some(ids) => Some(seq![id] + ids),
            },
        },
    }
}

#[via_fn]
proof fn guild_ids_decrease(list: Seq<char>) {
    lemma_first_index_of(list, ',');
}

/// Reads the identifiers of the guilds in which the bot serves, from a
/// list with a comma between each two.
pub fn guild_ids(list: &str) -> (ids: Option<Vec<u64>>)
    ensures
        ids is Some <==> guild_ids_of(list@) is Some,
        ids is Some ==> ids->Some_0@ == guild_ids_of(list@)->Some_0,
    decreases list@.len(),
{
    let (first, rest) = split_first(list, ',');
    let id = match parse_u64(first.as_str()) {
        Some(id) => id,
        None => {
            return None;
        },
    };
    let mut ids: Vec<u64> = Vec::new();
    ids.push(id);
    match rest {
        None => {
            assert(ids@ =~= seq![id]);
            Some(ids)
        },
        Some(rest) => {
            proof {
                lemma_first_index_of(list@, ',');
            }
            match guild_ids(rest.as_str()) {
                None => None,
                Some(mut more) => {
                    ids.append(&mut more);
                    assert(ids@ =~= seq![id] + guild_ids_of(rest@)->Some_0);
                    Some(ids)
                },
            }
        },
    }
}

} // verus!
