use vstd::prelude::*;

verus! {

/// Which articles a run shows.
#[derive(Debug, PartialEq, Eq)]
pub enum Selection {
    /// Every draft.
    AllDrafts,
    /// The drafts that match the query.
    Search(String),
    /// None: the run prints how to use the tool.
    Usage,
}

/// What a run does.
#[derive(Debug, PartialEq, Eq)]
pub enum Command {
    /// Store the API key and do nothing else.
    SetApiKey(String),
    /// Read the articles, fetching them first if `refresh` asks for it, and
    /// show the selection.
    Browse { refresh: bool, selection: Selection },
}

/// The command that the arguments of a run ask for. Storing a key comes
/// before everything else; showing every draft comes before a search.
pub fn command_from_args(set_api_key: Option<String>, query: Option<String>, refresh: bool, all: bool) -> (r: Command)
    ensures
        set_api_key matches Some(k) ==> r == Command::SetApiKey(k),
        set_api_key is None && all ==> r == (Command::Browse { refresh, selection: Selection::AllDrafts }),
        set_api_key is None && !all && query is Some ==> r == (Command::Browse {
            refresh,
            selection: Selection::Search(query->0),
        }),
        set_api_key is None && !all && query is None ==> r == (Command::Browse {
            refresh,
            selection: Selection::Usage,
        }),
{
    match set_api_key {
        Some(key) => Command::SetApiKey(key),
        None => {
            let selection = if all {
                Selection::AllDrafts
            } else {
                match query {
                    Some(q) => Selection::Search(q),
                    None => Selection::Usage,
                }
            };
            Command::Browse { refresh, selection }
        },
    }
}

/// Whether the articles are fetched again: when asked to, or when the cache
/// holds none.
pub fn needs_fetch(refresh: bool, cached_count: usize) -> (r: bool)
    ensures
        r == (refresh || cached_count == 0),
{
    refresh || cached_count == 0
}

} // verus!
