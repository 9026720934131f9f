use vstd::prelude::*;

verus! {

use crate::rpc::Display;
use super::rpc::error::Error;
use super::rpc::{lookup, ExtLookup};

/// The pattern of a search line: a prompt of word characters between two
/// `'|'`, then the content.
pub const PROMPT_PATTERN: &'static str = r"\|(?P<prompt>\w+)\|(?P<content>.*)";

/// One entry of the result list sent to the webview.
#[derive(Debug, Clone)]
pub struct Item {
    pub obj_id: u32,
    pub name: String,
    pub hint: Option<String>,
    pub icon: Option<String>,
}

/// The texts of the groups named `first` and `second` in the leftmost match
/// of the regular expression `pattern` in `text`; `None` when `pattern` does
/// not compile, when nothing matches, or when a group takes no part in the
/// match.
pub uninterp spec fn regex_named_pair(
    pattern: Seq<char>,
    text: Seq<char>,
    first: Seq<char>,
    second: Seq<char>,
) -> Option<(Seq<char>, Seq<char>)>;

/// Compiles `pattern` with `regex::Regex::new`, runs `captures` on `text`
/// and reads the groups `first` and `second` with `Captures::name`. Claimed:
/// the result depends on the four texts alone, as `regex_named_pair`.
#[verifier::external_body]
fn regex_captures_pair(pattern: &str, text: &str, first: &str, second: &str) -> (r: Option<
    (String, String),
>)
    ensures
        r is Some <==> regex_named_pair(pattern@, text@, first@, second@) is Some,
        r matches Some((a, b)) ==> (a@, b@) == regex_named_pair(
            pattern@,
            text@,
            first@,
            second@,
        )->0,
{
    let caps = regex::Regex::new(pattern).ok()?.captures(text)?;
    let a = caps.name(first)?.as_str().to_string();
    let b = caps.name(second)?.as_str().to_string();
    Some((a, b))
}

/// What the prompt pattern finds in `s`: the prompt and the content.
pub open spec fn prompt_match(s: Seq<char>) -> Option<(Seq<char>, Seq<char>)> {
    regex_named_pair(PROMPT_PATTERN@, s, "prompt"@, "content"@)
}

/// The desktop frontend's state: the RPC layer and the prompt of the last
/// search.
pub struct Server<R> {
    pub rpc: R,
    pub prompt: String,
}

impl<R> Server<R> {
    /// A frontend on the connected RPC layer `rpc`, with no prompt yet.
    pub fn new(rpc: R) -> (r: Server<R>)
        ensures
            r.rpc == rpc,
            r.prompt@.len() == 0,
    {
        Server { rpc, prompt: String::new() }
    }

    /// Reads a search line: when the prompt pattern matches, keeps its
    /// prompt and gives its content; else gives nothing and keeps the
    /// prompt as it was.
    pub fn extract_prompt(&mut self, s: &str) -> (r: Option<String>)
        ensures
            final(self).rpc == old(self).rpc,
            match prompt_match(s@) {
                Some((p, c)) => final(self).prompt@ == p && (r matches Some(x) && x@ == c),
                None => final(self).prompt == old(self).prompt && r is None,
            },
    {
        match regex_captures_pair(PROMPT_PATTERN, s, "prompt", "content") {
            Some((prompt, content)) => {
                self.prompt = prompt;
                Some(content)
            },
            None => None,
        }
    }
}

/// How a search starts: answered at once (no prompt in the line, or no
/// extension behind it), or sent to the extension `id` whose service is open
/// already (`Cached`) or has to be fetched first (`Missing`), asking it to
/// search for `content`.
#[derive(Debug)]
pub enum SearchStart {
    Reply(Result<Vec<Item>, String>),
    Cached { id: String, content: String },
    Missing { id: String, content: String },
}

/// How a submission starts: answered at once when no extension stands
/// behind the last prompt, or sent to extension `id`.
#[derive(Debug)]
pub enum SubmitStart {
    Reply(Result<(), String>),
    Cached(String),
    Missing(String),
}

impl<S> Server<crate::rpc::Server<S>> {
    /// Starts the search for the line `info`: reads its prompt and content,
    /// keeps the prompt, and looks up the extension behind it.
    pub fn start_search(&mut self, info: &str) -> (r: SearchStart)
        ensures
            final(self).rpc == old(self).rpc,
            match prompt_match(info@) {
                None => {
                    &&& final(self).prompt == old(self).prompt
                    &&& r matches SearchStart::Reply(Err(m)) && m@ == "invalid prompt"@
                },
                Some((p, c)) => {
                    &&& final(self).prompt@ == p
                    &&& match (r, old(self).rpc@.by_prompt.contains_key(p)) {
                        (SearchStart::Reply(Err(m)), false) => m@ == "no service"@,
                        (SearchStart::Cached { id, content }, true) => {
                            &&& id == old(self).rpc@.by_prompt[p]
                            &&& old(self).rpc@.exts.contains_key(id@)
                            &&& content@ == c
                        },
                        (SearchStart::Missing { id, content }, true) => {
                            &&& id == old(self).rpc@.by_prompt[p]
                            &&& !old(self).rpc@.exts.contains_key(id@)
                            &&& content@ == c
                        },
                        _ => false,
                    }
                },
            },
    {
        match self.extract_prompt(info) {
            None => SearchStart::Reply(search_reply(SearchOutcome::InvalidPrompt)),
            Some(content) => match lookup(&self.rpc, self.prompt.as_str()) {
                ExtLookup::NoSuchPrompt => SearchStart::Reply(search_reply(SearchOutcome::NoService)),
                ExtLookup::Cached(id) => SearchStart::Cached { id, content },
                ExtLookup::Missing(id) => SearchStart::Missing { id, content },
            },
        }
    }

    /// Starts the submission: looks up the extension behind the last prompt.
    pub fn start_submit(&self) -> (r: SubmitStart)
        ensures
            match (r, self.rpc@.by_prompt.contains_key(self.prompt@)) {
                (SubmitStart::Reply(Err(m)), false) => m@ == "no service"@,
                (SubmitStart::Cached(id), true) => id == self.rpc@.by_prompt[self.prompt@]
                    && self.rpc@.exts.contains_key(id@),
                (SubmitStart::Missing(id), true) => id == self.rpc@.by_prompt[self.prompt@]
                    && !self.rpc@.exts.contains_key(id@),
                _ => false,
            },
    {
        match lookup(&self.rpc, self.prompt.as_str()) {
            ExtLookup::NoSuchPrompt => SubmitStart::Reply(submit_reply(SubmitOutcome::NoService)),
            ExtLookup::Cached(id) => SubmitStart::Cached(id),
            ExtLookup::Missing(id) => SubmitStart::Missing(id),
        }
    }
}

/// How a search went: the line had no prompt, no extension stands behind
/// the prompt, the request failed, or the extension answered with a list.
#[derive(Debug)]
pub enum SearchOutcome {
    InvalidPrompt,
    NoService,
    Failed(Error),
    Found(Vec<Display>),
}

/// How a submission went.
#[derive(Debug)]
pub enum SubmitOutcome {
    NoService,
    Failed(Error),
    Done,
}

/// The entry sent to the webview for an extension's entry `d`.
pub open spec fn item_of(d: Display) -> Item {
    Item { obj_id: d.obj_id, name: d.name, hint: d.hint, icon: None }
}

/// The webview's answer to a search that went as `outcome`.
pub fn search_reply(outcome: SearchOutcome) -> (r: Result<Vec<Item>, String>)
    ensures
        match outcome {
            SearchOutcome::InvalidPrompt => r matches Err(m) && m@ == "invalid prompt"@,
            SearchOutcome::NoService => r matches Err(m) && m@ == "no service"@,
            SearchOutcome::Failed(e) => r matches Err(m) && m@ == "search failed: "@ + e.msg@,
            SearchOutcome::Found(list) => r matches Ok(items) && items@ == list@.map_values(
                |d: Display| item_of(d),
            ),
        },
{
    match outcome {
        SearchOutcome::InvalidPrompt => Err("invalid prompt".to_owned()),
        SearchOutcome::NoService => Err("no service".to_owned()),
        SearchOutcome::Failed(e) => Err("search failed: ".to_owned().concat(e.msg.as_str())),
        SearchOutcome::Found(list) => {
            let ghost all = list@;
            let mut rest = list;
            let mut out: Vec<Item> = Vec::new();
            let ghost mut k: int = 0;
            while rest.len() > 0
                invariant
                    0 <= k <= all.len(),
                    rest@ == all.skip(k),
                    out@ == all.take(k).map_values(|d: Display| item_of(d)),
                decreases rest.len(),
            {
                let d = rest.remove(0);
                proof {
                    assert(all.take(k + 1) =~= all.take(k).push(d));
                    assert(rest@ =~= all.skip(k + 1));
                }
                let Display { obj_id, name, hint } = d;
                out.push(Item { obj_id, name, hint, icon: None });
                proof {
                    assert(out@ =~= all.take(k + 1).map_values(|d: Display| item_of(d)));
                    k = k + 1;
                }
            }
            proof {
                assert(all.take(k) =~= all);
            }
            Ok(out)
        },
    }
}

/// The webview's answer to a submission that went as `outcome`.
pub fn submit_reply(outcome: SubmitOutcome) -> (r: Result<(), String>)
    ensures
        match outcome {
            SubmitOutcome::NoService => r matches Err(m) && m@ == "no service"@,
            SubmitOutcome::Failed(e) => r matches Err(m) && m@ == "submit failed: "@ + e.msg@,
            SubmitOutcome::Done => r is Ok,
        },
{
    match outcome {
        SubmitOutcome::NoService => Err("no service".to_owned()),
        SubmitOutcome::Failed(e) => Err("submit failed: ".to_owned().concat(e.msg.as_str())),
        SubmitOutcome::Done => Ok(()),
    }
}

} // verus!
