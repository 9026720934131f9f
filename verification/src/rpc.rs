use vstd::prelude::*;

pub mod daemon;
pub mod extension;
pub mod response;
pub mod service;
pub mod utils;

pub use service::Error;

verus! {

use vstd::hash_map::StringHashMap;

/// One entry of a result list, as an extension sends it.
#[derive(Debug, Clone)]
pub struct Display {
    pub obj_id: u32,
    pub name: String,
    pub hint: Option<String>,
}

/// One extension of the daemon's configuration: its id, the prompt that
/// selects it, and the service opened to it, if one could be opened.
pub struct FastExt<S> {
    pub id: String,
    pub prompt: String,
    pub service: Option<S>,
}

/// The extensions known to the frontend: the service opened to each
/// extension id, and the extension id behind each prompt.
#[verifier::reject_recursive_types(S)]
pub struct Server<S> {
    exts: StringHashMap<S>,
    by_prompt: StringHashMap<String>,
}

/// The abstract state of a [`Server`].
#[verifier::reject_recursive_types(S)]
pub struct ServerView<S> {
    pub exts: Map<Seq<char>, S>,
    pub by_prompt: Map<Seq<char>, String>,
}

impl<S> View for Server<S> {
    type V = ServerView<S>;

    closed spec fn view(&self) -> ServerView<S> {
        ServerView { exts: self.exts@, by_prompt: self.by_prompt@ }
    }
}

/// The prompt table built from `entries` taken in order: a later entry
/// with the same prompt wins.
pub open spec fn config_prompts<S>(entries: Seq<FastExt<S>>) -> Map<Seq<char>, String>
    decreases entries.len(),
{
    if entries.len() == 0 {
        Map::empty()
    } else {
        let e = entries.last();
        config_prompts(entries.drop_last()).insert(e.prompt@, e.id)
    }
}

/// The service table built from `entries` taken in order: entries without
/// a service are left out, and a later entry with the same id wins.
pub open spec fn config_exts<S>(entries: Seq<FastExt<S>>) -> Map<Seq<char>, S>
    decreases entries.len(),
{
    if entries.len() == 0 {
        Map::empty()
    } else {
        let e = entries.last();
        let m = config_exts(entries.drop_last());
        match e.service {
            Some(s) => m.insert(e.id@, s),
            None => m,
        }
    }
}

/// The service tables after a service for extension `id` was fetched
/// (`None` when fetching failed), and the service that is then used.
///
/// A failed fetch yields nothing; otherwise a service already known for
/// `id` is kept and the fetched one is dropped.
pub open spec fn get_ext_spec<S>(s: ServerView<S>, id: Seq<char>, fetched: Option<S>) -> (
    ServerView<S>,
    Option<S>,
) {
    match fetched {
        None => (s, None),
        Some(f) => {
            let exts = if s.exts.contains_key(id) {
                s.exts
            } else {
                s.exts.insert(id, f)
            };
            (ServerView { exts, ..s }, Some(exts[id]))
        },
    }
}

impl<S> Server<S> {
    /// The tables for the daemon's configuration `entries`, taken in order.
    pub fn from_config(entries: Vec<FastExt<S>>) -> (r: Server<S>)
        ensures
            r@.by_prompt == config_prompts(entries@),
            r@.exts == config_exts(entries@),
    {
        let ghost all = entries@;
        let mut rest = entries;
        let mut exts: StringHashMap<S> = StringHashMap::new();
        let mut by_prompt: StringHashMap<String> = StringHashMap::new();
        let ghost mut k: int = 0;
        while rest.len() > 0
            invariant
                0 <= k <= all.len(),
                rest@ == all.skip(k),
                by_prompt@ == config_prompts(all.take(k)),
                exts@ == config_exts(all.take(k)),
            decreases rest.len(),
        {
            let e = rest.remove(0);
            proof {
                assert(all.take(k + 1).drop_last() =~= all.take(k));
                assert(all.take(k + 1).last() == e);
                assert(rest@ =~= all.skip(k + 1));
                k = k + 1;
            }
            let FastExt { id, prompt, service } = e;
            match service {
                Some(s) => {
                    exts.insert(id.clone(), s);
                },
                None => {},
            }
            by_prompt.insert(prompt, id);
        }
        proof {
            assert(all.take(k) =~= all);
        }
        Server { exts, by_prompt }
    }

    /// The id of the extension behind `prompt`, if there is one.
    pub fn ext_id(&self, prompt: &str) -> (r: Option<&String>)
        ensures
            r is Some <==> self@.by_prompt.contains_key(prompt@),
            r matches Some(id) ==> *id == self@.by_prompt[prompt@],
    {
        self.by_prompt.get(prompt)
    }

    /// The service already opened to extension `id`, if there is one.
    pub fn ext(&self, id: &str) -> (r: Option<&S>)
        ensures
            r is Some <==> self@.exts.contains_key(id@),
            r matches Some(s) ==> *s == self@.exts[id@],
    {
        self.exts.get(id)
    }

    /// Keeps `service` as the service of extension `id` and gives it back.
    pub fn insert_ext(&mut self, id: String, service: S) -> (r: &S)
        ensures
            final(self)@.exts == old(self)@.exts.insert(id@, service),
            final(self)@.by_prompt == old(self)@.by_prompt,
            *r == service,
    {
        let ghost key = id@;
        let key_copy = id.clone();
        self.exts.insert(id, service);
        match self.exts.get(key_copy.as_str()) {
            Some(r) => r,
            None => {
                proof {
                    assert(self@.exts.contains_key(key));
                }
                vstd::pervasive::unreached()
            },
        }
    }

    /// Finishes looking up the service of extension `id` once a service to
    /// it was fetched (`None` when fetching failed): a failed fetch gives
    /// nothing, a service already known is kept, a new one is kept.
    pub fn get_ext(&mut self, id: &str, fetched: Option<S>) -> (r: Option<&S>)
        ensures
            final(self)@ == get_ext_spec(old(self)@, id@, fetched).0,
            r is Some <==> get_ext_spec(old(self)@, id@, fetched).1 is Some,
            r matches Some(x) ==> *x == get_ext_spec(old(self)@, id@, fetched).1->0,
    {
        match fetched {
            None => None,
            Some(f) => {
                if !self.exts.contains_key(id) {
                    self.exts.insert(id.to_owned(), f);
                }
                self.exts.get(id)
            },
        }
    }
}

/// Once a service is known for an extension, a later lookup gives that same
/// service, whatever was fetched for it then.
pub proof fn lemma_get_ext_keeps_first<S>(s: ServerView<S>, id: Seq<char>, f1: S, f2: S)
    ensures
        ({
            let (t, r1) = get_ext_spec(s, id, Some(f1));
            let (u, r2) = get_ext_spec(t, id, Some(f2));
            &&& r1 is Some
            &&& r2 == r1
            &&& u == t
        }),
{
}

/// Every prompt of the configuration leads to an extension, and the prompt
/// of the last entry leads to that entry's extension.
pub proof fn lemma_config_prompts_complete<S>(entries: Seq<FastExt<S>>)
    ensures
        forall|i: int|
            0 <= i < entries.len() ==> #[trigger] config_prompts(entries).contains_key(
                entries[i].prompt@,
            ),
        entries.len() > 0 ==> config_prompts(entries)[entries.last().prompt@] == entries.last().id,
    decreases entries.len(),
{
    if entries.len() > 0 {
        let init = entries.drop_last();
        lemma_config_prompts_complete(init);
        assert forall|i: int|
            0 <= i < entries.len() implies #[trigger] config_prompts(entries).contains_key(
            entries[i].prompt@,
        ) by {
            if i < entries.len() - 1 {
                assert(entries[i] == init[i]);
                assert(config_prompts(init).contains_key(init[i].prompt@));
            }
        }
    }
}

/// Every entry of the configuration whose service was opened, and whose id
/// no later entry repeats, has that service in the service table; and the
/// table holds services of configured ids only.
pub proof fn lemma_config_exts_complete<S>(entries: Seq<FastExt<S>>)
    ensures
        forall|i: int|
            0 <= i < entries.len() && entries[i].service is Some && (forall|j: int|
                i < j < entries.len() ==> entries[j].id@ != entries[i].id@) ==> {
                &&& #[trigger] config_exts(entries).contains_key(entries[i].id@)
                &&& config_exts(entries)[entries[i].id@] == entries[i].service->0
            },
        forall|k: Seq<char>|
            #[trigger] config_exts(entries).contains_key(k) ==> exists|i: int|
                0 <= i < entries.len() && entries[i].id@ == k && entries[i].service is Some,
    decreases entries.len(),
{
    if entries.len() > 0 {
        let init = entries.drop_last();
        lemma_config_exts_complete(init);
        let last = entries.last();
        assert forall|i: int|
            0 <= i < entries.len() && entries[i].service is Some && (forall|j: int|
                i < j < entries.len() ==> entries[j].id@ != entries[i].id@) implies {
            &&& #[trigger] config_exts(entries).contains_key(entries[i].id@)
            &&& config_exts(entries)[entries[i].id@] == entries[i].service->0
        } by {
            if i < entries.len() - 1 {
                assert(entries[i] == init[i]);
                assert(entries[entries.len() - 1].id@ != entries[i].id@);
                assert forall|j: int| i < j < init.len() implies init[j].id@ != init[i].id@ by {
                    assert(init[j] == entries[j]);
                }
                assert(config_exts(init).contains_key(init[i].id@));
                assert(config_exts(init)[init[i].id@] == init[i].service->0);
                assert(last.id@ != init[i].id@);
            } else {
                assert(entries[i] == last);
            }
        }
        assert forall|k: Seq<char>| #[trigger] config_exts(entries).contains_key(k) implies exists|
            i: int,
        | 0 <= i < entries.len() && entries[i].id@ == k && entries[i].service is Some by {
            if config_exts(init).contains_key(k) {
                let i = choose|i: int|
                    0 <= i < init.len() && init[i].id@ == k && init[i].service is Some;
                assert(entries[i] == init[i]);
            } else {
                assert(entries[entries.len() - 1] == last);
            }
        }
    }
}

} // verus!
