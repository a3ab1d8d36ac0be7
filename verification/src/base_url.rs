//! Resolution of the API base URL from the command line, the environment,
//! the config file, or the built-in default.
//!
//! Empty values are skipped, so clearing `D1V_BASE_URL` falls through
//! cleanly to the next source.
use crate::strs::{string_of, trim_str, trim_ws};
use vstd::prelude::*;

verus! {

/// Built-in API base URL.
pub const DEFAULT_BASE_URL: &'static str = "https://api.d1v.ai";

/// Source of a resolved [`BaseUrl`]. Variant order is the resolution
/// priority: earlier sources win.
#[derive(Debug, Clone, Copy, PartialEq, Eq, Structural, PartialOrd, Ord, Hash)]
pub enum BaseUrlSource {
    /// `--base-url` flag.
    Cli,
    /// `D1V_BASE_URL` environment variable.
    Env,
    /// `base_url` from `~/.d1v/config.toml`.
    Config,
    /// Built-in [`DEFAULT_BASE_URL`].
    Default,
}

/// Priority rank of a source; lower wins.
pub open spec fn rank(s: BaseUrlSource) -> nat {
    match s {
        BaseUrlSource::Cli => 0,
        BaseUrlSource::Env => 1,
        BaseUrlSource::Config => 2,
        BaseUrlSource::Default => 3,
    }
}

impl Default for BaseUrlSource {
    fn default() -> (r: Self)
        ensures
            r == BaseUrlSource::Default,
    {
        BaseUrlSource::Default
    }
}

impl BaseUrlSource {
    /// Priority rank; lower wins.
    pub fn rank(&self) -> (r: u8)
        ensures
            r == rank(*self),
    {
        match self {
            BaseUrlSource::Cli => 0,
            BaseUrlSource::Env => 1,
            BaseUrlSource::Config => 2,
            BaseUrlSource::Default => 3,
        }
    }

    /// How the source is named to the user.
    pub fn label(&self) -> (r: &'static str)
        ensures
            r@ == (match *self {
                BaseUrlSource::Cli => "--base-url"@,
                BaseUrlSource::Env => "D1V_BASE_URL"@,
                BaseUrlSource::Config => "config file"@,
                BaseUrlSource::Default => "default"@,
            }),
    {
        match self {
            BaseUrlSource::Cli => "--base-url",
            BaseUrlSource::Env => "D1V_BASE_URL",
            BaseUrlSource::Config => "config file",
            BaseUrlSource::Default => "default",
        }
    }

    /// Name used in JSON output (`snake_case` of the variant).
    pub fn json_name(&self) -> (r: &'static str)
        ensures
            r@ == (match *self {
                BaseUrlSource::Cli => "cli"@,
                BaseUrlSource::Env => "env"@,
                BaseUrlSource::Config => "config"@,
                BaseUrlSource::Default => "default"@,
            }),
    {
        match self {
            BaseUrlSource::Cli => "cli",
            BaseUrlSource::Env => "env",
            BaseUrlSource::Config => "config",
            BaseUrlSource::Default => "default",
        }
    }
}

/// The value a layer keeps of a raw value: the trimmed text, or nothing
/// when the trimmed text is empty.
pub open spec fn normalized(value: Option<Seq<char>>) -> Option<Seq<char>> {
    match value {
        Some(s) => if trim_ws(s).len() == 0 {
            None
        } else {
            Some(trim_ws(s))
        },
        None => None,
    }
}

/// One normalized optional layer in the base URL provider chain.
#[derive(Debug, Clone, PartialEq, Eq)]
pub struct BaseUrlCandidate {
    pub source: BaseUrlSource,
    pub value: Option<String>,
}

impl BaseUrlCandidate {
    pub open spec fn value_view(&self) -> Option<Seq<char>> {
        match self.value {
            Some(s) => Some(s@),
            None => None,
        }
    }

    pub fn new(source: BaseUrlSource, value: Option<String>) -> (r: Self)
        ensures
            r.source == source,
            r.value_view() == normalized(
                match value {
                    Some(s) => Some(s@),
                    None => None,
                },
            ),
    {
        let value = match value {
            Some(s) => {
                let t = trim_str(s.as_str());
                if t.len() == 0 {
                    None
                } else {
                    Some(string_of(t.as_slice()))
                }
            },
            None => None,
        };
        BaseUrlCandidate { source, value }
    }
}

pub fn from_cli(value: Option<String>) -> (r: BaseUrlCandidate)
    ensures
        r.source == BaseUrlSource::Cli,
        r.value_view() == normalized(
            match value {
                Some(s) => Some(s@),
                None => None,
            },
        ),
{
    BaseUrlCandidate::new(BaseUrlSource::Cli, value)
}

pub fn from_env(value: Option<String>) -> (r: BaseUrlCandidate)
    ensures
        r.source == BaseUrlSource::Env,
        r.value_view() == normalized(
            match value {
                Some(s) => Some(s@),
                None => None,
            },
        ),
{
    BaseUrlCandidate::new(BaseUrlSource::Env, value)
}

pub fn from_config(value: Option<String>) -> (r: BaseUrlCandidate)
    ensures
        r.source == BaseUrlSource::Config,
        r.value_view() == normalized(
            match value {
                Some(s) => Some(s@),
                None => None,
            },
        ),
{
    BaseUrlCandidate::new(BaseUrlSource::Config, value)
}

/// The empty default layer.
pub fn default() -> (r: BaseUrlCandidate)
    ensures
        r.source == BaseUrlSource::Default,
        r.value is None,
{
    BaseUrlCandidate { source: BaseUrlSource::Default, value: None }
}

/// The winning layer among candidates: the first, in list order, among
/// those with a value and of the best rank.
pub open spec fn pick(cands: Seq<BaseUrlCandidate>) -> Option<(BaseUrlSource, Seq<char>)>
    decreases cands.len(),
{
    if cands.len() == 0 {
        None
    } else {
        let prev = pick(cands.drop_last());
        let last = cands.last();
        match last.value {
            None => prev,
            Some(v) => match prev {
                None => Some((last.source, v@)),
                Some(p) => if rank(last.source) < rank(p.0) {
                    Some((last.source, v@))
                } else {
                    prev
                },
            },
        }
    }
}

/// Resolved base URL with its source.
#[derive(Debug, Clone, PartialEq, Eq)]
pub struct BaseUrl {
    pub url: String,
    pub source: BaseUrlSource,
}

impl BaseUrl {
    /// The URL and source `resolve` gives for the candidates.
    pub open spec fn resolved(cands: Seq<BaseUrlCandidate>) -> (Seq<char>, BaseUrlSource) {
        match pick(cands) {
            Some(p) => (p.1, p.0),
            None => (DEFAULT_BASE_URL@, BaseUrlSource::Default),
        }
    }

    /// The value of the best-ranked candidate that has one (earlier in the
    /// list on a tie), or the built-in default.
    pub fn resolve(candidates: Vec<BaseUrlCandidate>) -> (r: Self)
        ensures
            (r.url@, r.source) == Self::resolved(candidates@),
    {
        let mut best: Option<usize> = None;
        let mut i: usize = 0;
        while i < candidates.len()
            invariant
                i <= candidates@.len(),
                match best {
                    Some(b) => b < i && candidates@[b as int].value is Some && pick(
                        candidates@.subrange(0, i as int),
                    ) == Some(
                        (
                            candidates@[b as int].source,
                            candidates@[b as int].value.unwrap()@,
                        ),
                    ),
                    None => pick(candidates@.subrange(0, i as int)) is None,
                },
            decreases candidates@.len() - i,
        {
            assert(candidates@.subrange(0, i + 1).drop_last() =~= candidates@.subrange(
                0,
                i as int,
            ));
            if candidates[i].value.is_some() {
                match best {
                    None => {
                        best = Some(i);
                    },
                    Some(b) => {
                        if candidates[i].source.rank() < candidates[b].source.rank() {
                            best = Some(i);
                        }
                    },
                }
            }
            i = i + 1;
        }
        assert(candidates@.subrange(0, candidates@.len() as int) =~= candidates@);
        match best {
            Some(b) => {
                let url = match &candidates[b].value {
                    Some(u) => u.clone(),
                    None => String::new(),
                };
                BaseUrl { url, source: candidates[b].source }
            },
            None => BaseUrl { url: DEFAULT_BASE_URL.to_owned(), source: BaseUrlSource::Default },
        }
    }

    pub fn as_str(&self) -> (r: &str)
        ensures
            r@ == self.url@,
    {
        self.url.as_str()
    }

    pub fn source(&self) -> (r: BaseUrlSource)
        ensures
            r == self.source,
    {
        self.source
    }

    /// The URL as displayed.
    pub fn to_string(&self) -> (r: String)
        ensures
            r@ == self.url@,
    {
        self.url.clone()
    }
}

/// Priority law: no candidate that has a value outranks the resolved
/// source, and every resolved value comes from a candidate of that source
/// (a candidate without a value is never chosen).
pub proof fn lemma_resolve_priority(cands: Seq<BaseUrlCandidate>)
    ensures
        forall|i: int|
            0 <= i < cands.len() && (#[trigger] cands[i]).value is Some ==> rank(
                BaseUrl::resolved(cands).1,
            ) <= rank(cands[i].source),
        pick(cands) is Some ==> exists|i: int|
            0 <= i < cands.len() && (#[trigger] cands[i]).value is Some && cands[i].source
                == BaseUrl::resolved(cands).1 && cands[i].value.unwrap()@ == BaseUrl::resolved(
                cands,
            ).0,
        pick(cands) is None <==> forall|i: int|
            0 <= i < cands.len() ==> (#[trigger] cands[i]).value is None,
    decreases cands.len(),
{
    if cands.len() > 0 {
        let prev = cands.drop_last();
        lemma_resolve_priority(prev);
        assert forall|i: int|
            0 <= i < cands.len() && (#[trigger] cands[i]).value is Some implies rank(
                BaseUrl::resolved(cands).1,
            ) <= rank(cands[i].source) by {
            if i < cands.len() - 1 {
                assert(prev[i] == cands[i]);
            }
        }
        if pick(cands) is Some {
            if pick(cands) == pick(prev) {
                let j = choose|j: int|
                    0 <= j < prev.len() && (#[trigger] prev[j]).value is Some && prev[j].source
                        == BaseUrl::resolved(prev).1 && prev[j].value.unwrap()@
                        == BaseUrl::resolved(prev).0;
                assert(cands[j] == prev[j]);
            } else {
                assert(cands[cands.len() - 1] == cands.last());
            }
        }
        if pick(cands) is None {
            assert forall|i: int| 0 <= i < cands.len() implies (#[trigger] cands[i]).value is None by {
                if i < cands.len() - 1 {
                    assert(prev[i] == cands[i]);
                }
            }
        } else {
            if forall|i: int| 0 <= i < cands.len() ==> (#[trigger] cands[i]).value is None {
                assert(cands[cands.len() - 1].value is None);
                assert(prev.len() == 0 || pick(prev) is None || pick(prev) is Some);
                if pick(prev) is Some {
                    let j = choose|j: int|
                        0 <= j < prev.len() && (#[trigger] prev[j]).value is Some;
                    assert(cands[j] == prev[j]);
                }
            }
        }
    }
}

/// Order law: when the candidates have distinct sources, putting them in
/// another order changes neither the resolved URL nor its source.
pub proof fn lemma_resolve_order_free(a: Seq<BaseUrlCandidate>, b: Seq<BaseUrlCandidate>)
    requires
        a.to_multiset() == b.to_multiset(),
        forall|i: int, j: int|
            0 <= i < a.len() && 0 <= j < a.len() && i != j ==> (#[trigger] a[i]).source != (
            #[trigger] a[j]).source,
    ensures
        BaseUrl::resolved(a) == BaseUrl::resolved(b),
{
    a.to_multiset_ensures();
    b.to_multiset_ensures();
    lemma_resolve_priority(a);
    lemma_resolve_priority(b);
    assert forall|x: BaseUrlCandidate| a.contains(x) <==> b.contains(x) by {
        assert(a.to_multiset().count(x) == b.to_multiset().count(x));
        assert(a.contains(x) <==> a.to_multiset().count(x) > 0);
        assert(b.contains(x) <==> b.to_multiset().count(x) > 0);
    }
    if pick(a) is None {
        if pick(b) is Some {
            let j = choose|j: int|
                0 <= j < b.len() && (#[trigger] b[j]).value is Some && b[j].source
                    == BaseUrl::resolved(b).1 && b[j].value.unwrap()@ == BaseUrl::resolved(b).0;
            assert(b.contains(b[j]));
            let m = choose|m: int| 0 <= m < a.len() && a[m] == b[j];
            assert(a[m].value is None);
        }
    } else {
        let i = choose|i: int|
            0 <= i < a.len() && (#[trigger] a[i]).value is Some && a[i].source
                == BaseUrl::resolved(a).1 && a[i].value.unwrap()@ == BaseUrl::resolved(a).0;
        assert(a.contains(a[i]));
        let j = choose|j: int| 0 <= j < b.len() && b[j] == a[i];
        assert(b[j].value is Some);
        let k = choose|k: int|
            0 <= k < b.len() && (#[trigger] b[k]).value is Some && b[k].source
                == BaseUrl::resolved(b).1 && b[k].value.unwrap()@ == BaseUrl::resolved(b).0;
        assert(rank(BaseUrl::resolved(b).1) <= rank(b[j].source));
        assert(b.contains(b[k]));
        let m = choose|m: int| 0 <= m < a.len() && a[m] == b[k];
        assert(a[m].value is Some);
        assert(rank(BaseUrl::resolved(a).1) <= rank(a[m].source));
        assert(a[m].source == a[i].source);
        assert(m == i);
    }
}

} // verus!
