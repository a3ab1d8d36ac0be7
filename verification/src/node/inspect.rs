//! Reading the JSON that `docker inspect` and the nginx-proxy-manager
//! script print: a container's labels, its mounts, and the path of a
//! configured proxy host.
use crate::node::ingress::{npm_paths_spec, npm_proxy_host_paths, DockerMount};
use crate::relay::string_pairs;
use crate::strs::{chars_of, push_str, seq_eq, string_of, trim_str, trim_ws};
use vstd::prelude::*;

verus! {

/// What is read of a JSON document: an object's members (each key, with
/// its value when that is a string), an array's items (the members of each
/// item that is an object), or neither.
#[derive(Debug, Clone)]
pub enum JsonDoc {
    Object(Vec<(String, Option<String>)>),
    Array(Vec<Option<Vec<(String, Option<String>)>>>),
    Other,
}

/// A [`JsonDoc`] as plain values.
pub enum JsonDocView {
    Object(Seq<(Seq<char>, Option<Seq<char>>)>),
    Array(Seq<Option<Seq<(Seq<char>, Option<Seq<char>>)>>>),
    Other,
}

pub open spec fn opt_text(o: Option<String>) -> Option<Seq<char>> {
    match o {
        Some(s) => Some(s@),
        None => None,
    }
}

pub open spec fn members_view(m: Seq<(String, Option<String>)>) -> Seq<(Seq<char>, Option<Seq<char>>)> {
    Seq::new(m.len(), |i: int| (m[i].0@, opt_text(m[i].1)))
}

pub open spec fn opt_members_view(o: Option<Vec<(String, Option<String>)>>) -> Option<
    Seq<(Seq<char>, Option<Seq<char>>)>,
> {
    match o {
        Some(m) => Some(members_view(m@)),
        None => None,
    }
}

pub open spec fn doc_view(d: JsonDoc) -> JsonDocView {
    match d {
        JsonDoc::Object(m) => JsonDocView::Object(members_view(m@)),
        JsonDoc::Array(a) => JsonDocView::Array(
            Seq::new(a@.len(), |i: int| opt_members_view(a@[i])),
        ),
        JsonDoc::Other => JsonDocView::Other,
    }
}

/// What `serde_json` reads of a text as a JSON document, or its error
/// message. Object members come in the order of `serde_json`'s map.
pub uninterp spec fn json_document(text: Seq<char>) -> Result<JsonDocView, Seq<char>>;

/// `serde_json::from_str` into a `serde_json::Value`, read as a
/// [`JsonDoc`]; a parse error becomes its message. The result is named
/// [`json_document`]: it depends on the text alone.
#[verifier::external_body]
fn parse_json(text: &str) -> (r: Result<JsonDoc, String>)
    ensures
        match r {
            Ok(d) => json_document(text@) == Ok::<JsonDocView, Seq<char>>(doc_view(d)),
            Err(m) => json_document(text@) == Err::<JsonDocView, Seq<char>>(m@),
        },
{
    let members = |m: &serde_json::Map<String, serde_json::Value>| -> Vec<(String, Option<String>)>
        { m.iter().map(|(k, v)| (k.clone(), v.as_str().map(String::from))).collect() };
    match serde_json::from_str::<serde_json::Value>(text) {
        Err(e) => Err(e.to_string()),
        Ok(serde_json::Value::Object(m)) => Ok(JsonDoc::Object(members(&m))),
        Ok(serde_json::Value::Array(a)) => Ok(
            JsonDoc::Array(a.iter().map(|i| i.as_object().map(members)).collect()),
        ),
        Ok(_) => Ok(JsonDoc::Other),
    }
}

/// The value a key has among members when it is a string (the first
/// member with that key; a JSON object has each key once).
pub open spec fn member_value(ms: Seq<(Seq<char>, Option<Seq<char>>)>, key: Seq<char>) -> Option<
    Seq<char>,
>
    decreases ms.len(),
{
    if ms.len() == 0 {
        None
    } else if ms[0].0 == key {
        ms[0].1
    } else {
        member_value(ms.drop_first(), key)
    }
}

/// A member's string value, or empty text.
pub open spec fn or_empty(o: Option<Seq<char>>) -> Seq<char> {
    match o {
        Some(s) => s,
        None => Seq::empty(),
    }
}

fn member_lookup(ms: &Vec<(String, Option<String>)>, key: &str) -> (r: Option<String>)
    ensures
        opt_text(r) == member_value(members_view(ms@), key@),
{
    let ghost all = members_view(ms@);
    let k = chars_of(key);
    let mut i: usize = 0;
    assert(all.skip(0) =~= all);
    while i < ms.len()
        invariant
            i <= ms@.len(),
            all == members_view(ms@),
            k@ == key@,
            member_value(all, key@) == member_value(all.skip(i as int), key@),
        decreases ms@.len() - i,
    {
        assert(all.skip(i as int).drop_first() =~= all.skip(i + 1));
        assert(all.skip(i as int)[0] == all[i as int]);
        if seq_eq(chars_of(ms[i].0.as_str()).as_slice(), k.as_slice()) {
            return match &ms[i].1 {
                Some(s) => Some(s.clone()),
                None => None,
            };
        }
        i = i + 1;
    }
    None
}

/// Labels as `detect_traefik_ingress` reads them: each key with its value
/// when a string, else empty text.
pub open spec fn label_texts(ms: Seq<(Seq<char>, Option<Seq<char>>)>) -> Seq<(Seq<char>, Seq<char>)> {
    Seq::new(ms.len(), |i: int| (ms[i].0, or_empty(ms[i].1)))
}

/// A container's labels from what `docker inspect --format
/// '{{json .Config.Labels}}'` printed: nothing unless the trimmed text is
/// a JSON object.
pub fn container_labels(inspect_stdout: &str) -> (r: Option<Vec<(String, String)>>)
    ensures
        match json_document(trim_ws(inspect_stdout@)) {
            Ok(JsonDocView::Object(ms)) => r matches Some(v) && string_pairs(v@) == label_texts(ms),
            _ => r is None,
        },
{
    let t = string_of(trim_str(inspect_stdout).as_slice());
    match parse_json(t.as_str()) {
        Ok(JsonDoc::Object(ms)) => {
            let ghost mv = members_view(ms@);
            let mut out: Vec<(String, String)> = Vec::new();
            let mut i: usize = 0;
            while i < ms.len()
                invariant
                    i <= ms@.len(),
                    mv == members_view(ms@),
                    string_pairs(out@) == label_texts(mv).take(i as int),
                decreases ms@.len() - i,
            {
                let value = match &ms[i].1 {
                    Some(s) => s.clone(),
                    None => String::new(),
                };
                assert(value@ == or_empty(opt_text(ms@[i as int].1)));
                let key = ms[i].0.clone();
                let ghost before = out@;
                out.push((key, value));
                assert(label_texts(mv)[i as int] == (key@, value@));
                assert(string_pairs(out@) =~= string_pairs(before).push((key@, value@)));
                assert(string_pairs(out@) =~= label_texts(mv).take(i + 1));
                i = i + 1;
            }
            assert(label_texts(mv).take(ms@.len() as int) =~= label_texts(mv));
            Some(out)
        },
        _ => None,
    }
}

/// The source and destination of each item of a mounts array (empty text
/// where an item has no such string).
pub open spec fn mount_pairs(items: Seq<Option<Seq<(Seq<char>, Option<Seq<char>>)>>>) -> Seq<
    (Seq<char>, Seq<char>),
> {
    Seq::new(
        items.len(),
        |i: int|
            match items[i] {
                Some(ms) => (
                    or_empty(member_value(ms, "Source"@)),
                    or_empty(member_value(ms, "Destination"@)),
                ),
                None => (Seq::empty(), Seq::empty()),
            },
    )
}

pub open spec fn mount_views(ms: Seq<DockerMount>) -> Seq<(Seq<char>, Seq<char>)> {
    Seq::new(ms.len(), |i: int| (ms[i].source@, ms[i].destination@))
}

/// [`npm_paths_spec`] over mounts given as (source, destination) texts.
pub open spec fn npm_paths_of(mounts: Seq<(Seq<char>, Seq<char>)>) -> Seq<Seq<char>>
    decreases mounts.len(),
{
    if mounts.len() == 0 {
        Seq::empty()
    } else {
        let rest = npm_paths_of(mounts.drop_last());
        let m = mounts.last();
        if m.0.len() == 0 {
            rest
        } else if m.1 == "/data"@ {
            rest.push(crate::node::ingress::path_join(m.0, "nginx/proxy_host"@))
        } else if m.1 == "/data/nginx/proxy_host"@ {
            rest.push(m.0)
        } else {
            rest
        }
    }
}

proof fn lemma_npm_paths_views(ms: Seq<DockerMount>)
    ensures
        npm_paths_spec(ms) == npm_paths_of(mount_views(ms)),
    decreases ms.len(),
{
    if ms.len() > 0 {
        lemma_npm_paths_views(ms.drop_last());
        assert(mount_views(ms).drop_last() =~= mount_views(ms.drop_last()));
    }
}

/// The mounts a mounts document holds: those of an array, none otherwise.
pub open spec fn document_mounts(d: Result<JsonDocView, Seq<char>>) -> Seq<(Seq<char>, Seq<char>)> {
    match d {
        Ok(JsonDocView::Array(items)) => mount_pairs(items),
        _ => Seq::empty(),
    }
}

/// Where nginx-proxy-manager keeps its proxy hosts, from what `docker
/// inspect --format '{{json .Mounts}}'` printed for its container (see
/// [`npm_paths_spec`]); none when the trimmed text is not a JSON array.
pub fn npm_mount_paths(inspect_stdout: &str) -> (r: Vec<String>)
    ensures
        crate::view::string_texts(r@) == npm_paths_of(
            document_mounts(json_document(trim_ws(inspect_stdout@))),
        ),
{
    let t = string_of(trim_str(inspect_stdout).as_slice());
    let mut mounts: Vec<DockerMount> = Vec::new();
    match parse_json(t.as_str()) {
        Ok(JsonDoc::Array(items)) => {
            let ghost iv = Seq::new(items@.len(), |i: int| opt_members_view(items@[i]));
            let mut i: usize = 0;
            while i < items.len()
                invariant
                    i <= items@.len(),
                    iv == Seq::new(items@.len(), |j: int| opt_members_view(items@[j])),
                    mount_views(mounts@) == mount_pairs(iv).take(i as int),
                decreases items@.len() - i,
            {
                let m = match &items[i] {
                    Some(ms) => {
                        let source = match member_lookup(ms, "Source") {
                            Some(s) => s,
                            None => String::new(),
                        };
                        let destination = match member_lookup(ms, "Destination") {
                            Some(s) => s,
                            None => String::new(),
                        };
                        DockerMount { source, destination }
                    },
                    None => DockerMount { source: String::new(), destination: String::new() },
                };
                assert(iv[i as int] == opt_members_view(items@[i as int]));
                assert(mount_pairs(iv)[i as int] == (m.source@, m.destination@));
                let ghost before = mounts@;
                mounts.push(m);
                assert(mount_views(mounts@) =~= mount_views(before).push((m.source@, m.destination@)));
                assert(mount_views(mounts@) =~= mount_pairs(iv).take(i + 1));
                i = i + 1;
            }
            assert(mount_pairs(iv).take(items@.len() as int) =~= mount_pairs(iv));
        },
        _ => {
            assert(mount_views(mounts@) =~= Seq::<(Seq<char>, Seq<char>)>::empty());
        },
    }
    proof {
        lemma_npm_paths_views(mounts@);
    }
    npm_proxy_host_paths(&mounts)
}

/// The message for output of the nginx-proxy-manager script that is not
/// JSON.
pub open spec fn npm_output_error(error: Seq<char>, raw: Seq<char>) -> Seq<char> {
    "failed to parse nginx proxy manager output: "@ + error + "; raw="@ + raw
}

/// The `config_path` the nginx-proxy-manager script reported, from its
/// standard output: the member's string value when the output is a JSON
/// object, nothing for other JSON, and an error when it is not JSON.
pub fn npm_configured_path(script_stdout: &str) -> (r: Result<Option<String>, String>)
    ensures
        match json_document(trim_ws(script_stdout@)) {
            Err(e) => r matches Err(m) && m@ == npm_output_error(e, trim_ws(script_stdout@)),
            Ok(JsonDocView::Object(ms)) => r matches Ok(p) && opt_text(p) == member_value(
                ms,
                "config_path"@,
            ),
            Ok(_) => r matches Ok(None),
        },
{
    let t = string_of(trim_str(script_stdout).as_slice());
    match parse_json(t.as_str()) {
        Err(e) => {
            let mut v: Vec<char> = Vec::new();
            push_str(&mut v, "failed to parse nginx proxy manager output: ");
            push_str(&mut v, e.as_str());
            push_str(&mut v, "; raw=");
            push_str(&mut v, t.as_str());
            Err(string_of(v.as_slice()))
        },
        Ok(JsonDoc::Object(ms)) => Ok(member_lookup(&ms, "config_path")),
        Ok(_) => Ok(None),
    }
}

} // verus!
