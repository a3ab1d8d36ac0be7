//! The runtime-agent image commands: what Docker and the registry said of
//! the image, whether an update is available, and the reports of `node
//! image status`, `check`, `pull` and `prune`. Asking Docker is the
//! caller's part.
use crate::relay::{json_string, json_string_literal};
use crate::strs::{dec, push_dec, push_str, string_of};
use vstd::prelude::*;

verus! {

/// What is known of the runtime-agent image.
#[derive(Debug, Clone)]
pub struct RuntimeAgentImageState {
    pub image_ref: String,
    pub running_container_name: Option<String>,
    pub running_image_ref: Option<String>,
    pub local_image_id: Option<String>,
    pub remote_digest: Option<String>,
}

/// An update is available when the local image id and the registry digest
/// are both known and differ; unknown when either is missing.
pub open spec fn update_available_spec(s: RuntimeAgentImageState) -> Option<bool> {
    match (s.local_image_id, s.remote_digest) {
        (Some(l), Some(r)) => Some(l@ != r@),
        _ => None,
    }
}

pub fn update_available(state: &RuntimeAgentImageState) -> (r: Option<bool>)
    ensures
        r == update_available_spec(*state),
{
    match (&state.local_image_id, &state.remote_digest) {
        (Some(l), Some(r)) => Some(!crate::strs::str_eq(l.as_str(), r.as_str())),
        _ => None,
    }
}

/// The value shown for a missing field.
pub open spec fn or_dash(o: Option<String>) -> Seq<char> {
    match o {
        Some(s) => s@,
        None => "-"@,
    }
}

pub open spec fn availability_word(a: Option<bool>) -> Seq<char> {
    match a {
        Some(true) => "yes"@,
        Some(false) => "no"@,
        None => "unknown"@,
    }
}

/// The text of `node image status`.
pub open spec fn image_status_text(s: RuntimeAgentImageState) -> Seq<char> {
    "Runtime-agent image status\n  Target image:      "@ + s.image_ref@
        + "\n  Running container: "@ + or_dash(s.running_container_name)
        + "\n  Running image:     "@ + or_dash(s.running_image_ref)
        + "\n  Local image id:    "@ + or_dash(s.local_image_id)
        + "\n  Remote digest:     "@ + or_dash(s.remote_digest)
        + "\n  Update available:  "@ + availability_word(update_available_spec(s)) + "\n"@
}

fn push_or_dash(v: &mut Vec<char>, o: &Option<String>)
    ensures
        final(v)@ == old(v)@ + or_dash(*o),
{
    match o {
        Some(s) => push_str(v, s.as_str()),
        None => push_str(v, "-"),
    }
}

pub fn image_status_text_of(state: &RuntimeAgentImageState) -> (r: String)
    ensures
        r@ == image_status_text(*state),
{
    let mut v: Vec<char> = Vec::new();
    push_str(&mut v, "Runtime-agent image status\n  Target image:      ");
    push_str(&mut v, state.image_ref.as_str());
    push_str(&mut v, "\n  Running container: ");
    push_or_dash(&mut v, &state.running_container_name);
    push_str(&mut v, "\n  Running image:     ");
    push_or_dash(&mut v, &state.running_image_ref);
    push_str(&mut v, "\n  Local image id:    ");
    push_or_dash(&mut v, &state.local_image_id);
    push_str(&mut v, "\n  Remote digest:     ");
    push_or_dash(&mut v, &state.remote_digest);
    push_str(&mut v, "\n  Update available:  ");
    match update_available(state) {
        Some(true) => push_str(&mut v, "yes"),
        Some(false) => push_str(&mut v, "no"),
        None => push_str(&mut v, "unknown"),
    }
    push_str(&mut v, "\n");
    assert(v@ =~= image_status_text(*state));
    string_of(v.as_slice())
}

/// A JSON string, or `null` when missing.
pub open spec fn json_opt_string(o: Option<String>) -> Seq<char> {
    match o {
        Some(s) => json_string_literal(s@),
        None => "null"@,
    }
}

/// A JSON boolean, or `null` when unknown.
pub open spec fn json_opt_bool(o: Option<bool>) -> Seq<char> {
    match o {
        Some(true) => "true"@,
        Some(false) => "false"@,
        None => "null"@,
    }
}

fn push_json_opt_string(v: &mut Vec<char>, o: &Option<String>)
    ensures
        final(v)@ == old(v)@ + json_opt_string(*o),
{
    match o {
        Some(s) => {
            let q = json_string(s.as_str());
            push_str(v, q.as_str());
        },
        None => push_str(v, "null"),
    }
}

fn push_json_opt_bool(v: &mut Vec<char>, o: Option<bool>)
    ensures
        final(v)@ == old(v)@ + json_opt_bool(o),
{
    match o {
        Some(true) => push_str(v, "true"),
        Some(false) => push_str(v, "false"),
        None => push_str(v, "null"),
    }
}

/// The JSON of `node image status --json`, keys sorted, pretty-printed as
/// `serde_json` does.
pub open spec fn image_status_json_text(s: RuntimeAgentImageState) -> Seq<char> {
    "{\n  \"image_ref\": "@ + json_string_literal(s.image_ref@)
        + ",\n  \"local_image_id\": "@ + json_opt_string(s.local_image_id)
        + ",\n  \"remote_digest\": "@ + json_opt_string(s.remote_digest)
        + ",\n  \"running_container_name\": "@ + json_opt_string(s.running_container_name)
        + ",\n  \"running_image_ref\": "@ + json_opt_string(s.running_image_ref)
        + ",\n  \"update_available\": "@ + json_opt_bool(update_available_spec(s)) + "\n}"@
}

pub fn image_status_json(state: &RuntimeAgentImageState) -> (r: String)
    ensures
        r@ == image_status_json_text(*state),
{
    let mut v: Vec<char> = Vec::new();
    push_str(&mut v, "{\n  \"image_ref\": ");
    let q = json_string(state.image_ref.as_str());
    push_str(&mut v, q.as_str());
    push_str(&mut v, ",\n  \"local_image_id\": ");
    push_json_opt_string(&mut v, &state.local_image_id);
    push_str(&mut v, ",\n  \"remote_digest\": ");
    push_json_opt_string(&mut v, &state.remote_digest);
    push_str(&mut v, ",\n  \"running_container_name\": ");
    push_json_opt_string(&mut v, &state.running_container_name);
    push_str(&mut v, ",\n  \"running_image_ref\": ");
    push_json_opt_string(&mut v, &state.running_image_ref);
    push_str(&mut v, ",\n  \"update_available\": ");
    push_json_opt_bool(&mut v, update_available(state));
    push_str(&mut v, "\n}");
    assert(v@ =~= image_status_json_text(*state));
    string_of(v.as_slice())
}

/// The JSON of `node image check --json`.
pub open spec fn image_check_json_text(s: RuntimeAgentImageState) -> Seq<char> {
    "{\n  \"image_ref\": "@ + json_string_literal(s.image_ref@)
        + ",\n  \"local_image_id\": "@ + json_opt_string(s.local_image_id)
        + ",\n  \"remote_digest\": "@ + json_opt_string(s.remote_digest)
        + ",\n  \"update_available\": "@ + json_opt_bool(update_available_spec(s)) + "\n}"@
}

pub fn image_check_json(state: &RuntimeAgentImageState) -> (r: String)
    ensures
        r@ == image_check_json_text(*state),
{
    let mut v: Vec<char> = Vec::new();
    push_str(&mut v, "{\n  \"image_ref\": ");
    let q = json_string(state.image_ref.as_str());
    push_str(&mut v, q.as_str());
    push_str(&mut v, ",\n  \"local_image_id\": ");
    push_json_opt_string(&mut v, &state.local_image_id);
    push_str(&mut v, ",\n  \"remote_digest\": ");
    push_json_opt_string(&mut v, &state.remote_digest);
    push_str(&mut v, ",\n  \"update_available\": ");
    push_json_opt_bool(&mut v, update_available(state));
    push_str(&mut v, "\n}");
    assert(v@ =~= image_check_json_text(*state));
    string_of(v.as_slice())
}

/// What `node image check` says.
pub open spec fn image_check_message_text(image_ref: Seq<char>, available: Option<bool>) -> Seq<char> {
    match available {
        Some(true) => "Runtime-agent update available for "@ + image_ref,
        Some(false) => "Runtime-agent image is up to date"@,
        None => "Unable to determine whether "@ + image_ref + " is up to date"@,
    }
}

pub fn image_check_message(image_ref: &str, available: Option<bool>) -> (r: String)
    ensures
        r@ == image_check_message_text(image_ref@, available),
{
    let mut v: Vec<char> = Vec::new();
    match available {
        Some(true) => {
            push_str(&mut v, "Runtime-agent update available for ");
            push_str(&mut v, image_ref);
        },
        Some(false) => push_str(&mut v, "Runtime-agent image is up to date"),
        None => {
            push_str(&mut v, "Unable to determine whether ");
            push_str(&mut v, image_ref);
            push_str(&mut v, " is up to date");
        },
    }
    assert(v@ =~= image_check_message_text(image_ref@, available));
    string_of(v.as_slice())
}

/// The JSON of `node image pull --json`.
pub open spec fn image_pull_json_text(image_ref: Seq<char>, local_image_id: Option<String>, forced: bool) -> Seq<
    char,
> {
    "{\n  \"forced\": "@ + (if forced { "true"@ } else { "false"@ }) + ",\n  \"image_ref\": "@
        + json_string_literal(image_ref) + ",\n  \"local_image_id\": "@ + json_opt_string(local_image_id)
        + ",\n  \"pulled\": true\n}"@
}

pub fn image_pull_json(image_ref: &str, local_image_id: &Option<String>, forced: bool) -> (r: String)
    ensures
        r@ == image_pull_json_text(image_ref@, *local_image_id, forced),
{
    let mut v: Vec<char> = Vec::new();
    push_str(&mut v, "{\n  \"forced\": ");
    if forced {
        push_str(&mut v, "true");
    } else {
        push_str(&mut v, "false");
    }
    push_str(&mut v, ",\n  \"image_ref\": ");
    let q = json_string(image_ref);
    push_str(&mut v, q.as_str());
    push_str(&mut v, ",\n  \"local_image_id\": ");
    push_json_opt_string(&mut v, local_image_id);
    push_str(&mut v, ",\n  \"pulled\": true\n}");
    assert(v@ =~= image_pull_json_text(image_ref@, *local_image_id, forced));
    string_of(v.as_slice())
}

/// The elements of a pretty-printed array of strings nested one level
/// deep: each on its own line, indented by four spaces, comma-separated.
pub open spec fn json_string_items(items: Seq<Seq<char>>) -> Seq<char>
    decreases items.len(),
{
    if items.len() == 0 {
        Seq::empty()
    } else if items.len() == 1 {
        "\n    "@ + json_string_literal(items[0])
    } else {
        json_string_items(items.drop_last()) + ",\n    "@ + json_string_literal(items.last())
    }
}

/// A pretty-printed array of strings nested one level deep: `[]` when
/// empty.
pub open spec fn json_string_array(items: Seq<Seq<char>>) -> Seq<char> {
    if items.len() == 0 {
        "[]"@
    } else {
        "["@ + json_string_items(items) + "\n  ]"@
    }
}

/// The JSON of `node image prune --json`.
pub open spec fn image_prune_json_text(image_ref: Seq<char>, removed: Seq<Seq<char>>) -> Seq<char> {
    "{\n  \"image_ref\": "@ + json_string_literal(image_ref) + ",\n  \"removed_image_ids\": "@
        + json_string_array(removed) + "\n}"@
}

pub fn image_prune_json(image_ref: &str, removed: &Vec<String>) -> (r: String)
    ensures
        r@ == image_prune_json_text(image_ref@, crate::view::string_texts(removed@)),
{
    let ghost items = crate::view::string_texts(removed@);
    let mut v: Vec<char> = Vec::new();
    push_str(&mut v, "{\n  \"image_ref\": ");
    let q = json_string(image_ref);
    push_str(&mut v, q.as_str());
    push_str(&mut v, ",\n  \"removed_image_ids\": ");
    let ghost pre = v@;
    if removed.len() == 0 {
        push_str(&mut v, "[]");
        assert(v@ =~= pre + json_string_array(items));
    } else {
        push_str(&mut v, "[");
        let ghost start = v@;
        let mut i: usize = 0;
        while i < removed.len()
            invariant
                i <= removed@.len(),
                items == crate::view::string_texts(removed@),
                v@ == start + json_string_items(items.take(i as int)),
            decreases removed@.len() - i,
        {
            if i == 0 {
                push_str(&mut v, "\n    ");
            } else {
                push_str(&mut v, ",\n    ");
            }
            let q = json_string(removed[i].as_str());
            push_str(&mut v, q.as_str());
            assert(items.take(i + 1).drop_last() =~= items.take(i as int));
            assert(items.take(i + 1).last() == removed@[i as int]@);
            i = i + 1;
        }
        assert(items.take(removed@.len() as int) =~= items);
        push_str(&mut v, "\n  ]");
        assert(v@ =~= pre + json_string_array(items));
    }
    push_str(&mut v, "\n}");
    assert(v@ =~= image_prune_json_text(image_ref@, items));
    string_of(v.as_slice())
}

/// What `node image prune` says.
pub open spec fn image_prune_message_text(image_ref: Seq<char>, count: nat) -> Seq<char> {
    "Removed "@ + dec(count) + " old image(s) for "@ + image_ref
}

pub fn image_prune_message(image_ref: &str, count: usize) -> (r: String)
    ensures
        r@ == image_prune_message_text(image_ref@, count as nat),
{
    let mut v: Vec<char> = Vec::new();
    push_str(&mut v, "Removed ");
    push_dec(&mut v, count as u64);
    push_str(&mut v, " old image(s) for ");
    push_str(&mut v, image_ref);
    string_of(v.as_slice())
}

} // verus!
