//! What the node commands read from and ask of `docker`: repository names,
//! stale image selection, `docker ps`/`docker stats` output, command lines
//! and resource estimates. Running `docker` is the caller's part.
use crate::node::ingress::piece_views;
use crate::strs::{
    chars_of, dec, last_index, lemma_last_index, lemma_split_nonempty, push_dec, push_str, seq_eq,
    slice_vec, split, split_char, string_of, trim, trim_str, trim_ws,
};
use vstd::prelude::*;

verus! {

/// One container of `docker ps`.
#[derive(Debug, Clone)]
pub struct ContainerInfo {
    pub id: String,
    pub name: String,
    pub status: String,
    pub image: String,
    pub ports: String,
}

/// Usage figures of `docker stats`.
#[derive(Debug, Clone)]
pub struct ContainerStats {
    pub cpu_percent: String,
    pub mem_usage: String,
    pub mem_limit: String,
    pub mem_percent: String,
}

/// The repository of an image reference: the digest and the tag removed,
/// a registry port kept.
pub open spec fn repository(image: Seq<char>) -> Seq<char> {
    let w = split_char(image, '@')[0];
    match last_index(w, ':') {
        Some(i) => if !w.skip(i + 1).contains('/') {
            w.subrange(0, i)
        } else {
            w
        },
        None => w,
    }
}

fn repository_chars(image: &[char]) -> (r: Vec<char>)
    ensures
        r@ == repository(image@),
{
    let parts = split(image, '@');
    proof {
        lemma_split_nonempty(image@, '@');
    }
    let w = &parts[0];
    let mut i: usize = w.len();
    assert(w@.subrange(0, w@.len() as int) =~= w@);
    while i > 0 && w[i - 1] != ':'
        invariant
            i <= w@.len(),
            last_index(w@, ':') == last_index(w@.subrange(0, i as int), ':'),
        decreases i,
    {
        assert(w@.subrange(0, i as int).drop_last() =~= w@.subrange(0, i - 1));
        i = i - 1;
    }
    if i == 0 {
        assert(w@.subrange(0, 0) =~= Seq::<char>::empty());
        return slice_vec(w.as_slice(), 0, w.len());
    }
    assert(w@.subrange(0, i as int).last() == w@[i - 1]);
    let mut slash = false;
    let mut k: usize = i;
    while k < w.len()
        invariant
            i <= k <= w@.len(),
            slash == w@.subrange(i as int, k as int).contains('/'),
        decreases w@.len() - k,
    {
        proof {
            let a = w@.subrange(i as int, k as int);
            let b = w@.subrange(i as int, k + 1);
            assert(b =~= a.push(w@[k as int]));
            if w@[k as int] == '/' {
                assert(b[b.len() - 1] == '/');
            }
            if b.contains('/') && w@[k as int] != '/' {
                let j = choose|j: int| 0 <= j < b.len() && b[j] == '/';
                assert(a[j] == '/');
            }
            if a.contains('/') {
                let j = choose|j: int| 0 <= j < a.len() && a[j] == '/';
                assert(b[j] == '/');
            }
        }
        if w[k] == '/' {
            slash = true;
        }
        k = k + 1;
    }
    assert(w@.subrange(i as int, w@.len() as int) =~= w@.skip(i as int));
    if !slash {
        slice_vec(w.as_slice(), 0, i - 1)
    } else {
        slice_vec(w.as_slice(), 0, w.len())
    }
}

/// The repository of an image reference (see [`repository`]).
pub fn image_repository(image: &str) -> (r: String)
    ensures
        r@ == repository(image@),
{
    let c = chars_of(image);
    let v = repository_chars(c.as_slice());
    string_of(v.as_slice())
}

/// The image ids to remove: those of the target repository other than the
/// current image and the images containers use, each once, in listing
/// order.
pub open spec fn stale_ids(
    target_repository: Seq<char>,
    target_id: Seq<char>,
    rows: Seq<(Seq<char>, Seq<char>)>,
    used: Seq<Seq<char>>,
) -> Seq<Seq<char>>
    decreases rows.len(),
{
    if rows.len() == 0 {
        Seq::empty()
    } else {
        let prev = stale_ids(target_repository, target_id, rows.drop_last(), used);
        let (repo_tag, id) = rows.last();
        if repository(repo_tag) == target_repository && id != target_id && !used.contains(id)
            && !prev.contains(id) {
            prev.push(id)
        } else {
            prev
        }
    }
}

pub open spec fn row_views(rows: Seq<(String, String)>) -> Seq<(Seq<char>, Seq<char>)> {
    rows.map_values(|r: (String, String)| (r.0@, r.1@))
}

pub open spec fn string_seq_views(v: Seq<String>) -> Seq<Seq<char>> {
    v.map_values(|s: String| s@)
}

fn contains_string(v: &Vec<String>, s: &String) -> (r: bool)
    ensures
        r == string_seq_views(v@).contains(s@),
{
    let mut i: usize = 0;
    while i < v.len()
        invariant
            i <= v@.len(),
            forall|j: int| 0 <= j < i ==> v@[j]@ != s@,
        decreases v@.len() - i,
    {
        if str_equal(v[i].as_str(), s.as_str()) {
            assert(string_seq_views(v@)[i as int] == s@);
            return true;
        }
        i = i + 1;
    }
    assert forall|j: int| 0 <= j < v@.len() implies string_seq_views(v@)[j] != s@ by {
        assert(string_seq_views(v@)[j] == v@[j]@);
    }
    false
}

fn str_equal(a: &str, b: &str) -> (r: bool)
    ensures
        r == (a@ == b@),
{
    let ac = chars_of(a);
    let bc = chars_of(b);
    seq_eq(ac.as_slice(), bc.as_slice())
}

/// Selects the stale images of a repository (see [`stale_ids`]).
pub fn select_old_image_ids_to_remove(
    target_repository: &str,
    target_image_id: &str,
    image_rows: &Vec<(String, String)>,
    used_image_ids: &Vec<String>,
) -> (r: Vec<String>)
    ensures
        string_seq_views(r@) == stale_ids(
            target_repository@,
            target_image_id@,
            row_views(image_rows@),
            string_seq_views(used_image_ids@),
        ),
{
    let ghost rows = row_views(image_rows@);
    let ghost used = string_seq_views(used_image_ids@);
    let mut out: Vec<String> = Vec::new();
    let mut i: usize = 0;
    while i < image_rows.len()
        invariant
            i <= image_rows@.len(),
            rows == row_views(image_rows@),
            used == string_seq_views(used_image_ids@),
            string_seq_views(out@) == stale_ids(
                target_repository@,
                target_image_id@,
                rows.subrange(0, i as int),
                used,
            ),
        decreases image_rows@.len() - i,
    {
        proof {
            let sub1 = rows.subrange(0, i + 1);
            assert(sub1.drop_last() =~= rows.subrange(0, i as int));
            assert(sub1.last() == (image_rows@[i as int].0@, image_rows@[i as int].1@));
        }
        let repo = image_repository(image_rows[i].0.as_str());
        let id = &image_rows[i].1;
        if str_equal(repo.as_str(), target_repository) && !str_equal(id.as_str(), target_image_id)
            && !contains_string(used_image_ids, id) && !contains_string(&out, id) {
            let ghost before = out@;
            let c = id.clone();
            out.push(c);
            assert(string_seq_views(out@) =~= string_seq_views(before).push(id@));
        }
        i = i + 1;
    }
    assert(rows.subrange(0, image_rows@.len() as int) =~= rows);
    out
}

/// The pieces of a trimmed line split at `|`, when there are `n` of them.
pub open spec fn columns(stdout: Seq<char>, n: nat) -> Option<Seq<Seq<char>>> {
    let line = trim_ws(stdout);
    if line.len() == 0 || split_char(line, '|').len() != n {
        None
    } else {
        Some(split_char(line, '|'))
    }
}

fn columns_exec(stdout: &str, n: usize) -> (r: Option<Vec<Vec<char>>>)
    ensures
        match r {
            Some(v) => columns(stdout@, n as nat) == Some(piece_views(v@)),
            None => columns(stdout@, n as nat) is None,
        },
{
    let line = trim_str(stdout);
    if line.len() == 0 {
        return None;
    }
    let parts = split(line.as_slice(), '|');
    assert(piece_views(parts@) =~= split_char(line@, '|'));
    if parts.len() != n {
        return None;
    }
    Some(parts)
}

/// Whether `docker ps -q -f name=...` listed a container.
pub fn is_container_running(ps_output: &[u8]) -> (r: bool)
    ensures
        r == (ps_output@.len() > 0),
{
    ps_output.len() > 0
}

/// The container of a `docker ps --format '{{.ID}}|{{.Names}}|{{.Status}}|{{.Image}}|{{.Ports}}'`
/// line, when it has those five columns.
pub fn get_container_info(ps_output: &str) -> (r: Option<ContainerInfo>)
    ensures
        match columns(ps_output@, 5) {
            None => r is None,
            Some(c) => r matches Some(i) && i.id@ == c[0] && i.name@ == c[1] && i.status@ == c[2]
                && i.image@ == c[3] && i.ports@ == c[4],
        },
{
    match columns_exec(ps_output, 5) {
        None => None,
        Some(p) => Some(
            ContainerInfo {
                id: string_of(p[0].as_slice()),
                name: string_of(p[1].as_slice()),
                status: string_of(p[2].as_slice()),
                image: string_of(p[3].as_slice()),
                ports: string_of(p[4].as_slice()),
            },
        ),
    }
}

/// The usage of a `docker stats --format '{{.CPUPerc}}|{{.MemUsage}}|{{.MemPerc}}'`
/// line: the memory column is split at `/` into usage and limit (`0B`
/// when absent).
pub fn get_container_stats(stats_output: &str) -> (r: Option<ContainerStats>)
    ensures
        match columns(stats_output@, 3) {
            None => r is None,
            Some(c) => r matches Some(s) && s.cpu_percent@ == c[0] && s.mem_percent@ == c[2]
                && s.mem_usage@ == trim_ws(split_char(c[1], '/')[0]) && s.mem_limit@ == (if split_char(
                c[1],
                '/',
            ).len() > 1 {
                trim_ws(split_char(c[1], '/')[1])
            } else {
                "0B"@
            }),
        },
{
    match columns_exec(stats_output, 3) {
        None => None,
        Some(p) => {
            let mem = split(p[1].as_slice(), '/');
            proof {
                lemma_split_nonempty(p@[1]@, '/');
            }
            let usage = trim(mem[0].as_slice());
            let limit = if mem.len() > 1 {
                string_of(trim(mem[1].as_slice()).as_slice())
            } else {
                "0B".to_owned()
            };
            Some(
                ContainerStats {
                    cpu_percent: string_of(p[0].as_slice()),
                    mem_usage: string_of(usage.as_slice()),
                    mem_limit: limit,
                    mem_percent: string_of(p[2].as_slice()),
                },
            )
        },
    }
}

/// A `docker` invocation: its arguments and what it does, for messages.
#[derive(Debug, Clone)]
pub struct DockerCommand {
    pub args: Vec<String>,
    pub action: String,
}

pub open spec fn arg_views(v: Seq<String>) -> Seq<Seq<char>> {
    v.map_values(|s: String| s@)
}

/// `docker kill NAME` when forced, else `docker stop NAME`.
pub fn stop_container(name: &str, force: bool) -> (r: DockerCommand)
    ensures
        arg_views(r.args@) == seq![if force { "kill"@ } else { "stop"@ }, name@],
        r.action@ == "stop container "@ + name@,
{
    let mut args: Vec<String> = Vec::new();
    args.push(if force {
        "kill".to_owned()
    } else {
        "stop".to_owned()
    });
    args.push(name.to_owned());
    let mut a: Vec<char> = Vec::new();
    push_str(&mut a, "stop container ");
    push_str(&mut a, name);
    assert(arg_views(args@) =~= seq![if force { "kill"@ } else { "stop"@ }, name@]);
    DockerCommand { args, action: string_of(a.as_slice()) }
}

/// `docker rm -f NAME`.
pub fn remove_container(name: &str) -> (r: DockerCommand)
    ensures
        arg_views(r.args@) == seq!["rm"@, "-f"@, name@],
        r.action@ == "remove container "@ + name@,
{
    let mut args: Vec<String> = Vec::new();
    args.push("rm".to_owned());
    args.push("-f".to_owned());
    args.push(name.to_owned());
    let mut a: Vec<char> = Vec::new();
    push_str(&mut a, "remove container ");
    push_str(&mut a, name);
    assert(arg_views(args@) =~= seq!["rm"@, "-f"@, name@]);
    DockerCommand { args, action: string_of(a.as_slice()) }
}

/// Resource estimate for a node running `max_opcode_containers`
/// workspaces: 0.5 CPU and 200 MB for the agent, 0.2 CPU and 100 MB per
/// workspace; 5 GB disk plus 1 GB per workspace. CPU is given to one
/// decimal.
pub open spec fn resource_texts(n: nat) -> (Seq<char>, Seq<char>, Seq<char>) {
    let tenths = 5 + 2 * n;
    (
        dec(tenths / 10) + seq!['.'] + dec(tenths % 10) + " CPU cores"@,
        dec(200 + 100 * n) + " MB RAM"@,
        dec(5 + n) + " GB disk space"@,
    )
}

/// Estimates the resources a node needs (see [`resource_texts`]).
pub fn estimate_resources(max_opcode_containers: u32) -> (r: (String, String, String))
    requires
        200 + 100 * max_opcode_containers <= u32::MAX,
    ensures
        (r.0@, r.1@, r.2@) == resource_texts(max_opcode_containers as nat),
{
    let n = max_opcode_containers as u64;
    let tenths = 5 + 2 * n;
    let mut cpu: Vec<char> = Vec::new();
    push_dec(&mut cpu, tenths / 10);
    cpu.push('.');
    push_dec(&mut cpu, tenths % 10);
    push_str(&mut cpu, " CPU cores");
    let mut mem: Vec<char> = Vec::new();
    push_dec(&mut mem, 200 + 100 * n);
    push_str(&mut mem, " MB RAM");
    let mut disk: Vec<char> = Vec::new();
    push_dec(&mut disk, 5 + n);
    push_str(&mut disk, " GB disk space");
    assert(cpu@ =~= resource_texts(max_opcode_containers as nat).0);
    assert(mem@ =~= resource_texts(max_opcode_containers as nat).1);
    assert(disk@ =~= resource_texts(max_opcode_containers as nat).2);
    (string_of(cpu.as_slice()), string_of(mem.as_slice()), string_of(disk.as_slice()))
}

} // verus!

verus! {

/// The first decision of getting an image: with `--skip-pull` only the
/// local copy counts; otherwise a local copy is used as it is, and
/// without one the image is pulled.
#[derive(Debug, Clone, PartialEq, Eq)]
pub enum PullPlan {
    /// Use the local image; say so when a pull was skipped.
    UseLocal { note: Option<String> },
    /// Pull the image.
    Pull,
    /// Stop with this message.
    Fail(String),
}

pub open spec fn pull_plan_spec(image: Seq<char>, skip_pull: bool, local: bool) -> (int, Seq<char>) {
    if skip_pull {
        if local {
            (0, Seq::empty())
        } else {
            (2, "Image '"@ + image + "' not found locally. Remove --skip-pull to pull it."@)
        }
    } else if local {
        (0, "⏭️  Local image already present, skipping pull: "@ + image)
    } else {
        (1, Seq::empty())
    }
}

pub fn pull_plan(image: &str, skip_pull: bool, local: bool) -> (r: PullPlan)
    ensures
        pull_plan_spec(image@, skip_pull, local).0 == 0 ==> (r matches PullPlan::UseLocal { note } && (
        skip_pull ==> note is None) && (!skip_pull ==> (note matches Some(n) && n@ == pull_plan_spec(
            image@,
            skip_pull,
            local,
        ).1))),
        pull_plan_spec(image@, skip_pull, local).0 == 1 ==> r == PullPlan::Pull,
        pull_plan_spec(image@, skip_pull, local).0 == 2 ==> (r matches PullPlan::Fail(m) && m@
            == pull_plan_spec(image@, skip_pull, local).1),
{
    if skip_pull {
        if local {
            PullPlan::UseLocal { note: None }
        } else {
            let mut v: Vec<char> = Vec::new();
            push_str(&mut v, "Image '");
            push_str(&mut v, image);
            push_str(&mut v, "' not found locally. Remove --skip-pull to pull it.");
            PullPlan::Fail(string_of(v.as_slice()))
        }
    } else if local {
        let mut v: Vec<char> = Vec::new();
        push_str(&mut v, "⏭️  Local image already present, skipping pull: ");
        push_str(&mut v, image);
        PullPlan::UseLocal { note: Some(string_of(v.as_slice())) }
    } else {
        PullPlan::Pull
    }
}

/// After a failed pull, a local copy (checked again) is used with a
/// warning; without one the fetch fails, naming the pull error.
pub fn after_failed_pull(image: &str, pull_error: &str, local: bool) -> (r: Result<String, String>)
    ensures
        local ==> (r matches Ok(w) && w@ == "⚠️  Pull failed ("@ + pull_error@ + "), falling back to cached image"@),
        !local ==> (r matches Err(m) && m@ == "Failed to pull image '"@ + image@ + "' and no local cache found: "@
            + pull_error@),
{
    let mut v: Vec<char> = Vec::new();
    if local {
        push_str(&mut v, "⚠️  Pull failed (");
        push_str(&mut v, pull_error);
        push_str(&mut v, "), falling back to cached image");
        Ok(string_of(v.as_slice()))
    } else {
        push_str(&mut v, "Failed to pull image '");
        push_str(&mut v, image);
        push_str(&mut v, "' and no local cache found: ");
        push_str(&mut v, pull_error);
        Err(string_of(v.as_slice()))
    }
}

/// The message of a `docker` call that failed: with the reason when it
/// could not be run, bare when it ran and failed.
pub fn docker_failure(action: &str, reason: Option<&str>) -> (r: String)
    ensures
        r@ == "Failed to "@ + action@ + match reason {
            Some(e) => ": "@ + e@,
            None => Seq::empty(),
        },
{
    let mut v: Vec<char> = Vec::new();
    push_str(&mut v, "Failed to ");
    push_str(&mut v, action);
    if let Some(e) = reason {
        push_str(&mut v, ": ");
        push_str(&mut v, e);
    }
    assert(v@ =~= "Failed to "@ + action@ + match reason {
        Some(e) => ": "@ + e@,
        None => Seq::empty(),
    });
    string_of(v.as_slice())
}

/// Why Docker cannot be used, by what failed first: `docker --version`
/// not running at all, failing, or `docker info` failing.
#[derive(Debug, Clone, Copy, PartialEq, Eq)]
pub enum DockerProblem {
    NotInstalled,
    CommandFailed,
    NotRunning,
}

pub fn docker_problem_message(p: DockerProblem) -> (r: &'static str)
    ensures
        r@ == match p {
            DockerProblem::NotInstalled => "Docker is not installed. Please install Docker from https://docs.docker.com/get-docker/"@,
            DockerProblem::CommandFailed => "Docker command failed"@,
            DockerProblem::NotRunning => "Docker is not running. Please start Docker daemon."@,
        },
{
    match p {
        DockerProblem::NotInstalled => "Docker is not installed. Please install Docker from https://docs.docker.com/get-docker/",
        DockerProblem::CommandFailed => "Docker command failed",
        DockerProblem::NotRunning => "Docker is not running. Please start Docker daemon.",
    }
}

} // verus!

verus! {

/// One row of `docker images --format '{{.Repository}}:{{.Tag}}|{{.ID}}'`:
/// the first two `|`-separated fields trimmed, when both are non-empty.
pub open spec fn image_row(line: Seq<char>) -> Option<(Seq<char>, Seq<char>)> {
    let p = split_char(line, '|');
    if p.len() < 2 {
        None
    } else {
        let a = trim_ws(p[0]);
        let b = trim_ws(p[1]);
        if a.len() == 0 || b.len() == 0 {
            None
        } else {
            Some((a, b))
        }
    }
}

/// The rows of the listing, in order, skipping lines that are no row.
pub open spec fn image_rows_of(lines: Seq<Seq<char>>) -> Seq<(Seq<char>, Seq<char>)>
    decreases lines.len(),
{
    if lines.len() == 0 {
        Seq::empty()
    } else {
        let rest = image_rows_of(lines.drop_last());
        match image_row(lines.last()) {
            Some(r) => rest.push(r),
            None => rest,
        }
    }
}

pub fn parse_image_rows(output: &str) -> (r: Vec<(String, String)>)
    ensures
        row_views(r@) == image_rows_of(crate::strs::lines_of(output@)),
{
    let ls = crate::strs::lines(chars_of(output).as_slice());
    let ghost all = crate::strs::lines_of(output@);
    let mut out: Vec<(String, String)> = Vec::new();
    let mut i: usize = 0;
    while i < ls.len()
        invariant
            i <= ls@.len(),
            ls@.len() == all.len(),
            forall|k: int| 0 <= k < ls@.len() ==> #[trigger] ls@[k]@ == all[k],
            row_views(out@) == image_rows_of(all.take(i as int)),
        decreases ls@.len() - i,
    {
        assert(all.take(i + 1).drop_last() =~= all.take(i as int));
        assert(all.take(i + 1).last() == ls@[i as int]@);
        let p = split(ls[i].as_slice(), '|');
        if p.len() >= 2 {
            let a = trim(p[0].as_slice());
            let b = trim(p[1].as_slice());
            if a.len() > 0 && b.len() > 0 {
                let ghost before = out@;
                out.push((string_of(a.as_slice()), string_of(b.as_slice())));
                assert(row_views(out@) =~= row_views(before).push((a@, b@)));
            }
        }
        i = i + 1;
    }
    assert(all.take(all.len() as int) =~= all);
    out
}

/// The image ids of `docker ps -a --format '{{.ImageID}}'`: each line
/// trimmed, blank ones skipped.
pub open spec fn used_ids_of(lines: Seq<Seq<char>>) -> Seq<Seq<char>>
    decreases lines.len(),
{
    if lines.len() == 0 {
        Seq::empty()
    } else {
        let rest = used_ids_of(lines.drop_last());
        let t = trim_ws(lines.last());
        if t.len() > 0 {
            rest.push(t)
        } else {
            rest
        }
    }
}

pub fn parse_used_image_ids(output: &str) -> (r: Vec<String>)
    ensures
        string_seq_views(r@) == used_ids_of(crate::strs::lines_of(output@)),
{
    let ls = crate::strs::lines(chars_of(output).as_slice());
    let ghost all = crate::strs::lines_of(output@);
    let mut out: Vec<String> = Vec::new();
    let mut i: usize = 0;
    while i < ls.len()
        invariant
            i <= ls@.len(),
            ls@.len() == all.len(),
            forall|k: int| 0 <= k < ls@.len() ==> #[trigger] ls@[k]@ == all[k],
            string_seq_views(out@) == used_ids_of(all.take(i as int)),
        decreases ls@.len() - i,
    {
        assert(all.take(i + 1).drop_last() =~= all.take(i as int));
        assert(all.take(i + 1).last() == ls@[i as int]@);
        let t = trim(ls[i].as_slice());
        if t.len() > 0 {
            let ghost before = out@;
            out.push(string_of(t.as_slice()));
            assert(string_seq_views(out@) =~= string_seq_views(before).push(t@));
        }
        i = i + 1;
    }
    assert(all.take(all.len() as int) =~= all);
    out
}

} // verus!

verus! {

/// Pruning is safe: every image it removes belongs to the repository, is
/// not the current image, is used by no container, and is removed once.
pub proof fn lemma_prune_is_safe(
    target_repository: Seq<char>,
    target_id: Seq<char>,
    rows: Seq<(Seq<char>, Seq<char>)>,
    used: Seq<Seq<char>>,
)
    ensures
        forall|k: int|
            0 <= k < stale_ids(target_repository, target_id, rows, used).len() ==> {
                let id = #[trigger] stale_ids(target_repository, target_id, rows, used)[k];
                &&& id != target_id
                &&& !used.contains(id)
                &&& exists|j: int| 0 <= j < rows.len() && rows[j].1 == id && repository(rows[j].0) == target_repository
            },
        forall|a: int, b: int|
            0 <= a < b < stale_ids(target_repository, target_id, rows, used).len() ==> stale_ids(
                target_repository,
                target_id,
                rows,
                used,
            )[a] != stale_ids(target_repository, target_id, rows, used)[b],
    decreases rows.len(),
{
    if rows.len() > 0 {
        let prev_rows = rows.drop_last();
        lemma_prune_is_safe(target_repository, target_id, prev_rows, used);
        let prev = stale_ids(target_repository, target_id, prev_rows, used);
        let s = stale_ids(target_repository, target_id, rows, used);
        assert forall|k: int| 0 <= k < s.len() implies {
            let id = #[trigger] s[k];
            &&& id != target_id
            &&& !used.contains(id)
            &&& exists|j: int| 0 <= j < rows.len() && rows[j].1 == id && repository(rows[j].0) == target_repository
        } by {
            if k < prev.len() {
                assert(s[k] == prev[k]);
                let j = choose|j: int|
                    0 <= j < prev_rows.len() && prev_rows[j].1 == prev[k] && repository(prev_rows[j].0)
                        == target_repository;
                assert(rows[j] == prev_rows[j]);
            } else {
                assert(rows[rows.len() - 1] == rows.last());
            }
        }
        assert forall|a: int, b: int| 0 <= a < b < s.len() implies s[a] != s[b] by {
            if b < prev.len() {
            } else {
                assert(s[a] == prev[a]);
                assert(prev.contains(prev[a]));
            }
        }
    }
}

} // verus!
