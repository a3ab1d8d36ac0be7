//! The current-directory shortcuts (`d1v --preview` / `d1v --prod`): the
//! project id kept in `.env`, and the variables read from `.env` text.
//! Reading and writing the file is the caller's part.
use crate::strs::{
    chars_of, has_prefix, is_ascii_alnum, is_ascii_alnum_char, lines, lines_of, push_all, push_str,
    slice_vec, starts_with_str, string_of, trim, trim_start, trim_start_ws, trim_ws,
};
use vstd::prelude::*;

verus! {

/// The key under which `.env` holds the project id.
pub open spec fn project_key() -> Seq<char> {
    "D1V_PROJECT_ID="@
}

pub open spec fn is_quote(c: char) -> bool {
    c == '\u{22}' || c == '\u{27}'
}

/// `s` without quote characters at either end.
pub open spec fn trim_quotes_start(s: Seq<char>) -> Seq<char>
    decreases s.len(),
{
    if s.len() > 0 && is_quote(s[0]) {
        trim_quotes_start(s.drop_first())
    } else {
        s
    }
}

pub open spec fn trim_quotes_end(s: Seq<char>) -> Seq<char>
    decreases s.len(),
{
    if s.len() > 0 && is_quote(s.last()) {
        trim_quotes_end(s.drop_last())
    } else {
        s
    }
}

pub open spec fn trim_quotes(s: Seq<char>) -> Seq<char> {
    trim_quotes_end(trim_quotes_start(s))
}

fn trim_quotes_exec(s: &[char]) -> (r: Vec<char>)
    ensures
        r@ == trim_quotes(s@),
{
    let mut i: usize = 0;
    assert(s@.skip(0) =~= s@);
    while i < s.len() && (s[i] == '\u{22}' || s[i] == '\u{27}')
        invariant
            i <= s@.len(),
            trim_quotes_start(s@.skip(i as int)) == trim_quotes_start(s@),
        decreases s@.len() - i,
    {
        assert(s@.skip(i as int).drop_first() =~= s@.skip(i + 1));
        i = i + 1;
    }
    assert(trim_quotes_start(s@) == s@.skip(i as int)) by {
        assert(s@.skip(i as int).len() == 0 || !is_quote(s@.skip(i as int)[0]));
    }
    let mut j: usize = s.len();
    while j > i && (s[j - 1] == '\u{22}' || s[j - 1] == '\u{27}')
        invariant
            i <= j <= s@.len(),
            trim_quotes_end(s@.subrange(i as int, j as int)) == trim_quotes_end(s@.skip(i as int)),
        decreases j,
    {
        assert(s@.subrange(i as int, j as int).drop_last() =~= s@.subrange(i as int, j - 1));
        j = j - 1;
    }
    assert(s@.subrange(i as int, s@.len() as int) =~= s@.skip(i as int));
    slice_vec(s, i, j)
}

/// The project id a line of `.env` gives: after `D1V_PROJECT_ID=` in the
/// trimmed line, trimmed and without quotes, when that leaves anything.
pub open spec fn line_project_id(line: Seq<char>) -> Option<Seq<char>> {
    let t = trim_ws(line);
    if has_prefix(t, project_key()) {
        let v = trim_quotes(trim_ws(t.skip(project_key().len() as int)));
        if v.len() > 0 {
            Some(v)
        } else {
            None
        }
    } else {
        None
    }
}

/// The first line that gives a project id.
pub open spec fn first_project_id(lines: Seq<Seq<char>>) -> Option<Seq<char>>
    decreases lines.len(),
{
    if lines.len() == 0 {
        None
    } else {
        match line_project_id(lines[0]) {
            Some(v) => Some(v),
            None => first_project_id(lines.drop_first()),
        }
    }
}

fn line_project_id_exec(line: &[char]) -> (r: Option<Vec<char>>)
    ensures
        match r {
            Some(v) => line_project_id(line@) == Some(v@),
            None => line_project_id(line@) is None,
        },
{
    let t = trim(line);
    proof {
        reveal_strlit("D1V_PROJECT_ID=");
    }
    if !starts_with_str(t.as_slice(), "D1V_PROJECT_ID=") {
        return None;
    }
    let rest = slice_vec(t.as_slice(), 15, t.len());
    assert(rest@ =~= t@.skip(15));
    let v = trim_quotes_exec(trim(rest.as_slice()).as_slice());
    if v.len() > 0 {
        Some(v)
    } else {
        None
    }
}

/// The project id kept in `.env` text.
pub fn env_project_id(content: &str) -> (r: Option<String>)
    ensures
        match r {
            Some(v) => first_project_id(lines_of(content@)) == Some(v@),
            None => first_project_id(lines_of(content@)) is None,
        },
{
    let ls = lines(chars_of(content).as_slice());
    let ghost all = lines_of(content@);
    let mut i: usize = 0;
    assert(all.skip(0) =~= all);
    while i < ls.len()
        invariant
            i <= ls@.len(),
            ls@.len() == all.len(),
            all == lines_of(content@),
            forall|j: int| 0 <= j < ls@.len() ==> #[trigger] ls@[j]@ == all[j],
            first_project_id(all.skip(i as int)) == first_project_id(all),
        decreases ls@.len() - i,
    {
        assert(all.skip(i as int)[0] == all[i as int]);
        assert(all.skip(i as int).drop_first() =~= all.skip(i + 1));
        match line_project_id_exec(ls[i].as_slice()) {
            Some(v) => {
                return Some(string_of(v.as_slice()));
            },
            None => {},
        }
        i = i + 1;
    }
    None
}

/// A line that sets the project id: it starts so once leading whitespace
/// is trimmed.
pub open spec fn sets_project_id(line: Seq<char>) -> bool {
    has_prefix(trim_start_ws(line), project_key())
}

pub open spec fn joined_lines(ls: Seq<Seq<char>>) -> Seq<char>
    decreases ls.len(),
{
    if ls.len() == 0 {
        seq![]
    } else {
        joined_lines(ls.drop_last()) + ls.last() + seq!['\n']
    }
}

/// The lines of `.env` with every project-id line set to `id`, the line
/// added at the end when there was none.
pub open spec fn lines_with_project_id(ls: Seq<Seq<char>>, id: Seq<char>) -> Seq<Seq<char>> {
    let set = project_key() + id;
    let replaced = Seq::new(ls.len(), |i: int| if sets_project_id(ls[i]) { set } else { ls[i] });
    if exists|i: int| 0 <= i < ls.len() && sets_project_id(ls[i]) {
        replaced
    } else {
        replaced.push(set)
    }
}

/// The `.env` text with the project id set: each line ends with a newline.
pub fn with_project_id(content: &str, id: &str) -> (r: String)
    ensures
        r@ == joined_lines(lines_with_project_id(lines_of(content@), id@)),
{
    let ls = lines(chars_of(content).as_slice());
    let ghost all = lines_of(content@);
    let mut set: Vec<char> = Vec::new();
    push_str(&mut set, "D1V_PROJECT_ID=");
    push_str(&mut set, id);
    let ghost replaced = Seq::new(all.len(), |i: int| if sets_project_id(all[i]) { set@ } else { all[i] });
    let mut out: Vec<char> = Vec::new();
    let mut found = false;
    let mut i: usize = 0;
    proof {
        reveal_strlit("D1V_PROJECT_ID=");
    }
    while i < ls.len()
        invariant
            i <= ls@.len(),
            ls@.len() == all.len(),
            all == lines_of(content@),
            forall|j: int| 0 <= j < ls@.len() ==> #[trigger] ls@[j]@ == all[j],
            set@ == project_key() + id@,
            replaced == Seq::new(all.len(), |i: int| if sets_project_id(all[i]) { set@ } else { all[i] }),
            out@ == joined_lines(replaced.take(i as int)),
            found == exists|j: int| 0 <= j < i && sets_project_id(all[j]),
        decreases ls@.len() - i,
    {
        let start = trim_start(ls[i].as_slice());
        let sets = starts_with_str(start.as_slice(), "D1V_PROJECT_ID=");
        assert(replaced.take(i + 1).drop_last() =~= replaced.take(i as int));
        if sets {
            push_all(&mut out, set.as_slice());
            found = true;
        } else {
            push_all(&mut out, ls[i].as_slice());
        }
        out.push('\n');
        proof {
            if sets {
                assert(sets_project_id(all[i as int]));
            }
        }
        i = i + 1;
    }
    assert(replaced.take(ls@.len() as int) =~= replaced);
    assert(replaced =~= Seq::new(
        all.len(),
        |i: int| if sets_project_id(all[i]) { project_key() + id@ } else { all[i] },
    ));
    if !found {
        push_all(&mut out, set.as_slice());
        out.push('\n');
        assert(replaced.push(set@).drop_last() =~= replaced);
        assert(lines_with_project_id(all, id@) == replaced.push(set@));
    } else {
        assert(lines_with_project_id(all, id@) == replaced);
    }
    string_of(out.as_slice())
}

/// A key of `.env`: letters, digits and underscores.
pub open spec fn valid_env_key(k: Seq<char>) -> bool {
    k.len() > 0 && forall|i: int| 0 <= i < k.len() ==> (k[i] == '_' || is_ascii_alnum(k[i]))
}

/// What a line of `.env` assigns: blank lines and comments none; an
/// `export ` prefix dropped; split at the first `=`, both sides trimmed,
/// the key valid.
pub open spec fn line_assignment(line: Seq<char>) -> Option<(Seq<char>, Seq<char>)> {
    let t = trim_ws(line);
    if t.len() == 0 || t[0] == '#' {
        None
    } else {
        let body = if has_prefix(t, "export "@) {
            t.skip(7)
        } else {
            t
        };
        match crate::env::split_assignment(body) {
            Some((k, v)) => if valid_env_key(trim_ws(k)) {
                Some((trim_ws(k), trim_ws(v)))
            } else {
                None
            },
            None => None,
        }
    }
}

pub open spec fn assignments_of(ls: Seq<Seq<char>>) -> Seq<(Seq<char>, Seq<char>)>
    decreases ls.len(),
{
    if ls.len() == 0 {
        seq![]
    } else {
        let rest = assignments_of(ls.drop_last());
        match line_assignment(ls.last()) {
            Some(a) => rest.push(a),
            None => rest,
        }
    }
}

fn valid_key_exec(k: &[char]) -> (r: bool)
    ensures
        r == valid_env_key(k@),
{
    if k.len() == 0 {
        return false;
    }
    let mut i: usize = 0;
    while i < k.len()
        invariant
            i <= k@.len(),
            forall|j: int| 0 <= j < i ==> (k@[j] == '_' || is_ascii_alnum(k@[j])),
        decreases k@.len() - i,
    {
        if !(k[i] == '_' || is_ascii_alnum_char(k[i])) {
            return false;
        }
        i = i + 1;
    }
    true
}

fn line_assignment_exec(line: &[char]) -> (r: Option<(String, String)>)
    ensures
        match r {
            Some((k, v)) => line_assignment(line@) == Some((k@, v@)),
            None => line_assignment(line@) is None,
        },
{
    let t = trim(line);
    if t.len() == 0 || t[0] == '#' {
        return None;
    }
    proof {
        reveal_strlit("export ");
    }
    let body = if starts_with_str(t.as_slice(), "export ") {
        let b = slice_vec(t.as_slice(), 7, t.len());
        assert(b@ =~= t@.skip(7));
        b
    } else {
        t
    };
    let s = string_of(body.as_slice());
    match crate::env::KeyValue::parse(s.as_str()) {
        Ok(kv) => {
            let k = trim(chars_of(kv.key.as_str()).as_slice());
            if valid_key_exec(k.as_slice()) {
                let v = trim(chars_of(kv.value.as_str()).as_slice());
                Some((string_of(k.as_slice()), string_of(v.as_slice())))
            } else {
                None
            }
        },
        Err(_) => None,
    }
}

/// The variables `.env` text assigns, in order.
pub fn env_assignments(content: &str) -> (r: Vec<(String, String)>)
    ensures
        crate::relay::string_pairs(r@) == assignments_of(lines_of(content@)),
{
    let ls = lines(chars_of(content).as_slice());
    let ghost all = lines_of(content@);
    let mut out: Vec<(String, String)> = Vec::new();
    let mut i: usize = 0;
    assert(all.take(0) =~= Seq::<Seq<char>>::empty());
    while i < ls.len()
        invariant
            i <= ls@.len(),
            ls@.len() == all.len(),
            all == lines_of(content@),
            forall|j: int| 0 <= j < ls@.len() ==> #[trigger] ls@[j]@ == all[j],
            crate::relay::string_pairs(out@) == assignments_of(all.take(i as int)),
        decreases ls@.len() - i,
    {
        assert(all.take(i + 1).drop_last() =~= all.take(i as int));
        match line_assignment_exec(ls[i].as_slice()) {
            Some(a) => {
                out.push(a);
            },
            None => {},
        }
        assert(crate::relay::string_pairs(out@) =~= assignments_of(all.take(i + 1)));
        i = i + 1;
    }
    assert(all.take(ls@.len() as int) =~= all);
    out
}

} // verus!

verus! {

/// The value the last assignment of `key` gives.
pub open spec fn last_value(ps: Seq<(Seq<char>, Seq<char>)>, key: Seq<char>) -> Option<Seq<char>>
    decreases ps.len(),
{
    if ps.len() == 0 {
        None
    } else if ps.last().0 == key {
        Some(ps.last().1)
    } else {
        last_value(ps.drop_last(), key)
    }
}

/// Keys in strictly increasing order.
pub open spec fn sorted_by_key(m: Seq<(Seq<char>, Seq<char>)>) -> bool {
    forall|i: int, j: int|
        0 <= i < j < m.len() ==> crate::strs::seq_lt(#[trigger] m[i].0, #[trigger] m[j].0)
}

pub open spec fn has_entry(m: Seq<(Seq<char>, Seq<char>)>, key: Seq<char>, val: Seq<char>) -> bool {
    exists|i: int| 0 <= i < m.len() && #[trigger] m[i] == (key, val)
}

proof fn lemma_sorted_unique(m: Seq<(Seq<char>, Seq<char>)>, i: int, j: int)
    requires
        sorted_by_key(m),
        0 <= i < m.len(),
        0 <= j < m.len(),
        m[i].0 == m[j].0,
    ensures
        i == j,
{
    if i < j {
        crate::strs::lemma_seq_lt_irreflexive(m[i].0);
    } else if j < i {
        crate::strs::lemma_seq_lt_irreflexive(m[i].0);
    }
}

/// The sorted map of a list of pairs, the last value of each key kept.
pub open spec fn key_map_of(ps: Seq<(Seq<char>, Seq<char>)>) -> Seq<(Seq<char>, Seq<char>)> {
    choose|m: Seq<(Seq<char>, Seq<char>)>|
        sorted_by_key(m) && forall|key: Seq<char>, val: Seq<char>|
            #[trigger] has_entry(m, key, val) <==> last_value(ps, key) == Some(val)
}

/// Two maps sorted by key with the same entries are the same sequence.
pub proof fn lemma_sorted_maps_equal(a: Seq<(Seq<char>, Seq<char>)>, b: Seq<(Seq<char>, Seq<char>)>)
    requires
        sorted_by_key(a),
        sorted_by_key(b),
        forall|key: Seq<char>, val: Seq<char>|
            #[trigger] has_entry(a, key, val) <==> has_entry(b, key, val),
    ensures
        a == b,
    decreases a.len(),
{
    if a.len() == 0 {
        if b.len() > 0 {
            assert(has_entry(b, b[0].0, b[0].1));
            assert(has_entry(a, b[0].0, b[0].1));
        }
        assert(a =~= b);
    } else {
        assert(has_entry(a, a[0].0, a[0].1));
        assert(has_entry(b, a[0].0, a[0].1));
        let j = choose|j: int| 0 <= j < b.len() && #[trigger] b[j] == (a[0].0, a[0].1);
        assert(has_entry(b, b[0].0, b[0].1));
        assert(has_entry(a, b[0].0, b[0].1));
        let i = choose|i: int| 0 <= i < a.len() && #[trigger] a[i] == (b[0].0, b[0].1);
        if j > 0 {
            assert(crate::strs::seq_lt(b[0].0, b[j].0));
            if i > 0 {
                assert(crate::strs::seq_lt(a[0].0, a[i].0));
                crate::strs::lemma_seq_lt_transitive(a[0].0, b[0].0, a[0].0);
            }
            crate::strs::lemma_seq_lt_irreflexive(a[0].0);
            assert(false);
        }
        assert(a[0] == b[0]);
        let ra = a.drop_first();
        let rb = b.drop_first();
        assert forall|key: Seq<char>, val: Seq<char>|
            #[trigger] has_entry(ra, key, val) implies has_entry(rb, key, val) by {
            let p = choose|p: int| 0 <= p < ra.len() && #[trigger] ra[p] == (key, val);
            assert(a[p + 1] == (key, val));
            assert(has_entry(a, key, val));
            assert(has_entry(b, key, val));
            let q = choose|q: int| 0 <= q < b.len() && #[trigger] b[q] == (key, val);
            if q == 0 {
                assert(crate::strs::seq_lt(a[0].0, a[p + 1].0));
                crate::strs::lemma_seq_lt_irreflexive(a[0].0);
            }
            assert(rb[q - 1] == (key, val));
        }
        assert forall|key: Seq<char>, val: Seq<char>|
            #[trigger] has_entry(rb, key, val) implies has_entry(ra, key, val) by {
            let p = choose|p: int| 0 <= p < rb.len() && #[trigger] rb[p] == (key, val);
            assert(b[p + 1] == (key, val));
            assert(has_entry(b, key, val));
            assert(has_entry(a, key, val));
            let q = choose|q: int| 0 <= q < a.len() && #[trigger] a[q] == (key, val);
            if q == 0 {
                assert(crate::strs::seq_lt(b[0].0, b[p + 1].0));
                crate::strs::lemma_seq_lt_irreflexive(b[0].0);
            }
            assert(ra[q - 1] == (key, val));
        }
        lemma_sorted_maps_equal(ra, rb);
        assert(a =~= seq![a[0]] + ra);
        assert(b =~= seq![b[0]] + rb);
    }
}

fn find_slot(m: &Vec<(String, String)>, k: &str) -> (r: usize)
    ensures
        r <= m@.len(),
        forall|i: int| 0 <= i < r ==> crate::strs::seq_lt(#[trigger] m@[i].0@, k@),
        r < m@.len() ==> !crate::strs::seq_lt(m@[r as int].0@, k@),
{
    let kc = chars_of(k);
    let mut i: usize = 0;
    while i < m.len()
        invariant
            i <= m@.len(),
            kc@ == k@,
            forall|j: int| 0 <= j < i ==> crate::strs::seq_lt(#[trigger] m@[j].0@, k@),
        decreases m@.len() - i,
    {
        if !crate::strs::less_than(chars_of(m[i].0.as_str()).as_slice(), kc.as_slice()) {
            return i;
        }
        i = i + 1;
    }
    i
}

/// Sets `k` to `v` in a key-sorted list, in place or as a new entry.
fn insert_sorted(m: &mut Vec<(String, String)>, k: String, v: String)
    requires
        sorted_by_key(crate::relay::string_pairs(old(m)@)),
    ensures
        sorted_by_key(crate::relay::string_pairs(final(m)@)),
        forall|key: Seq<char>, val: Seq<char>|
            #[trigger] has_entry(crate::relay::string_pairs(final(m)@), key, val) <==> (if key == k@ {
                val == v@
            } else {
                has_entry(crate::relay::string_pairs(old(m)@), key, val)
            }),
{
    let ghost old_m = crate::relay::string_pairs(m@);
    let p = find_slot(m, k.as_str());
    let same = p < m.len() && crate::strs::str_eq(m[p].0.as_str(), k.as_str());
    if same {
        let ghost kv = (k@, v@);
        m.set(p, (k, v));
        let ghost nm = crate::relay::string_pairs(m@);
        assert(nm =~= old_m.update(p as int, kv));
        assert(sorted_by_key(nm)) by {
            assert forall|i: int, j: int| 0 <= i < j < nm.len() implies crate::strs::seq_lt(
                #[trigger] nm[i].0,
                #[trigger] nm[j].0,
            ) by {
                assert(nm[i].0 == old_m[i].0 && nm[j].0 == old_m[j].0);
            }
        }
        assert forall|key: Seq<char>, val: Seq<char>| #[trigger] has_entry(nm, key, val) <==> (if key == kv.0 {
            val == kv.1
        } else {
            has_entry(old_m, key, val)
        }) by {
            if has_entry(nm, key, val) {
                let i = choose|i: int| 0 <= i < nm.len() && #[trigger] nm[i] == (key, val);
                if i != p {
                    assert(old_m[i] == (key, val));
                    if key == kv.0 {
                        lemma_sorted_unique(old_m, i, p as int);
                    }
                }
            }
            if key == kv.0 && val == kv.1 {
                assert(nm[p as int] == (key, val));
            }
            if key != kv.0 && has_entry(old_m, key, val) {
                let i = choose|i: int| 0 <= i < old_m.len() && #[trigger] old_m[i] == (key, val);
                assert(i != p);
                assert(nm[i] == (key, val));
            }
        }
    } else {
        let ghost kv = (k@, v@);
        proof {
            if (p as int) < old_m.len() {
                crate::strs::lemma_seq_lt_total(old_m[p as int].0, k@);
            }
        }
        m.insert(p, (k, v));
        let ghost nm = crate::relay::string_pairs(m@);
        assert(nm =~= old_m.insert(p as int, kv));
        assert forall|i: int| 0 <= i < old_m.len() implies old_m[i].0 != kv.0 by {
            if i < p {
                crate::strs::lemma_seq_lt_irreflexive(kv.0);
            } else {
                if i > p {
                    crate::strs::lemma_seq_lt_transitive(kv.0, old_m[p as int].0, old_m[i].0);
                }
                crate::strs::lemma_seq_lt_irreflexive(kv.0);
            }
        }
        assert(sorted_by_key(nm)) by {
            assert forall|i: int, j: int| 0 <= i < j < nm.len() implies crate::strs::seq_lt(
                #[trigger] nm[i].0,
                #[trigger] nm[j].0,
            ) by {
                if j < p {
                    assert(nm[i] == old_m[i] && nm[j] == old_m[j]);
                } else if j == p {
                    assert(nm[i] == old_m[i]);
                } else if i == p {
                    assert(nm[j] == old_m[j - 1]);
                    if j - 1 > p {
                        crate::strs::lemma_seq_lt_transitive(kv.0, old_m[p as int].0, old_m[j - 1].0);
                    }
                } else if i < p {
                    assert(nm[i] == old_m[i] && nm[j] == old_m[j - 1]);
                } else {
                    assert(nm[i] == old_m[i - 1] && nm[j] == old_m[j - 1]);
                }
            }
        }
        assert forall|key: Seq<char>, val: Seq<char>| #[trigger] has_entry(nm, key, val) <==> (if key == kv.0 {
            val == kv.1
        } else {
            has_entry(old_m, key, val)
        }) by {
            if has_entry(nm, key, val) {
                let i = choose|i: int| 0 <= i < nm.len() && #[trigger] nm[i] == (key, val);
                if i < p {
                    assert(old_m[i] == (key, val));
                } else if i > p {
                    assert(old_m[i - 1] == (key, val));
                }
            }
            if key == kv.0 && val == kv.1 {
                assert(nm[p as int] == (key, val));
            }
            if has_entry(old_m, key, val) {
                let i = choose|i: int| 0 <= i < old_m.len() && #[trigger] old_m[i] == (key, val);
                if i < p {
                    assert(nm[i] == (key, val));
                } else {
                    assert(nm[i + 1] == (key, val));
                }
            }
        }
    }
}

/// What the assignments come to: one entry per key, in key order, with the
/// key's last value.
pub fn key_map(ps: &Vec<(String, String)>) -> (r: Vec<(String, String)>)
    ensures
        sorted_by_key(crate::relay::string_pairs(r@)),
        forall|key: Seq<char>, val: Seq<char>|
            #[trigger] has_entry(crate::relay::string_pairs(r@), key, val) <==> last_value(
                crate::relay::string_pairs(ps@),
                key,
            ) == Some(val),
        crate::relay::string_pairs(r@) == key_map_of(crate::relay::string_pairs(ps@)),
{
    let ghost all = crate::relay::string_pairs(ps@);
    let mut m: Vec<(String, String)> = Vec::new();
    let mut i: usize = 0;
    assert(crate::relay::string_pairs(m@) =~= Seq::<(Seq<char>, Seq<char>)>::empty());
    while i < ps.len()
        invariant
            i <= ps@.len(),
            all == crate::relay::string_pairs(ps@),
            sorted_by_key(crate::relay::string_pairs(m@)),
            forall|key: Seq<char>, val: Seq<char>|
                #[trigger] has_entry(crate::relay::string_pairs(m@), key, val) <==> last_value(
                    all.take(i as int),
                    key,
                ) == Some(val),
        decreases ps@.len() - i,
    {
        assert(all.take(i + 1).drop_last() =~= all.take(i as int));
        assert(all.take(i + 1).last() == all[i as int]);
        insert_sorted(&mut m, ps[i].0.clone(), ps[i].1.clone());
        i = i + 1;
    }
    assert(all.take(ps@.len() as int) =~= all);
    proof {
        let ms = crate::relay::string_pairs(m@);
        let c = key_map_of(all);
        assert(sorted_by_key(c) && forall|key: Seq<char>, val: Seq<char>|
            #[trigger] has_entry(c, key, val) <==> last_value(all, key) == Some(val));
        lemma_sorted_maps_equal(ms, c);
    }
    m
}

} // verus!

verus! {

/// A cloud variable that may go into `.env`: taken at once, or only if
/// the user agrees to replace the local value.
#[derive(Debug, Clone, PartialEq, Eq)]
pub struct MergeCandidate {
    pub key: String,
    pub value: String,
    pub ask: bool,
}

pub open spec fn cand_pairs(c: Seq<MergeCandidate>) -> Seq<(Seq<char>, Seq<char>)> {
    Seq::new(c.len(), |i: int| (c[i].key@, c[i].value@))
}

/// Whether a cloud value is a candidate, and whether to ask first: a key
/// missing locally is taken; one with another local value is asked about
/// when there is a terminal; an equal value is left alone.
pub open spec fn candidacy(
    local: Seq<(Seq<char>, Seq<char>)>,
    interactive: bool,
    key: Seq<char>,
    val: Seq<char>,
) -> Option<bool> {
    match last_value(local, key) {
        None => Some(false),
        Some(lv) => if lv != val && interactive {
            Some(true)
        } else {
            None
        },
    }
}

pub open spec fn env_pairs(content: Seq<char>) -> Seq<(Seq<char>, Seq<char>)> {
    assignments_of(lines_of(content))
}

fn lookup<'a>(m: &'a Vec<(String, String)>, k: &str) -> (r: Option<&'a String>)
    ensures
        match r {
            Some(v) => has_entry(crate::relay::string_pairs(m@), k@, v@),
            None => forall|val: Seq<char>| !has_entry(crate::relay::string_pairs(m@), k@, val),
        },
{
    let ghost mp = crate::relay::string_pairs(m@);
    let kc = chars_of(k);
    let mut i: usize = 0;
    while i < m.len()
        invariant
            i <= m@.len(),
            mp == crate::relay::string_pairs(m@),
            kc@ == k@,
            forall|j: int| 0 <= j < i ==> mp[j].0 != k@,
        decreases m@.len() - i,
    {
        if crate::strs::seq_eq(chars_of(m[i].0.as_str()).as_slice(), kc.as_slice()) {
            assert(mp[i as int] == (k@, m@[i as int].1@));
            return Some(&m[i].1);
        }
        i = i + 1;
    }
    assert forall|val: Seq<char>| !has_entry(mp, k@, val) by {
        if has_entry(mp, k@, val) {
            let j = choose|j: int| 0 <= j < mp.len() && #[trigger] mp[j] == (k@, val);
            assert(mp[j].0 == k@);
        }
    }
    None
}

/// The cloud variables to merge into `.env`, in key order: each key's
/// last cloud value, with whether to ask first.
pub fn merge_candidates(cloud: &str, local: &str, interactive: bool) -> (r: Vec<MergeCandidate>)
    ensures
        sorted_by_key(cand_pairs(r@)),
        forall|i: int|
            0 <= i < r@.len() ==> last_value(env_pairs(cloud@), (#[trigger] r@[i]).key@) == Some(
                r@[i].value@,
            ) && candidacy(env_pairs(local@), interactive, r@[i].key@, r@[i].value@) == Some(r@[i].ask),
        forall|key: Seq<char>, val: Seq<char>|
            last_value(env_pairs(cloud@), key) == Some(val) && #[trigger] candidacy(
                env_pairs(local@),
                interactive,
                key,
                val,
            ) is Some ==> exists|i: int|
                0 <= i < r@.len() && r@[i].key@ == key && r@[i].value@ == val,
{
    let cm = key_map(&env_assignments(cloud));
    let lm = key_map(&env_assignments(local));
    let ghost cp = crate::relay::string_pairs(cm@);
    let mut out: Vec<MergeCandidate> = Vec::new();
    let ghost mut src: Seq<int> = Seq::empty();
    let mut i: usize = 0;
    while i < cm.len()
        invariant
            i <= cm@.len(),
            cp == crate::relay::string_pairs(cm@),
            src.len() == out@.len(),
            forall|j: int| 0 <= j < out@.len() ==> 0 <= #[trigger] src[j] < i && cp[src[j]].0 == out@[j].key@,
            sorted_by_key(cp),
            forall|key: Seq<char>, val: Seq<char>|
                #[trigger] has_entry(cp, key, val) <==> last_value(env_pairs(cloud@), key) == Some(val),
            forall|key: Seq<char>, val: Seq<char>|
                #[trigger] has_entry(crate::relay::string_pairs(lm@), key, val) <==> last_value(
                    env_pairs(local@),
                    key,
                ) == Some(val),
            sorted_by_key(cand_pairs(out@)),
            forall|j: int|
                0 <= j < out@.len() ==> last_value(env_pairs(cloud@), (#[trigger] out@[j]).key@) == Some(
                    out@[j].value@,
                ) && candidacy(env_pairs(local@), interactive, out@[j].key@, out@[j].value@) == Some(
                    out@[j].ask,
                ),
            forall|idx: int|
                0 <= idx < i && #[trigger] candidacy(env_pairs(local@), interactive, cp[idx].0, cp[idx].1)
                    is Some ==> exists|j: int|
                    0 <= j < out@.len() && out@[j].key@ == cp[idx].0 && out@[j].value@ == cp[idx].1,
        decreases cm@.len() - i,
    {
        let k = &cm[i].0;
        let v = &cm[i].1;
        assert(cp[i as int] == (k@, v@));
        assert(has_entry(cp, k@, v@));
        let local_value = lookup(&lm, k.as_str());
        let cand: Option<bool> = match local_value {
            None => Some(false),
            Some(lv) => if !crate::strs::str_eq(lv.as_str(), v.as_str()) && interactive {
                Some(true)
            } else {
                None
            },
        };
        proof {
            match local_value {
                Some(lv) => {
                    assert(last_value(env_pairs(local@), k@) == Some(lv@));
                },
                None => {
                    if last_value(env_pairs(local@), k@) is Some {
                        let lv = last_value(env_pairs(local@), k@).unwrap();
                        assert(has_entry(crate::relay::string_pairs(lm@), k@, lv));
                    }
                },
            }
        }
        assert(cand == candidacy(env_pairs(local@), interactive, k@, v@));
        match cand {
            Some(ask) => {
                let ghost before = out@;
                out.push(MergeCandidate { key: k.clone(), value: v.clone(), ask });
                proof {
                    src = src.push(i as int);
                }
                assert(sorted_by_key(cand_pairs(out@))) by {
                    let cpo = cand_pairs(out@);
                    assert forall|a: int, b: int| 0 <= a < b < cpo.len() implies crate::strs::seq_lt(
                        #[trigger] cpo[a].0,
                        #[trigger] cpo[b].0,
                    ) by {
                        if b == cpo.len() - 1 {
                            assert(out@[a] == before[a]);
                            assert(src[a] < i);
                            assert(cpo[a].0 == cp[src[a]].0);
                        } else {
                            assert(cand_pairs(before)[a] == cpo[a] && cand_pairs(before)[b] == cpo[b]);
                        }
                    }
                }
                assert forall|idx: int|
                    0 <= idx < i + 1 && #[trigger] candidacy(env_pairs(local@), interactive, cp[idx].0, cp[idx].1)
                        is Some implies exists|j: int|
                        0 <= j < out@.len() && out@[j].key@ == cp[idx].0 && out@[j].value@ == cp[idx].1 by {
                    if idx < i {
                        let j = choose|j: int| 0 <= j < before.len() && before[j].key@ == cp[idx].0 && before[j].value@ == cp[idx].1;
                        assert(out@[j] == before[j]);
                    } else {
                        assert(out@[before.len() as int].key@ == cp[idx].0);
                    }
                }
            },
            None => {},
        }
        i = i + 1;
    }
    assert forall|key: Seq<char>, val: Seq<char>|
        last_value(env_pairs(cloud@), key) == Some(val) && #[trigger] candidacy(
            env_pairs(local@),
            interactive,
            key,
            val,
        ) is Some implies exists|i: int|
            0 <= i < out@.len() && out@[i].key@ == key && out@[i].value@ == val by {
        assert(has_entry(cp, key, val));
        let idx = choose|idx: int| 0 <= idx < cp.len() && #[trigger] cp[idx] == (key, val);
        assert(candidacy(env_pairs(local@), interactive, cp[idx].0, cp[idx].1) is Some);
    }
    out
}

} // verus!

verus! {

/// The variables chosen: the candidates not asked about, and those asked
/// about that the user accepted, in order.
pub open spec fn selected_of(c: Seq<MergeCandidate>, accepted: Seq<bool>) -> Seq<(Seq<char>, Seq<char>)>
    decreases c.len(),
{
    if c.len() == 0 {
        seq![]
    } else {
        let rest = selected_of(c.drop_last(), accepted);
        let last = c.last();
        if !last.ask || accepted[c.len() - 1] {
            rest.push((last.key@, last.value@))
        } else {
            rest
        }
    }
}

/// The first value chosen for a key.
pub open spec fn chosen(sel: Seq<(Seq<char>, Seq<char>)>, key: Seq<char>) -> Option<Seq<char>>
    decreases sel.len(),
{
    if sel.len() == 0 {
        None
    } else if sel[0].0 == key {
        Some(sel[0].1)
    } else {
        chosen(sel.drop_first(), key)
    }
}

/// The key a `.env` line sets: the trimmed line's text before the first
/// `=`, without `export ` prefixes, trimmed.
pub open spec fn line_key(line: Seq<char>) -> Option<Seq<char>> {
    match crate::env::split_assignment(trim_ws(line)) {
        Some((k, _)) => Some(trim_ws(crate::strs::trim_start_str(k, "export "@))),
        None => None,
    }
}

/// A line as written back: `KEY=value` when its key was chosen, else as
/// it was.
pub open spec fn merged_line(line: Seq<char>, sel: Seq<(Seq<char>, Seq<char>)>) -> Seq<char> {
    match line_key(line) {
        Some(k) => match chosen(sel, k) {
            Some(v) => k + seq!['='] + v + seq!['\n'],
            None => line + seq!['\n'],
        },
        None => line + seq!['\n'],
    }
}

pub open spec fn merged_lines(ls: Seq<Seq<char>>, sel: Seq<(Seq<char>, Seq<char>)>) -> Seq<char>
    decreases ls.len(),
{
    if ls.len() == 0 {
        seq![]
    } else {
        merged_lines(ls.drop_last(), sel) + merged_line(ls.last(), sel)
    }
}

pub open spec fn set_in_lines(ls: Seq<Seq<char>>, key: Seq<char>) -> bool {
    exists|i: int| 0 <= i < ls.len() && #[trigger] line_key(ls[i]) == Some(key)
}

/// The chosen variables no line set, appended as `KEY=value` lines.
pub open spec fn appended(sel: Seq<(Seq<char>, Seq<char>)>, ls: Seq<Seq<char>>) -> Seq<char>
    decreases sel.len(),
{
    if sel.len() == 0 {
        seq![]
    } else {
        appended(sel.drop_last(), ls) + if set_in_lines(ls, sel.last().0) {
            seq![]
        } else {
            sel.last().0 + seq!['='] + sel.last().1 + seq!['\n']
        }
    }
}

/// The merged `.env` text, or none when nothing was chosen and the file is
/// left as it is.
pub open spec fn merged_env_text(local: Seq<char>, c: Seq<MergeCandidate>, accepted: Seq<bool>) -> Option<
    Seq<char>,
> {
    let sel = selected_of(c, accepted);
    if sel.len() == 0 {
        None
    } else {
        Some(merged_lines(lines_of(local), sel) + appended(sel, lines_of(local)))
    }
}

fn chosen_exec(sel: &Vec<(String, String)>, key: &[char]) -> (r: Option<String>)
    ensures
        match r {
            Some(v) => chosen(crate::relay::string_pairs(sel@), key@) == Some(v@),
            None => chosen(crate::relay::string_pairs(sel@), key@) is None,
        },
{
    let ghost sp = crate::relay::string_pairs(sel@);
    let mut i: usize = 0;
    assert(sp.skip(0) =~= sp);
    while i < sel.len()
        invariant
            i <= sel@.len(),
            sp == crate::relay::string_pairs(sel@),
            chosen(sp.skip(i as int), key@) == chosen(sp, key@),
        decreases sel@.len() - i,
    {
        assert(sp.skip(i as int)[0] == sp[i as int]);
        assert(sp.skip(i as int).drop_first() =~= sp.skip(i + 1));
        if crate::strs::seq_eq(chars_of(sel[i].0.as_str()).as_slice(), key) {
            return Some(sel[i].1.clone());
        }
        i = i + 1;
    }
    None
}

fn line_key_exec(line: &[char]) -> (r: Option<Vec<char>>)
    ensures
        match r {
            Some(k) => line_key(line@) == Some(k@),
            None => line_key(line@) is None,
        },
{
    let t = trim(line);
    let k = crate::strs::next_char_index(t.as_slice(), '=', 0);
    if k < t.len() {
        let key = slice_vec(t.as_slice(), 0, k);
        let e = chars_of("export ");
        let stripped = crate::strs::trim_start_matches_str(key.as_slice(), e.as_slice());
        Some(trim(stripped.as_slice()))
    } else {
        None
    }
}

/// Writes the chosen cloud values into the `.env` text: a line whose key
/// was chosen takes the chosen value, the other lines stay, and chosen
/// keys no line set are added at the end. `accepted` answers each
/// candidate that was asked about.
pub fn merged_env(local: &str, candidates: &Vec<MergeCandidate>, accepted: &Vec<bool>) -> (r: Option<String>)
    requires
        accepted@.len() == candidates@.len(),
    ensures
        match r {
            Some(t) => merged_env_text(local@, candidates@, accepted@) == Some(t@),
            None => merged_env_text(local@, candidates@, accepted@) is None,
        },
{
    let mut sel: Vec<(String, String)> = Vec::new();
    let mut i: usize = 0;
    while i < candidates.len()
        invariant
            i <= candidates@.len(),
            accepted@.len() == candidates@.len(),
            crate::relay::string_pairs(sel@) == selected_of(candidates@.take(i as int), accepted@),
        decreases candidates@.len() - i,
    {
        assert(candidates@.take(i + 1).drop_last() =~= candidates@.take(i as int));
        let c = &candidates[i];
        if !c.ask || accepted[i] {
            sel.push((c.key.clone(), c.value.clone()));
        }
        assert(crate::relay::string_pairs(sel@) =~= selected_of(candidates@.take(i + 1), accepted@));
        i = i + 1;
    }
    assert(candidates@.take(candidates@.len() as int) =~= candidates@);
    let ghost sp = crate::relay::string_pairs(sel@);
    if sel.len() == 0 {
        return None;
    }
    let ls = lines(chars_of(local).as_slice());
    let ghost all = lines_of(local@);
    let mut keys: Vec<Option<Vec<char>>> = Vec::new();
    let mut out: Vec<char> = Vec::new();
    let mut j: usize = 0;
    while j < ls.len()
        invariant
            j <= ls@.len(),
            ls@.len() == all.len(),
            all == lines_of(local@),
            sp == crate::relay::string_pairs(sel@),
            forall|q: int| 0 <= q < ls@.len() ==> #[trigger] ls@[q]@ == all[q],
            keys@.len() == j,
            forall|q: int| 0 <= q < j ==> match #[trigger] keys@[q] {
                Some(k) => line_key(all[q]) == Some(k@),
                None => line_key(all[q]) is None,
            },
            out@ == merged_lines(all.take(j as int), sp),
        decreases ls@.len() - j,
    {
        assert(all.take(j + 1).drop_last() =~= all.take(j as int));
        let lk = line_key_exec(ls[j].as_slice());
        match &lk {
            Some(k) => match chosen_exec(&sel, k.as_slice()) {
                Some(v) => {
                    push_all(&mut out, k.as_slice());
                    out.push('=');
                    push_str(&mut out, v.as_str());
                    out.push('\n');
                },
                None => {
                    push_all(&mut out, ls[j].as_slice());
                    out.push('\n');
                },
            },
            None => {
                push_all(&mut out, ls[j].as_slice());
                out.push('\n');
            },
        }
        keys.push(lk);
        j = j + 1;
    }
    assert(all.take(ls@.len() as int) =~= all);
    let mut t: usize = 0;
    while t < sel.len()
        invariant
            t <= sel@.len(),
            sp == crate::relay::string_pairs(sel@),
            keys@.len() == all.len(),
            forall|q: int| 0 <= q < all.len() ==> match #[trigger] keys@[q] {
                Some(k) => line_key(all[q]) == Some(k@),
                None => line_key(all[q]) is None,
            },
            out@ == merged_lines(all, sp) + appended(sp.take(t as int), all),
        decreases sel@.len() - t,
    {
        assert(sp.take(t + 1).drop_last() =~= sp.take(t as int));
        let key = chars_of(sel[t].0.as_str());
        let mut found = false;
        let mut q: usize = 0;
        while q < keys.len()
            invariant
                q <= keys@.len(),
                keys@.len() == all.len(),
                forall|x: int| 0 <= x < all.len() ==> match #[trigger] keys@[x] {
                    Some(k) => line_key(all[x]) == Some(k@),
                    None => line_key(all[x]) is None,
                },
                found == exists|x: int| 0 <= x < q && #[trigger] line_key(all[x]) == Some(key@),
            decreases keys@.len() - q,
        {
            match &keys[q] {
                Some(k) => {
                    if crate::strs::seq_eq(k.as_slice(), key.as_slice()) {
                        found = true;
                    }
                },
                None => {},
            }
            q = q + 1;
        }
        assert(sp.take(t + 1).last() == sp[t as int]);
        if !found {
            push_all(&mut out, key.as_slice());
            out.push('=');
            push_str(&mut out, sel[t].1.as_str());
            out.push('\n');
        }
        assert(out@ =~= merged_lines(all, sp) + appended(sp.take(t + 1), all));
        t = t + 1;
    }
    assert(sp.take(sel@.len() as int) =~= sp);
    Some(string_of(out.as_slice()))
}

} // verus!

verus! {

/// The first step of finding the project to deploy.
#[derive(Debug, Clone, PartialEq, Eq)]
pub enum ProjectLookup {
    /// `.env` names it: use it.
    FromEnv(String),
    /// The workspace binding names it: write it to `.env` and use it.
    FromBinding(String),
    /// Nothing names it and nobody can be asked.
    Missing(String),
    /// Nothing names it: list the projects and ask.
    Ask,
}

pub open spec fn missing_project_message() -> Seq<char> {
    "D1V_PROJECT_ID is missing from .env; run `d1v project list` and set it before using a non-interactive shortcut"@
}

/// `.env` wins over the workspace binding; without either, a terminal is
/// asked and anywhere else the shortcut fails.
pub fn lookup_project(from_env: Option<String>, bound: Option<String>, interactive: bool) -> (r: ProjectLookup)
    ensures
        match from_env {
            Some(id) => r == ProjectLookup::FromEnv(id),
            None => match bound {
                Some(id) => r == ProjectLookup::FromBinding(id),
                None => if interactive {
                    r == ProjectLookup::Ask
                } else {
                    r matches ProjectLookup::Missing(m) && m@ == missing_project_message()
                },
            },
        },
{
    match from_env {
        Some(id) => ProjectLookup::FromEnv(id),
        None => match bound {
            Some(id) => ProjectLookup::FromBinding(id),
            None => if interactive {
                ProjectLookup::Ask
            } else {
                ProjectLookup::Missing(
                    "D1V_PROJECT_ID is missing from .env; run `d1v project list` and set it before using a non-interactive shortcut".to_owned(),
                )
            },
        },
    }
}

/// One choice of the project picker: the value chosen, its label and
/// description.
#[derive(Debug, Clone)]
pub struct ProjectChoice {
    pub value: String,
    pub label: String,
    pub description: Option<String>,
}

/// The picker offers each project as `name (id)` with its description,
/// then "Create a new project", whose value is empty.
pub open spec fn choice_matches(c: ProjectChoice, p: crate::project::Project) -> bool {
    &&& c.value@ == p.id@
    &&& c.label@ == p.project_name@ + " ("@ + p.id@ + ")"@
    &&& c.description matches Some(d) && d@ == p.project_description@
}

pub open spec fn create_choice(c: ProjectChoice) -> bool {
    &&& c.value@.len() == 0
    &&& c.label@ == "Create a new project"@
    &&& c.description is None
}

pub fn project_choices(projects: &Vec<crate::project::Project>) -> (r: Result<Vec<ProjectChoice>, String>)
    ensures
        projects@.len() == 0 <==> r is Err,
        r matches Err(m) ==> m@
            == "no D1V projects found; create one with `d1v project create --name <name> --description <description>`"@,
        r matches Ok(cs) ==> cs@.len() == projects@.len() + 1 && (forall|i: int|
            0 <= i < projects@.len() ==> #[trigger] choice_matches(cs@[i], projects@[i]))
            && create_choice(cs@[projects@.len() as int]),
{
    if projects.len() == 0 {
        return Err(
            "no D1V projects found; create one with `d1v project create --name <name> --description <description>`".to_owned(),
        );
    }
    let mut out: Vec<ProjectChoice> = Vec::new();
    let mut i: usize = 0;
    while i < projects.len()
        invariant
            i <= projects@.len(),
            out@.len() == i,
            forall|j: int| 0 <= j < i ==> #[trigger] choice_matches(out@[j], projects@[j]),
        decreases projects@.len() - i,
    {
        let p = &projects[i];
        let mut v: Vec<char> = Vec::new();
        push_str(&mut v, p.project_name.as_str());
        push_str(&mut v, " (");
        push_str(&mut v, p.id.as_str());
        push_str(&mut v, ")");
        out.push(
            ProjectChoice {
                value: p.id.clone(),
                label: string_of(v.as_slice()),
                description: Some(p.project_description.clone()),
            },
        );
        i = i + 1;
    }
    out.push(ProjectChoice { value: String::new(), label: "Create a new project".to_owned(), description: None });
    Ok(out)
}

/// What the picker's answer leads to.
#[derive(Debug, Clone, PartialEq, Eq)]
pub enum ProjectPick {
    /// An existing project: write its id to `.env`.
    Existing(String),
    /// A new project named after the directory: create it, write its id,
    /// and bring its variables in.
    Create { name: String, description: String },
}

/// The new project is named after the directory, `my-app` when it has no
/// usable name.
pub open spec fn new_project_name(dir_name: Option<String>) -> Seq<char> {
    match dir_name {
        Some(n) => n@,
        None => "my-app"@,
    }
}

pub fn project_pick(answer: String, dir_name: Option<String>) -> (r: ProjectPick)
    ensures
        answer@.len() > 0 ==> r == ProjectPick::Existing(answer),
        answer@.len() == 0 ==> (r matches ProjectPick::Create { name, description } && name@
            == new_project_name(dir_name) && description@ == "Created from local directory "@
            + new_project_name(dir_name)),
{
    if chars_of(answer.as_str()).len() > 0 {
        return ProjectPick::Existing(answer);
    }
    let name = match dir_name {
        Some(n) => n,
        None => "my-app".to_owned(),
    };
    let mut v: Vec<char> = Vec::new();
    push_str(&mut v, "Created from local directory ");
    push_str(&mut v, name.as_str());
    ProjectPick::Create { name, description: string_of(v.as_slice()) }
}

/// The address shown for a deployment: the production URL, else the
/// preview URL, else `-`.
pub open spec fn deployment_url(d: crate::deploy::DeploymentResponse) -> Seq<char> {
    match d.production_url {
        Some(u) => u@,
        None => match d.vercel_url {
            Some(u) => u@,
            None => "-"@,
        },
    }
}

fn push_deployment_url(v: &mut Vec<char>, d: &crate::deploy::DeploymentResponse)
    ensures
        final(v)@ == old(v)@ + deployment_url(*d),
{
    match &d.production_url {
        Some(u) => push_str(v, u.as_str()),
        None => match &d.vercel_url {
            Some(u) => push_str(v, u.as_str()),
            None => push_str(v, "-"),
        },
    }
}

/// What the shortcut reports once the deployment was asked for.
pub open spec fn requested_text(preview: bool, project_id: Seq<char>, d: crate::deploy::DeploymentResponse) -> Seq<char> {
    (if preview { "Preview"@ } else { "Production"@ }) + " deployment requested for "@ + project_id + "\n"@
        + d.message@ + "\nURL: "@ + deployment_url(d)
}

pub fn deployment_requested(preview: bool, project_id: &str, d: &crate::deploy::DeploymentResponse) -> (r: String)
    ensures
        r@ == requested_text(preview, project_id@, *d),
{
    let mut v: Vec<char> = Vec::new();
    if preview {
        push_str(&mut v, "Preview");
    } else {
        push_str(&mut v, "Production");
    }
    push_str(&mut v, " deployment requested for ");
    push_str(&mut v, project_id);
    push_str(&mut v, "\n");
    push_str(&mut v, d.message.as_str());
    push_str(&mut v, "\nURL: ");
    push_deployment_url(&mut v, d);
    assert(v@ =~= requested_text(preview, project_id@, *d));
    string_of(v.as_slice())
}

/// The closing success line.
pub open spec fn ready_text(preview: bool, d: crate::deploy::DeploymentResponse) -> Seq<char> {
    (if preview { "Preview deployment is READY"@ } else { "Production release is READY"@ }) + ": "@
        + deployment_url(d)
}

pub fn deployment_ready(preview: bool, d: &crate::deploy::DeploymentResponse) -> (r: String)
    ensures
        r@ == ready_text(preview, *d),
{
    let mut v: Vec<char> = Vec::new();
    if preview {
        push_str(&mut v, "Preview deployment is READY");
    } else {
        push_str(&mut v, "Production release is READY");
    }
    push_str(&mut v, ": ");
    push_deployment_url(&mut v, d);
    assert(v@ =~= ready_text(preview, *d));
    string_of(v.as_slice())
}

} // verus!
