//! Public ingress detection and configuration: reading Caddy, nginx and
//! nginx-proxy-manager configuration, Traefik labels, and writing a managed
//! nginx site for the runtime agent.
//!
//! Everything here works on text the caller read (files, `docker`
//! output); the caller does the reading and writing.
use crate::strs::{
    trim_str, count_char, count_chars, contains, contains_seq, contains_str, has_prefix, starts_with_str, dec, find_first, find_from, lemma_find_from, lemma_next_index_bounds, lines, lines_of, next_char_index, next_index, push_dec, push_str,
    trim_end_ws, trim_start_ws,
    contains_char, lemma_seq_lt_irreflexive, lemma_seq_lt_total, lemma_seq_lt_transitive,
    lemma_split_nonempty, less_than, parse_u16, parse_u16_chars, rsplit_once, rsplit_once_char,
    seq_eq, seq_lt, split_whitespace, string_of, words,
    chars_of, is_ascii_alnum, is_ascii_alnum_char, lower, lower_char, lower_seq, push_all, split,
    split_char, to_lower, trim, trim_char, trim_end_char, trim_end_matches_char,
    trim_matches_char, trim_start_matches_str, trim_start_str, trim_ws,
};
use vstd::prelude::*;

verus! {

/// An ingress found in front of the agent port.
#[derive(Clone, Debug)]
pub struct DetectedIngress {
    pub provider: &'static str,
    pub hostname: String,
    pub scheme: String,
    pub external_port: u16,
    pub upstream_host: String,
    pub upstream_port: u16,
    pub config_path: String,
    pub confidence: u8,
}

/// An ingress this tool set up.
#[derive(Clone, Debug)]
pub struct ConfiguredIngress {
    pub provider: &'static str,
    pub hostname: String,
    pub config_path: String,
}

/// A running nginx-proxy-manager container.
#[derive(Clone, Debug)]
pub struct NpmContainer {
    pub name: String,
}

/// A host name as written in a config: trimmed, scheme and decoration
/// removed, lower-cased.
pub open spec fn sanitized(s: Seq<char>) -> Seq<char> {
    lower_seq(
        trim_end_char(
            trim_end_char(
                trim_end_char(
                    trim_char(
                        trim_char(
                            trim_char(
                                trim_end_char(
                                    trim_start_str(
                                        trim_start_str(trim_ws(s), "https://"@),
                                        "http://"@,
                                    ),
                                    '{',
                                ),
                                '`',
                            ),
                            '\u{22}',
                        ),
                        '\u{27}',
                    ),
                    ',',
                ),
                ';',
            ),
            '.',
        ),
    )
}

pub fn sanitize_chars(raw: &[char]) -> (r: Vec<char>)
    ensures
        r@ == sanitized(raw@),
{
    let a = trim(raw);
    let https = chars_of("https://");
    let http = chars_of("http://");
    let b = trim_start_matches_str(a.as_slice(), https.as_slice());
    let c = trim_start_matches_str(b.as_slice(), http.as_slice());
    let d = trim_end_matches_char(c.as_slice(), '{');
    let e = trim_matches_char(d.as_slice(), '`');
    let f = trim_matches_char(e.as_slice(), '\u{22}');
    let g = trim_matches_char(f.as_slice(), '\u{27}');
    let h = trim_end_matches_char(g.as_slice(), ',');
    let i = trim_end_matches_char(h.as_slice(), ';');
    let j = trim_end_matches_char(i.as_slice(), '.');
    to_lower(j.as_slice())
}

/// The character a slug keeps for `c`: lower-cased when alphanumeric or a
/// hyphen, a hyphen otherwise.
pub open spec fn slug_char(c: char) -> char {
    if is_ascii_alnum(c) || c == '-' {
        lower(c)
    } else {
        '-'
    }
}

/// The characters a slug is made from.
pub open spec fn slug_chars(s: Seq<char>) -> Seq<char> {
    s.map_values(|c: char| slug_char(c))
}

/// The views of character vectors.
pub open spec fn piece_views(v: Seq<Vec<char>>) -> Seq<Seq<char>> {
    v.map_values(|p: Vec<char>| p@)
}

/// The non-empty pieces, in order.
pub open spec fn nonempty_only(s: Seq<Seq<char>>) -> Seq<Seq<char>>
    decreases s.len(),
{
    if s.len() == 0 {
        s
    } else if s.last().len() > 0 {
        nonempty_only(s.drop_last()).push(s.last())
    } else {
        nonempty_only(s.drop_last())
    }
}

/// Pieces joined with a separator.
pub open spec fn join(pieces: Seq<Seq<char>>, sep: char) -> Seq<char>
    decreases pieces.len(),
{
    if pieces.len() == 0 {
        Seq::empty()
    } else if pieces.len() == 1 {
        pieces[0]
    } else {
        join(pieces.drop_last(), sep) + seq![sep] + pieces.last()
    }
}

/// A file-name slug: the text mapped by [`slug_char`], split at hyphens,
/// empty pieces dropped, rejoined with single hyphens.
pub open spec fn slug(s: Seq<char>) -> Seq<char> {
    join(nonempty_only(split_char(slug_chars(s), '-')), '-')
}

pub fn join_with(pieces: &Vec<Vec<char>>, sep: char) -> (r: Vec<char>)
    ensures
        r@ == join(piece_views(pieces@), sep),
{
    let ghost ps = piece_views(pieces@);
    let mut out: Vec<char> = Vec::new();
    let mut i: usize = 0;
    while i < pieces.len()
        invariant
            i <= pieces@.len(),
            ps == piece_views(pieces@),
            out@ == join(ps.subrange(0, i as int), sep),
        decreases pieces@.len() - i,
    {
        assert(ps.subrange(0, i + 1).drop_last() =~= ps.subrange(0, i as int));
        if i > 0 {
            out.push(sep);
        }
        push_all(&mut out, pieces[i].as_slice());
        assert(ps.subrange(0, i + 1).last() == pieces@[i as int]@);
        if i == 0 {
            assert(ps.subrange(0, 1)[0] == pieces@[0]@);
        }
        i = i + 1;
    }
    assert(ps.subrange(0, pieces@.len() as int) =~= ps);
    out
}

/// Keeps the non-empty pieces.
fn nonempty_pieces(pieces: Vec<Vec<char>>) -> (r: Vec<Vec<char>>)
    ensures
        piece_views(r@) == nonempty_only(piece_views(pieces@)),
{
    let ghost ps = piece_views(pieces@);
    let mut out: Vec<Vec<char>> = Vec::new();
    let mut i: usize = 0;
    while i < pieces.len()
        invariant
            i <= pieces@.len(),
            ps == piece_views(pieces@),
            piece_views(out@) == nonempty_only(ps.subrange(0, i as int)),
        decreases pieces@.len() - i,
    {
        assert(ps.subrange(0, i + 1).drop_last() =~= ps.subrange(0, i as int));
        assert(ps.subrange(0, i + 1).last() == pieces@[i as int]@);
        proof {
            let sub1 = ps.subrange(0, i + 1);
            assert(sub1.drop_last() == ps.subrange(0, i as int));
            assert(sub1.last() == pieces@[i as int]@);
            assert(nonempty_only(sub1) == (if pieces@[i as int]@.len() > 0 {
                nonempty_only(ps.subrange(0, i as int)).push(pieces@[i as int]@)
            } else {
                nonempty_only(ps.subrange(0, i as int))
            }));
        }
        if pieces[i].len() > 0 {
            let ghost before = out@;
            let cp = pieces[i].clone();
            assert(cp@ == pieces@[i as int]@);
            out.push(cp);
            assert(piece_views(out@) =~= piece_views(before).push(
                pieces@[i as int]@,
            ));
        }
        i = i + 1;
    }
    assert(ps.subrange(0, pieces@.len() as int) =~= ps);
    out
}

fn slug_of(raw: &[char]) -> (r: Vec<char>)
    ensures
        r@ == slug(raw@),
{
    let mut mapped: Vec<char> = Vec::new();
    let mut i: usize = 0;
    while i < raw.len()
        invariant
            i <= raw@.len(),
            mapped@ == slug_chars(raw@.subrange(0, i as int)),
        decreases raw@.len() - i,
    {
        let c = raw[i];
        let m = if is_ascii_alnum_char(c) || c == '-' {
            lower_char(c)
        } else {
            '-'
        };
        mapped.push(m);
        assert(mapped@ =~= slug_chars(raw@.subrange(0, i + 1)));
        i = i + 1;
    }
    assert(raw@.subrange(0, raw@.len() as int) =~= raw@);
    let pieces = split(mapped.as_slice(), '-');
    assert(piece_views(pieces@) =~= split_char(mapped@, '-'));
    let kept = nonempty_pieces(pieces);
    join_with(&kept, '-')
}


/// Normalizes a host name as written in a config (see [`sanitized`]).
pub fn sanitize_host(raw: &str) -> (r: String)
    ensures
        r@ == sanitized(raw@),
{
    let c = chars_of(raw);
    let v = sanitize_chars(c.as_slice());
    string_of(v.as_slice())
}

/// Turns a host name into a safe file-name part (see [`slug`]).
pub fn safe_file_slug(raw: &str) -> (r: String)
    ensures
        r@ == slug(raw@),
{
    let c = chars_of(raw);
    let v = slug_of(c.as_slice());
    string_of(v.as_slice())
}

/// `host:port` out of the first word of a proxy target.
pub open spec fn host_port(raw: Seq<char>) -> Option<(Seq<char>, u16)> {
    let ws = words(raw);
    if ws.len() == 0 {
        None
    } else {
        let t = trim_start_str(trim_start_str(sanitized(ws[0]), "http://"@), "https://"@);
        match rsplit_once(t, ':') {
            None => None,
            Some((h, p)) => match parse_u16(p) {
                Some(n) => Some((h, n)),
                None => None,
            },
        }
    }
}

fn host_port_chars(raw: &[char]) -> (r: Option<(Vec<char>, u16)>)
    ensures
        match r {
            Some((h, n)) => host_port(raw@) == Some((h@, n)),
            None => host_port(raw@) is None,
        },
{
    let ws = split_whitespace(raw);
    if ws.len() == 0 {
        return None;
    }
    let sh = sanitize_chars(ws[0].as_slice());
    let http = chars_of("http://");
    let https = chars_of("https://");
    let a = trim_start_matches_str(sh.as_slice(), http.as_slice());
    let t = trim_start_matches_str(a.as_slice(), https.as_slice());
    match rsplit_once_char(t.as_slice(), ':') {
        None => None,
        Some((h, p)) => match parse_u16_chars(p.as_slice()) {
            Some(n) => Some((h, n)),
            None => None,
        },
    }
}

/// Splits a proxy target into its host and port.
pub fn parse_host_port(raw: &str) -> (r: Option<(String, u16)>)
    ensures
        match r {
            Some((h, n)) => host_port(raw@) == Some((h@, n)),
            None => host_port(raw@) is None,
        },
{
    let c = chars_of(raw);
    match host_port_chars(c.as_slice()) {
        Some((h, n)) => Some((string_of(h.as_slice()), n)),
        None => None,
    }
}

/// The upstream of a `proxy_pass` directive.
pub fn parse_proxy_pass_target(raw: &str) -> (r: Option<(String, u16)>)
    ensures
        match r {
            Some((h, n)) => host_port(raw@) == Some((h@, n)),
            None => host_port(raw@) is None,
        },
{
    parse_host_port(raw)
}

/// The port of one `listen` argument: the text after its last colon,
/// brackets and semicolons trimmed.
pub open spec fn segment_port(seg: Seq<char>) -> Option<u16> {
    parse_u16(split_char(trim_char(trim_char(trim_char(seg, ';'), '['), ']'), ':').last())
}

/// The first argument that holds a port.
pub open spec fn first_port(segs: Seq<Seq<char>>) -> Option<u16>
    decreases segs.len(),
{
    if segs.len() == 0 {
        None
    } else {
        match segment_port(segs[0]) {
            Some(p) => Some(p),
            None => first_port(segs.drop_first()),
        }
    }
}

/// The port of a `listen` directive.
pub open spec fn listen_port(raw: Seq<char>) -> Option<u16> {
    first_port(words(trim_start_str(raw, "listen"@)))
}

fn listen_port_chars(raw: &[char]) -> (r: Option<u16>)
    ensures
        r == listen_port(raw@),
{
    let kw = chars_of("listen");
    let rest = trim_start_matches_str(raw, kw.as_slice());
    let segs = split_whitespace(rest.as_slice());
    let ghost all = words(rest@);
    let mut i: usize = 0;
    assert(all.skip(0) =~= all);
    while i < segs.len()
        invariant
            i <= segs@.len(),
            segs@.len() == all.len(),
            forall|j: int| 0 <= j < segs@.len() ==> #[trigger] segs@[j]@ == all[j],
            first_port(all) == first_port(all.skip(i as int)),
            listen_port(raw@) == first_port(all),
        decreases segs@.len() - i,
    {
        let a = trim_matches_char(segs[i].as_slice(), ';');
        let b = trim_matches_char(a.as_slice(), '[');
        let c = trim_matches_char(b.as_slice(), ']');
        let pieces = split(c.as_slice(), ':');
        proof {
            lemma_split_nonempty(c@, ':');
        }
        let last = pieces.len() - 1;
        let p = parse_u16_chars(pieces[last].as_slice());
        assert(all.skip(i as int)[0] == all[i as int]);
        assert(all.skip(i as int).drop_first() =~= all.skip(i + 1));
        assert(pieces@[last as int]@ == split_char(c@, ':').last());
        assert(segment_port(all[i as int]) == p);
        if p.is_some() {
            return p;
        }
        i = i + 1;
    }
    assert(all.skip(i as int) =~= Seq::<Seq<char>>::empty());
    None
}

/// The port a `listen` directive names.
pub fn parse_listen_port(raw: &str) -> (r: Option<u16>)
    ensures
        r == listen_port(raw@),
{
    let c = chars_of(raw);
    listen_port_chars(c.as_slice())
}

/// Hosts that mean this machine.
pub open spec fn local_host(host: Seq<char>) -> bool {
    let h = lower_seq(trim_ws(host));
    h == "127.0.0.1"@ || h == "localhost"@ || h == "0.0.0.0"@ || h == "host.docker.internal"@
}

fn local_host_chars(host: &[char]) -> (r: bool)
    ensures
        r == local_host(host@),
{
    let t = trim(host);
    let h = to_lower(t.as_slice());
    let a = chars_of("127.0.0.1");
    let b = chars_of("localhost");
    let c = chars_of("0.0.0.0");
    let d = chars_of("host.docker.internal");
    seq_eq(h.as_slice(), a.as_slice()) || seq_eq(h.as_slice(), b.as_slice()) || seq_eq(
        h.as_slice(),
        c.as_slice(),
    ) || seq_eq(h.as_slice(), d.as_slice())
}

/// Whether the host is this machine.
pub fn is_local_host(host: &str) -> (r: bool)
    ensures
        r == local_host(host@),
{
    let c = chars_of(host);
    local_host_chars(c.as_slice())
}

/// The views of strings.
pub open spec fn string_views(v: Seq<String>) -> Seq<Seq<char>> {
    v.map_values(|s: String| s@)
}

/// The least (in `String` order) host that holds a dot.
pub open spec fn least_dotted(hosts: Seq<Seq<char>>) -> Option<Seq<char>>
    decreases hosts.len(),
{
    if hosts.len() == 0 {
        None
    } else {
        let prev = least_dotted(hosts.drop_last());
        let l = hosts.last();
        if !l.contains('.') {
            prev
        } else {
            match prev {
                None => Some(l),
                Some(p) => if seq_lt(l, p) {
                    Some(l)
                } else {
                    prev
                },
            }
        }
    }
}

/// The preferred name as compared with hosts.
pub open spec fn normalized_preference(p: Seq<char>) -> Seq<char> {
    lower_seq(trim_end_char(trim_ws(p), '.'))
}

/// The host name chosen among the hosts: the preferred one when listed,
/// else the least host with a dot, else the first host.
pub open spec fn chosen_host(hosts: Seq<Seq<char>>, preferred: Option<Seq<char>>) -> Option<Seq<char>> {
    if preferred is Some && hosts.contains(normalized_preference(preferred->0)) {
        Some(normalized_preference(preferred->0))
    } else {
        match least_dotted(hosts) {
            Some(h) => Some(h),
            None => if hosts.len() > 0 {
                Some(hosts[0])
            } else {
                None
            },
        }
    }
}

/// The least dotted host is listed, has a dot, and no dotted host comes
/// before it.
pub proof fn lemma_least_dotted(hosts: Seq<Seq<char>>)
    ensures
        least_dotted(hosts) is None <==> forall|i: int|
            0 <= i < hosts.len() ==> !(#[trigger] hosts[i]).contains('.'),
        least_dotted(hosts) matches Some(h) ==> hosts.contains(h) && h.contains('.') && forall|
            i: int,
        |
            0 <= i < hosts.len() && (#[trigger] hosts[i]).contains('.') ==> !seq_lt(hosts[i], h),
    decreases hosts.len(),
{
    if hosts.len() > 0 {
        let prev = hosts.drop_last();
        lemma_least_dotted(prev);
        let l = hosts.last();
        assert forall|i: int| 0 <= i < hosts.len() - 1 implies hosts[i] == prev[i] by {}
        if let Some(h) = least_dotted(hosts) {
            if least_dotted(hosts) == least_dotted(prev) {
                let k = choose|k: int| 0 <= k < prev.len() && prev[k] == h;
                assert(hosts[k] == h);
            } else {
                assert(hosts[hosts.len() - 1] == l);
            }
            assert forall|i: int|
                0 <= i < hosts.len() && (#[trigger] hosts[i]).contains('.') implies !seq_lt(
                hosts[i],
                h,
            ) by {
                if i < hosts.len() - 1 {
                    assert(hosts[i] == prev[i]);
                    if let Some(p) = least_dotted(prev) {
                        if h != p {
                            // h == l and seq_lt(l, p)
                            if seq_lt(hosts[i], h) {
                                lemma_seq_lt_transitive(hosts[i], h, p);
                            }
                        }
                    }
                } else {
                    assert(hosts[i] == l);
                    if let Some(p) = least_dotted(prev) {
                        if h == p && h != l {
                            lemma_seq_lt_total(l, p);
                        }
                    }
                    lemma_seq_lt_irreflexive(h);
                }
            }
        } else {
            assert forall|i: int| 0 <= i < hosts.len() implies !(#[trigger] hosts[i]).contains('.') by {
                if i < hosts.len() - 1 {
                    assert(hosts[i] == prev[i]);
                }
            }
        }
        if forall|i: int| 0 <= i < hosts.len() ==> !(#[trigger] hosts[i]).contains('.') {
            assert(!hosts[hosts.len() - 1].contains('.'));
            assert forall|i: int| 0 <= i < prev.len() implies !(#[trigger] prev[i]).contains('.') by {
                assert(hosts[i] == prev[i]);
            }
        }
    }
}

fn least_dotted_index(hosts: &Vec<Vec<char>>) -> (r: Option<usize>)
    ensures
        match r {
            Some(i) => i < hosts@.len() && least_dotted(piece_views(hosts@)) == Some(hosts@[i as int]@),
            None => least_dotted(piece_views(hosts@)) is None,
        },
{
    let ghost hs = piece_views(hosts@);
    let mut best: Option<usize> = None;
    let mut i: usize = 0;
    while i < hosts.len()
        invariant
            i <= hosts@.len(),
            hs == piece_views(hosts@),
            match best {
                Some(b) => b < i && least_dotted(hs.subrange(0, i as int)) == Some(hosts@[b as int]@),
                None => least_dotted(hs.subrange(0, i as int)) is None,
            },
        decreases hosts@.len() - i,
    {
        assert(hs.subrange(0, i + 1).drop_last() =~= hs.subrange(0, i as int));
        assert(hs.subrange(0, i + 1).last() == hosts@[i as int]@);
        if contains_char(hosts[i].as_slice(), '.') {
            match best {
                None => {
                    best = Some(i);
                },
                Some(b) => {
                    if less_than(hosts[i].as_slice(), hosts[b].as_slice()) {
                        best = Some(i);
                    }
                },
            }
        }
        i = i + 1;
    }
    assert(hs.subrange(0, hosts@.len() as int) =~= hs);
    best
}

fn choose_hostname_chars(hosts: &Vec<Vec<char>>, preferred: Option<&[char]>) -> (r: Option<Vec<char>>)
    ensures
        match r {
            Some(h) => chosen_host(piece_views(hosts@), opt_view(preferred)) == Some(h@),
            None => chosen_host(piece_views(hosts@), opt_view(preferred)) is None,
        },
{
    let ghost hs = piece_views(hosts@);
    match preferred {
        Some(p) => {
            let t = trim(p);
            let u = trim_end_matches_char(t.as_slice(), '.');
            let want = to_lower(u.as_slice());
            let mut i: usize = 0;
            while i < hosts.len()
                invariant
                    i <= hosts@.len(),
                    hs == piece_views(hosts@),
                    forall|j: int| 0 <= j < i ==> hs[j] != want@,
                    want@ == normalized_preference(p@),
                    preferred == Some(p),
                decreases hosts@.len() - i,
            {
                if seq_eq(hosts[i].as_slice(), want.as_slice()) {
                    assert(hs[i as int] == want@);
                    assert(hs.contains(want@));
                    assert(want@ == normalized_preference(p@));
                    assert(opt_view(preferred) == Some(p@));
                    assert(chosen_host(hs, Some(p@)) == Some(want@));
                    return Some(want);
                }
                i = i + 1;
            }
            assert(!hs.contains(want@));
        },
        None => {},
    }
    proof {
        lemma_least_dotted(hs);
    }
    match least_dotted_index(hosts) {
        Some(b) => Some(hosts[b].clone()),
        None => {
            if hosts.len() > 0 {
                Some(hosts[0].clone())
            } else {
                None
            }
        },
    }
}

pub open spec fn opt_view(o: Option<&[char]>) -> Option<Seq<char>> {
    match o {
        Some(s) => Some(s@),
        None => None,
    }
}

pub open spec fn opt_str_view(o: Option<&str>) -> Option<Seq<char>> {
    match o {
        Some(s) => Some(s@),
        None => None,
    }
}

fn char_vecs(hosts: &[String]) -> (r: Vec<Vec<char>>)
    ensures
        piece_views(r@) == string_views(hosts@),
{
    let mut out: Vec<Vec<char>> = Vec::new();
    let mut i: usize = 0;
    while i < hosts.len()
        invariant
            i <= hosts@.len(),
            piece_views(out@) == string_views(hosts@.subrange(0, i as int)),
            out@.len() == i,
        decreases hosts@.len() - i,
    {
        let ghost before = out@;
        let c = chars_of(hosts[i].as_str());
        out.push(c);
        assert forall|j: int| 0 <= j < i implies out@[j] == before[j] by {}
        assert(string_views(hosts@.subrange(0, i as int))[i - 1] == hosts@[i - 1]@ || i == 0);
        assert forall|j: int| 0 <= j <= i implies #[trigger] piece_views(out@)[j] == string_views(
            hosts@.subrange(0, i + 1),
        )[j] by {
            if j < i {
                assert(piece_views(before)[j] == before[j]@);
                assert(string_views(hosts@.subrange(0, i as int))[j] == hosts@[j]@);
            }
        }
        assert(piece_views(out@) =~= string_views(hosts@.subrange(0, i + 1)));
        i = i + 1;
    }
    assert(hosts@.subrange(0, hosts@.len() as int) =~= hosts@);
    out
}

/// Picks the public host name among the names a config lists (see
/// [`chosen_host`]); the scheme does not change the choice.
pub fn choose_hostname(hosts: &[String], preferred_hostname: Option<&str>, prefer_https: bool) -> (r:
    Option<String>)
    ensures
        match r {
            Some(h) => chosen_host(string_views(hosts@), opt_str_view(preferred_hostname)) == Some(
                h@,
            ),
            None => chosen_host(string_views(hosts@), opt_str_view(preferred_hostname)) is None,
        },
{
    let hs = char_vecs(hosts);
    let r = match preferred_hostname {
        Some(p) => {
            let pc = chars_of(p);
            choose_hostname_chars(&hs, Some(pc.as_slice()))
        },
        None => choose_hostname_chars(&hs, None),
    };
    match r {
        Some(h) => Some(string_of(h.as_slice())),
        None => None,
    }
}


/// The managed nginx site that proxies `hostname` to the local agent.
pub open spec fn nginx_site(hostname: Seq<char>, agent_port: u16) -> Seq<char> {
    "# Managed by d1v-cli\nserver {\n    listen 80;\n    listen [::]:80;\n    server_name "@ + hostname
        + ";\n\n    location / {\n        proxy_pass http://127.0.0.1:"@ + dec(agent_port as nat)
        + NGINX_SITE_TAIL@
}

/// The part of the managed site after the upstream port.
pub const NGINX_SITE_TAIL: &'static str = ";\n        proxy_http_version 1.1;\n        proxy_set_header Host $host;\n        proxy_set_header X-Real-IP $remote_addr;\n        proxy_set_header X-Forwarded-For $proxy_add_x_forwarded_for;\n        proxy_set_header X-Forwarded-Proto http;\n        proxy_set_header X-Forwarded-Host $host;\n        proxy_set_header X-Forwarded-Port 80;\n        proxy_set_header Upgrade $http_upgrade;\n        proxy_set_header Connection \"upgrade\";\n        proxy_read_timeout 3600s;\n        proxy_send_timeout 3600s;\n        proxy_connect_timeout 60s;\n    }\n}\n";

/// Renders the managed nginx site for `hostname`.
pub fn render_managed_nginx_config(hostname: &str, agent_port: u16) -> (r: String)
    ensures
        r@ == nginx_site(hostname@, agent_port),
{
    let mut v: Vec<char> = Vec::new();
    push_str(
        &mut v,
        "# Managed by d1v-cli\nserver {\n    listen 80;\n    listen [::]:80;\n    server_name ",
    );
    push_str(&mut v, hostname);
    push_str(&mut v, ";\n\n    location / {\n        proxy_pass http://127.0.0.1:");
    push_dec(&mut v, agent_port as u64);
    push_str(&mut v, NGINX_SITE_TAIL);
    assert(v@ =~= nginx_site(hostname@, agent_port));
    string_of(v.as_slice())
}

/// The name and image columns of a `docker ps` line: the text before the
/// first tab and the text after it (empty without a tab), both trimmed.
pub open spec fn ps_columns(t: Seq<char>) -> (Seq<char>, Seq<char>) {
    let k = next_index(t, '\t', 0);
    (trim_ws(t.subrange(0, k)), if k < t.len() {
        trim_ws(t.skip(k + 1))
    } else {
        Seq::empty()
    })
}

/// The line names an nginx-proxy-manager container.
pub open spec fn npm_line(line: Seq<char>) -> bool {
    let t = trim_ws(line);
    let (name, image) = ps_columns(t);
    t.len() > 0 && (contains_seq(lower_seq(image), "nginx-proxy-manager"@) || contains_seq(
        lower_seq(name),
        "nginx-proxy-manager"@,
    ) || lower_seq(name) == "npm"@)
}

/// The container name of the first nginx-proxy-manager line.
pub open spec fn npm_container_name(lines: Seq<Seq<char>>) -> Option<Seq<char>>
    decreases lines.len(),
{
    if lines.len() == 0 {
        None
    } else if npm_line(lines[0]) {
        Some(ps_columns(trim_ws(lines[0])).0)
    } else {
        npm_container_name(lines.drop_first())
    }
}

/// Finds the nginx-proxy-manager container in `docker ps` output of the
/// form `{{.Names}}\t{{.Image}}`.
pub fn parse_npm_container_from_output(stdout: &str) -> (r: Option<NpmContainer>)
    ensures
        match r {
            Some(c) => npm_container_name(lines_of(stdout@)) == Some(c.name@),
            None => npm_container_name(lines_of(stdout@)) is None,
        },
{
    let sc = chars_of(stdout);
    let ls = lines(sc.as_slice());
    let ghost all = lines_of(stdout@);
    let npm = chars_of("nginx-proxy-manager");
    let short = chars_of("npm");
    let mut i: usize = 0;
    assert(all.skip(0) =~= all);
    while i < ls.len()
        invariant
            i <= ls@.len(),
            ls@.len() == all.len(),
            all == lines_of(stdout@),
            npm@ == "nginx-proxy-manager"@,
            short@ == "npm"@,
            forall|j: int| 0 <= j < ls@.len() ==> #[trigger] ls@[j]@ == all[j],
            npm_container_name(all) == npm_container_name(all.skip(i as int)),
        decreases ls@.len() - i,
    {
        assert(all.skip(i as int)[0] == all[i as int]);
        assert(all.skip(i as int).drop_first() =~= all.skip(i + 1));
        let t = trim(ls[i].as_slice());
        if t.len() > 0 {
            let k = next_char_index(t.as_slice(), '\t', 0);
            let head = vstd::slice::slice_subrange(t.as_slice(), 0, k);
            let name = trim(head);
            let image = if k < t.len() {
                trim(vstd::slice::slice_subrange(t.as_slice(), k + 1, t.len()))
            } else {
                Vec::new()
            };
            proof {
                assert(head@ =~= t@.subrange(0, k as int));
                if k < t@.len() {
                    assert(t@.subrange(k + 1, t@.len() as int) =~= t@.skip(k + 1));
                }
                assert(trim_ws(Seq::<char>::empty()) =~= Seq::<char>::empty()) by {
                    reveal_with_fuel(trim_start_ws, 1);
                    reveal_with_fuel(trim_end_ws, 1);
                }
            }
            let li = to_lower(image.as_slice());
            let ln = to_lower(name.as_slice());
            if contains(li.as_slice(), npm.as_slice()) || contains(ln.as_slice(), npm.as_slice())
                || seq_eq(ln.as_slice(), short.as_slice()) {
                return Some(NpmContainer { name: string_of(name.as_slice()) });
            }
        }
        i = i + 1;
    }
    assert(all.skip(i as int) =~= Seq::<Seq<char>>::empty());
    None
}


/// `Host(`, the start of a Traefik host matcher.
pub open spec fn host_open() -> Seq<char> {
    seq!['H', 'o', 's', 't', '(']
}

/// Each piece sanitized as a host name.
pub open spec fn sanitize_all(ps: Seq<Seq<char>>) -> Seq<Seq<char>> {
    ps.map_values(|p: Seq<char>| sanitized(p))
}

/// The host names of the `Host(...)` matchers of a Traefik rule, in order.
pub open spec fn traefik_hosts(s: Seq<char>) -> Seq<Seq<char>>
    decreases s.len(),
{
    match find_from(s, host_open(), 0) {
        None => Seq::empty(),
        Some(idx) => {
            proof {
                lemma_find_from(s, host_open(), 0);
            }
            let after = s.skip(idx + 5);
            let end = next_index(after, ')', 0);
            if end >= after.len() {
                Seq::empty()
            } else {
                proof {
                    lemma_next_index_bounds(after, ')', 0);
                }
                nonempty_only(sanitize_all(split_char(after.subrange(0, end), ',')))
                    + traefik_hosts(after.skip(end + 1))
            }
        },
    }
}

/// Sanitizes the pieces and keeps the non-empty ones.
fn sanitized_nonempty(pieces: &Vec<Vec<char>>) -> (r: Vec<Vec<char>>)
    ensures
        piece_views(r@) == nonempty_only(sanitize_all(piece_views(pieces@))),
{
    let ghost ps = sanitize_all(piece_views(pieces@));
    let mut out: Vec<Vec<char>> = Vec::new();
    let mut i: usize = 0;
    while i < pieces.len()
        invariant
            i <= pieces@.len(),
            ps == sanitize_all(piece_views(pieces@)),
            piece_views(out@) == nonempty_only(ps.subrange(0, i as int)),
        decreases pieces@.len() - i,
    {
        let h = sanitize_chars(pieces[i].as_slice());
        proof {
            let sub1 = ps.subrange(0, i + 1);
            assert(sub1.drop_last() =~= ps.subrange(0, i as int));
            assert(sub1.last() == h@);
        }
        if h.len() > 0 {
            let ghost before = out@;
            out.push(h);
            assert(piece_views(out@) =~= piece_views(before).push(ps[i as int]));
        }
        i = i + 1;
    }
    assert(ps.subrange(0, pieces@.len() as int) =~= ps);
    out
}

/// The host names of a Traefik router rule.
pub fn parse_traefik_hosts(rule: &str) -> (r: Vec<String>)
    ensures
        string_views(r@) == traefik_hosts(rule@),
{
    let s = chars_of(rule);
    let pat = chars_of("Host(");
    proof {
        reveal_strlit("Host(");
        assert(pat@ =~= host_open());
    }
    let mut out: Vec<String> = Vec::new();
    let mut pos: usize = 0;
    assert(s@.skip(0) =~= s@);
    assert(string_views(out@) =~= Seq::<Seq<char>>::empty());
    loop
        invariant
            pos <= s@.len(),
            pat@ == host_open(),
            s@ == rule@,
            string_views(out@) + traefik_hosts(s@.skip(pos as int)) == traefik_hosts(rule@),
        decreases s@.len() - pos,
    {
        let rest = vstd::slice::slice_subrange(s.as_slice(), pos, s.len());
        assert(rest@ =~= s@.skip(pos as int));
        match find_first(rest, pat.as_slice()) {
            None => {
                assert(traefik_hosts(rest@) =~= Seq::<Seq<char>>::empty());
                assert(string_views(out@) + Seq::<Seq<char>>::empty() =~= string_views(out@));
                return out;
            },
            Some(idx) => {
                proof {
                    lemma_find_from(rest@, host_open(), 0);
                }
                let start = pos + idx + 5;
                let after = vstd::slice::slice_subrange(s.as_slice(), start, s.len());
                assert(after@ =~= rest@.skip(idx + 5));
                let end = next_char_index(after, ')', 0);
                if end >= after.len() {
                    assert(traefik_hosts(rest@) =~= Seq::<Seq<char>>::empty());
                    assert(string_views(out@) + Seq::<Seq<char>>::empty() =~= string_views(out@));
                    return out;
                }
                let inner = vstd::slice::slice_subrange(after, 0, end);
                let parts = split(inner, ',');
                assert(piece_views(parts@) =~= split_char(inner@, ','));
                assert(inner@ =~= after@.subrange(0, end as int));
                let hosts = sanitized_nonempty(&parts);
                let ghost before = out@;
                let mut k: usize = 0;
                while k < hosts.len()
                    invariant
                        k <= hosts@.len(),
                        string_views(out@) == string_views(before) + piece_views(
                            hosts@,
                        ).subrange(0, k as int),
                    decreases hosts@.len() - k,
                {
                    let ghost o = out@;
                    out.push(string_of(hosts[k].as_slice()));
                    assert(string_views(out@) =~= string_views(o).push(hosts@[k as int]@));
                    assert(piece_views(hosts@).subrange(0, k + 1) =~= piece_views(hosts@).subrange(
                        0,
                        k as int,
                    ).push(hosts@[k as int]@));
                    k = k + 1;
                }
                assert(piece_views(hosts@).subrange(0, hosts@.len() as int) =~= piece_views(hosts@));
                proof {
                    lemma_next_index_bounds(after@, ')', 0);
                    assert(after@.skip(end + 1) =~= s@.skip(start + end + 1));
                    assert(traefik_hosts(rest@) == nonempty_only(
                        sanitize_all(split_char(after@.subrange(0, end as int), ',')),
                    ) + traefik_hosts(after@.skip(end + 1)));
                }
                assert(string_views(out@) + traefik_hosts(s@.skip(start + end + 1)) =~= string_views(
                    before,
                ) + traefik_hosts(rest@));
                pos = start + end + 1;
            },
        }
    }
}


/// A match found in a config: the chosen host name, the upstream host and
/// the upstream port.
pub type Hit = (Seq<char>, Seq<char>, u16);

/// The host names of a Caddy site header (the text before `{`).
pub open spec fn caddy_header_hosts(prefix: Seq<char>) -> Seq<Seq<char>> {
    nonempty_only(sanitize_all(split_char(prefix, ',')))
}

/// One line of a Caddyfile: the new site hosts and scheme, and a match
/// when the line is a `reverse_proxy` to the agent in a site with a usable
/// host name.
pub open spec fn caddy_step(
    line: Seq<char>,
    hosts: Seq<Seq<char>>,
    https: bool,
    agent_port: u16,
    pref: Option<Seq<char>>,
) -> (Seq<Seq<char>>, bool, Option<Hit>) {
    let t = trim_ws(line);
    if t.len() == 0 || t[0] == '#' {
        (hosts, https, None)
    } else if t.last() == '{' {
        let prefix = t.drop_last();
        (caddy_header_hosts(prefix), !contains_seq(lower_seq(prefix), "http://"@), None)
    } else if !has_prefix(t, "reverse_proxy "@) || hosts.len() == 0 {
        (hosts, https, None)
    } else {
        match host_port(trim_ws(trim_start_str(t, "reverse_proxy "@))) {
            Some((h, p)) => if local_host(h) && p == agent_port {
                match chosen_host(hosts, pref) {
                    Some(n) => (hosts, https, Some((n, h, p))),
                    None => (hosts, https, None),
                }
            } else {
                (hosts, https, None)
            },
            None => (hosts, https, None),
        }
    }
}

/// Whether a Caddyfile line opens a site block: once trimmed it is not
/// empty, not a comment, and ends with `{`.
pub open spec fn caddy_site_header(line: Seq<char>) -> bool {
    let t = trim_ws(line);
    t.len() > 0 && t[0] != '#' && t.last() == '{'
}

/// Scheme law of Caddy sites: a site header that does not name `http://`
/// (in any case) makes the site HTTPS, Caddy's automatic HTTPS, and one
/// that names it makes it plain HTTP; every other line leaves the scheme
/// of the current site as it was.
pub proof fn lemma_caddy_site_scheme(
    line: Seq<char>,
    hosts: Seq<Seq<char>>,
    https: bool,
    agent_port: u16,
    pref: Option<Seq<char>>,
)
    ensures
        caddy_site_header(line) && !contains_seq(lower_seq(trim_ws(line).drop_last()), "http://"@)
            ==> caddy_step(line, hosts, https, agent_port, pref).1,
        caddy_site_header(line) && contains_seq(lower_seq(trim_ws(line).drop_last()), "http://"@)
            ==> !caddy_step(line, hosts, https, agent_port, pref).1,
        !caddy_site_header(line) ==> caddy_step(line, hosts, https, agent_port, pref).1 == https,
{
}

/// The first match in the remaining Caddyfile lines, with its scheme.
pub open spec fn caddy_scan(
    lines: Seq<Seq<char>>,
    hosts: Seq<Seq<char>>,
    https: bool,
    agent_port: u16,
    pref: Option<Seq<char>>,
) -> Option<(Hit, bool)>
    decreases lines.len(),
{
    if lines.len() == 0 {
        None
    } else {
        let (h2, s2, hit) = caddy_step(lines[0], hosts, https, agent_port, pref);
        match hit {
            Some(x) => Some((x, s2)),
            None => caddy_scan(lines.drop_first(), h2, s2, agent_port, pref),
        }
    }
}

/// The scheme name.
pub open spec fn scheme_name(https: bool) -> Seq<char> {
    if https {
        "https"@
    } else {
        "http"@
    }
}

fn scheme_string(https: bool) -> (r: String)
    ensures
        r@ == scheme_name(https),
{
    if https {
        "https".to_owned()
    } else {
        "http".to_owned()
    }
}

fn caddy_line(
    line: &[char],
    hosts: &mut Vec<Vec<char>>,
    https: &mut bool,
    agent_port: u16,
    pref: Option<&[char]>,
) -> (r: Option<(Vec<char>, Vec<char>, u16)>)
    ensures
        ({
            let (h2, s2, hit) = caddy_step(
                line@,
                piece_views(old(hosts)@),
                *old(https),
                agent_port,
                opt_view(pref),
            );
            &&& piece_views(final(hosts)@) == h2
            &&& *final(https) == s2
            &&& match r {
                Some((n, h, p)) => hit == Some((n@, h@, p)),
                None => hit is None,
            }
        }),
{
    let t = trim(line);
    if t.len() == 0 || t[0] == '#' {
        return None;
    }
    if t[t.len() - 1] == '{' {
        let prefix = vstd::slice::slice_subrange(t.as_slice(), 0, t.len() - 1);
        assert(prefix@ =~= t@.drop_last());
        let parts = split(prefix, ',');
        assert(piece_views(parts@) =~= split_char(prefix@, ','));
        *hosts = sanitized_nonempty(&parts);
        let lp = to_lower(prefix);
        *https = !contains_str(lp.as_slice(), "http://");
        return None;
    }
    if !starts_with_str(t.as_slice(), "reverse_proxy ") || hosts.len() == 0 {
        return None;
    }
    let kw = chars_of("reverse_proxy ");
    let a = trim_start_matches_str(t.as_slice(), kw.as_slice());
    let up = trim(a.as_slice());
    match host_port_chars(up.as_slice()) {
        Some((h, p)) => {
            if local_host_chars(h.as_slice()) && p == agent_port {
                match choose_hostname_chars(hosts, pref) {
                    Some(n) => Some((n, h, p)),
                    None => None,
                }
            } else {
                None
            }
        },
        None => None,
    }
}

/// Finds a Caddy site that proxies to the agent port.
pub fn parse_caddy_content(
    content: &str,
    config_path: String,
    agent_port: u16,
    preferred_hostname: Option<&str>,
) -> (r: Option<DetectedIngress>)
    ensures
        match caddy_scan(
            lines_of(content@),
            Seq::empty(),
            true,
            agent_port,
            opt_str_view(preferred_hostname),
        ) {
            None => r is None,
            Some((hit, https)) => r matches Some(d) && d.provider@ == "caddy"@ && (d.hostname@,
            d.upstream_host@, d.upstream_port) == hit && d.scheme@ == scheme_name(https)
                && d.external_port == (if https {
                443u16
            } else {
                80u16
            }) && d.config_path@ == config_path@ && d.confidence == 95,
        },
{
    let cc = chars_of(content);
    let ls = lines(cc.as_slice());
    let ghost all = lines_of(content@);
    let pc: Option<Vec<char>> = match preferred_hostname {
        Some(p) => Some(chars_of(p)),
        None => None,
    };
    let pref: Option<&[char]> = match &pc {
        Some(v) => Some(v.as_slice()),
        None => None,
    };
    assert(opt_view(pref) == opt_str_view(preferred_hostname));
    let mut hosts: Vec<Vec<char>> = Vec::new();
    let mut https = true;
    let mut i: usize = 0;
    assert(all.skip(0) =~= all);
    assert(piece_views(hosts@) =~= Seq::<Seq<char>>::empty());
    while i < ls.len()
        invariant
            i <= ls@.len(),
            ls@.len() == all.len(),
            forall|j: int| 0 <= j < ls@.len() ==> #[trigger] ls@[j]@ == all[j],
            all == lines_of(content@),
            opt_view(pref) == opt_str_view(preferred_hostname),
            caddy_scan(all, Seq::empty(), true, agent_port, opt_view(pref)) == caddy_scan(
                all.skip(i as int),
                piece_views(hosts@),
                https,
                agent_port,
                opt_view(pref),
            ),
        decreases ls@.len() - i,
    {
        assert(all.skip(i as int)[0] == all[i as int]);
        assert(all.skip(i as int).drop_first() =~= all.skip(i + 1));
        let hit = caddy_line(ls[i].as_slice(), &mut hosts, &mut https, agent_port, pref);
        match hit {
            Some((n, h, p)) => {
                return Some(
                    DetectedIngress {
                        provider: "caddy",
                        hostname: string_of(n.as_slice()),
                        scheme: scheme_string(https),
                        external_port: if https {
                            443
                        } else {
                            80
                        },
                        upstream_host: string_of(h.as_slice()),
                        upstream_port: p,
                        config_path,
                        confidence: 95,
                    },
                );
            },
            None => {},
        }
        i = i + 1;
    }
    assert(all.skip(i as int) =~= Seq::<Seq<char>>::empty());
    None
}


/// Scanner state inside an nginx config: block depth, the current
/// server's names, whether it listens on 443, and its listen port.
pub type NginxState = (u64, Seq<Seq<char>>, bool, u16);

/// The names a `server_name` directive lists, sanitized, without empty
/// names and `_`.
pub open spec fn server_names(t: Seq<char>) -> Seq<Seq<char>> {
    named_only(sanitize_all(words(trim_end_char(trim_ws(trim_start_str(t, "server_name"@)), ';'))))
}

/// The names that are neither empty nor `_`.
pub open spec fn named_only(s: Seq<Seq<char>>) -> Seq<Seq<char>>
    decreases s.len(),
{
    if s.len() == 0 {
        s
    } else if s.last().len() > 0 && s.last() != seq!['_'] {
        named_only(s.drop_last()).push(s.last())
    } else {
        named_only(s.drop_last())
    }
}

/// Block depth after a line with `opens` `{` and `closes` `}`, never below
/// zero.
pub open spec fn next_depth(depth: u64, opens: nat, closes: nat) -> u64 {
    let up: int = if depth + opens > u64::MAX {
        u64::MAX as int
    } else {
        depth + opens
    };
    if up >= closes {
        (up - closes) as u64
    } else {
        0
    }
}

/// One line of an nginx config: the new state and a match when the line is
/// a `proxy_pass` to the agent (any local port when `agent_port` is 0) in
/// a server with a usable name.
pub open spec fn nginx_step(line: Seq<char>, st: NginxState, agent_port: u16, pref: Option<
    Seq<char>,
>) -> (NginxState, Option<Hit>) {
    let t = trim_ws(line);
    let (depth, names, https, port) = st;
    if t.len() == 0 || t[0] == '#' {
        (st, None)
    } else if has_prefix(t, "server {"@) || t == "server{"@ {
        ((if depth < u64::MAX {
            (depth + 1) as u64
        } else {
            u64::MAX
        }, Seq::empty(), false, 80), None)
    } else if depth == 0 {
        (st, None)
    } else {
        let (https1, port1) = if has_prefix(t, "listen "@) {
            if contains_seq(t, "443"@) {
                (true, 443u16)
            } else {
                match listen_port(t) {
                    Some(p) => (https, p),
                    None => (https, port),
                }
            }
        } else {
            (https, port)
        };
        let names1 = if has_prefix(t, "server_name "@) {
            server_names(t)
        } else {
            names
        };
        let counted = (
            next_depth(depth, count_char(t, '{'), count_char(t, '}')),
            names1,
            https1,
            port1,
        );
        if has_prefix(t, "proxy_pass "@) && names1.len() > 0 {
            match host_port(trim_end_char(trim_ws(trim_start_str(t, "proxy_pass"@)), ';')) {
                Some((h, p)) => if !local_host(h) || (agent_port != 0 && p != agent_port) {
                    ((depth, names1, https1, port1), None)
                } else {
                    match chosen_host(names1, pref) {
                        Some(n) => ((depth, names1, https1, port1), Some((n, h, p))),
                        None => (counted, None),
                    }
                },
                None => (counted, None),
            }
        } else {
            (counted, None)
        }
    }
}

/// The first match in the remaining lines, with the server's scheme and
/// listen port.
pub open spec fn nginx_scan(
    lines: Seq<Seq<char>>,
    st: NginxState,
    agent_port: u16,
    pref: Option<Seq<char>>,
) -> Option<(Hit, bool, u16)>
    decreases lines.len(),
{
    if lines.len() == 0 {
        None
    } else {
        let (st2, hit) = nginx_step(lines[0], st, agent_port, pref);
        match hit {
            Some(x) => Some((x, st2.2, st2.3)),
            None => nginx_scan(lines.drop_first(), st2, agent_port, pref),
        }
    }
}

fn named_only_exec(pieces: &Vec<Vec<char>>) -> (r: Vec<Vec<char>>)
    ensures
        piece_views(r@) == named_only(piece_views(pieces@)),
{
    let ghost ps = piece_views(pieces@);
    let mut out: Vec<Vec<char>> = Vec::new();
    let mut i: usize = 0;
    while i < pieces.len()
        invariant
            i <= pieces@.len(),
            ps == piece_views(pieces@),
            piece_views(out@) == named_only(ps.subrange(0, i as int)),
        decreases pieces@.len() - i,
    {
        proof {
            let sub1 = ps.subrange(0, i + 1);
            assert(sub1.drop_last() =~= ps.subrange(0, i as int));
            assert(sub1.last() == pieces@[i as int]@);
        }
        let p = &pieces[i];
        let underscore = p.len() == 1 && p[0] == '_';
        proof {
            if p@.len() == 1 {
                assert(underscore == (p@ == seq!['_'])) by {
                    if p@[0] == '_' {
                        assert(p@ =~= seq!['_']);
                    }
                }
            } else {
                assert(p@ != seq!['_']);
            }
        }
        if p.len() > 0 && !underscore {
            let ghost before = out@;
            let c = p.clone();
            assert(c@ == p@);
            out.push(c);
            assert(piece_views(out@) =~= piece_views(before).push(p@));
        }
        i = i + 1;
    }
    assert(ps.subrange(0, pieces@.len() as int) =~= ps);
    out
}

fn sanitize_each(pieces: &Vec<Vec<char>>) -> (r: Vec<Vec<char>>)
    ensures
        piece_views(r@) == sanitize_all(piece_views(pieces@)),
{
    let mut out: Vec<Vec<char>> = Vec::new();
    let mut i: usize = 0;
    while i < pieces.len()
        invariant
            i <= pieces@.len(),
            out@.len() == i,
            forall|j: int| 0 <= j < i ==> #[trigger] out@[j]@ == sanitized(pieces@[j]@),
        decreases pieces@.len() - i,
    {
        out.push(sanitize_chars(pieces[i].as_slice()));
        i = i + 1;
    }
    assert(piece_views(out@) =~= sanitize_all(piece_views(pieces@)));
    out
}

fn server_names_exec(t: &[char]) -> (r: Vec<Vec<char>>)
    ensures
        piece_views(r@) == server_names(t@),
{
    let kw = chars_of("server_name");
    let a = trim_start_matches_str(t, kw.as_slice());
    let b = trim(a.as_slice());
    let c = trim_end_matches_char(b.as_slice(), ';');
    let ws = split_whitespace(c.as_slice());
    assert(piece_views(ws@) =~= words(c@));
    let sn = sanitize_each(&ws);
    named_only_exec(&sn)
}

fn next_depth_exec(depth: u64, opens: usize, closes: usize) -> (r: u64)
    ensures
        r == next_depth(depth, opens as nat, closes as nat),
{
    let o = opens as u64;
    let c = closes as u64;
    let up = if depth > u64::MAX - o {
        u64::MAX
    } else {
        depth + o
    };
    if up >= c {
        up - c
    } else {
        0
    }
}

/// Mutable form of [`NginxState`].
pub struct NginxScan {
    pub depth: u64,
    pub names: Vec<Vec<char>>,
    pub https: bool,
    pub port: u16,
}

impl NginxScan {
    pub open spec fn view(&self) -> NginxState {
        (self.depth, piece_views(self.names@), self.https, self.port)
    }
}

fn nginx_line(line: &[char], st: &mut NginxScan, agent_port: u16, pref: Option<&[char]>) -> (r:
    Option<(Vec<char>, Vec<char>, u16)>)
    ensures
        ({
            let (st2, hit) = nginx_step(line@, old(st).view(), agent_port, opt_view(pref));
            &&& final(st).view() == st2
            &&& match r {
                Some((n, h, p)) => hit == Some((n@, h@, p)),
                None => hit is None,
            }
        }),
{
    let t = trim(line);
    if t.len() == 0 || t[0] == '#' {
        return None;
    }
    let server_open = chars_of("server{");
    if starts_with_str(t.as_slice(), "server {") || seq_eq(t.as_slice(), server_open.as_slice()) {
        st.depth = if st.depth < u64::MAX {
            st.depth + 1
        } else {
            u64::MAX
        };
        st.names = Vec::new();
        st.https = false;
        st.port = 80;
        assert(piece_views(st.names@) =~= Seq::<Seq<char>>::empty());
        return None;
    }
    if st.depth == 0 {
        return None;
    }
    if starts_with_str(t.as_slice(), "listen ") {
        if contains_str(t.as_slice(), "443") {
            st.https = true;
            st.port = 443;
        } else {
            match listen_port_chars(t.as_slice()) {
                Some(p) => {
                    st.port = p;
                },
                None => {},
            }
        }
    }
    if starts_with_str(t.as_slice(), "server_name ") {
        st.names = server_names_exec(t.as_slice());
    }
    let ghost mid = st.view();
    if starts_with_str(t.as_slice(), "proxy_pass ") && st.names.len() > 0 {
        let kw = chars_of("proxy_pass");
        let a = trim_start_matches_str(t.as_slice(), kw.as_slice());
        let b = trim(a.as_slice());
        let up = trim_end_matches_char(b.as_slice(), ';');
        match host_port_chars(up.as_slice()) {
            Some((h, p)) => {
                if !local_host_chars(h.as_slice()) || (agent_port != 0 && p != agent_port) {
                    return None;
                }
                match choose_hostname_chars(&st.names, pref) {
                    Some(n) => {
                        return Some((n, h, p));
                    },
                    None => {},
                }
            },
            None => {},
        }
    }
    let opens = count_chars(t.as_slice(), '{');
    let closes = count_chars(t.as_slice(), '}');
    st.depth = next_depth_exec(st.depth, opens, closes);
    None
}

/// Finds an nginx server block that proxies to the agent port (any local
/// port when `agent_port` is 0). Matches from nginx-proxy-manager configs
/// carry a lower confidence.
pub fn parse_nginx_like_content(
    provider: &'static str,
    content: &str,
    config_path: String,
    agent_port: u16,
    preferred_hostname: Option<&str>,
) -> (r: Option<DetectedIngress>)
    ensures
        match nginx_scan(
            lines_of(content@),
            (0u64, Seq::empty(), false, 80u16),
            agent_port,
            opt_str_view(preferred_hostname),
        ) {
            None => r is None,
            Some((hit, https, port)) => r matches Some(d) && d.provider == provider && (
            d.hostname@, d.upstream_host@, d.upstream_port) == hit && d.scheme@ == scheme_name(https)
                && d.external_port == port && d.config_path@ == config_path@ && d.confidence == (
            if provider@ == "npm"@ {
                82u8
            } else {
                90u8
            }),
        },
{
    let cc = chars_of(content);
    let ls = lines(cc.as_slice());
    let ghost all = lines_of(content@);
    let pc: Option<Vec<char>> = match preferred_hostname {
        Some(p) => Some(chars_of(p)),
        None => None,
    };
    let pref: Option<&[char]> = match &pc {
        Some(v) => Some(v.as_slice()),
        None => None,
    };
    assert(opt_view(pref) == opt_str_view(preferred_hostname));
    let npm = chars_of("npm");
    let pv = chars_of(provider);
    let confidence: u8 = if seq_eq(pv.as_slice(), npm.as_slice()) {
        82
    } else {
        90
    };
    let mut st = NginxScan { depth: 0, names: Vec::new(), https: false, port: 80 };
    let mut i: usize = 0;
    assert(all.skip(0) =~= all);
    assert(piece_views(st.names@) =~= Seq::<Seq<char>>::empty());
    while i < ls.len()
        invariant
            i <= ls@.len(),
            ls@.len() == all.len(),
            all == lines_of(content@),
            opt_view(pref) == opt_str_view(preferred_hostname),
            confidence == (if provider@ == "npm"@ {
                82u8
            } else {
                90u8
            }),
            forall|j: int| 0 <= j < ls@.len() ==> #[trigger] ls@[j]@ == all[j],
            nginx_scan(all, (0u64, Seq::empty(), false, 80u16), agent_port, opt_view(pref))
                == nginx_scan(all.skip(i as int), st.view(), agent_port, opt_view(pref)),
        decreases ls@.len() - i,
    {
        assert(all.skip(i as int)[0] == all[i as int]);
        assert(all.skip(i as int).drop_first() =~= all.skip(i + 1));
        let hit = nginx_line(ls[i].as_slice(), &mut st, agent_port, pref);
        match hit {
            Some((n, h, p)) => {
                return Some(
                    DetectedIngress {
                        provider,
                        hostname: string_of(n.as_slice()),
                        scheme: scheme_string(st.https),
                        external_port: st.port,
                        upstream_host: string_of(h.as_slice()),
                        upstream_port: p,
                        config_path,
                        confidence,
                    },
                );
            },
            None => {},
        }
        i = i + 1;
    }
    assert(all.skip(i as int) =~= Seq::<Seq<char>>::empty());
    None
}


/// What the labels of one container say about Traefik routing.
pub struct TraefikLabels {
    pub hosts: Vec<Vec<char>>,
    pub service_port: Option<u16>,
    pub tls: bool,
    pub entrypoint: Option<Vec<char>>,
}

/// ASCII case-insensitive equality (`str::eq_ignore_ascii_case`).
pub open spec fn eq_ignore_case(a: Seq<char>, b: Seq<char>) -> bool {
    lower_seq(a) == lower_seq(b)
}

/// The label summary after one more `(key, value)` label.
pub open spec fn label_step(
    st: (Seq<Seq<char>>, Option<u16>, bool, Option<Seq<char>>),
    key: Seq<char>,
    raw_value: Seq<char>,
) -> (Seq<Seq<char>>, Option<u16>, bool, Option<Seq<char>>) {
    let value = trim_ws(raw_value);
    let (hosts, port, tls, entry) = st;
    (
        if contains_seq(key, ".rule"@) && contains_seq(value, host_open()) {
            hosts + traefik_hosts(value)
        } else {
            hosts
        },
        if contains_seq(key, "loadbalancer.server.port"@) {
            parse_u16(value)
        } else {
            port
        },
        tls || (contains_seq(key, ".tls"@) && eq_ignore_case(value, "true"@)),
        if contains_seq(key, ".entrypoints"@) && value.len() > 0 {
            Some(lower_seq(value))
        } else {
            entry
        },
    )
}

/// The label summary of a label list, in order.
pub open spec fn labels_summary(labels: Seq<(Seq<char>, Seq<char>)>) -> (
    Seq<Seq<char>>,
    Option<u16>,
    bool,
    Option<Seq<char>>,
)
    decreases labels.len(),
{
    if labels.len() == 0 {
        (Seq::empty(), None, false, None)
    } else {
        label_step(labels_summary(labels.drop_last()), labels.last().0, labels.last().1)
    }
}

pub open spec fn label_views(labels: Seq<(String, String)>) -> Seq<(Seq<char>, Seq<char>)> {
    labels.map_values(|l: (String, String)| (l.0@, l.1@))
}

/// A Traefik router for the agent port: its chosen host name and whether it
/// serves TLS (explicitly, or through a `websecure`/`https` entrypoint).
pub open spec fn traefik_match(
    labels: Seq<(Seq<char>, Seq<char>)>,
    agent_port: u16,
    pref: Option<Seq<char>>,
) -> Option<(Seq<char>, bool)> {
    let (hosts, port, tls, entry) = labels_summary(labels);
    if port != Some(agent_port) || hosts.len() == 0 {
        None
    } else {
        let https = tls || (match entry {
            Some(e) => contains_seq(e, "websecure"@) || contains_seq(e, "https"@),
            None => false,
        });
        match chosen_host(hosts, pref) {
            Some(h) => Some((h, https)),
            None => None,
        }
    }
}

fn eq_ignore_case_exec(a: &[char], b: &[char]) -> (r: bool)
    ensures
        r == eq_ignore_case(a@, b@),
{
    let la = to_lower(a);
    let lb = to_lower(b);
    seq_eq(la.as_slice(), lb.as_slice())
}

fn append_pieces(v: &mut Vec<Vec<char>>, w: Vec<Vec<char>>)
    ensures
        piece_views(final(v)@) == piece_views(old(v)@) + piece_views(w@),
{
    let ghost start = v@;
    let mut k: usize = 0;
    while k < w.len()
        invariant
            k <= w@.len(),
            v@.len() == start.len() + k,
            forall|j: int| 0 <= j < start.len() ==> #[trigger] v@[j]@ == start[j]@,
            forall|j: int| 0 <= j < k ==> #[trigger] v@[start.len() + j]@ == w@[j]@,
        decreases w@.len() - k,
    {
        let c = w[k].clone();
        assert(c@ == w@[k as int]@);
        v.push(c);
        k = k + 1;
    }
    assert forall|j: int| 0 <= j < v@.len() implies #[trigger] piece_views(v@)[j] == (piece_views(
        start,
    ) + piece_views(w@))[j] by {
        if j < start.len() {
            assert(v@[j]@ == start[j]@);
        } else {
            assert(v@[start.len() + (j - start.len())]@ == w@[j - start.len()]@);
        }
    }
    assert(piece_views(v@) =~= piece_views(start) + piece_views(w@));
}

fn host_labels(value: &[char]) -> (r: Vec<Vec<char>>)
    ensures
        piece_views(r@) == traefik_hosts(value@),
{
    let s = string_of(value);
    let hs = parse_traefik_hosts(s.as_str());
    let mut out: Vec<Vec<char>> = Vec::new();
    let mut i: usize = 0;
    while i < hs.len()
        invariant
            i <= hs@.len(),
            out@.len() == i,
            forall|j: int| 0 <= j < i ==> #[trigger] out@[j]@ == hs@[j]@,
        decreases hs@.len() - i,
    {
        out.push(chars_of(hs[i].as_str()));
        i = i + 1;
    }
    assert(piece_views(out@) =~= string_views(hs@));
    out
}

/// Reads the Traefik-relevant labels of a container (see [`labels_summary`]).
pub fn summarize_labels(labels: &Vec<(String, String)>) -> (r: TraefikLabels)
    ensures
        (piece_views(r.hosts@), r.service_port, r.tls, match r.entrypoint {
            Some(e) => Some(e@),
            None => None,
        }) == labels_summary(label_views(labels@)),
{
    let ghost ls = label_views(labels@);
    let mut st = TraefikLabels { hosts: Vec::new(), service_port: None, tls: false, entrypoint: None };
    let mut i: usize = 0;
    assert(piece_views(st.hosts@) =~= Seq::<Seq<char>>::empty());
    while i < labels.len()
        invariant
            i <= labels@.len(),
            ls == label_views(labels@),
            (piece_views(st.hosts@), st.service_port, st.tls, match st.entrypoint {
                Some(e) => Some(e@),
                None => None,
            }) == labels_summary(ls.subrange(0, i as int)),
        decreases labels@.len() - i,
    {
        proof {
            let sub1 = ls.subrange(0, i + 1);
            assert(sub1.drop_last() =~= ls.subrange(0, i as int));
            assert(sub1.last() == (labels@[i as int].0@, labels@[i as int].1@));
        }
        let key = chars_of(labels[i].0.as_str());
        let value = trim_str(labels[i].1.as_str());
        if contains_str(key.as_slice(), ".rule") && contains_str(value.as_slice(), "Host(") {
            proof {
                reveal_strlit("Host(");
                assert("Host("@ =~= host_open());
            }
            let more = host_labels(value.as_slice());
            append_pieces(&mut st.hosts, more);
        } else {
            proof {
                reveal_strlit("Host(");
                assert("Host("@ =~= host_open());
            }
        }
        if contains_str(key.as_slice(), "loadbalancer.server.port") {
            st.service_port = parse_u16_chars(value.as_slice());
        }
        if contains_str(key.as_slice(), ".tls") {
            let t = chars_of("true");
            if eq_ignore_case_exec(value.as_slice(), t.as_slice()) {
                st.tls = true;
            }
        }
        if contains_str(key.as_slice(), ".entrypoints") && value.len() > 0 {
            st.entrypoint = Some(to_lower(value.as_slice()));
        }
        i = i + 1;
    }
    assert(ls.subrange(0, labels@.len() as int) =~= ls);
    st
}

/// A Traefik ingress for the agent port from one container's labels.
pub fn traefik_candidate(
    container_name: &str,
    labels: &Vec<(String, String)>,
    agent_port: u16,
    preferred_hostname: Option<&str>,
) -> (r: Option<DetectedIngress>)
    ensures
        match traefik_match(label_views(labels@), agent_port, opt_str_view(preferred_hostname)) {
            None => r is None,
            Some((h, https)) => r matches Some(d) && d.provider@ == "traefik"@ && d.hostname@ == h
                && d.scheme@ == scheme_name(https) && d.external_port == (if https {
                443u16
            } else {
                80u16
            }) && d.upstream_host@ == "127.0.0.1"@ && d.upstream_port == agent_port
                && d.config_path@ == "docker://"@ + container_name@ && d.confidence == 80,
        },
{
    let st = summarize_labels(labels);
    match st.service_port {
        Some(p) => {
            if p != agent_port {
                return None;
            }
        },
        None => {
            return None;
        },
    }
    if st.hosts.len() == 0 {
        return None;
    }
    let mut https = st.tls;
    if !https {
        match &st.entrypoint {
            Some(e) => {
                https = contains_str(e.as_slice(), "websecure") || contains_str(
                    e.as_slice(),
                    "https",
                );
            },
            None => {},
        }
    }
    let pc: Option<Vec<char>> = match preferred_hostname {
        Some(p) => Some(chars_of(p)),
        None => None,
    };
    let pref: Option<&[char]> = match &pc {
        Some(v) => Some(v.as_slice()),
        None => None,
    };
    match choose_hostname_chars(&st.hosts, pref) {
        Some(h) => {
            let mut path: Vec<char> = Vec::new();
            push_str(&mut path, "docker://");
            push_str(&mut path, container_name);
            Some(
                DetectedIngress {
                    provider: "traefik",
                    hostname: string_of(h.as_slice()),
                    scheme: scheme_string(https),
                    external_port: if https {
                        443
                    } else {
                        80
                    },
                    upstream_host: "127.0.0.1".to_owned(),
                    upstream_port: agent_port,
                    config_path: string_of(path.as_slice()),
                    confidence: 80,
                },
            )
        },
        None => None,
    }
}


/// A detected ingress as plain values: provider, host name, scheme,
/// external port, upstream host, upstream port, config path, confidence.
pub type IngressView = (Seq<char>, Seq<char>, Seq<char>, u16, Seq<char>, u16, Seq<char>, u8);

pub open spec fn ingress_view(d: DetectedIngress) -> IngressView {
    (
        d.provider@,
        d.hostname@,
        d.scheme@,
        d.external_port,
        d.upstream_host@,
        d.upstream_port,
        d.config_path@,
        d.confidence,
    )
}

pub open spec fn opt_ingress_view(d: Option<DetectedIngress>) -> Option<IngressView> {
    match d {
        Some(x) => Some(ingress_view(x)),
        None => None,
    }
}

/// What one Caddyfile yields.
pub open spec fn caddy_file_view(path: Seq<char>, content: Seq<char>, agent_port: u16, pref: Option<
    Seq<char>,
>) -> Option<IngressView> {
    match caddy_scan(lines_of(content), Seq::empty(), true, agent_port, pref) {
        None => None,
        Some((hit, https)) => Some(
            (
                "caddy"@,
                hit.0,
                scheme_name(https),
                if https {
                    443u16
                } else {
                    80u16
                },
                hit.1,
                hit.2,
                path,
                95u8,
            ),
        ),
    }
}

/// What one nginx-style config yields for a provider.
pub open spec fn nginx_file_view(
    provider: Seq<char>,
    path: Seq<char>,
    content: Seq<char>,
    agent_port: u16,
    pref: Option<Seq<char>>,
) -> Option<IngressView> {
    match nginx_scan(lines_of(content), (0u64, Seq::empty(), false, 80u16), agent_port, pref) {
        None => None,
        Some((hit, https, port)) => Some(
            (
                provider,
                hit.0,
                scheme_name(https),
                port,
                hit.1,
                hit.2,
                path,
                if provider == "npm"@ {
                    82u8
                } else {
                    90u8
                },
            ),
        ),
    }
}

/// What one container's labels yield.
pub open spec fn traefik_view(name: Seq<char>, labels: Seq<(Seq<char>, Seq<char>)>, agent_port: u16, pref: Option<
    Seq<char>,
>) -> Option<IngressView> {
    match traefik_match(labels, agent_port, pref) {
        None => None,
        Some((h, https)) => Some(
            (
                "traefik"@,
                h,
                scheme_name(https),
                if https {
                    443u16
                } else {
                    80u16
                },
                "127.0.0.1"@,
                agent_port,
                "docker://"@ + name,
                80u8,
            ),
        ),
    }
}

/// The first present value.
pub open spec fn first_some<V>(s: Seq<Option<V>>) -> Option<V>
    decreases s.len(),
{
    if s.len() == 0 {
        None
    } else if s[0] is Some {
        s[0]
    } else {
        first_some(s.drop_first())
    }
}

pub open spec fn file_views(files: Seq<(String, String)>) -> Seq<(Seq<char>, Seq<char>)> {
    files.map_values(|f: (String, String)| (f.0@, f.1@))
}

pub open spec fn caddy_views(files: Seq<(Seq<char>, Seq<char>)>, agent_port: u16, pref: Option<
    Seq<char>,
>) -> Seq<Option<IngressView>> {
    files.map_values(|f: (Seq<char>, Seq<char>)| caddy_file_view(f.0, f.1, agent_port, pref))
}

pub open spec fn nginx_views(
    provider: Seq<char>,
    files: Seq<(Seq<char>, Seq<char>)>,
    agent_port: u16,
    pref: Option<Seq<char>>,
) -> Seq<Option<IngressView>> {
    files.map_values(
        |f: (Seq<char>, Seq<char>)| nginx_file_view(provider, f.0, f.1, agent_port, pref),
    )
}

pub open spec fn container_views(containers: Seq<(String, Vec<(String, String)>)>) -> Seq<
    (Seq<char>, Seq<(Seq<char>, Seq<char>)>),
> {
    containers.map_values(|c: (String, Vec<(String, String)>)| (c.0@, label_views(c.1@)))
}

pub open spec fn traefik_views(
    containers: Seq<(Seq<char>, Seq<(Seq<char>, Seq<char>)>)>,
    agent_port: u16,
    pref: Option<Seq<char>>,
) -> Seq<Option<IngressView>> {
    containers.map_values(
        |c: (Seq<char>, Seq<(Seq<char>, Seq<char>)>)| traefik_view(c.0, c.1, agent_port, pref),
    )
}

/// The first Caddyfile, in order, that proxies to the agent port.
pub fn detect_caddy_ingress(files: &Vec<(String, String)>, agent_port: u16, preferred_hostname: Option<
    &str,
>) -> (r: Option<DetectedIngress>)
    ensures
        opt_ingress_view(r) == first_some(
            caddy_views(file_views(files@), agent_port, opt_str_view(preferred_hostname)),
        ),
{
    let ghost vs = caddy_views(file_views(files@), agent_port, opt_str_view(preferred_hostname));
    let mut i: usize = 0;
    assert(vs.skip(0) =~= vs);
    while i < files.len()
        invariant
            i <= files@.len(),
            vs == caddy_views(file_views(files@), agent_port, opt_str_view(preferred_hostname)),
            first_some(vs) == first_some(vs.skip(i as int)),
        decreases files@.len() - i,
    {
        assert(vs.skip(i as int)[0] == vs[i as int]);
        assert(vs.skip(i as int).drop_first() =~= vs.skip(i + 1));
        let d = parse_caddy_content(
            files[i].1.as_str(),
            files[i].0.clone(),
            agent_port,
            preferred_hostname,
        );
        if d.is_some() {
            return d;
        }
        i = i + 1;
    }
    assert(vs.skip(i as int) =~= Seq::<Option<IngressView>>::empty());
    None
}

/// The first nginx-style config, in order, that proxies to the agent port.
pub fn parse_nginx_like_paths(
    provider: &'static str,
    files: &Vec<(String, String)>,
    agent_port: u16,
    preferred_hostname: Option<&str>,
) -> (r: Option<DetectedIngress>)
    ensures
        opt_ingress_view(r) == first_some(
            nginx_views(provider@, file_views(files@), agent_port, opt_str_view(preferred_hostname)),
        ),
{
    let ghost vs = nginx_views(
        provider@,
        file_views(files@),
        agent_port,
        opt_str_view(preferred_hostname),
    );
    let mut i: usize = 0;
    assert(vs.skip(0) =~= vs);
    while i < files.len()
        invariant
            i <= files@.len(),
            vs == nginx_views(
                provider@,
                file_views(files@),
                agent_port,
                opt_str_view(preferred_hostname),
            ),
            first_some(vs) == first_some(vs.skip(i as int)),
        decreases files@.len() - i,
    {
        assert(vs.skip(i as int)[0] == vs[i as int]);
        assert(vs.skip(i as int).drop_first() =~= vs.skip(i + 1));
        let d = parse_nginx_like_content(
            provider,
            files[i].1.as_str(),
            files[i].0.clone(),
            agent_port,
            preferred_hostname,
        );
        if d.is_some() {
            return d;
        }
        i = i + 1;
    }
    assert(vs.skip(i as int) =~= Seq::<Option<IngressView>>::empty());
    None
}

/// The first container, in order, whose labels route to the agent port.
pub fn detect_traefik_ingress(
    containers: &Vec<(String, Vec<(String, String)>)>,
    agent_port: u16,
    preferred_hostname: Option<&str>,
) -> (r: Option<DetectedIngress>)
    ensures
        opt_ingress_view(r) == first_some(
            traefik_views(container_views(containers@), agent_port, opt_str_view(preferred_hostname)),
        ),
{
    let ghost vs = traefik_views(
        container_views(containers@),
        agent_port,
        opt_str_view(preferred_hostname),
    );
    let mut i: usize = 0;
    assert(vs.skip(0) =~= vs);
    while i < containers.len()
        invariant
            i <= containers@.len(),
            vs == traefik_views(
                container_views(containers@),
                agent_port,
                opt_str_view(preferred_hostname),
            ),
            first_some(vs) == first_some(vs.skip(i as int)),
        decreases containers@.len() - i,
    {
        assert(vs.skip(i as int)[0] == vs[i as int]);
        assert(vs.skip(i as int).drop_first() =~= vs.skip(i + 1));
        let d = traefik_candidate(
            containers[i].0.as_str(),
            &containers[i].1,
            agent_port,
            preferred_hostname,
        );
        if d.is_some() {
            return d;
        }
        i = i + 1;
    }
    assert(vs.skip(i as int) =~= Seq::<Option<IngressView>>::empty());
    None
}


/// Why ingress detection or configuration fails.
#[derive(Debug, Clone, PartialEq, Eq)]
pub enum IngressError {
    /// Reading a provider's configuration failed, with the reason.
    Read(String),
    /// The public host name is empty or has no dot.
    HostnameRequired,
    /// The provider cannot be configured automatically.
    UnsupportedProvider(String),
    /// nginx already serves the host name elsewhere.
    AlreadyConfigured { hostname: String, agent_port: u16 },
    /// No nginx site directory exists.
    NoNginxDirectories,
}

impl IngressError {
    pub open spec fn message_spec(self) -> Seq<char> {
        match self {
            IngressError::Read(m) => m@,
            IngressError::HostnameRequired =>
                "public hostname is required to configure public ingress"@,
            IngressError::UnsupportedProvider(p) =>
                "unsupported ingress provider for auto configuration: "@ + p@,
            IngressError::AlreadyConfigured { hostname, agent_port } => "hostname "@ + hostname@
                + " is already configured by nginx and does not point to 127.0.0.1:"@ + dec(
                agent_port as nat,
            ),
            IngressError::NoNginxDirectories =>
                "nginx config directories not found under /etc/nginx"@,
        }
    }

    pub fn message(&self) -> (r: String)
        ensures
            r@ == self.message_spec(),
    {
        let mut v: Vec<char> = Vec::new();
        match self {
            IngressError::Read(m) => push_str(&mut v, m.as_str()),
            IngressError::HostnameRequired => push_str(
                &mut v,
                "public hostname is required to configure public ingress",
            ),
            IngressError::UnsupportedProvider(p) => {
                push_str(&mut v, "unsupported ingress provider for auto configuration: ");
                push_str(&mut v, p.as_str());
            },
            IngressError::AlreadyConfigured { hostname, agent_port } => {
                push_str(&mut v, "hostname ");
                push_str(&mut v, hostname.as_str());
                push_str(&mut v, " is already configured by nginx and does not point to 127.0.0.1:");
                push_dec(&mut v, *agent_port as u64);
            },
            IngressError::NoNginxDirectories => push_str(
                &mut v,
                "nginx config directories not found under /etc/nginx",
            ),
        }
        assert(v@ =~= self.message_spec());
        string_of(v.as_slice())
    }
}

/// The configuration each provider's detector reads: the existing config
/// files as `(path, content)` pairs in search order, and the running
/// containers with their labels; or the reason reading failed.
pub struct IngressSources {
    pub caddy: Result<Vec<(String, String)>, String>,
    pub nginx: Result<Vec<(String, String)>, String>,
    pub traefik: Result<Vec<(String, Vec<(String, String)>)>, String>,
    pub npm: Result<Vec<(String, String)>, String>,
}

/// A provider name as given: trimmed and lower-cased, absent when empty.
pub open spec fn provider_filter(p: Option<Seq<char>>) -> Option<Seq<char>> {
    match p {
        Some(v) => if lower_seq(trim_ws(v)).len() > 0 {
            Some(lower_seq(trim_ws(v)))
        } else {
            None
        },
        None => None,
    }
}

/// A preferred host name as given: trimmed, without trailing dots,
/// lower-cased, absent when empty.
pub open spec fn hostname_preference(p: Option<Seq<char>>) -> Option<Seq<char>> {
    match p {
        Some(v) => if normalized_preference(v).len() > 0 {
            Some(normalized_preference(v))
        } else {
            None
        },
        None => None,
    }
}

/// The outcome of the detectors in order: the first that finds an ingress
/// wins. With a provider filter only that provider runs and its read
/// failure is the result; without one, a failing detector is skipped.
pub open spec fn detection(
    filter: Option<Seq<char>>,
    outcomes: Seq<(Seq<char>, Result<Option<IngressView>, Seq<char>>)>,
) -> Result<Option<IngressView>, Seq<char>>
    decreases outcomes.len(),
{
    if outcomes.len() == 0 {
        Ok(None)
    } else {
        let (name, res) = outcomes[0];
        let rest = outcomes.drop_first();
        if filter is Some && filter != Some(name) {
            detection(filter, rest)
        } else {
            match res {
                Ok(Some(v)) => Ok(Some(v)),
                Ok(None) => detection(filter, rest),
                Err(e) => if filter is None {
                    detection(filter, rest)
                } else {
                    Err(e)
                },
            }
        }
    }
}

/// What each detector yields for the sources.
pub open spec fn detector_outcomes(src: IngressSources, agent_port: u16, pref: Option<Seq<char>>) -> Seq<
    (Seq<char>, Result<Option<IngressView>, Seq<char>>),
> {
    seq![
        ("caddy"@, match src.caddy {
            Ok(f) => Ok(first_some(caddy_views(file_views(f@), agent_port, pref))),
            Err(e) => Err(e@),
        }),
        ("nginx"@, match src.nginx {
            Ok(f) => Ok(first_some(nginx_views("nginx"@, file_views(f@), agent_port, pref))),
            Err(e) => Err(e@),
        }),
        ("traefik"@, match src.traefik {
            Ok(c) => Ok(first_some(traefik_views(container_views(c@), agent_port, pref))),
            Err(e) => Err(e@),
        }),
        ("npm"@, match src.npm {
            Ok(f) => Ok(first_some(nginx_views("npm"@, file_views(f@), agent_port, pref))),
            Err(e) => Err(e@),
        }),
    ]
}

fn normalize_provider(p: Option<&str>) -> (r: Option<Vec<char>>)
    ensures
        match r {
            Some(v) => provider_filter(opt_str_view(p)) == Some(v@),
            None => provider_filter(opt_str_view(p)) is None,
        },
{
    match p {
        Some(v) => {
            let t = trim_str(v);
            let l = to_lower(t.as_slice());
            if l.len() > 0 {
                Some(l)
            } else {
                None
            }
        },
        None => None,
    }
}

fn normalize_hostname_preference(p: Option<&str>) -> (r: Option<String>)
    ensures
        match r {
            Some(s) => hostname_preference(opt_str_view(p)) == Some(s@),
            None => hostname_preference(opt_str_view(p)) is None,
        },
{
    match p {
        Some(v) => {
            let t = trim_str(v);
            let u = trim_end_matches_char(t.as_slice(), '.');
            let l = to_lower(u.as_slice());
            if l.len() > 0 {
                Some(string_of(l.as_slice()))
            } else {
                None
            }
        },
        None => None,
    }
}

/// One detector's step in [`detection`]: `None` to go on with the next.
fn detector_step(
    filter: &Option<Vec<char>>,
    name: &str,
    res: Result<Option<DetectedIngress>, &String>,
) -> (r: Option<Result<Option<DetectedIngress>, IngressError>>)
    ensures
        ({
            let fv = match filter {
                Some(f) => Some(f@),
                None => None,
            };
            let rv: Result<Option<IngressView>, Seq<char>> = match res {
                Ok(d) => Ok(opt_ingress_view(d)),
                Err(e) => Err(e@),
            };
            if fv is Some && fv != Some(name@) {
                r is None
            } else {
                match rv {
                    Ok(Some(v)) => r matches Some(Ok(Some(d))) && ingress_view(d) == v,
                    Ok(None) => r is None,
                    Err(e) => if fv is None {
                        r is None
                    } else {
                        r matches Some(Err(IngressError::Read(m))) && m@ == e
                    },
                }
            }
        }),
{
    match filter {
        Some(f) => {
            let n = chars_of(name);
            if !seq_eq(f.as_slice(), n.as_slice()) {
                return None;
            }
        },
        None => {},
    }
    match res {
        Ok(Some(d)) => Some(Ok(Some(d))),
        Ok(None) => None,
        Err(e) => {
            if filter.is_none() {
                None
            } else {
                Some(Err(IngressError::Read(e.clone())))
            }
        },
    }
}

/// Finds the public ingress in front of the agent port: Caddy, nginx,
/// Traefik, then nginx-proxy-manager, or only the requested provider.
pub fn detect_public_ingress(
    agent_port: u16,
    preferred_provider: Option<&str>,
    preferred_hostname: Option<&str>,
    sources: &IngressSources,
) -> (r: Result<Option<DetectedIngress>, IngressError>)
    ensures
        ({
            let expected = detection(
                provider_filter(opt_str_view(preferred_provider)),
                detector_outcomes(
                    *sources,
                    agent_port,
                    hostname_preference(opt_str_view(preferred_hostname)),
                ),
            );
            match r {
                Ok(d) => expected == Ok::<Option<IngressView>, Seq<char>>(opt_ingress_view(d)),
                Err(e) => e is Read && expected == Err::<Option<IngressView>, Seq<char>>(
                    e->Read_0@,
                ),
            }
        }),
{
    let filter = normalize_provider(preferred_provider);
    let pref_owned = normalize_hostname_preference(preferred_hostname);
    let pref: Option<&str> = match &pref_owned {
        Some(s) => Some(s.as_str()),
        None => None,
    };
    assert(opt_str_view(pref) == hostname_preference(opt_str_view(preferred_hostname)));
    let ghost fv = provider_filter(opt_str_view(preferred_provider));
    let ghost outs = detector_outcomes(
        *sources,
        agent_port,
        hostname_preference(opt_str_view(preferred_hostname)),
    );
    assert(outs.skip(1) =~= outs.drop_first());
    let caddy = match &sources.caddy {
        Ok(f) => Ok(detect_caddy_ingress(f, agent_port, pref)),
        Err(e) => Err(e),
    };
    assert(outs[0].0 == "caddy"@);
    assert(opt_str_view(pref) == hostname_preference(opt_str_view(preferred_hostname)));
    if let Some(res) = detector_step(&filter, "caddy", caddy) {
        return res;
    }
    assert(detection(fv, outs) == detection(fv, outs.skip(1)));
    assert(outs.drop_first().drop_first() =~= outs.skip(2));
    let nginx = match &sources.nginx {
        Ok(f) => Ok(parse_nginx_like_paths("nginx", f, agent_port, pref)),
        Err(e) => Err(e),
    };
    if let Some(res) = detector_step(&filter, "nginx", nginx) {
        return res;
    }
    assert(detection(fv, outs) == detection(fv, outs.skip(2)));
    assert(outs.skip(2).drop_first() =~= outs.skip(3));
    let traefik = match &sources.traefik {
        Ok(c) => Ok(detect_traefik_ingress(c, agent_port, pref)),
        Err(e) => Err(e),
    };
    if let Some(res) = detector_step(&filter, "traefik", traefik) {
        return res;
    }
    assert(detection(fv, outs) == detection(fv, outs.skip(3)));
    assert(outs.skip(3).drop_first() =~= outs.skip(4));
    let npm = match &sources.npm {
        Ok(f) => Ok(parse_nginx_like_paths("npm", f, agent_port, pref)),
        Err(e) => Err(e),
    };
    if let Some(res) = detector_step(&filter, "npm", npm) {
        return res;
    }
    assert(detection(fv, outs) == detection(fv, outs.skip(4)));
    assert(outs.skip(4) =~= Seq::<(Seq<char>, Result<Option<IngressView>, Seq<char>>)>::empty());
    Ok(None)
}


/// The provider to set up for a public host name.
#[derive(Debug, Clone, PartialEq, Eq)]
pub enum IngressPlan {
    Nginx { hostname: String },
    Npm { hostname: String },
}

/// Decides how to set up a public ingress for `public_hostname`: the
/// requested provider (nginx, nginx-proxy-manager; nothing for Caddy and
/// Traefik, which manage themselves), or without one nginx-proxy-manager
/// when its container runs, else nginx when installed, else nothing.
/// `npm_container` is whether that container runs, or why `docker` could
/// not tell.
pub fn configure_public_ingress(
    agent_port: u16,
    preferred_provider: Option<&str>,
    public_hostname: &str,
    npm_container: Result<bool, String>,
    nginx_installed: bool,
) -> (r: Result<Option<IngressPlan>, IngressError>)
    ensures
        ({
            let h = sanitized(public_hostname@);
            let f = provider_filter(opt_str_view(preferred_provider));
            if h.len() == 0 || !h.contains('.') {
                r == Err::<Option<IngressPlan>, IngressError>(IngressError::HostnameRequired)
            } else if f is Some {
                let p = f->0;
                if p == "nginx"@ {
                    r matches Ok(Some(IngressPlan::Nginx { hostname })) && hostname@ == h
                } else if p == "npm"@ {
                    r matches Ok(Some(IngressPlan::Npm { hostname })) && hostname@ == h
                } else if p == "caddy"@ || p == "traefik"@ {
                    r == Ok::<Option<IngressPlan>, IngressError>(None)
                } else {
                    r matches Err(IngressError::UnsupportedProvider(q)) && q@ == p
                }
            } else {
                match npm_container {
                    Err(e) => r == Err::<Option<IngressPlan>, IngressError>(IngressError::Read(e)),
                    Ok(true) => r matches Ok(Some(IngressPlan::Npm { hostname })) && hostname@ == h,
                    Ok(false) => if nginx_installed {
                        r matches Ok(Some(IngressPlan::Nginx { hostname })) && hostname@ == h
                    } else {
                        r == Ok::<Option<IngressPlan>, IngressError>(None)
                    },
                }
            }
        }),
{
    let c = chars_of(public_hostname);
    let h = sanitize_chars(c.as_slice());
    if h.len() == 0 || !contains_char(h.as_slice(), '.') {
        return Err(IngressError::HostnameRequired);
    }
    let hostname = string_of(h.as_slice());
    match normalize_provider(preferred_provider) {
        Some(p) => {
            let nginx = chars_of("nginx");
            let npm = chars_of("npm");
            let caddy = chars_of("caddy");
            let traefik = chars_of("traefik");
            if seq_eq(p.as_slice(), nginx.as_slice()) {
                Ok(Some(IngressPlan::Nginx { hostname }))
            } else if seq_eq(p.as_slice(), npm.as_slice()) {
                Ok(Some(IngressPlan::Npm { hostname }))
            } else if seq_eq(p.as_slice(), caddy.as_slice()) || seq_eq(
                p.as_slice(),
                traefik.as_slice(),
            ) {
                Ok(None)
            } else {
                Err(IngressError::UnsupportedProvider(string_of(p.as_slice())))
            }
        },
        None => match npm_container {
            Err(e) => Err(IngressError::Read(e)),
            Ok(true) => Ok(Some(IngressPlan::Npm { hostname })),
            Ok(false) => {
                if nginx_installed {
                    Ok(Some(IngressPlan::Nginx { hostname }))
                } else {
                    Ok(None)
                }
            },
        },
    }
}

/// The host name a public ingress is configured for: `public_hostname`
/// sanitized, which must be non-empty and hold a dot. This is the first
/// thing [`configure_public_ingress`] decides.
pub fn public_ingress_hostname(public_hostname: &str) -> (r: Result<String, IngressError>)
    ensures
        ({
            let h = sanitized(public_hostname@);
            if h.len() == 0 || !h.contains('.') {
                r == Err::<String, IngressError>(IngressError::HostnameRequired)
            } else {
                r matches Ok(s) && s@ == h
            }
        }),
{
    let c = chars_of(public_hostname);
    let h = sanitize_chars(c.as_slice());
    if h.len() == 0 || !contains_char(h.as_slice(), '.') {
        return Err(IngressError::HostnameRequired);
    }
    Ok(string_of(h.as_slice()))
}

/// The provider asked for, trimmed and lower-cased; none when blank.
pub fn ingress_provider(preferred_provider: Option<&str>) -> (r: Option<String>)
    ensures
        match r {
            Some(p) => provider_filter(opt_str_view(preferred_provider)) == Some(p@),
            None => provider_filter(opt_str_view(preferred_provider)) is None,
        },
{
    match normalize_provider(preferred_provider) {
        Some(p) => Some(string_of(p.as_slice())),
        None => None,
    }
}

/// Whether a provider was asked for, so that [`configure_public_ingress`]
/// does not look for running ones.
pub fn ingress_provider_requested(preferred_provider: Option<&str>) -> (r: bool)
    ensures
        r <==> provider_filter(opt_str_view(preferred_provider)) is Some,
{
    normalize_provider(preferred_provider).is_some()
}

/// An nginx server block already serving `hostname` (any local port).
pub fn detect_nginx_like_hostname(hostname: &str, files: &Vec<(String, String)>) -> (r: Option<
    DetectedIngress,
>)
    ensures
        sanitized(hostname@).len() == 0 ==> r is None,
        sanitized(hostname@).len() > 0 ==> opt_ingress_view(r) == first_some(
            nginx_views("nginx"@, file_views(files@), 0, Some(sanitized(hostname@))),
        ),
{
    let preferred = sanitize_host(hostname);
    if preferred.as_str().unicode_len() == 0 {
        return None;
    }
    parse_nginx_like_paths("nginx", files, 0, Some(preferred.as_str()))
}

/// How the managed nginx site is put in place.
#[derive(Debug, Clone)]
pub enum NginxSitePlan {
    /// nginx already serves the host name from the agent port.
    Existing(ConfiguredIngress),
    /// Write `content` to `config_path`, and link it from `symlink_path`.
    Write { config_path: String, symlink_path: Option<String>, content: String },
}

/// The file name of the managed site for a host name.
pub open spec fn site_file_name(hostname: Seq<char>) -> Seq<char> {
    "d1v-runtime-"@ + slug(hostname) + ".conf"@
}

/// Plans the managed nginx site for `hostname`: reuse the server block that
/// already serves it from the agent port on this machine, refuse one that
/// serves it elsewhere, else write the site under `sites-available` (linked
/// from `sites-enabled`) when both exist, or under `conf.d`.
pub fn nginx_site_plan(
    agent_port: u16,
    hostname: &str,
    existing: Option<DetectedIngress>,
    has_sites_dirs: bool,
    has_conf_d: bool,
) -> (r: Result<NginxSitePlan, IngressError>)
    ensures
        match existing {
            Some(c) => if c.upstream_port == agent_port && local_host(c.upstream_host@) {
                r matches Ok(NginxSitePlan::Existing(ci)) && ci.provider@ == "nginx"@ && ci.hostname@
                    == hostname@ && ci.config_path@ == c.config_path@
            } else {
                r matches Err(IngressError::AlreadyConfigured { hostname: h, agent_port: p }) && h@
                    == hostname@ && p == agent_port
            },
            None => if has_sites_dirs {
                r matches Ok(NginxSitePlan::Write { config_path, symlink_path, content })
                    && config_path@ == "/etc/nginx/sites-available/"@ + site_file_name(hostname@)
                    && symlink_path is Some && symlink_path->0@ == "/etc/nginx/sites-enabled/"@
                    + site_file_name(hostname@) && content@ == nginx_site(hostname@, agent_port)
            } else if has_conf_d {
                r matches Ok(NginxSitePlan::Write { config_path, symlink_path, content })
                    && config_path@ == "/etc/nginx/conf.d/"@ + site_file_name(hostname@)
                    && symlink_path is None && content@ == nginx_site(hostname@, agent_port)
            } else {
                r == Err::<NginxSitePlan, IngressError>(IngressError::NoNginxDirectories)
            },
        },
{
    match existing {
        Some(c) => {
            if c.upstream_port == agent_port && is_local_host(c.upstream_host.as_str()) {
                return Ok(
                    NginxSitePlan::Existing(
                        ConfiguredIngress {
                            provider: "nginx",
                            hostname: hostname.to_owned(),
                            config_path: c.config_path,
                        },
                    ),
                );
            }
            return Err(
                IngressError::AlreadyConfigured { hostname: hostname.to_owned(), agent_port },
            );
        },
        None => {},
    }
    let slug_text = safe_file_slug(hostname);
    let mut file: Vec<char> = Vec::new();
    push_str(&mut file, "d1v-runtime-");
    push_str(&mut file, slug_text.as_str());
    push_str(&mut file, ".conf");
    assert(file@ =~= site_file_name(hostname@));
    let content = render_managed_nginx_config(hostname, agent_port);
    if has_sites_dirs {
        let mut a: Vec<char> = Vec::new();
        push_str(&mut a, "/etc/nginx/sites-available/");
        push_all(&mut a, file.as_slice());
        let mut l: Vec<char> = Vec::new();
        push_str(&mut l, "/etc/nginx/sites-enabled/");
        push_all(&mut l, file.as_slice());
        Ok(
            NginxSitePlan::Write {
                config_path: string_of(a.as_slice()),
                symlink_path: Some(string_of(l.as_slice())),
                content,
            },
        )
    } else if has_conf_d {
        let mut a: Vec<char> = Vec::new();
        push_str(&mut a, "/etc/nginx/conf.d/");
        push_all(&mut a, file.as_slice());
        Ok(NginxSitePlan::Write { config_path: string_of(a.as_slice()), symlink_path: None, content })
    } else {
        Err(IngressError::NoNginxDirectories)
    }
}

/// The one-line JSON of `node ingress detect --json`, keys sorted as
/// `serde_json` writes them; `origin` is the candidate's public origin.
pub open spec fn detect_json_text(found: Option<DetectedIngress>, origin: Seq<char>) -> Seq<char> {
    match found {
        Some(c) => "{\"config_path\":"@ + crate::relay::json_string_literal(c.config_path@)
            + ",\"confidence\":"@ + dec(c.confidence as nat) + ",\"detected\":true,\"external_port\":"@
            + dec(c.external_port as nat) + ",\"hostname\":"@ + crate::relay::json_string_literal(c.hostname@)
            + ",\"origin\":"@ + crate::relay::json_string_literal(origin) + ",\"provider\":"@
            + crate::relay::json_string_literal(c.provider@) + ",\"scheme\":"@
            + crate::relay::json_string_literal(c.scheme@) + ",\"upstream_host\":"@
            + crate::relay::json_string_literal(c.upstream_host@) + ",\"upstream_port\":"@
            + dec(c.upstream_port as nat) + "}"@,
        None => "{\"detected\":false}"@,
    }
}

fn push_json_str(v: &mut Vec<char>, s: &str)
    ensures
        final(v)@ == old(v)@ + crate::relay::json_string_literal(s@),
{
    let q = crate::relay::json_string(s);
    push_str(v, q.as_str());
}

pub fn detect_json(found: &Option<DetectedIngress>, origin: &str) -> (r: String)
    ensures
        r@ == detect_json_text(*found, origin@),
{
    match found {
        Some(c) => {
            let mut v: Vec<char> = Vec::new();
            push_str(&mut v, "{\"config_path\":");
            push_json_str(&mut v, c.config_path.as_str());
            push_str(&mut v, ",\"confidence\":");
            push_dec(&mut v, c.confidence as u64);
            push_str(&mut v, ",\"detected\":true,\"external_port\":");
            push_dec(&mut v, c.external_port as u64);
            push_str(&mut v, ",\"hostname\":");
            push_json_str(&mut v, c.hostname.as_str());
            push_str(&mut v, ",\"origin\":");
            push_json_str(&mut v, origin);
            push_str(&mut v, ",\"provider\":");
            push_json_str(&mut v, c.provider);
            push_str(&mut v, ",\"scheme\":");
            push_json_str(&mut v, c.scheme.as_str());
            push_str(&mut v, ",\"upstream_host\":");
            push_json_str(&mut v, c.upstream_host.as_str());
            push_str(&mut v, ",\"upstream_port\":");
            push_dec(&mut v, c.upstream_port as u64);
            push_str(&mut v, "}");
            assert(v@ =~= detect_json_text(*found, origin@));
            string_of(v.as_slice())
        },
        None => "{\"detected\":false}".to_owned(),
    }
}

/// The one-line JSON of `node ingress configure --json`.
pub open spec fn configure_json_text(c: ConfiguredIngress) -> Seq<char> {
    "{\"config_path\":"@ + crate::relay::json_string_literal(c.config_path@) + ",\"configured\":true,\"hostname\":"@
        + crate::relay::json_string_literal(c.hostname@) + ",\"provider\":"@
        + crate::relay::json_string_literal(c.provider@) + "}"@
}

pub fn configure_json(c: &ConfiguredIngress) -> (r: String)
    ensures
        r@ == configure_json_text(*c),
{
    let mut v: Vec<char> = Vec::new();
    push_str(&mut v, "{\"config_path\":");
    push_json_str(&mut v, c.config_path.as_str());
    push_str(&mut v, ",\"configured\":true,\"hostname\":");
    push_json_str(&mut v, c.hostname.as_str());
    push_str(&mut v, ",\"provider\":");
    push_json_str(&mut v, c.provider);
    push_str(&mut v, "}");
    assert(v@ =~= configure_json_text(*c));
    string_of(v.as_slice())
}

/// A bind mount of a container, as `docker inspect` reports it (a field
/// missing there reads as empty).
#[derive(Clone, Debug)]
pub struct DockerMount {
    pub source: String,
    pub destination: String,
}

/// `source` joined with a relative path, one `/` between them.
pub open spec fn path_join(source: Seq<char>, rel: Seq<char>) -> Seq<char> {
    if source.len() > 0 && source.last() == '/' {
        source + rel
    } else {
        source + "/"@ + rel
    }
}

/// Where nginx-proxy-manager keeps its proxy hosts, by mount: a mount of
/// `/data` holds them under `nginx/proxy_host`, a mount of
/// `/data/nginx/proxy_host` is the directory itself; mounts without a
/// source are skipped.
pub open spec fn npm_paths_spec(mounts: Seq<DockerMount>) -> Seq<Seq<char>>
    decreases mounts.len(),
{
    if mounts.len() == 0 {
        Seq::empty()
    } else {
        let rest = npm_paths_spec(mounts.drop_last());
        let m = mounts.last();
        if m.source@.len() == 0 {
            rest
        } else if m.destination@ == "/data"@ {
            rest.push(path_join(m.source@, "nginx/proxy_host"@))
        } else if m.destination@ == "/data/nginx/proxy_host"@ {
            rest.push(m.source@)
        } else {
            rest
        }
    }
}

pub fn npm_proxy_host_paths(mounts: &Vec<DockerMount>) -> (r: Vec<String>)
    ensures
        crate::view::string_texts(r@) == npm_paths_spec(mounts@),
{
    let mut out: Vec<String> = Vec::new();
    let mut i: usize = 0;
    while i < mounts.len()
        invariant
            i <= mounts@.len(),
            crate::view::string_texts(out@) == npm_paths_spec(mounts@.take(i as int)),
        decreases mounts@.len() - i,
    {
        let m = &mounts[i];
        assert(mounts@.take(i + 1).drop_last() =~= mounts@.take(i as int));
        assert(mounts@.take(i + 1).last() == mounts@[i as int]);
        let src = chars_of(m.source.as_str());
        if src.len() > 0 {
            if crate::strs::str_eq(m.destination.as_str(), "/data") {
                let mut v = src;
                proof {
                    reveal_strlit("/");
                }
                if v[v.len() - 1] != '/' {
                    v.push('/');
                }
                push_str(&mut v, "nginx/proxy_host");
                assert(v@ =~= path_join(m.source@, "nginx/proxy_host"@));
                let ghost before = out@;
                out.push(string_of(v.as_slice()));
                assert(crate::view::string_texts(out@) =~= crate::view::string_texts(before).push(
                    path_join(m.source@, "nginx/proxy_host"@),
                ));
            } else if crate::strs::str_eq(m.destination.as_str(), "/data/nginx/proxy_host") {
                let ghost before = out@;
                out.push(m.source.clone());
                assert(crate::view::string_texts(out@) =~= crate::view::string_texts(before).push(m.source@));
            }
        }
        i = i + 1;
    }
    assert(mounts@.take(mounts@.len() as int) =~= mounts@);
    out
}

/// The script run inside the nginx-proxy-manager container, before the
/// host name.
pub const NPM_SCRIPT_HEAD: &'static str = "\nimport proxyHostModel from \"./models/proxy_host.js\";\nimport userModel from \"./models/user.js\";\nimport internalHost from \"./internal/host.js\";\nimport internalNginx from \"./internal/nginx.js\";\n\nconst HOSTNAME = ";

/// The script between the host name and the agent port.
pub const NPM_SCRIPT_MIDDLE: &'static str = ";\nconst TARGET = {\n  forward_host: \"127.0.0.1\",\n  forward_port: ";

/// The script after the agent port: it finds the proxy host for the name
/// (refusing one that this tool does not manage and that points
/// elsewhere), creates or updates it, regenerates its configuration and
/// prints its id, host name and configuration path as JSON.
pub const NPM_SCRIPT_TAIL: &'static str = ",\n  forward_scheme: \"http\",\n};\n\nconst allHosts = await proxyHostModel.query().where(\"is_deleted\", 0);\nlet existing = allHosts.find((item) =>\n  Array.isArray(item.domain_names) &&\n  item.domain_names.some((value) => String(value || \"\").toLowerCase() === HOSTNAME.toLowerCase())\n);\n\nif (existing) {\n  const ownedByD1v = existing.meta && existing.meta.d1v_managed === true;\n  const alreadyMatches =\n    String(existing.forward_host || \"\") === TARGET.forward_host &&\n    Number(existing.forward_port || 0) === TARGET.forward_port &&\n    String(existing.forward_scheme || \"\") === TARGET.forward_scheme;\n  if (!ownedByD1v && !alreadyMatches) {\n    throw new Error(`hostname ${HOSTNAME} already exists in nginx-proxy-manager and is not managed by d1v`);\n  }\n}\n\nif (!existing) {\n  const taken = await internalHost.isHostnameTaken(HOSTNAME);\n  if (taken.is_taken) {\n    throw new Error(`hostname ${HOSTNAME} is already taken in nginx-proxy-manager`);\n  }\n  const owner = await userModel.query().where(\"is_deleted\", 0).orderBy(\"id\", \"asc\").first();\n  if (!owner) {\n    throw new Error(\"no nginx-proxy-manager owner user found\");\n  }\n  existing = await proxyHostModel.query().insertAndFetch({\n    owner_user_id: owner.id,\n    domain_names: [HOSTNAME],\n    forward_host: TARGET.forward_host,\n    forward_port: TARGET.forward_port,\n    forward_scheme: TARGET.forward_scheme,\n    access_list_id: 0,\n    certificate_id: 0,\n    ssl_forced: false,\n    caching_enabled: false,\n    block_exploits: false,\n    allow_websocket_upgrade: true,\n    http2_support: false,\n    enabled: true,\n    hsts_enabled: false,\n    hsts_subdomains: false,\n    trust_forwarded_proto: false,\n    advanced_config: \"\",\n    locations: [],\n    meta: {\n      d1v_managed: true,\n      d1v_target: `${TARGET.forward_host}:${TARGET.forward_port}`,\n    },\n  });\n} else {\n  await proxyHostModel.query().where(\"id\", existing.id).patch({\n    forward_host: TARGET.forward_host,\n    forward_port: TARGET.forward_port,\n    forward_scheme: TARGET.forward_scheme,\n    allow_websocket_upgrade: true,\n    enabled: true,\n    meta: {\n      ...(existing.meta || {}),\n      d1v_managed: true,\n      d1v_target: `${TARGET.forward_host}:${TARGET.forward_port}`,\n    },\n  });\n}\n\nconst row = await proxyHostModel\n  .query()\n  .where(\"id\", existing.id)\n  .allowGraph(proxyHostModel.defaultAllowGraph)\n  .withGraphFetched(`[${proxyHostModel.defaultExpand.join(\", \")}]`)\n  .first();\n\nawait internalNginx.configure(proxyHostModel, \"proxy_host\", row);\nconsole.log(JSON.stringify({\n  id: row.id,\n  hostname: HOSTNAME,\n  config_path: `/data/nginx/proxy_host/${row.id}.conf`,\n}));\n";

/// The script that points nginx-proxy-manager's host `hostname` at the
/// agent: the host name as a JSON string and the port in decimal set into
/// the script.
pub open spec fn npm_upsert_script_text(hostname: Seq<char>, agent_port: u16) -> Seq<char> {
    NPM_SCRIPT_HEAD@ + crate::relay::json_string_literal(hostname) + NPM_SCRIPT_MIDDLE@ + dec(agent_port as nat)
        + NPM_SCRIPT_TAIL@
}

pub fn build_npm_upsert_script(hostname: &str, agent_port: u16) -> (r: String)
    ensures
        r@ == npm_upsert_script_text(hostname@, agent_port),
{
    let mut v: Vec<char> = Vec::new();
    push_str(&mut v, NPM_SCRIPT_HEAD);
    push_json_str(&mut v, hostname);
    push_str(&mut v, NPM_SCRIPT_MIDDLE);
    push_dec(&mut v, agent_port as u64);
    push_str(&mut v, NPM_SCRIPT_TAIL);
    string_of(v.as_slice())
}

/// The ingress nginx-proxy-manager configured: the configuration path it
/// printed, or `docker://nginx-proxy-manager` when it printed none.
pub fn npm_configured(hostname: &str, config_path: Option<String>) -> (r: ConfiguredIngress)
    ensures
        r.provider@ == "npm"@,
        r.hostname@ == hostname@,
        r.config_path@ == match config_path {
            Some(p) => p@,
            None => "docker://nginx-proxy-manager"@,
        },
{
    let config_path = match config_path {
        Some(p) => p,
        None => "docker://nginx-proxy-manager".to_owned(),
    };
    ConfiguredIngress { provider: "npm", hostname: hostname.to_owned(), config_path }
}

/// The public origin of a detected ingress: its scheme and host name, with
/// the external port unless it is the scheme's usual one (443 for https,
/// 80 for http).
pub open spec fn origin_text(c: DetectedIngress) -> Seq<char> {
    let default_port = (c.scheme@ == "https"@ && c.external_port == 443) || (c.scheme@ == "http"@
        && c.external_port == 80);
    c.scheme@ + "://"@ + c.hostname@ + if default_port {
        Seq::empty()
    } else {
        ":"@ + dec(c.external_port as nat)
    }
}

pub fn origin(c: &DetectedIngress) -> (r: String)
    ensures
        r@ == origin_text(*c),
{
    let mut v = chars_of(c.scheme.as_str());
    push_str(&mut v, "://");
    push_str(&mut v, c.hostname.as_str());
    let default_port = (crate::strs::str_eq(c.scheme.as_str(), "https") && c.external_port == 443) || (
    crate::strs::str_eq(c.scheme.as_str(), "http") && c.external_port == 80);
    if !default_port {
        push_str(&mut v, ":");
        push_dec(&mut v, c.external_port as u64);
    }
    assert(v@ =~= origin_text(*c));
    string_of(v.as_slice())
}

} // verus!
