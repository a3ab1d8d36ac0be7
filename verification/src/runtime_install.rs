//! Installing and upgrading the `opcode-api` runtime binary: release
//! selection, version comparison, checksum lists and URLs. Downloading,
//! unpacking and writing files is the caller's part.
use crate::node::ingress::piece_views;
use crate::strs::{
    chars_of, has_prefix, lines, lines_of, lower_seq, push_str, seq_eq, split_whitespace,
    starts_with_str, string_of, to_lower, trim, trim_start_char, trim_start_matches_char, trim_ws,
    words,
};
use vstd::prelude::*;

verus! {

pub const DEFAULT_RUNTIME_REPO: &'static str = "d1vai/opcode-api-runtime";

pub const RUNTIME_ARCHIVE_BASENAME: &'static str = "opcode-api";

pub const RUNTIME_CHECKSUM_FILE: &'static str = "checksums.txt";

/// Arguments of `d1v runtime install`.
#[derive(Debug, Clone)]
pub struct InstallRuntimeArgs {
    /// Only check whether the runtime is available and compatible
    pub check: bool,
    /// Install a specific release tag instead of the latest release
    pub version: Option<String>,
    /// Override install destination for opcode-api binary
    pub destination: Option<String>,
}

/// Arguments of `d1v runtime upgrade`.
#[derive(Debug, Clone)]
pub struct UpgradeRuntimeArgs {
    /// Install a specific release tag instead of the latest release
    pub version: Option<String>,
}

/// Arguments of `d1v runtime doctor`.
#[derive(Debug, Clone)]
pub struct DoctorArgs {}

/// Why a runtime operation fails.
#[derive(Debug, Clone, PartialEq, Eq)]
pub enum RuntimeError {
    UnsupportedArchitecture(String),
    UnsupportedOs(String),
    InvalidUrl(String),
    MissingAsset(String),
    MissingChecksum(String),
    ChecksumMismatch { archive_name: String, source_label: String },
}

/// What the checksum list says of an archive: the first line whose second
/// word (without a leading `*`) is the archive name gives its first word.
pub open spec fn checksum_for(lines: Seq<Seq<char>>, archive_name: Seq<char>) -> Option<Seq<char>>
    decreases lines.len(),
{
    if lines.len() == 0 {
        None
    } else {
        let w = words(lines[0]);
        if w.len() >= 2 && trim_start_char(w[1], '*') == archive_name {
            Some(w[0])
        } else {
            checksum_for(lines.drop_first(), archive_name)
        }
    }
}

/// The checksum a `checksums.txt` body lists for an archive.
pub fn parse_checksum(body: &str, archive_name: &str) -> (r: Option<String>)
    ensures
        match r {
            Some(c) => checksum_for(lines_of(body@), archive_name@) == Some(c@),
            None => checksum_for(lines_of(body@), archive_name@) is None,
        },
{
    let bc = chars_of(body);
    let ls = lines(bc.as_slice());
    let name = chars_of(archive_name);
    let ghost all = lines_of(body@);
    let mut i: usize = 0;
    assert(all.skip(0) =~= all);
    while i < ls.len()
        invariant
            i <= ls@.len(),
            ls@.len() == all.len(),
            all == lines_of(body@),
            name@ == archive_name@,
            forall|j: int| 0 <= j < ls@.len() ==> #[trigger] ls@[j]@ == all[j],
            checksum_for(all, archive_name@) == checksum_for(all.skip(i as int), archive_name@),
        decreases ls@.len() - i,
    {
        assert(all.skip(i as int)[0] == all[i as int]);
        assert(all.skip(i as int).drop_first() =~= all.skip(i + 1));
        let w = split_whitespace(ls[i].as_slice());
        assert(piece_views(w@) =~= words(ls@[i as int]@));
        if w.len() >= 2 {
            let n = trim_start_matches_char(w[1].as_slice(), '*');
            if seq_eq(n.as_slice(), name.as_slice()) {
                return Some(string_of(w[0].as_slice()));
            }
        }
        i = i + 1;
    }
    assert(all.skip(i as int) =~= Seq::<Seq<char>>::empty());
    None
}

/// A version without its leading `v`/`V` characters.
pub open spec fn version_core(v: Seq<char>) -> Seq<char>
    decreases v.len(),
{
    if v.len() > 0 && (v[0] == 'v' || v[0] == 'V') {
        version_core(v.drop_first())
    } else {
        v
    }
}

fn version_core_chars(v: &[char]) -> (r: Vec<char>)
    ensures
        r@ == version_core(v@),
{
    let mut i: usize = 0;
    assert(v@.skip(0) =~= v@);
    while i < v.len() && (v[i] == 'v' || v[i] == 'V')
        invariant
            i <= v@.len(),
            version_core(v@) == version_core(v@.skip(i as int)),
        decreases v@.len() - i,
    {
        assert(v@.skip(i as int).drop_first() =~= v@.skip(i + 1));
        i = i + 1;
    }
    let r = crate::strs::slice_vec(v, i, v.len());
    assert(r@ =~= v@.skip(i as int));
    r
}

/// The version with its leading `v`/`V` characters removed.
pub fn normalize_version(version: &str) -> (r: String)
    ensures
        r@ == version_core(version@),
{
    let c = chars_of(version);
    let v = version_core_chars(c.as_slice());
    string_of(v.as_slice())
}

/// A release tag: the trimmed version, with a `v` put in front unless it
/// starts with `v` or `V`.
pub open spec fn tag_of(version: Seq<char>) -> Seq<char> {
    let t = trim_ws(version);
    if t.len() > 0 && (t[0] == 'v' || t[0] == 'V') {
        t
    } else {
        seq!['v'] + t
    }
}

/// The release tag for a version (see [`tag_of`]).
pub fn normalize_tag(version: &str) -> (r: String)
    ensures
        r@ == tag_of(version@),
{
    let t = crate::strs::trim_str(version);
    if t.len() > 0 && (t[0] == 'v' || t[0] == 'V') {
        string_of(t.as_slice())
    } else {
        let mut v: Vec<char> = Vec::new();
        v.push('v');
        crate::strs::push_all(&mut v, t.as_slice());
        string_of(v.as_slice())
    }
}

/// Whether two versions are the same once the `v` prefix is dropped.
pub fn versions_match(current: &str, target: &str) -> (r: bool)
    ensures
        r == (version_core(current@) == version_core(target@)),
{
    let a = version_core_chars(chars_of(current).as_slice());
    let b = version_core_chars(chars_of(target).as_slice());
    seq_eq(a.as_slice(), b.as_slice())
}

/// What `semver` says of two version strings: `Some(latest > current)`
/// when both parse as semantic versions, `None` otherwise.
pub uninterp spec fn semver_newer(current: Seq<char>, latest: Seq<char>) -> Option<bool>;

/// `semver::Version::parse` of both strings and, when both parse, the
/// `Ord` comparison `latest > current`; the result is named
/// [`semver_newer`]. A version is never newer than itself.
#[verifier::external_body]
fn semver_compare(current: &str, latest: &str) -> (r: Option<bool>)
    ensures
        r == semver_newer(current@, latest@),
        current@ == latest@ ==> r != Some(true),
{
    match (semver::Version::parse(current), semver::Version::parse(latest)) {
        (Ok(c), Ok(l)) => Some(l > c),
        _ => None,
    }
}

/// Whether `latest` is an upgrade of `current`: by semantic-version order
/// when both parse, else whenever they differ.
pub open spec fn upgrade_available(current: Seq<char>, latest: Seq<char>) -> bool {
    let c = version_core(current);
    let l = version_core(latest);
    match semver_newer(c, l) {
        Some(b) => b,
        None => l != c,
    }
}

pub fn is_upgrade_available(current: &str, latest: &str) -> (r: bool)
    ensures
        r == upgrade_available(current@, latest@),
{
    let c = normalize_version(current);
    let l = normalize_version(latest);
    match semver_compare(c.as_str(), l.as_str()) {
        Some(b) => b,
        None => !seq_eq(chars_of(c.as_str()).as_slice(), chars_of(l.as_str()).as_slice()),
    }
}

/// Whether the target must be installed over the current version: any
/// other version when one was asked for, else only an upgrade.
pub open spec fn install_required(current: Seq<char>, target: Seq<char>, explicit_version: bool) -> bool {
    if explicit_version {
        version_core(current) != version_core(target)
    } else {
        upgrade_available(current, target)
    }
}

pub fn requires_install(current: &str, target: &str, explicit_version: bool) -> (r: bool)
    ensures
        r == install_required(current@, target@, explicit_version),
{
    if explicit_version {
        !versions_match(current, target)
    } else {
        is_upgrade_available(current, target)
    }
}

/// Reinstalling what is installed is never required.
pub proof fn lemma_same_version_needs_no_install(v: Seq<char>, explicit_version: bool)
    requires
        semver_newer(version_core(v), version_core(v)) != Some(true),
    ensures
        !install_required(v, v, explicit_version),
{
}

/// What an install run does.
#[derive(Debug, Clone, Copy, PartialEq, Eq, Structural)]
pub enum InstallStep {
    /// The installed version is current.
    UpToDate,
    /// An install is due, but only a check was asked for.
    Available,
    /// Install the target.
    Install,
}

/// Decides an install run from the installed version (if any), the target,
/// whether a version was asked for, and whether only a check was asked.
pub fn install_step(current: Option<&str>, target: &str, explicit_version: bool, check: bool) -> (r:
    InstallStep)
    ensures
        ({
            let needed = match current {
                Some(c) => install_required(c@, target@, explicit_version),
                None => true,
            };
            r == (if !needed {
                InstallStep::UpToDate
            } else if check {
                InstallStep::Available
            } else {
                InstallStep::Install
            })
        }),
{
    let needed = match current {
        Some(c) => requires_install(c, target, explicit_version),
        None => true,
    };
    if !needed {
        InstallStep::UpToDate
    } else if check {
        InstallStep::Available
    } else {
        InstallStep::Install
    }
}

/// The version an update would install: the latest release when nothing is
/// installed or the latest is an upgrade.
pub fn available_runtime_update(current: Option<&str>, latest: &str) -> (r: Option<String>)
    ensures
        match current {
            None => r matches Some(v) && v@ == latest@,
            Some(c) => if install_required(c@, latest@, false) {
                r matches Some(v) && v@ == latest@
            } else {
                r is None
            },
        },
{
    match current {
        None => Some(latest.to_owned()),
        Some(c) => {
            if requires_install(c, latest, false) {
                Some(latest.to_owned())
            } else {
                None
            }
        },
    }
}

/// The release target for an architecture and operating system (as
/// `std::env::consts` name them).
pub open spec fn target_triple(arch: Seq<char>, os: Seq<char>) -> Option<Seq<char>> {
    let a = if arch == "x86_64"@ {
        Some("x86_64"@)
    } else if arch == "aarch64"@ || arch == "arm64"@ {
        Some("aarch64"@)
    } else {
        None
    };
    let o = if os == "macos"@ {
        Some("apple-darwin"@)
    } else if os == "linux"@ {
        Some("unknown-linux-musl"@)
    } else {
        None
    };
    match (a, o) {
        (Some(x), Some(y)) => Some(x + seq!['-'] + y),
        _ => None,
    }
}

/// Architecture law: `aarch64` and `arm64` name the same machines, so they
/// pick the same release target on every operating system, and that target
/// is an `aarch64-` one; `x86_64` targets are `x86_64-` ones. Linux and
/// macOS have a target for both architectures.
pub proof fn lemma_target_architectures(os: Seq<char>)
    ensures
        target_triple("aarch64"@, os) == target_triple("arm64"@, os),
        target_triple("aarch64"@, os) matches Some(t) ==> has_prefix(t, "aarch64-"@),
        target_triple("x86_64"@, os) matches Some(t) ==> has_prefix(t, "x86_64-"@),
        os == "linux"@ ==> target_triple("aarch64"@, os) == Some("aarch64-unknown-linux-musl"@)
            && target_triple("x86_64"@, os) == Some("x86_64-unknown-linux-musl"@),
        os == "macos"@ ==> target_triple("aarch64"@, os) == Some("aarch64-apple-darwin"@)
            && target_triple("x86_64"@, os) == Some("x86_64-apple-darwin"@),
{
    reveal_strlit("aarch64");
    reveal_strlit("arm64");
    reveal_strlit("x86_64");
    reveal_strlit("aarch64-");
    reveal_strlit("x86_64-");
    reveal_strlit("macos");
    reveal_strlit("linux");
    reveal_strlit("apple-darwin");
    reveal_strlit("unknown-linux-musl");
    reveal_strlit("aarch64-unknown-linux-musl");
    reveal_strlit("x86_64-unknown-linux-musl");
    reveal_strlit("aarch64-apple-darwin");
    reveal_strlit("x86_64-apple-darwin");
    assert("aarch64"@[0] != "x86_64"@[0]);
    assert("arm64"@[0] != "x86_64"@[0]);
    assert("linux"@[0] != "macos"@[0]);
    assert("aarch64"@ != "x86_64"@);
    assert("arm64"@ != "x86_64"@);
    assert("aarch64"@ + seq!['-'] + "unknown-linux-musl"@ =~= "aarch64-unknown-linux-musl"@);
    assert("x86_64"@ + seq!['-'] + "unknown-linux-musl"@ =~= "x86_64-unknown-linux-musl"@);
    assert("aarch64"@ + seq!['-'] + "apple-darwin"@ =~= "aarch64-apple-darwin"@);
    assert("x86_64"@ + seq!['-'] + "apple-darwin"@ =~= "x86_64-apple-darwin"@);
    match target_triple("aarch64"@, os) {
        Some(t) => {
            assert(t.subrange(0, 8) =~= "aarch64-"@);
        },
        None => {},
    }
    match target_triple("x86_64"@, os) {
        Some(t) => {
            assert(t.subrange(0, 7) =~= "x86_64-"@);
        },
        None => {},
    }
}

fn str_is(a: &str, b: &str) -> (r: bool)
    ensures
        r == (a@ == b@),
{
    seq_eq(chars_of(a).as_slice(), chars_of(b).as_slice())
}

/// The release target for this machine; an unknown architecture is
/// reported before an unknown operating system.
pub fn current_target(arch: &str, os: &str) -> (r: Result<String, RuntimeError>)
    ensures
        match r {
            Ok(t) => target_triple(arch@, os@) == Some(t@),
            Err(RuntimeError::UnsupportedArchitecture(a)) => a@ == arch@ && !(arch@ == "x86_64"@
                || arch@ == "aarch64"@ || arch@ == "arm64"@),
            Err(RuntimeError::UnsupportedOs(o)) => o@ == os@ && (arch@ == "x86_64"@ || arch@
                == "aarch64"@ || arch@ == "arm64"@) && !(os@ == "macos"@ || os@ == "linux"@),
            Err(_) => false,
        },
        target_triple(arch@, os@) is Some ==> r is Ok,
{
    let a = if str_is(arch, "x86_64") {
        "x86_64"
    } else if str_is(arch, "aarch64") || str_is(arch, "arm64") {
        "aarch64"
    } else {
        return Err(RuntimeError::UnsupportedArchitecture(arch.to_owned()));
    };
    let o = if str_is(os, "macos") {
        "apple-darwin"
    } else if str_is(os, "linux") {
        "unknown-linux-musl"
    } else {
        return Err(RuntimeError::UnsupportedOs(os.to_owned()));
    };
    let mut v: Vec<char> = Vec::new();
    push_str(&mut v, a);
    v.push('-');
    push_str(&mut v, o);
    assert(v@ =~= target_triple(arch@, os@)->0);
    Ok(string_of(v.as_slice()))
}

/// What `url` gives for `Url::parse(base)?.join(value)`, as text, or the
/// parse error's message.
pub uninterp spec fn url_joined(base: Seq<char>, value: Seq<char>) -> Result<Seq<char>, Seq<char>>;

/// `url::Url::parse(base)` then `Url::join(value)`, rendered with
/// `to_string`; the result (or the error's message) is named [`url_joined`].
#[verifier::external_body]
fn url_join(base: &str, value: &str) -> (r: Result<String, String>)
    ensures
        match r {
            Ok(s) => url_joined(base@, value@) == Ok::<Seq<char>, Seq<char>>(s@),
            Err(e) => url_joined(base@, value@) == Err::<Seq<char>, Seq<char>>(e@),
        },
{
    match url::Url::parse(base) {
        Ok(b) => match b.join(value) {
            Ok(u) => Ok(u.to_string()),
            Err(e) => Err(e.to_string()),
        },
        Err(e) => Err(e.to_string()),
    }
}

/// An absolute `http(s)` URL is taken as it is; anything else is resolved
/// against the manifest URL.
pub fn resolve_url(base: &str, value: &str) -> (r: Result<String, RuntimeError>)
    ensures
        if has_prefix(value@, "http://"@) || has_prefix(value@, "https://"@) {
            r matches Ok(s) && s@ == value@
        } else {
            match url_joined(base@, value@) {
                Ok(s) => r matches Ok(t) && t@ == s,
                Err(e) => r matches Err(RuntimeError::InvalidUrl(m)) && m@ == e,
            }
        },
{
    let vc = chars_of(value);
    if starts_with_str(vc.as_slice(), "http://") || starts_with_str(vc.as_slice(), "https://") {
        return Ok(value.to_owned());
    }
    match url_join(base, value) {
        Ok(s) => Ok(s),
        Err(e) => Err(RuntimeError::InvalidUrl(e)),
    }
}

/// The last path segment `url` finds in a URL, when it parses and has a
/// path.
pub uninterp spec fn url_last_segment(u: Seq<char>) -> Option<Seq<char>>;

/// `url::Url::parse(u)`, then `path_segments()` and its last segment; the
/// result is named [`url_last_segment`].
#[verifier::external_body]
fn last_path_segment(u: &str) -> (r: Option<String>)
    ensures
        match r {
            Some(s) => url_last_segment(u@) == Some(s@),
            None => url_last_segment(u@) is None,
        },
{
    url::Url::parse(u).ok().and_then(|p| p.path_segments().and_then(|s| s.last().map(str::to_string)))
}

/// The archive file name of a download URL: its last path segment, or
/// `opcode-api.tar.gz` when it has none or only whitespace.
pub fn archive_file_name(url: &str) -> (r: String)
    ensures
        match url_last_segment(url@) {
            Some(s) => if trim_ws(s).len() > 0 {
                r@ == s
            } else {
                r@ == "opcode-api.tar.gz"@
            },
            None => r@ == "opcode-api.tar.gz"@,
        },
{
    match last_path_segment(url) {
        Some(s) => {
            let t = crate::strs::trim_str(s.as_str());
            if t.len() > 0 {
                return s;
            }
        },
        None => {},
    }
    "opcode-api.tar.gz".to_owned()
}

/// The host `url` finds in a URL, when it parses and has one.
pub uninterp spec fn url_host(u: Seq<char>) -> Option<Seq<char>>;

/// `url::Url::parse(u)` and `host_str()`; the result is named [`url_host`].
#[verifier::external_body]
fn host_of(u: &str) -> (r: Option<String>)
    ensures
        match r {
            Some(s) => url_host(u@) == Some(s@),
            None => url_host(u@) is None,
        },
{
    url::Url::parse(u).ok().and_then(|p| p.host_str().map(str::to_string))
}

/// Whether a URL points at this machine (`127.0.0.1` or `localhost`).
pub fn is_loopback_url(url: &str) -> (r: bool)
    ensures
        r == (match url_host(url@) {
            Some(h) => h == "127.0.0.1"@ || h == "localhost"@,
            None => false,
        }),
{
    match host_of(url) {
        Some(h) => str_is(h.as_str(), "127.0.0.1") || str_is(h.as_str(), "localhost"),
        None => false,
    }
}

/// Lower-case hexadecimal digit of a nibble.
pub open spec fn hex_digit(n: u8) -> char {
    if n < 10 {
        ((48 + n) as u32) as char
    } else {
        ((87 + n) as u32) as char
    }
}

/// Lower-case hexadecimal text of bytes, two digits per byte.
pub open spec fn hex_lower(bytes: Seq<u8>) -> Seq<char>
    decreases bytes.len(),
{
    if bytes.len() == 0 {
        Seq::empty()
    } else {
        hex_lower(bytes.drop_last()) + seq![hex_digit(bytes.last() / 16), hex_digit(bytes.last() % 16)]
    }
}

/// `format!("{:x}", base16ct::HexDisplay(bytes))`: two lower-case hex
/// digits per byte, in order.
#[verifier::external_body]
fn hex_display(bytes: &[u8]) -> (r: String)
    ensures
        r@ == hex_lower(bytes@),
{
    format!("{:x}", base16ct::HexDisplay(bytes))
}

/// The SHA-256 digest `sha2` computes for some bytes.
pub uninterp spec fn sha256_digest(bytes: Seq<u8>) -> Seq<u8>;

/// `sha2::Sha256::digest`; the result is named [`sha256_digest`] and is 32
/// bytes long.
#[verifier::external_body]
fn sha256(bytes: &[u8]) -> (r: Vec<u8>)
    ensures
        r@ == sha256_digest(bytes@),
        r@.len() == 32,
{
    <sha2::Sha256 as sha2::Digest>::digest(bytes).to_vec()
}

/// The lower-case hex SHA-256 of a file's content.
pub fn sha256_hex(content: &[u8]) -> (r: String)
    ensures
        r@ == hex_lower(sha256_digest(content@)),
{
    let d = sha256(content);
    hex_display(d.as_slice())
}

/// Checks a computed checksum against the expected one, ignoring ASCII
/// case.
pub fn verify_checksum(actual: &str, expected: &str, archive_name: &str, source_label: &str) -> (r:
    Result<(), RuntimeError>)
    ensures
        r is Ok <==> lower_seq(actual@) == lower_seq(expected@),
        r matches Err(e) ==> (e matches RuntimeError::ChecksumMismatch {
            archive_name: a,
            source_label: s,
        } && a@ == archive_name@ && s@ == source_label@),
{
    let a = to_lower(chars_of(actual).as_slice());
    let b = to_lower(chars_of(expected).as_slice());
    if seq_eq(a.as_slice(), b.as_slice()) {
        Ok(())
    } else {
        Err(
            RuntimeError::ChecksumMismatch {
                archive_name: archive_name.to_owned(),
                source_label: source_label.to_owned(),
            },
        )
    }
}

/// The version a `opcode-api --version` output reports: its second word.
pub fn version_from_output(stdout: &str) -> (r: Option<String>)
    ensures
        match r {
            Some(v) => words(stdout@).len() >= 2 && v@ == trim_ws(words(stdout@)[1]),
            None => words(stdout@).len() < 2,
        },
{
    let w = split_whitespace(chars_of(stdout).as_slice());
    if w.len() < 2 {
        return None;
    }
    Some(string_of(trim(w[1].as_slice()).as_slice()))
}

/// Where the runtime binary lives under the config directory.
pub fn default_runtime_binary_path(config_dir: &str) -> (r: String)
    ensures
        r@ == config_dir@ + "/bin/opcode-api"@,
{
    let mut v = chars_of(config_dir);
    push_str(&mut v, "/bin/opcode-api");
    string_of(v.as_slice())
}

} // verus!

verus! {

impl RuntimeError {
    /// The error's message.
    pub fn message(&self) -> (r: String)
        ensures
            r@ == runtime_error_text(*self),
    {
        let mut v: Vec<char> = Vec::new();
        match self {
            RuntimeError::UnsupportedArchitecture(a) => {
                push_str(&mut v, "unsupported architecture: ");
                push_str(&mut v, a.as_str());
            },
            RuntimeError::UnsupportedOs(o) => {
                push_str(&mut v, "unsupported OS: ");
                push_str(&mut v, o.as_str());
            },
            RuntimeError::InvalidUrl(m) => push_str(&mut v, m.as_str()),
            RuntimeError::MissingAsset(t) => {
                push_str(&mut v, "missing runtime asset for target ");
                push_str(&mut v, t.as_str());
            },
            RuntimeError::MissingChecksum(a) => {
                push_str(&mut v, "missing checksum for ");
                push_str(&mut v, a.as_str());
            },
            RuntimeError::ChecksumMismatch { archive_name, source_label } => {
                push_str(&mut v, "checksum verification failed for ");
                push_str(&mut v, archive_name.as_str());
                push_str(&mut v, " from ");
                push_str(&mut v, source_label.as_str());
            },
        }
        assert(v@ =~= runtime_error_text(*self));
        string_of(v.as_slice())
    }
}

pub open spec fn runtime_error_text(e: RuntimeError) -> Seq<char> {
    match e {
        RuntimeError::UnsupportedArchitecture(a) => "unsupported architecture: "@ + a@,
        RuntimeError::UnsupportedOs(o) => "unsupported OS: "@ + o@,
        RuntimeError::InvalidUrl(m) => m@,
        RuntimeError::MissingAsset(t) => "missing runtime asset for target "@ + t@,
        RuntimeError::MissingChecksum(a) => "missing checksum for "@ + a@,
        RuntimeError::ChecksumMismatch { archive_name, source_label } => "checksum verification failed for "@
            + archive_name@ + " from "@ + source_label@,
    }
}

/// Where a release is taken from: the install manifest named by
/// `D1V_OPCODE_INSTALL_MANIFEST_URL` when set and no version was asked
/// for, else the GitHub releases.
pub fn uses_manifest(version: &Option<String>, manifest_url: &Option<String>) -> (r: bool)
    ensures
        r == (version is None && manifest_url is Some),
{
    version.is_none() && manifest_url.is_some()
}

/// The release about to be installed.
#[derive(Debug, Clone)]
pub struct ReleaseInfo {
    pub current_version: Option<String>,
    pub target_version: String,
    pub executable_path: String,
    /// The manifest URL or the repository, named in checksum errors.
    pub source_label: String,
    pub archive_name: String,
    pub archive_url: String,
    pub checksum_url: Option<String>,
    pub checksum_sha256: Option<String>,
}

/// One archive of the install manifest.
#[derive(Debug, Clone)]
pub struct ManifestAsset {
    pub target: String,
    pub url: String,
    pub sha256: String,
    pub archive_name: Option<String>,
}

/// The install manifest: a version and its archives.
#[derive(Debug, Clone)]
pub struct RuntimeManifest {
    pub version: String,
    pub assets: Vec<ManifestAsset>,
}

/// The index of the first asset for the target, if any.
pub open spec fn first_asset_for(assets: Seq<ManifestAsset>, target: Seq<char>, from: int) -> Option<int>
    decreases assets.len() - from,
{
    if from < 0 || from >= assets.len() {
        None
    } else if assets[from].target@ == target {
        Some(from)
    } else {
        first_asset_for(assets, target, from + 1)
    }
}

/// The archive name of a manifest asset: the one it gives unless blank,
/// else the download URL's file name.
pub open spec fn asset_archive_name(given: Option<String>, archive_url: Seq<char>) -> Seq<char> {
    match given {
        Some(n) => if trim_ws(n@).len() > 0 {
            n@
        } else {
            archive_name_of(archive_url)
        },
        None => archive_name_of(archive_url),
    }
}

/// What [`archive_file_name`] gives.
pub open spec fn archive_name_of(url: Seq<char>) -> Seq<char> {
    match url_last_segment(url) {
        Some(s) => if trim_ws(s).len() > 0 {
            s
        } else {
            "opcode-api.tar.gz"@
        },
        None => "opcode-api.tar.gz"@,
    }
}

/// The release a manifest offers for a target: its archive URL resolved
/// against the manifest URL, its archive name, its checksum, and the
/// manifest's version as a tag.
pub fn manifest_release(
    manifest_url: &str,
    manifest: &RuntimeManifest,
    target: &str,
    executable_path: &str,
    current_version: Option<String>,
) -> (r: Result<ReleaseInfo, RuntimeError>)
    ensures
        match first_asset_for(manifest.assets@, target@, 0) {
            None => r matches Err(RuntimeError::MissingAsset(t)) && t@ == target@,
            Some(k) => {
                let a = manifest.assets@[k];
                if has_prefix(a.url@, "http://"@) || has_prefix(a.url@, "https://"@) {
                    r matches Ok(info) && info.archive_url@ == a.url@ && info.archive_name@
                        == asset_archive_name(a.archive_name, a.url@) && info.target_version@
                        == tag_of(manifest.version@) && info.source_label@ == manifest_url@
                        && info.executable_path@ == executable_path@ && info.current_version
                        == current_version && info.checksum_url is None && info.checksum_sha256
                        == Some(a.sha256)
                } else {
                    match url_joined(manifest_url@, a.url@) {
                        Ok(u) => r matches Ok(info) && info.archive_url@ == u && info.archive_name@
                            == asset_archive_name(a.archive_name, u) && info.target_version@
                            == tag_of(manifest.version@) && info.source_label@ == manifest_url@
                            && info.executable_path@ == executable_path@ && info.current_version
                            == current_version && info.checksum_url is None
                            && info.checksum_sha256 == Some(a.sha256),
                        Err(e) => r matches Err(RuntimeError::InvalidUrl(m)) && m@ == e,
                    }
                }
            },
        },
{
    let mut i: usize = 0;
    while i < manifest.assets.len()
        invariant_except_break
            i <= manifest.assets@.len(),
            first_asset_for(manifest.assets@, target@, i as int) == first_asset_for(
                manifest.assets@,
                target@,
                0,
            ),
        ensures
            i <= manifest.assets@.len(),
            i == manifest.assets@.len() ==> first_asset_for(manifest.assets@, target@, 0) is None,
            i < manifest.assets@.len() ==> first_asset_for(manifest.assets@, target@, 0) == Some(i as int),
        decreases manifest.assets@.len() - i,
    {
        if crate::strs::str_eq(manifest.assets[i].target.as_str(), target) {
            break;
        }
        i = i + 1;
    }
    if i == manifest.assets.len() {
        return Err(RuntimeError::MissingAsset(target.to_owned()));
    }
    let a = &manifest.assets[i];
    let archive_url = resolve_url(manifest_url, a.url.as_str())?;
    let archive_name = match &a.archive_name {
        Some(n) => {
            if trim(chars_of(n.as_str()).as_slice()).len() > 0 {
                n.clone()
            } else {
                archive_file_name(archive_url.as_str())
            }
        },
        None => archive_file_name(archive_url.as_str()),
    };
    Ok(
        ReleaseInfo {
            current_version,
            target_version: normalize_tag(manifest.version.as_str()),
            executable_path: executable_path.to_owned(),
            source_label: manifest_url.to_owned(),
            archive_name,
            archive_url,
            checksum_url: None,
            checksum_sha256: Some(a.sha256.clone()),
        },
    )
}

/// The release of a GitHub repository: the archive
/// `opcode-api-{target}.tar.gz` and `checksums.txt` under the tag's
/// download directory.
pub open spec fn github_base(repo: Seq<char>, tag: Seq<char>) -> Seq<char> {
    "https://github.com/"@ + repo + "/releases/download/"@ + tag
}

pub fn github_release(
    repo: &str,
    target_version: &str,
    target: &str,
    executable_path: &str,
    current_version: Option<String>,
) -> (r: ReleaseInfo)
    ensures
        r.current_version == current_version,
        r.target_version@ == target_version@,
        r.executable_path@ == executable_path@,
        r.source_label@ == repo@,
        r.archive_name@ == "opcode-api-"@ + target@ + ".tar.gz"@,
        r.archive_url@ == github_base(repo@, target_version@) + "/"@ + r.archive_name@,
        r.checksum_url matches Some(c) && c@ == github_base(repo@, target_version@) + "/checksums.txt"@,
        r.checksum_sha256 is None,
{
    let mut name: Vec<char> = Vec::new();
    push_str(&mut name, "opcode-api-");
    push_str(&mut name, target);
    push_str(&mut name, ".tar.gz");
    let mut base: Vec<char> = Vec::new();
    push_str(&mut base, "https://github.com/");
    push_str(&mut base, repo);
    push_str(&mut base, "/releases/download/");
    push_str(&mut base, target_version);
    let mut url = base.clone();
    push_str(&mut url, "/");
    crate::strs::push_all(&mut url, name.as_slice());
    let mut sums = base.clone();
    push_str(&mut sums, "/checksums.txt");
    ReleaseInfo {
        current_version,
        target_version: target_version.to_owned(),
        executable_path: executable_path.to_owned(),
        source_label: repo.to_owned(),
        archive_name: string_of(name.as_slice()),
        archive_url: string_of(url.as_slice()),
        checksum_url: Some(string_of(sums.as_slice())),
        checksum_sha256: None,
    }
}

/// The GitHub API address of a repository's latest release.
pub fn latest_release_api_url(repo: &str) -> (r: String)
    ensures
        r@ == "https://api.github.com/repos/"@ + repo@ + "/releases/latest"@,
{
    let mut v: Vec<char> = Vec::new();
    push_str(&mut v, "https://api.github.com/repos/");
    push_str(&mut v, repo);
    push_str(&mut v, "/releases/latest");
    string_of(v.as_slice())
}

/// What an install, check or doctor run reports.
#[derive(Debug, Clone)]
pub enum RuntimeInstallResult {
    UpToDate { version: String, executable_path: String },
    InstallAvailable { current_version: Option<String>, target_version: String, executable_path: String },
    Installed { previous_version: Option<String>, target_version: String, executable_path: String },
    Doctor {
        executable_path: String,
        exists: bool,
        healthy: bool,
        configured_home: Option<String>,
        configured_device_id: Option<String>,
        current_version: Option<String>,
        latest_version: Option<String>,
    },
}

pub open spec fn jstr(s: Seq<char>) -> Seq<char> {
    crate::relay::json_string_literal(s)
}

pub open spec fn jopt(o: Option<String>) -> Seq<char> {
    match o {
        Some(s) => jstr(s@),
        None => "null"@,
    }
}

pub open spec fn jbool(b: bool) -> Seq<char> {
    if b {
        "true"@
    } else {
        "false"@
    }
}

/// The report as `serde_json` pretty-prints it: the kind under `state` in
/// snake case, then the fields in order, missing values as `null`.
pub open spec fn install_result_json(r: RuntimeInstallResult) -> Seq<char> {
    match r {
        RuntimeInstallResult::UpToDate { version, executable_path } => "{\n  \"state\": \"up_to_date\",\n  \"version\": "@
            + jstr(version@) + ",\n  \"executable_path\": "@ + jstr(executable_path@) + "\n}"@,
        RuntimeInstallResult::InstallAvailable { current_version, target_version, executable_path } =>
            "{\n  \"state\": \"install_available\",\n  \"current_version\": "@ + jopt(current_version)
            + ",\n  \"target_version\": "@ + jstr(target_version@) + ",\n  \"executable_path\": "@ + jstr(
            executable_path@,
        ) + "\n}"@,
        RuntimeInstallResult::Installed { previous_version, target_version, executable_path } =>
            "{\n  \"state\": \"installed\",\n  \"previous_version\": "@ + jopt(previous_version)
            + ",\n  \"target_version\": "@ + jstr(target_version@) + ",\n  \"executable_path\": "@ + jstr(
            executable_path@,
        ) + "\n}"@,
        RuntimeInstallResult::Doctor {
            executable_path,
            exists,
            healthy,
            configured_home,
            configured_device_id,
            current_version,
            latest_version,
        } => "{\n  \"state\": \"doctor\",\n  \"executable_path\": "@ + jstr(executable_path@)
            + ",\n  \"exists\": "@ + jbool(exists) + ",\n  \"healthy\": "@ + jbool(healthy)
            + ",\n  \"configured_home\": "@ + jopt(configured_home) + ",\n  \"configured_device_id\": "@
            + jopt(configured_device_id) + ",\n  \"current_version\": "@ + jopt(current_version)
            + ",\n  \"latest_version\": "@ + jopt(latest_version) + "\n}"@,
    }
}

fn push_jstr(v: &mut Vec<char>, s: &str)
    ensures
        final(v)@ == old(v)@ + jstr(s@),
{
    let q = crate::relay::json_string(s);
    push_str(v, q.as_str());
}

fn push_jopt(v: &mut Vec<char>, o: &Option<String>)
    ensures
        final(v)@ == old(v)@ + jopt(*o),
{
    match o {
        Some(s) => push_jstr(v, s.as_str()),
        None => push_str(v, "null"),
    }
}

fn push_jbool(v: &mut Vec<char>, b: bool)
    ensures
        final(v)@ == old(v)@ + jbool(b),
{
    if b {
        push_str(v, "true");
    } else {
        push_str(v, "false");
    }
}

impl RuntimeInstallResult {
    pub fn to_json(&self) -> (r: String)
        ensures
            r@ == install_result_json(*self),
    {
        let mut v: Vec<char> = Vec::new();
        match self {
            RuntimeInstallResult::UpToDate { version, executable_path } => {
                push_str(&mut v, "{\n  \"state\": \"up_to_date\",\n  \"version\": ");
                push_jstr(&mut v, version.as_str());
                push_str(&mut v, ",\n  \"executable_path\": ");
                push_jstr(&mut v, executable_path.as_str());
            },
            RuntimeInstallResult::InstallAvailable { current_version, target_version, executable_path } => {
                push_str(&mut v, "{\n  \"state\": \"install_available\",\n  \"current_version\": ");
                push_jopt(&mut v, current_version);
                push_str(&mut v, ",\n  \"target_version\": ");
                push_jstr(&mut v, target_version.as_str());
                push_str(&mut v, ",\n  \"executable_path\": ");
                push_jstr(&mut v, executable_path.as_str());
            },
            RuntimeInstallResult::Installed { previous_version, target_version, executable_path } => {
                push_str(&mut v, "{\n  \"state\": \"installed\",\n  \"previous_version\": ");
                push_jopt(&mut v, previous_version);
                push_str(&mut v, ",\n  \"target_version\": ");
                push_jstr(&mut v, target_version.as_str());
                push_str(&mut v, ",\n  \"executable_path\": ");
                push_jstr(&mut v, executable_path.as_str());
            },
            RuntimeInstallResult::Doctor {
                executable_path,
                exists,
                healthy,
                configured_home,
                configured_device_id,
                current_version,
                latest_version,
            } => {
                push_str(&mut v, "{\n  \"state\": \"doctor\",\n  \"executable_path\": ");
                push_jstr(&mut v, executable_path.as_str());
                push_str(&mut v, ",\n  \"exists\": ");
                push_jbool(&mut v, *exists);
                push_str(&mut v, ",\n  \"healthy\": ");
                push_jbool(&mut v, *healthy);
                push_str(&mut v, ",\n  \"configured_home\": ");
                push_jopt(&mut v, configured_home);
                push_str(&mut v, ",\n  \"configured_device_id\": ");
                push_jopt(&mut v, configured_device_id);
                push_str(&mut v, ",\n  \"current_version\": ");
                push_jopt(&mut v, current_version);
                push_str(&mut v, ",\n  \"latest_version\": ");
                push_jopt(&mut v, latest_version);
            },
        }
        push_str(&mut v, "\n}");
        assert(v@ =~= install_result_json(*self));
        string_of(v.as_slice())
    }
}

/// The lines `runtime doctor` prints: the binary, whether it is installed
/// and healthy, then the version, an available update, the agent home and
/// the device id, each only when known.
pub open spec fn doctor_lines_spec(r: RuntimeInstallResult) -> Seq<Seq<char>> {
    match r {
        RuntimeInstallResult::Doctor {
            executable_path,
            exists,
            healthy,
            configured_home,
            configured_device_id,
            current_version,
            latest_version,
        } => {
            let yn = |b: bool| if b { "yes"@ } else { "no"@ };
            let opt = |o: Option<String>, f: spec_fn(Seq<char>) -> Seq<char>| match o {
                Some(s) => seq![f(s@)],
                None => Seq::<Seq<char>>::empty(),
            };
            seq![
                "opcode-api binary: "@ + executable_path@,
                "installed: "@ + yn(exists),
                "healthy: "@ + yn(healthy),
            ] + opt(current_version, |s: Seq<char>| "version: "@ + s) + opt(
                latest_version,
                |s: Seq<char>| "update available: "@ + s + " (run `d1v runtime upgrade`)"@,
            ) + opt(configured_home, |s: Seq<char>| "agent home: "@ + s) + opt(
                configured_device_id,
                |s: Seq<char>| "device id: "@ + s,
            )
        },
        _ => Seq::empty(),
    }
}

fn cat2(a: &str, b: &str) -> (r: String)
    ensures
        r@ == a@ + b@,
{
    let mut v = chars_of(a);
    push_str(&mut v, b);
    string_of(v.as_slice())
}

pub fn doctor_lines(r: &RuntimeInstallResult) -> (out: Vec<String>)
    ensures
        crate::view::string_texts(out@) == doctor_lines_spec(*r),
{
    let mut out: Vec<String> = Vec::new();
    match r {
        RuntimeInstallResult::Doctor {
            executable_path,
            exists,
            healthy,
            configured_home,
            configured_device_id,
            current_version,
            latest_version,
        } => {
            out.push(cat2("opcode-api binary: ", executable_path.as_str()));
            out.push(cat2("installed: ", if *exists { "yes" } else { "no" }));
            out.push(cat2("healthy: ", if *healthy { "yes" } else { "no" }));
            let ghost base = crate::view::string_texts(out@);
            if let Some(v) = current_version {
                out.push(cat2("version: ", v.as_str()));
            }
            let ghost b1 = crate::view::string_texts(out@);
            if let Some(v) = latest_version {
                let mut t: Vec<char> = Vec::new();
                push_str(&mut t, "update available: ");
                push_str(&mut t, v.as_str());
                push_str(&mut t, " (run `d1v runtime upgrade`)");
                out.push(string_of(t.as_slice()));
            }
            let ghost b2 = crate::view::string_texts(out@);
            if let Some(h) = configured_home {
                out.push(cat2("agent home: ", h.as_str()));
            }
            let ghost b3 = crate::view::string_texts(out@);
            if let Some(d) = configured_device_id {
                out.push(cat2("device id: ", d.as_str()));
            }
            assert(crate::view::string_texts(out@) =~= doctor_lines_spec(*r));
        },
        _ => {
            assert(crate::view::string_texts(out@) =~= doctor_lines_spec(*r));
        },
    }
    out
}

/// The text-mode messages of an install run.
pub fn already_installed_message(executable_path: &str) -> (r: String)
    ensures
        r@ == "opcode-api runtime already installed at "@ + executable_path@,
{
    cat2("opcode-api runtime already installed at ", executable_path)
}

pub fn available_message(target_version: &str) -> (r: String)
    ensures
        r@ == "opcode-api runtime "@ + target_version@ + " is available for install"@,
{
    let mut v = chars_of("opcode-api runtime ");
    push_str(&mut v, target_version);
    push_str(&mut v, " is available for install");
    string_of(v.as_slice())
}

pub fn installing_message(target_version: &str) -> (r: String)
    ensures
        r@ == "installing opcode-api runtime "@ + target_version@,
{
    cat2("installing opcode-api runtime ", target_version)
}

pub fn installed_message(target_version: &str, executable_path: &str) -> (r: String)
    ensures
        r@ == "installed opcode-api runtime "@ + target_version@ + " to "@ + executable_path@,
{
    let mut v = chars_of("installed opcode-api runtime ");
    push_str(&mut v, target_version);
    push_str(&mut v, " to ");
    push_str(&mut v, executable_path);
    string_of(v.as_slice())
}

} // verus!
