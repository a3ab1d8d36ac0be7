//! `d1v env`: project environment variables.
pub mod vars;
use crate::strs::{chars_of, next_char_index, push_str, slice_vec, string_of, trim_str, trim_ws, next_index, lemma_next_index_bounds};
use vstd::prelude::*;

verus! {

/// The project a command works on.
#[derive(Debug, Clone)]
pub struct ProjectArgs {
    /// Project ID (defaults to D1V_PROJECT_ID or workspace binding)
    pub project_id: Option<String>,
}

/// Why no project can be worked on.
#[derive(Debug, Clone, PartialEq, Eq)]
pub enum ProjectError {
    /// Neither an ID nor a workspace binding names a project.
    ProjectRequired,
    /// Looking up the workspace binding failed with this message.
    Lookup(String),
}

/// The given project ID, trimmed, when it is not blank.
pub open spec fn given_id(id: Option<String>) -> Option<Seq<char>> {
    match id {
        Some(i) => if trim_ws(i@).len() > 0 {
            Some(trim_ws(i@))
        } else {
            None
        },
        None => None,
    }
}

impl ProjectArgs {
    /// Whether the workspace binding decides the project: no ID, or a
    /// blank one, was given.
    pub fn needs_binding(&self) -> (r: bool)
        ensures
            r <==> given_id(self.project_id) is None,
    {
        match &self.project_id {
            Some(id) => trim_str(id.as_str()).len() == 0,
            None => true,
        }
    }

    /// The project: the given ID when it is not blank (trimmed), else the
    /// project the workspace is bound to. `bound` is what looking up the
    /// binding gave; it is not read when an ID was given.
    pub fn resolve(&self, bound: Result<Option<String>, String>) -> (r: Result<String, ProjectError>)
        ensures
            match given_id(self.project_id) {
                Some(id) => r matches Ok(p) && p@ == id,
                None => match bound {
                    Ok(Some(b)) => r matches Ok(p) && p@ == b@,
                    Ok(None) => r == Err::<String, ProjectError>(ProjectError::ProjectRequired),
                    Err(m) => r == Err::<String, ProjectError>(ProjectError::Lookup(m)),
                },
            },
    {
        match &self.project_id {
            Some(id) => {
                let t = trim_str(id.as_str());
                if t.len() > 0 {
                    return Ok(string_of(t.as_slice()));
                }
            },
            None => {},
        }
        match bound {
            Ok(Some(b)) => Ok(b),
            Ok(None) => Err(ProjectError::ProjectRequired),
            Err(m) => Err(ProjectError::Lookup(m)),
        }
    }
}

/// A `KEY=value` argument.
#[derive(Debug, Clone)]
pub struct KeyValue {
    pub key: String,
    pub value: String,
}

/// `KEY=value` split at the first `=`.
pub open spec fn split_assignment(s: Seq<char>) -> Option<(Seq<char>, Seq<char>)> {
    let k = next_index(s, '=', 0);
    if k < s.len() {
        Some((s.subrange(0, k), s.skip(k + 1)))
    } else {
        None
    }
}

impl KeyValue {
    pub fn key(&self) -> (r: &str)
        ensures
            r@ == self.key@,
    {
        self.key.as_str()
    }

    pub fn value(&self) -> (r: &str)
        ensures
            r@ == self.value@,
    {
        self.value.as_str()
    }

    /// Parses `KEY=value`; the error says what was expected.
    pub fn parse(s: &str) -> (r: Result<KeyValue, String>)
        ensures
            match split_assignment(s@) {
                Some((k, v)) => r matches Ok(kv) && kv.key@ == k && kv.value@ == v,
                None => r matches Err(m) && m@ == "expected KEY=value format, got: "@ + s@,
            },
    {
        let c = chars_of(s);
        let k = next_char_index(c.as_slice(), '=', 0);
        if k < c.len() {
            let key = slice_vec(c.as_slice(), 0, k);
            let value = slice_vec(c.as_slice(), k + 1, c.len());
            assert(value@ =~= c@.skip(k + 1));
            Ok(KeyValue { key: string_of(key.as_slice()), value: string_of(value.as_slice()) })
        } else {
            let mut m: Vec<char> = Vec::new();
            push_str(&mut m, "expected KEY=value format, got: ");
            push_str(&mut m, s);
            Err(string_of(m.as_slice()))
        }
    }

    /// `KEY=value` text.
    pub fn to_string(&self) -> (r: String)
        ensures
            r@ == self.key@ + seq!['='] + self.value@,
    {
        let mut v = chars_of(self.key.as_str());
        v.push('=');
        push_str(&mut v, self.value.as_str());
        string_of(v.as_slice())
    }
}

/// Parsing what `to_string` writes gives back the key and value when the
/// key holds no `=`.
pub proof fn lemma_key_value_roundtrip(key: Seq<char>, value: Seq<char>)
    requires
        !key.contains('='),
    ensures
        split_assignment(key + seq!['='] + value) == Some((key, value)),
{
    let s = key + seq!['='] + value;
    lemma_next_index_bounds(s, '=', 0);
    let k = next_index(s, '=', 0);
    assert(s[key.len() as int] == '=');
    if k < key.len() {
        assert(s[k] == key[k]);
    }
    if k > key.len() {
        assert(s[key.len() as int] != '=');
    }
    assert(s.subrange(0, key.len() as int) =~= key);
    assert(s.skip(key.len() as int + 1) =~= value);
}

/// `d1v env` subcommands.
#[derive(Debug)]
pub enum EnvCommand {
    /// List environment variables
    List(EnvListArgs),
    /// Get a specific variable
    Get(EnvGetArgs),
    /// Set variables (creates or updates)
    Assign(EnvSetArgs),
    /// Remove a variable
    Unset(EnvUnsetArgs),
    /// Import variables from a .env file
    Import(EnvImportArgs),
    /// Export variables to a .env file
    Export(EnvExportArgs),
    /// Sync variables to Vercel
    Sync(EnvSyncArgs),
}

#[derive(Debug, Clone)]
pub struct EnvListArgs {
    pub project: ProjectArgs,
    /// Show plaintext values for sensitive variables
    pub reveal: bool,
}

#[derive(Debug, Clone)]
pub struct EnvGetArgs {
    pub project: ProjectArgs,
    /// Variable key name
    pub key: Option<String>,
    /// Get by numeric ID instead of key
    pub id: Option<i64>,
    /// Show plaintext value for sensitive variables
    pub reveal: bool,
}

#[derive(Debug, Clone)]
pub struct EnvSetArgs {
    pub project: ProjectArgs,
    /// KEY=value pairs
    pub vars: Vec<KeyValue>,
    /// Description for the variable(s)
    pub description: Option<String>,
    /// Mark variable(s) as sensitive
    pub sensitive: bool,
}

#[derive(Debug, Clone)]
pub struct EnvUnsetArgs {
    pub project: ProjectArgs,
    /// Variable key name
    pub key: Option<String>,
    /// Delete by numeric ID instead of key
    pub id: Option<i64>,
}

#[derive(Debug, Clone)]
pub struct EnvImportArgs {
    pub project: ProjectArgs,
    /// .env file path (defaults to stdin)
    pub input: Option<String>,
    /// Overwrite existing variables
    pub overwrite: bool,
}

#[derive(Debug, Clone)]
pub struct EnvExportArgs {
    pub project: ProjectArgs,
    /// Output file path (defaults to stdout)
    pub output: Option<String>,
}

#[derive(Debug, Clone)]
pub struct EnvSyncArgs {
    pub project: ProjectArgs,
    /// Confirm sync operation
    pub yes: bool,
}

} // verus!
