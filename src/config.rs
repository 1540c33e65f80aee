use vstd::prelude::*;
use vstd::string::*;
use crate::error::RuntimeError;

verus! {

/// The container's root filesystem.
#[derive(Clone, Debug)]
pub struct Root {
    /// Absolute, or relative to the bundle directory. A directory must exist there.
    pub path: String,
    /// Whether the root filesystem is read-only inside the container.
    pub readonly: bool,
}

/// A mount beyond the root; mounts are applied in the order listed.
#[derive(Clone, Debug)]
pub struct Mount {
    /// Mount point inside the container.
    pub destination: String,
    /// Device, file or directory; relative to the bundle for bind mounts.
    pub source: Option<String>,
    /// Mount-option tags.
    pub options: Vec<String>,
}

/// Console size, in characters, of the process's terminal.
#[derive(Clone, Copy, Debug)]
pub struct ConsoleSize {
    pub height: usize,
    pub width: usize,
}

/// A resource limit of the container process.
#[derive(Clone, Debug)]
pub struct Rlimit {
    /// The platform resource being limited.
    pub kind: String,
    /// Value of the limit that is enforced.
    pub soft: u64,
    /// Ceiling for the soft limit.
    pub hard: u64,
}

/// The user that the process runs as.
#[derive(Clone, Debug)]
pub struct User {
    pub uid: i64,
    pub gid: i64,
    pub additional_gids: Option<Vec<i64>>,
    pub umask: Option<i64>,
}

/// The container process.
#[derive(Clone, Debug)]
pub struct Process {
    pub terminal: bool,
    pub console_size: Option<ConsoleSize>,
    /// Working directory of the executable.
    pub cwd: String,
    /// Environment, as `KEY=VALUE` strings.
    pub env: Vec<String>,
    pub args: Vec<String>,
    pub user: User,
    pub rlimits: Vec<Rlimit>,
}

/// Linux-specific settings, handed on as they are.
#[derive(Clone, Copy, Debug)]
pub struct Linux {}

/// Lifecycle hooks, handed on as they are.
#[derive(Clone, Copy, Debug)]
pub struct Hooks {}

/// A bundle's configuration.
#[derive(Clone, Debug)]
pub struct Config {
    /// Version of the runtime specification that the bundle claims to comply with.
    pub oci_version: String,
    pub root: Root,
    pub mounts: Vec<Mount>,
    pub process: Option<Process>,
    pub hostname: Option<String>,
    pub linux: Option<Linux>,
    pub hooks: Option<Hooks>,
}

/// What reading and decoding a bundle's configuration file gave.
#[derive(Clone, Debug)]
pub enum ConfigDocument {
    /// The file is absent or unreadable.
    Missing,
    /// The content is not well-formed or does not match the schema.
    Malformed,
    /// The content decoded into a configuration.
    Parsed(Config),
}

pub open spec fn mounts_valid(ms: Seq<Mount>) -> bool {
    forall|i: int| 0 <= i < ms.len() ==> (#[trigger] ms[i]).destination@.len() > 0
}

pub open spec fn rlimits_valid(rs: Seq<Rlimit>) -> bool {
    forall|i: int| 0 <= i < rs.len() ==> (#[trigger] rs[i]).soft <= rs[i].hard
}

pub open spec fn process_valid(p: Option<Process>) -> bool {
    match p {
        None => true,
        Some(p) => p.cwd@.len() > 0 && rlimits_valid(p.rlimits@),
    }
}

/// The cross-field rules of a configuration, given whether its root path names an
/// existing directory.
pub open spec fn config_valid(c: Config, root_is_dir: bool) -> bool {
    root_is_dir && mounts_valid(c.mounts@) && process_valid(c.process)
}

/// Result of loading a configuration: each failure of reading, decoding and
/// validation has its own error.
pub open spec fn load_result(doc: ConfigDocument, root_is_dir: bool) -> Result<Config, RuntimeError> {
    match doc {
        ConfigDocument::Missing => Err(RuntimeError::ConfigNotFound),
        ConfigDocument::Malformed => Err(RuntimeError::ConfigMalformed),
        ConfigDocument::Parsed(c) => if config_valid(c, root_is_dir) {
            Ok(c)
        } else {
            Err(RuntimeError::ConfigInvalid)
        },
    }
}

/// `p` resolved against the directory `base`: an absolute `p` stands as it is, a
/// relative one is appended to `base` with one separator.
pub open spec fn join_path(base: Seq<char>, p: Seq<char>) -> Seq<char> {
    if p.len() > 0 && p[0] == '/' {
        p
    } else if base.len() == 0 {
        p
    } else if base.last() == '/' {
        base + p
    } else {
        base + seq!['/'] + p
    }
}

/// Resolves `p` against the directory `base`, as `join_path` states.
pub fn resolve_path(base: &str, p: &str) -> (r: String)
    ensures
        r@ == join_path(base@, p@),
{
    let plen = p.unicode_len();
    if plen > 0 && p.get_char(0) == '/' {
        return String::from_str(p);
    }
    let blen = base.unicode_len();
    if blen == 0 {
        return String::from_str(p);
    }
    let mut r = String::from_str(base);
    if base.get_char(blen - 1) != '/' {
        proof { reveal_strlit("/"); }
        r.append("/");
    }
    r.append(p);
    r
}

/// Path of the configuration file of the bundle at `bundle`.
pub fn config_file_path(bundle: &str) -> (r: String)
    ensures
        r@ == join_path(bundle@, "config.json"@),
{
    resolve_path(bundle, "config.json")
}

/// Whether the option tags make a bind mount.
pub open spec fn is_bind_mount(options: Seq<String>) -> bool {
    exists|i: int| 0 <= i < options.len() && (#[trigger] options[i]@ == "bind"@ || options[i]@ == "rbind"@)
}

impl Mount {
    /// Whether this is a bind mount: `bind` or `rbind` is among its options.
    pub fn is_bind(&self) -> (r: bool)
        ensures
            r == is_bind_mount(self.options@),
    {
        let bind = String::from_str("bind");
        let rbind = String::from_str("rbind");
        let mut i: usize = 0;
        while i < self.options.len()
            invariant
                i <= self.options@.len(),
                bind@ == "bind"@,
                rbind@ == "rbind"@,
                forall|j: int| 0 <= j < i ==> !(#[trigger] self.options@[j]@ == "bind"@ || self.options@[j]@ == "rbind"@),
            decreases self.options@.len() - i,
        {
            if self.options[i].eq(&bind) || self.options[i].eq(&rbind) {
                return true;
            }
            i = i + 1;
        }
        false
    }

    /// The mount's source, resolved against the bundle directory for a bind mount.
    pub fn resolved_source(&self, bundle: &str) -> (r: Option<String>)
        ensures
            match self.source {
                None => r is None,
                Some(s) => r is Some && r->Some_0@ == if is_bind_mount(self.options@) {
                    join_path(bundle@, s@)
                } else {
                    s@
                },
            },
    {
        match &self.source {
            None => None,
            Some(s) => {
                if self.is_bind() {
                    Some(resolve_path(bundle, s.as_str()))
                } else {
                    Some(s.clone())
                }
            },
        }
    }
}

impl Config {
    /// The root filesystem's path, resolved against the bundle directory.
    pub fn root_path(&self, bundle: &str) -> (r: String)
        ensures
            r@ == join_path(bundle@, self.root.path@),
    {
        resolve_path(bundle, self.root.path.as_str())
    }

    /// Checks the cross-field rules, given whether the resolved root path names an
    /// existing directory.
    pub fn validate(&self, root_is_dir: bool) -> (r: Result<(), RuntimeError>)
        ensures
            config_valid(*self, root_is_dir) ==> r is Ok,
            !config_valid(*self, root_is_dir) ==> r == Err::<(), RuntimeError>(RuntimeError::ConfigInvalid),
    {
        if !root_is_dir {
            return Err(RuntimeError::ConfigInvalid);
        }
        let mut i: usize = 0;
        while i < self.mounts.len()
            invariant
                i <= self.mounts@.len(),
                forall|j: int| 0 <= j < i ==> (#[trigger] self.mounts@[j]).destination@.len() > 0,
            decreases self.mounts@.len() - i,
        {
            if self.mounts[i].destination.unicode_len() == 0 {
                return Err(RuntimeError::ConfigInvalid);
            }
            i = i + 1;
        }
        match &self.process {
            None => Ok(()),
            Some(p) => {
                if p.cwd.unicode_len() == 0 {
                    return Err(RuntimeError::ConfigInvalid);
                }
                let mut k: usize = 0;
                while k < p.rlimits.len()
                    invariant
                        k <= p.rlimits@.len(),
                        self.process == Some(*p),
                        forall|j: int| 0 <= j < k ==> (#[trigger] p.rlimits@[j]).soft <= p.rlimits@[j].hard,
                    decreases p.rlimits@.len() - k,
                {
                    if p.rlimits[k].soft > p.rlimits[k].hard {
                        assert(!rlimits_valid(p.rlimits@)) by {
                            assert(p.rlimits@[k as int].soft > p.rlimits@[k as int].hard);
                        }
                        return Err(RuntimeError::ConfigInvalid);
                    }
                    k = k + 1;
                }
                Ok(())
            },
        }
    }

    /// Turns what was read from a bundle into a validated configuration, or the
    /// error of the stage that failed.
    pub fn load(doc: ConfigDocument, root_is_dir: bool) -> (r: Result<Config, RuntimeError>)
        ensures
            r == load_result(doc, root_is_dir),
    {
        match doc {
            ConfigDocument::Missing => Err(RuntimeError::ConfigNotFound),
            ConfigDocument::Malformed => Err(RuntimeError::ConfigMalformed),
            ConfigDocument::Parsed(c) => {
                match c.validate(root_is_dir) {
                    Ok(()) => Ok(c),
                    Err(e) => Err(e),
                }
            },
        }
    }
}

} // verus!
