//! Per-process configuration and its merge with the global defaults.
//!
//! Loading a configuration file from disk is I/O and lives outside the
//! library; the merge rules — which values a process inherits from the
//! global section, and which sentinel values count as "unset" — are
//! defined and verified here.

use vstd::prelude::*;
use crate::strutil::{clone_string_vec, joined_path, path_join, str_eq};
use crate::types::{FsConfig, StateConfig};
use crate::workspace::Workspace;

verus! {

/// The declarative configuration of one process.
#[derive(Debug)]
pub struct ProcessConfig {
    /// Process name.
    pub name: String,
    /// Executable path or name.
    pub program: String,
    /// Command-line arguments.
    pub args: Vec<String>,
    /// Working directory; `.` means "inherit the global one".
    pub working_dir: String,
    /// Environment variables, in order of appearance.
    pub env: Vec<(String, String)>,
    /// Whether a failing exit is answered with a restart.
    pub auto_restart: bool,
    /// Delay before the spawn, in seconds.
    pub start_delay: u64,
    /// Restart budget.
    pub max_restarts: u32,
    /// Names of processes this one depends on; not enforced here.
    pub depends_on: Vec<String>,
    /// Health check probe target, when configured.
    pub health_check_url: Option<String>,
    /// Log configuration.
    pub log: LogConfig,
    /// Supervision tuning.
    pub process: crate::types::ProcessConfig,
}

/// Log rotation and level configuration.
#[derive(Debug)]
pub struct LogConfig {
    /// Log file path, when one is configured.
    pub file: Option<String>,
    /// Log level; `info` means "inherit the global one".
    pub level: String,
    /// Maximum file size in megabytes; `100` means "inherit".
    pub max_size: u64,
    /// How many rotated files to keep; `5` means "inherit".
    pub max_files: u32,
}

/// The whole configuration: global defaults plus one entry per process.
#[derive(Debug)]
pub struct Config {
    /// Global defaults.
    pub global: GlobalConfig,
    /// Per-process configurations, looked up by their `name` field.
    pub processes: Vec<ProcessConfig>,
}

/// The global defaults every process may inherit from.
#[derive(Debug)]
pub struct GlobalConfig {
    /// Global working directory, when configured.
    pub working_dir: Option<String>,
    /// Global environment variables.
    pub env: Vec<(String, String)>,
    /// Global log configuration.
    pub log: LogConfig,
    /// File-system handling configuration.
    pub fs: FsConfig,
    /// State store layout.
    pub state: StateConfig,
    /// Global supervision tuning.
    pub process: crate::types::ProcessConfig,
}

impl Default for LogConfig {
    /// No file, `info` level, 100 megabytes, five files.
    fn default() -> (r: Self)
        ensures
            r.file is None,
            r.level@ == "info"@,
            r.max_size == 100,
            r.max_files == 5,
    {
        LogConfig { file: None, level: "info".to_owned(), max_size: 100, max_files: 5 }
    }
}

impl Default for GlobalConfig {
    /// No overrides: everything at its built-in default.
    fn default() -> (r: Self)
        ensures
            r.working_dir is None,
            r.env@.len() == 0,
            r.log.file is None,
            r.log.level@ == "info"@,
    {
        GlobalConfig {
            working_dir: None,
            env: Vec::new(),
            log: LogConfig::default(),
            fs: FsConfig::default(),
            state: StateConfig::default(),
            process: crate::types::ProcessConfig::default(),
        }
    }
}

impl Default for Config {
    /// A configuration with no processes and no overrides.
    fn default() -> (r: Self)
        ensures
            r.processes@.len() == 0,
            r.global.working_dir is None,
    {
        Config { global: GlobalConfig::default(), processes: Vec::new() }
    }
}

/// Copies an environment list; the copy holds the same pairs.
pub fn clone_env(v: &Vec<(String, String)>) -> (r: Vec<(String, String)>)
    ensures
        r@ == v@,
{
    let mut r: Vec<(String, String)> = Vec::new();
    let mut i: usize = 0;
    while i < v.len()
        invariant
            0 <= i <= v.len(),
            r@ =~= v@.subrange(0, i as int),
        decreases v.len() - i,
    {
        let (k, val) = (&v[i].0, &v[i].1);
        r.push((k.clone(), val.clone()));
        i = i + 1;
    }
    proof {
        assert(v@.subrange(0, v.len() as int) =~= v@);
    }
    r
}

/// Copies an optional string.
fn clone_opt_string(o: &Option<String>) -> (r: Option<String>)
    ensures
        r == *o,
{
    match o {
        Some(s) => Some(s.clone()),
        None => None,
    }
}

/// Copies the supervision tuning of a configuration.
fn clone_tuning(c: &crate::types::ProcessConfig) -> (r: crate::types::ProcessConfig)
    ensures
        r == *c,
{
    crate::types::ProcessConfig {
        default_port: c.default_port,
        init_wait_secs: c.init_wait_secs,
        health_check_timeout_secs: c.health_check_timeout_secs,
        health_check_retries: c.health_check_retries,
        retry_interval_secs: c.retry_interval_secs,
        graceful_shutdown_timeout_secs: c.graceful_shutdown_timeout_secs,
        windows_process_flags: c.windows_process_flags,
        exit_wait_ms: c.exit_wait_ms,
        default_python_interpreter: c.default_python_interpreter.clone(),
        default_script_path: c.default_script_path.clone(),
    }
}

/// Whether an environment list holds a variable of the given name.
pub open spec fn env_has_key(env: Seq<(String, String)>, k: Seq<char>) -> bool {
    exists|i: int| 0 <= i < env.len() && #[trigger] env[i].0@ == k
}

/// Checks whether an environment list holds a variable of the given name.
pub fn env_contains_key(env: &Vec<(String, String)>, k: &str) -> (r: bool)
    ensures
        r == env_has_key(env@, k@),
{
    let mut i: usize = 0;
    while i < env.len()
        invariant
            0 <= i <= env.len(),
            forall|j: int| 0 <= j < i ==> #[trigger] env@[j].0@ != k@,
        decreases env.len() - i,
    {
        if str_eq(env[i].0.as_str(), k) {
            return true;
        }
        i = i + 1;
    }
    false
}

/// The merge of an environment with inherited variables: a variable of
/// the extra list is appended only when the base — as merged so far —
/// does not already bind its name.
pub open spec fn spec_env_merge(base: Seq<(String, String)>, extra: Seq<(String, String)>) -> Seq<
    (String, String),
>
    decreases extra.len(),
{
    if extra.len() == 0 {
        base
    } else {
        let next = if env_has_key(base, extra[0].0@) {
            base
        } else {
            base.push(extra[0])
        };
        spec_env_merge(next, extra.drop_first())
    }
}

/// The merge of one more inherited variable comes last.
proof fn lemma_env_merge_snoc(
    base: Seq<(String, String)>,
    a: Seq<(String, String)>,
    x: (String, String),
)
    ensures
        spec_env_merge(base, a.push(x)) == (if env_has_key(spec_env_merge(base, a), x.0@) {
            spec_env_merge(base, a)
        } else {
            spec_env_merge(base, a).push(x)
        }),
    decreases a.len(),
{
    reveal_with_fuel(spec_env_merge, 3);
    if a.len() == 0 {
        assert(a.push(x)[0] == x);
        assert(a.push(x).drop_first() =~= Seq::<(String, String)>::empty());
        assert(a =~= Seq::<(String, String)>::empty());
    } else {
        assert(a.push(x)[0] == a[0]);
        assert(a.push(x).drop_first() =~= a.drop_first().push(x));
        let next = if env_has_key(base, a[0].0@) {
            base
        } else {
            base.push(a[0])
        };
        lemma_env_merge_snoc(next, a.drop_first(), x);
    }
}

/// The index of the first process of the given name, or `-1`.
pub open spec fn spec_find_process(ps: Seq<ProcessConfig>, name: Seq<char>) -> int
    decreases ps.len(),
{
    if ps.len() == 0 {
        -1
    } else if ps[0].name@ == name {
        0
    } else if spec_find_process(ps.drop_first(), name) == -1 {
        -1
    } else {
        spec_find_process(ps.drop_first(), name) + 1
    }
}

/// `spec_find_process` finds the least match, and `-1` exactly when
/// there is none.
pub proof fn lemma_find_process(ps: Seq<ProcessConfig>, name: Seq<char>)
    ensures
        spec_find_process(ps, name) >= -1,
        spec_find_process(ps, name) == -1 ==> forall|j: int|
            0 <= j < ps.len() ==> #[trigger] ps[j].name@ != name,
        spec_find_process(ps, name) >= 0 ==> 0 <= spec_find_process(ps, name) < ps.len() && ps[
            spec_find_process(ps, name)
        ].name@ == name && (forall|j: int|
            0 <= j < spec_find_process(ps, name) ==> #[trigger] ps[j].name@ != name),
    decreases ps.len(),
{
    if ps.len() > 0 && ps[0].name@ != name {
        lemma_find_process(ps.drop_first(), name);
        let r = spec_find_process(ps.drop_first(), name);
        if r == -1 {
            assert forall|j: int| 0 <= j < ps.len() implies #[trigger] ps[j].name@ != name by {
                if j > 0 {
                    assert(ps.drop_first()[j - 1] == ps[j]);
                }
            }
        } else {
            assert(ps.drop_first()[r] == ps[r + 1]);
            assert forall|j: int| 0 <= j < r + 1 implies #[trigger] ps[j].name@ != name by {
                if j > 0 {
                    assert(ps.drop_first()[j - 1] == ps[j]);
                }
            }
        }
    }
}

impl Config {
    /// Whether the merged configuration `c` is what the process named
    /// `name` receives from this configuration: the first entry of that
    /// name, with the global working directory, environment and log
    /// settings filled into its unset fields.
    pub open spec fn is_merged_config(&self, name: Seq<char>, c: ProcessConfig) -> bool {
        let i = spec_find_process(self.processes@, name);
        let p = self.processes@[i];
        let g = self.global;
        &&& i >= 0
        &&& c.name == p.name
        &&& c.program == p.program
        &&& c.args@ == p.args@
        &&& c.working_dir == (if p.working_dir@ == "."@ && g.working_dir is Some {
            g.working_dir->0
        } else {
            p.working_dir
        })
        &&& c.env@ == spec_env_merge(p.env@, g.env@)
        &&& c.auto_restart == p.auto_restart
        &&& c.start_delay == p.start_delay
        &&& c.max_restarts == p.max_restarts
        &&& c.depends_on@ == p.depends_on@
        &&& c.health_check_url == p.health_check_url
        &&& c.log.file == (if p.log.file is None {
            g.log.file
        } else {
            p.log.file
        })
        &&& c.log.level == (if p.log.level@ == "info"@ {
            g.log.level
        } else {
            p.log.level
        })
        &&& c.log.max_size == (if p.log.max_size == 100 {
            g.log.max_size
        } else {
            p.log.max_size
        })
        &&& c.log.max_files == (if p.log.max_files == 5 {
            g.log.max_files
        } else {
            p.log.max_files
        })
        &&& c.process == p.process
    }

    /// The full configuration of one process: its own entry, with the
    /// global defaults merged into every field the entry leaves unset.
    /// `None` exactly when no entry of that name exists.
    pub fn get_process_config(&self, name: &str) -> (r: Option<ProcessConfig>)
        ensures
            match r {
                Some(c) => self.is_merged_config(name@, c),
                None => spec_find_process(self.processes@, name@) == -1,
            },
    {
        proof {
            lemma_find_process(self.processes@, name@);
        }
        let mut idx: usize = 0;
        let mut found = false;
        while !found && idx < self.processes.len()
            invariant
                0 <= idx <= self.processes@.len(),
                forall|j: int| 0 <= j < idx ==> #[trigger] self.processes@[j].name@ != name@,
                found ==> idx < self.processes@.len() && self.processes@[idx as int].name@ == name@,
            decreases self.processes@.len() - idx + (if found {
                0int
            } else {
                1int
            }),
        {
            if str_eq(self.processes[idx].name.as_str(), name) {
                found = true;
            } else {
                idx = idx + 1;
            }
        }
        proof {
            let fi = spec_find_process(self.processes@, name@);
            if !found {
                if fi >= 0 {
                    assert(self.processes@[fi].name@ == name@);
                    assert(false);
                }
            } else {
                if fi == -1 {
                    assert(self.processes@[idx as int].name@ == name@);
                    assert(false);
                }
                if fi < idx {
                    assert(self.processes@[fi].name@ == name@);
                    assert(false);
                }
                assert(fi == idx);
            }
        }
        if !found {
            return None;
        }
        let p = &self.processes[idx];
        let g = &self.global;

        let working_dir = if str_eq(p.working_dir.as_str(), ".") {
            match &g.working_dir {
                Some(dir) => dir.clone(),
                None => p.working_dir.clone(),
            }
        } else {
            p.working_dir.clone()
        };
        proof {
            reveal_strlit(".");
        }

        let mut env = clone_env(&p.env);
        let mut i: usize = 0;
        while i < g.env.len()
            invariant
                0 <= i <= g.env@.len(),
                env@ == spec_env_merge(p.env@, g.env@.subrange(0, i as int)),
            decreases g.env@.len() - i,
        {
            proof {
                assert(g.env@.subrange(0, i + 1) =~= g.env@.subrange(0, i as int).push(
                    g.env@[i as int],
                ));
                lemma_env_merge_snoc(p.env@, g.env@.subrange(0, i as int), g.env@[i as int]);
            }
            let (k, v) = (&g.env[i].0, &g.env[i].1);
            if !env_contains_key(&env, k.as_str()) {
                env.push((k.clone(), v.clone()));
            }
            i = i + 1;
        }
        proof {
            assert(g.env@.subrange(0, g.env@.len() as int) =~= g.env@);
        }

        let log_file = if p.log.file.is_none() {
            clone_opt_string(&g.log.file)
        } else {
            clone_opt_string(&p.log.file)
        };
        let log_level = if str_eq(p.log.level.as_str(), "info") {
            g.log.level.clone()
        } else {
            p.log.level.clone()
        };
        proof {
            reveal_strlit("info");
        }
        let log_max_size = if p.log.max_size == 100 {
            g.log.max_size
        } else {
            p.log.max_size
        };
        let log_max_files = if p.log.max_files == 5 {
            g.log.max_files
        } else {
            p.log.max_files
        };

        Some(
            ProcessConfig {
                name: p.name.clone(),
                program: p.program.clone(),
                args: clone_string_vec(&p.args),
                working_dir,
                env,
                auto_restart: p.auto_restart,
                start_delay: p.start_delay,
                max_restarts: p.max_restarts,
                depends_on: clone_string_vec(&p.depends_on),
                health_check_url: clone_opt_string(&p.health_check_url),
                log: LogConfig {
                    file: log_file,
                    level: log_level,
                    max_size: log_max_size,
                    max_files: log_max_files,
                },
                process: clone_tuning(&p.process),
            },
        )
    }

    /// Where the configuration file of a process is looked for, in
    /// order: the process's application directory, then its state
    /// directory, then the workspace root. The caller reports which of
    /// the two candidate files exist.
    pub fn find_config_file(
        process_name: Option<&str>,
        workspace: &Workspace,
        app_config_exists: bool,
        state_config_exists: bool,
    ) -> (r: String)
        ensures
            r@ == match process_name {
                Some(name) => if app_config_exists {
                    joined_path(joined_path(workspace.spec_app_dir(), name@), "config.yaml"@)
                } else if state_config_exists {
                    joined_path(
                        joined_path(
                            joined_path(workspace.spec_fuckrun_dir(), "processes"@),
                            name@,
                        ),
                        "config.yaml"@,
                    )
                } else {
                    joined_path(workspace.spec_root(), "config.yaml"@)
                },
                None => joined_path(workspace.spec_root(), "config.yaml"@),
            },
    {
        if let Some(name) = process_name {
            if app_config_exists {
                let p = path_join(workspace.get_app_dir(), name);
                return path_join(p.as_str(), "config.yaml");
            }
            if state_config_exists {
                let p = workspace.get_process_dir(name);
                return path_join(p.as_str(), "config.yaml");
            }
        }
        path_join(workspace.get_root_dir(), "config.yaml")
    }

    /// The configuration file path for a process, as `find_config_file`
    /// chooses it.
    pub fn get_config_path(
        &self,
        process_name: Option<&str>,
        workspace: &Workspace,
        app_config_exists: bool,
        state_config_exists: bool,
    ) -> (r: Result<String, ()>)
        ensures
            r is Ok,
            r matches Ok(p) ==> p@ == match process_name {
                Some(name) => if app_config_exists {
                    joined_path(joined_path(workspace.spec_app_dir(), name@), "config.yaml"@)
                } else if state_config_exists {
                    joined_path(
                        joined_path(
                            joined_path(workspace.spec_fuckrun_dir(), "processes"@),
                            name@,
                        ),
                        "config.yaml"@,
                    )
                } else {
                    joined_path(workspace.spec_root(), "config.yaml"@)
                },
                None => joined_path(workspace.spec_root(), "config.yaml"@),
            },
    {
        Ok(Self::find_config_file(process_name, workspace, app_config_exists, state_config_exists))
    }
}

} // verus!
