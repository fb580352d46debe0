//! The workspace: the directory layout rooted at a workspace path, with
//! the per-process state directory, the per-process log directory and the
//! system log directory derived from it.
//!
//! All paths are computed here as plain strings and verified against the
//! layout; creating the directories on disk is I/O and happens outside the
//! library.

use vstd::prelude::*;
use crate::strutil::{is_absolute_path, joined_path, path_join, path_is_absolute};

verus! {

/// The reason a workspace failed validation.
#[derive(Clone, Copy, Debug, PartialEq, Eq, Structural)]
pub enum WorkspaceError {
    /// The project root directory does not exist.
    MissingRoot,
    /// The application directory does not exist.
    MissingAppDir,
    /// The supervisor's own working directory does not exist.
    MissingStateRoot,
}

/// The directory layout of one workspace.
#[derive(Debug, Clone)]
pub struct Workspace {
    /// Project root directory.
    root: String,
    /// User application directory.
    app_dir: String,
    /// The supervisor's own working directory under the root.
    fuckrun_dir: String,
}

impl Workspace {
    /// The root this workspace was created from.
    pub closed spec fn spec_root(&self) -> Seq<char> {
        self.root@
    }

    /// The application directory currently in effect.
    pub closed spec fn spec_app_dir(&self) -> Seq<char> {
        self.app_dir@
    }

    /// The supervisor's working directory.
    pub closed spec fn spec_fuckrun_dir(&self) -> Seq<char> {
        self.fuckrun_dir@
    }

    /// The layout invariant: both derived directories were produced from
    /// some root; the supervisor directory always sits under this root.
    pub open spec fn wf(&self) -> bool {
        self.spec_fuckrun_dir() == joined_path(self.spec_root(), ".fuckrun"@)
    }

    /// Lays out a workspace under an already resolved root directory:
    /// applications live under `deployments`, the supervisor's own state
    /// under `.fuckrun`.
    pub fn new(root: &str) -> (r: Self)
        ensures
            r.spec_root() == root@,
            r.spec_app_dir() == joined_path(root@, "deployments"@),
            r.spec_fuckrun_dir() == joined_path(root@, ".fuckrun"@),
            r.wf(),
    {
        let app_dir = path_join(root, "deployments");
        let fuckrun_dir = path_join(root, ".fuckrun");
        Workspace { root: root.to_owned(), app_dir, fuckrun_dir }
    }

    /// Points the workspace at another application directory; a relative
    /// path is taken under the root.
    pub fn set_app_dir(&mut self, app_dir: &str)
        ensures
            final(self).spec_app_dir() == if is_absolute_path(app_dir@) {
                app_dir@
            } else {
                joined_path(old(self).spec_root(), app_dir@)
            },
            final(self).spec_root() == old(self).spec_root(),
            final(self).spec_fuckrun_dir() == old(self).spec_fuckrun_dir(),
            old(self).wf() ==> final(self).wf(),
    {
        if path_is_absolute(app_dir) {
            self.app_dir = app_dir.to_owned();
        } else {
            self.app_dir = path_join(self.root.as_str(), app_dir);
        }
    }

    /// An identical copy of the workspace.
    pub fn duplicate(&self) -> (r: Self)
        ensures
            r == *self,
    {
        Workspace {
            root: self.root.clone(),
            app_dir: self.app_dir.clone(),
            fuckrun_dir: self.fuckrun_dir.clone(),
        }
    }

    /// The application directory of one process.
    pub fn get_process_app_dir(&self, process_name: &str) -> (r: String)
        ensures
            r@ == joined_path(joined_path(self.spec_app_dir(), process_name@), "app"@),
    {
        let p = path_join(self.app_dir.as_str(), process_name);
        path_join(p.as_str(), "app")
    }

    /// Checks that the directories this workspace relies on exist; the
    /// caller reports for each whether it does.
    pub fn validate(&self, root_exists: bool, app_dir_exists: bool, state_root_exists: bool) -> (r:
        Result<(), WorkspaceError>)
        ensures
            r is Ok <==> root_exists && app_dir_exists && state_root_exists,
            !root_exists ==> r == Result::<(), WorkspaceError>::Err(WorkspaceError::MissingRoot),
            root_exists && !app_dir_exists ==> r == Result::<(), WorkspaceError>::Err(
                WorkspaceError::MissingAppDir,
            ),
            root_exists && app_dir_exists && !state_root_exists ==> r == Result::<
                (),
                WorkspaceError,
            >::Err(WorkspaceError::MissingStateRoot),
    {
        if !root_exists {
            return Err(WorkspaceError::MissingRoot);
        }
        if !app_dir_exists {
            return Err(WorkspaceError::MissingAppDir);
        }
        if !state_root_exists {
            return Err(WorkspaceError::MissingStateRoot);
        }
        Ok(())
    }

    /// The state directory of one process.
    pub fn get_process_dir(&self, process_name: &str) -> (r: String)
        ensures
            r@ == joined_path(
                joined_path(self.spec_fuckrun_dir(), "processes"@),
                process_name@,
            ),
    {
        let p = path_join(self.fuckrun_dir.as_str(), "processes");
        path_join(p.as_str(), process_name)
    }

    /// The state file of one process.
    pub fn get_process_state_file(&self, process_name: &str) -> (r: String)
        ensures
            r@ == joined_path(
                joined_path(joined_path(self.spec_fuckrun_dir(), "processes"@), process_name@),
                "state.json"@,
            ),
    {
        let p = self.get_process_dir(process_name);
        path_join(p.as_str(), "state.json")
    }

    /// The log directory of one process.
    pub fn get_process_log_dir(&self, process_name: &str) -> (r: String)
        ensures
            r@ == joined_path(
                joined_path(joined_path(self.spec_fuckrun_dir(), "processes"@), process_name@),
                "logs"@,
            ),
    {
        let p = self.get_process_dir(process_name);
        path_join(p.as_str(), "logs")
    }

    /// The application directory.
    pub fn get_app_dir(&self) -> (r: &str)
        ensures
            r@ == self.spec_app_dir(),
    {
        self.app_dir.as_str()
    }

    /// The project root directory.
    pub fn get_root_dir(&self) -> (r: &str)
        ensures
            r@ == self.spec_root(),
    {
        self.root.as_str()
    }

    /// The supervisor's own working directory.
    pub fn get_fuckrun_dir(&self) -> (r: &str)
        ensures
            r@ == self.spec_fuckrun_dir(),
    {
        self.fuckrun_dir.as_str()
    }

    /// The directory under which every process keeps its state.
    pub fn get_processes_dir(&self) -> (r: String)
        ensures
            r@ == joined_path(self.spec_fuckrun_dir(), "processes"@),
    {
        path_join(self.fuckrun_dir.as_str(), "processes")
    }
}

/// Whether a process name is a safe path segment: non-empty, free of path
/// separators, and not a dot or dot-dot traversal.
pub open spec fn is_safe_segment(name: Seq<char>) -> bool {
    &&& name.len() > 0
    &&& forall|i: int| 0 <= i < name.len() ==> #[trigger] name[i] != '/' && name[i] != '\\'
    &&& name != "."@
    &&& name != ".."@
}

/// Checks that a process name is usable as a path segment.
pub fn segment_is_safe(name: &str) -> (r: bool)
    ensures
        r == is_safe_segment(name@),
{
    let n = name.unicode_len();
    if n == 0 {
        return false;
    }
    let mut i: usize = 0;
    while i < n
        invariant
            0 <= i <= n,
            n == name@.len(),
            forall|j: int| 0 <= j < i ==> #[trigger] name@[j] != '/' && name@[j] != '\\',
        decreases n - i,
    {
        let c = name.get_char(i);
        if c == '/' || c == '\\' {
            return false;
        }
        i = i + 1;
    }
    proof {
        reveal_strlit(".");
        reveal_strlit("..");
    }
    if n == 1 && name.get_char(0) == '.' {
        proof {
            assert(name@ =~= "."@);
        }
        return false;
    }
    if n == 2 && name.get_char(0) == '.' && name.get_char(1) == '.' {
        proof {
            assert(name@ =~= ".."@);
        }
        return false;
    }
    assert(name@ != "."@ && name@ != ".."@) by {
        if name@ == "."@ {
            assert(name@.len() == 1 && name@[0] == '.');
        }
        if name@ == ".."@ {
            assert(name@.len() == 2 && name@[0] == '.' && name@[1] == '.');
        }
    }
    true
}

} // verus!
