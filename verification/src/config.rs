//! The configuration of an installation.

use vstd::prelude::*;
use crate::paths::{join, joined};

verus! {

/// Directory, relative to the repository root, that holds the hooks unless
/// another one is chosen.
pub const DEFAULT_PATH: &'static str = ".sloughi";

/// First of the two environment variables every configuration starts with.
pub const HUSKY_SKIP_INIT: &'static str = "HUSKY_SKIP_INIT";

/// Second of the two environment variables every configuration starts with.
pub const SLOUGHI_SKIP_INIT: &'static str = "SLOUGHI_SKIP_INIT";

/// Name of the directory, below the hooks directory, that holds the
/// dispatcher script.
pub const SCRIPT_DIR_NAME: &'static str = "_";

/// What a configuration holds, as mathematical values.
pub ghost struct SloughiView {
    pub relative_path: Seq<char>,
    pub include_precommit: bool,
    pub ignore_envs: Seq<Seq<char>>,
}

impl SloughiView {
    /// The configuration that [`Sloughi::new`] returns.
    pub open spec fn initial() -> SloughiView {
        SloughiView {
            relative_path: DEFAULT_PATH@,
            include_precommit: true,
            ignore_envs: seq![HUSKY_SKIP_INIT@, SLOUGHI_SKIP_INIT@],
        }
    }

    /// This configuration with the hooks directory replaced by `path`.
    pub open spec fn with_path(self, path: Seq<char>) -> SloughiView {
        SloughiView { relative_path: path, ..self }
    }

    /// This configuration with `env` added behind the names it ignores.
    pub open spec fn with_env(self, env: Seq<char>) -> SloughiView {
        SloughiView { ignore_envs: self.ignore_envs.push(env), ..self }
    }

    /// The hooks directory of the repository at `root`.
    pub open spec fn hooks_dir(self, root: Seq<char>) -> Seq<char> {
        joined(root, self.relative_path)
    }

    /// The directory of the dispatcher script in the repository at `root`.
    pub open spec fn script_dir(self, root: Seq<char>) -> Seq<char> {
        joined(self.hooks_dir(root), SCRIPT_DIR_NAME@)
    }
}

/// Configuration of the hook dispatcher for one repository.
pub struct Sloughi {
    relative_path: String,
    include_precommit: bool,
    ignore_envs: Vec<String>,
}

impl View for Sloughi {
    type V = SloughiView;

    closed spec fn view(&self) -> SloughiView {
        SloughiView {
            relative_path: self.relative_path@,
            include_precommit: self.include_precommit,
            ignore_envs: self.ignore_envs.deep_view(),
        }
    }
}

impl Sloughi {
    /// A configuration with the default hooks directory, the pre-commit flag
    /// set and the two default names to ignore.
    pub fn new() -> (r: Self)
        ensures
            r@ == SloughiView::initial(),
    {
        let mut envs: Vec<String> = Vec::new();
        envs.push(HUSKY_SKIP_INIT.to_owned());
        envs.push(SLOUGHI_SKIP_INIT.to_owned());
        let r = Sloughi {
            relative_path: DEFAULT_PATH.to_owned(),
            include_precommit: true,
            ignore_envs: envs,
        };
        assert(r.ignore_envs.deep_view() =~= seq![HUSKY_SKIP_INIT@, SLOUGHI_SKIP_INIT@]);
        r
    }

    /// Replaces the hooks directory by `relative_path`, which is taken as it
    /// is, and hands the configuration back for the next call.
    pub fn custom_path(&mut self, relative_path: &str) -> (r: &mut Self)
        ensures
            r@ == old(self)@.with_path(relative_path@),
            *final(self) == *final(r),
    {
        self.relative_path = relative_path.to_owned();
        self
    }

    /// Adds `env` behind the names to ignore, whether or not it is among
    /// them already, and hands the configuration back for the next call.
    pub fn ignore_env(&mut self, env: &str) -> (r: &mut Self)
        ensures
            r@ == old(self)@.with_env(env@),
            *final(self) == *final(r),
    {
        self.ignore_envs.push(env.to_owned());
        assert(self.ignore_envs.deep_view() =~= old(self).ignore_envs.deep_view().push(env@));
        self
    }

    /// The hooks directory, relative to the repository root.
    pub fn relative_path(&self) -> (r: &str)
        ensures
            r@ == self@.relative_path,
    {
        self.relative_path.as_str()
    }

    /// Whether a pre-commit placeholder is asked for.
    pub fn include_precommit(&self) -> (r: bool)
        ensures
            r == self@.include_precommit,
    {
        self.include_precommit
    }

    /// The names to ignore, in the order in which they were added.
    pub fn ignore_envs(&self) -> (r: &Vec<String>)
        ensures
            r.deep_view() == self@.ignore_envs,
    {
        &self.ignore_envs
    }

    /// The hooks directory of the repository at `repo_path`.
    pub fn _hooks_abs_dir(&self, repo_path: &str) -> (r: String)
        ensures
            r@ == self@.hooks_dir(repo_path@),
    {
        join(repo_path, self.relative_path.as_str())
    }

    /// The directory of the dispatcher script in the repository at
    /// `repo_path`.
    pub fn _sloughi_script_abs_dir(&self, repo_path: &str) -> (r: String)
        ensures
            r@ == self@.script_dir(repo_path@),
    {
        let hooks = self._hooks_abs_dir(repo_path);
        join(hooks.as_str(), SCRIPT_DIR_NAME)
    }
}

} // verus!
