//! A model of what an installation acts on, and of a whole installation.
//!
//! The model holds the tool's configuration, the directories and the files
//! as mathematical maps, and takes an action that succeeded to have done
//! what it names and one that failed to have changed nothing.

use vstd::prelude::*;
use crate::artifacts::{
    DISPATCHER_NAME, DISPATCHER_SCRIPT, HOOKS_PATH_KEY, IGNORE_FILE_NAME, IGNORE_RULE,
    PLACEHOLDER_NAME, PLACEHOLDER_TEXT,
};
use crate::config::SloughiView;
use crate::install::{ActionView, InstallView, OutcomeView, Phase};
use crate::paths::joined;
use crate::text::root_of;

verus! {

/// The state of a repository as far as an installation touches it.
pub ghost struct World {
    /// The tool's configuration: the value of each key that is set.
    pub config: Map<Seq<char>, Seq<char>>,
    /// The directories that were created.
    pub dirs: Set<Seq<char>>,
    /// The content of each file that was written.
    pub files: Map<Seq<char>, Seq<char>>,
}

impl World {
    /// This world after `action` was performed with success.
    pub open spec fn after(self, action: ActionView) -> World {
        match action {
            ActionView::SetConfig { key, value } => World {
                config: self.config.insert(key, value),
                ..self
            },
            ActionView::CreateDirAll { path } => World { dirs: self.dirs.insert(path), ..self },
            ActionView::WriteFile { path, content } => World {
                files: self.files.insert(path, content),
                ..self
            },
            ActionView::QueryRoot | ActionView::Succeed | ActionView::Fail { .. } => self,
        }
    }

    /// This world after an installation with `config` in the repository at
    /// `root` that succeeded in every step.
    pub open spec fn installed(self, config: SloughiView, root: Seq<char>) -> World {
        let hooks = config.hooks_dir(root);
        let scripts = config.script_dir(root);
        World {
            config: self.config.insert(HOOKS_PATH_KEY@, config.relative_path),
            dirs: self.dirs.insert(scripts),
            files: self.files.insert(joined(scripts, IGNORE_FILE_NAME@), IGNORE_RULE@).insert(
                joined(hooks, PLACEHOLDER_NAME@),
                PLACEHOLDER_TEXT@,
            ).insert(joined(scripts, DISPATCHER_NAME@), DISPATCHER_SCRIPT@),
        }
    }
}

/// Where the installation `state` and the world `world` stand after the
/// actions that fell due, one after the other, had the outcomes `outcomes`.
pub open spec fn run(state: InstallView, outcomes: Seq<OutcomeView>, world: World) -> (
    InstallView,
    World,
)
    decreases outcomes.len(),
{
    if outcomes.len() == 0 {
        (state, world)
    } else {
        let outcome = outcomes.first();
        let changed = if outcome.succeeds_in(state.phase) {
            world.after(state.pending())
        } else {
            world
        };
        run(state.next(outcome), outcomes.drop_first(), changed)
    }
}

/// Whether `outcomes` are those of an installation that succeeds in each of
/// its six steps.
pub open spec fn succeeds_throughout(outcomes: Seq<OutcomeView>) -> bool {
    &&& outcomes.len() == 6
    &&& outcomes[0].tool_succeeded()
    &&& outcomes[1].tool_succeeded()
    &&& forall|i: int| 2 <= i < 6 ==> #[trigger] outcomes[i] is Completed
}

/// The repository root that the first of `outcomes` names.
pub open spec fn root_named(outcomes: Seq<OutcomeView>) -> Seq<char>
    recommends
        outcomes.len() > 0,
        outcomes[0] is Exited,
{
    root_of(outcomes[0]->stdout)
}

/// The installation that has ended well in the repository at `root`.
pub open spec fn done(config: SloughiView, root: Seq<char>) -> InstallView {
    InstallView { phase: Phase::Done, relative_path: config.relative_path, root }
}

} // verus!
