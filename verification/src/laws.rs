//! What holds of every installation.

use vstd::prelude::*;
use crate::artifacts::{
    DISPATCHER_NAME, DISPATCHER_SCRIPT, HOOKS_PATH_KEY, IGNORE_FILE_NAME, IGNORE_RULE,
    PLACEHOLDER_NAME, PLACEHOLDER_TEXT,
};
use crate::config::{SloughiView, HUSKY_SKIP_INIT, SLOUGHI_SKIP_INIT};
use crate::install::{ActionView, InstallError, InstallView, OutcomeView, Phase};
use crate::paths::joined;
use crate::world::{done, root_named, run, succeeds_throughout, World};

verus! {

/// An installation that has ended takes no further step: whatever outcomes
/// it is told, it stays as it is and the world is left alone.
pub proof fn lemma_ended_stays(state: InstallView, outcomes: Seq<OutcomeView>, world: World)
    requires
        state.phase.is_final(),
    ensures
        run(state, outcomes, world) == (state, world),
    decreases outcomes.len(),
{
    if outcomes.len() > 0 {
        lemma_ended_stays(state, outcomes.drop_first(), world);
    }
}

/// An installation whose six steps all succeed ends well, with the root that
/// the tool named, and leaves the hooks path set, the script directory
/// created and the three files written.
pub proof fn lemma_successful_run(config: SloughiView, outcomes: Seq<OutcomeView>, world: World)
    requires
        succeeds_throughout(outcomes),
    ensures
        run(InstallView::start(config), outcomes, world) == (
            done(config, root_named(outcomes)),
            world.installed(config, root_named(outcomes)),
        ),
{
    let root = root_named(outcomes);
    let s0 = InstallView::start(config);
    let s1 = s0.next(outcomes[0]);
    let s2 = s1.next(outcomes[1]);
    let s3 = s2.next(outcomes[2]);
    let s4 = s3.next(outcomes[3]);
    let s5 = s4.next(outcomes[4]);
    let s6 = s5.next(outcomes[5]);
    let w2 = world.after(s1.pending());
    let w3 = w2.after(s2.pending());
    let w4 = w3.after(s3.pending());
    let w5 = w4.after(s4.pending());
    let w6 = w5.after(s5.pending());
    let o1 = outcomes.drop_first();
    let o2 = o1.drop_first();
    let o3 = o2.drop_first();
    let o4 = o3.drop_first();
    let o5 = o4.drop_first();
    let o6 = o5.drop_first();
    assert(outcomes[2] is Completed && outcomes[3] is Completed && outcomes[4] is Completed
        && outcomes[5] is Completed);
    assert(s1.phase == Phase::ConfigureHooks && s1.root == root);
    assert(run(s6, o6, w6) == (s6, w6));
    assert(run(s5, o5, w5) == run(s6, o6, w6));
    assert(run(s4, o4, w4) == run(s5, o5, w5));
    assert(run(s3, o3, w3) == run(s4, o4, w4));
    assert(run(s2, o2, w2) == run(s3, o3, w3));
    assert(run(s1, o1, world) == run(s2, o2, w2));
    assert(run(s0, outcomes, world) == run(s1, o1, world));
    assert(s6 == done(config, root));
    assert(w6 == world.installed(config, root));
}

/// What a completed installation leaves behind: the hooks path is set to the
/// configured directory, the script directory stands, the dispatcher script
/// holds its fixed text, and the ignore file and the placeholder hold theirs
/// wherever no file written after them has the same path.
pub proof fn lemma_scaffold(config: SloughiView, root: Seq<char>, world: World)
    ensures
        ({
            let after = world.installed(config, root);
            let hooks = config.hooks_dir(root);
            let scripts = config.script_dir(root);
            let ignore = joined(scripts, IGNORE_FILE_NAME@);
            let placeholder = joined(hooks, PLACEHOLDER_NAME@);
            let dispatcher = joined(scripts, DISPATCHER_NAME@);
            &&& after.config.dom().contains(HOOKS_PATH_KEY@)
            &&& after.config[HOOKS_PATH_KEY@] == config.relative_path
            &&& after.dirs.contains(scripts)
            &&& after.files.dom().contains(ignore)
            &&& after.files.dom().contains(placeholder)
            &&& after.files.dom().contains(dispatcher)
            &&& after.files[dispatcher] == DISPATCHER_SCRIPT@
            &&& placeholder != dispatcher ==> after.files[placeholder] == PLACEHOLDER_TEXT@
            &&& ignore != placeholder && ignore != dispatcher ==> after.files[ignore]
                == IGNORE_RULE@
        }),
{
}

/// Installing once more changes nothing: a second installation that
/// succeeds, with the same configuration in the same repository, leaves the
/// configuration of the tool, the directories and the files as the first
/// left them.
pub proof fn lemma_install_idempotent(
    config: SloughiView,
    first: Seq<OutcomeView>,
    second: Seq<OutcomeView>,
    world: World,
)
    requires
        succeeds_throughout(first),
        succeeds_throughout(second),
        root_named(first) == root_named(second),
    ensures
        run(InstallView::start(config), second, run(InstallView::start(config), first, world).1).1
            == run(InstallView::start(config), first, world).1,
{
    let root = root_named(first);
    let once = world.installed(config, root);
    lemma_successful_run(config, first, world);
    lemma_successful_run(config, second, once);
    let twice = once.installed(config, root);
    assert(twice.config =~= once.config);
    assert(twice.dirs =~= once.dirs);
    assert(twice.files =~= once.files);
}

/// Without a repository nothing is touched: when the root query does not
/// succeed, the installation fails with `RepositoryNotFound`, and whatever
/// outcomes follow, the world stays as it was.
pub proof fn lemma_missing_repository(
    config: SloughiView,
    outcomes: Seq<OutcomeView>,
    world: World,
)
    requires
        outcomes.len() > 0,
        !outcomes[0].tool_succeeded(),
    ensures
        run(InstallView::start(config), outcomes, world).1 == world,
        run(InstallView::start(config), outcomes, world).0.pending() matches ActionView::Fail {
            error,
            ..
        } && error == InstallError::RepositoryNotFound,
{
    let failed = InstallView::start(config).next(outcomes[0]);
    lemma_ended_stays(failed, outcomes.drop_first(), world);
}

/// A step that fails is the last: the world is as the steps before it left
/// it, and stays so whatever outcomes follow.
pub proof fn lemma_failure_aborts(state: InstallView, outcomes: Seq<OutcomeView>, world: World)
    requires
        outcomes.len() > 0,
        !state.phase.is_final(),
        !outcomes[0].succeeds_in(state.phase),
    ensures
        run(state, outcomes, world).1 == world,
        run(state, outcomes, world).0.phase is Failed,
{
    lemma_ended_stays(state.next(outcomes[0]), outcomes.drop_first(), world);
}

/// The hooks directory that was chosen is the one that is installed: after
/// `with_path(path)` the hooks path is set to `path` and the directories lie
/// under it, and the rest of the configuration is as before.
pub proof fn lemma_custom_path_is_used(config: SloughiView, path: Seq<char>, stdout: Seq<u8>)
    ensures
        config.with_path(path).include_precommit == config.include_precommit,
        config.with_path(path).ignore_envs == config.ignore_envs,
        ({
            let found = OutcomeView::Exited { success: true, stdout };
            let state = InstallView::start(config.with_path(path)).next(found);
            &&& state.pending() == (ActionView::SetConfig { key: HOOKS_PATH_KEY@, value: path })
            &&& state.hooks_dir() == config.with_path(path).hooks_dir(state.root)
            &&& state.script_dir() == config.with_path(path).script_dir(state.root)
        }),
{
}

/// Names to ignore pile up: two that are added to a new configuration
/// follow the two it starts with, in the order in which they were added,
/// also where they repeat a name.
pub proof fn lemma_ignore_envs_accumulate(first: Seq<char>, second: Seq<char>)
    ensures
        SloughiView::initial().with_env(first).with_env(second).ignore_envs == seq![
            HUSKY_SKIP_INIT@,
            SLOUGHI_SKIP_INIT@,
            first,
            second,
        ],
{
    assert(SloughiView::initial().with_env(first).with_env(second).ignore_envs =~= seq![
        HUSKY_SKIP_INIT@,
        SLOUGHI_SKIP_INIT@,
        first,
        second,
    ]);
}

} // verus!
