//! The names and the fixed contents of what an installation writes.

use vstd::prelude::*;

verus! {

/// The configuration key of the version-control tool that names the
/// directory in which it looks for hooks.
pub const HOOKS_PATH_KEY: &'static str = "core.hooksPath";

/// Name of the file, in the script directory, that keeps that directory out
/// of version control.
pub const IGNORE_FILE_NAME: &'static str = ".gitignore";

/// Content of the ignore file: the pattern that matches everything.
pub const IGNORE_RULE: &'static str = "*";

/// Name of the placeholder hook, in the hooks directory.
pub const PLACEHOLDER_NAME: &'static str = "pre-commit";

/// Content of the placeholder hook. It is no working hook.
pub const PLACEHOLDER_TEXT: &'static str = "just for trkk";

/// Name of the dispatcher script, in the script directory.
pub const DISPATCHER_NAME: &'static str = "sloughi.sh";

/// The dispatcher script. A hook that sources it is run again under `sh -e`
/// unless `sloughi_skip_init` is set already or `SLOUGHI` is `0`, and leaves
/// with the exit code of that run. Nothing of a configuration enters it.
pub const DISPATCHER_SCRIPT: &'static str = r#"#!/usr/bin/env sh

if [ -z "$sloughi_skip_init" ]; then
  debug () {
    if [ "$SLOUGHI_DEBUG" = "1" ]; then
      echo "sloughi (debug) - $1"
    fi
  }

  readonly hook_name="$(basename "$0")"
  debug "starting $hook_name..."

  if [ "$SLOUGHI" = "0" ]; then
    debug "SLOUGHI env variable is set to 0, skipping hook"
    exit 0
  fi

  export readonly sloughi_skip_init=1
  sh -e "$0" "$@"
  exitCode="$?"

  if [ $exitCode != 0 ]; then
    echo "sloughi - $hook_name hook exited with code $exitCode (error)"
  fi

  exit $exitCode
fi

"#;

} // verus!
