use sloughi::Sloughi;

fn names(config: &Sloughi) -> Vec<&str> {
    config.ignore_envs().iter().map(|s| s.as_str()).collect()
}

#[test]
fn new_has_the_documented_defaults() {
    let config = Sloughi::new();
    assert_eq!(config.relative_path(), ".sloughi");
    assert!(config.include_precommit());
    assert_eq!(names(&config), vec!["HUSKY_SKIP_INIT", "SLOUGHI_SKIP_INIT"]);
}

#[test]
fn default_constants() {
    assert_eq!(sloughi::config::DEFAULT_PATH, ".sloughi");
    assert_eq!(sloughi::config::SCRIPT_DIR_NAME, "_");
    assert_eq!(sloughi::config::HUSKY_SKIP_INIT, "HUSKY_SKIP_INIT");
    assert_eq!(sloughi::config::SLOUGHI_SKIP_INIT, "SLOUGHI_SKIP_INIT");
}

#[test]
fn custom_path_replaces_only_the_path() {
    let mut config = Sloughi::new();
    config.custom_path("custom");
    assert_eq!(config.relative_path(), "custom");
    assert!(config.include_precommit());
    assert_eq!(names(&config), vec!["HUSKY_SKIP_INIT", "SLOUGHI_SKIP_INIT"]);
}

#[test]
fn custom_path_is_not_validated() {
    let mut config = Sloughi::new();
    config.custom_path("");
    assert_eq!(config.relative_path(), "");
}

#[test]
fn custom_path_twice_keeps_the_last() {
    let mut config = Sloughi::new();
    config.custom_path("one").custom_path("two");
    assert_eq!(config.relative_path(), "two");
}

#[test]
fn ignore_env_appends_in_order() {
    let mut config = Sloughi::new();
    config.ignore_env("CI");
    config.ignore_env("NIGHTLY");
    assert_eq!(
        names(&config),
        vec!["HUSKY_SKIP_INIT", "SLOUGHI_SKIP_INIT", "CI", "NIGHTLY"]
    );
    assert_eq!(config.relative_path(), ".sloughi");
    assert!(config.include_precommit());
}

#[test]
fn ignore_env_keeps_duplicates() {
    let mut config = Sloughi::new();
    config.ignore_env("CI").ignore_env("CI").ignore_env("HUSKY_SKIP_INIT");
    assert_eq!(
        names(&config),
        vec!["HUSKY_SKIP_INIT", "SLOUGHI_SKIP_INIT", "CI", "CI", "HUSKY_SKIP_INIT"]
    );
}

#[test]
fn setters_chain() {
    let mut config = Sloughi::new();
    config.custom_path(".hooks").ignore_env("CI").custom_path("custom").ignore_env("X");
    assert_eq!(config.relative_path(), "custom");
    assert_eq!(names(&config), vec!["HUSKY_SKIP_INIT", "SLOUGHI_SKIP_INIT", "CI", "X"]);
}

#[test]
fn hooks_dir_is_below_the_root() {
    let config = Sloughi::new();
    assert_eq!(config._hooks_abs_dir("/repo"), "/repo/.sloughi");
}

#[test]
fn hooks_dir_follows_the_custom_path() {
    let mut config = Sloughi::new();
    config.custom_path("tools/hooks");
    assert_eq!(config._hooks_abs_dir("/work/project"), "/work/project/tools/hooks");
}

#[test]
fn script_dir_is_below_the_hooks_dir() {
    let config = Sloughi::new();
    assert_eq!(config._sloughi_script_abs_dir("/repo"), "/repo/.sloughi/_");
    let mut custom = Sloughi::new();
    custom.custom_path("custom");
    assert_eq!(custom._sloughi_script_abs_dir("/repo"), "/repo/custom/_");
}

#[test]
fn root_with_a_separator_at_its_end_gets_no_second_one() {
    let config = Sloughi::new();
    assert_eq!(config._hooks_abs_dir("/repo/"), "/repo/.sloughi");
}
