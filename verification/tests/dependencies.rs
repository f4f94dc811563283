use eternalmac::tooling::dependencies::{build_dependency_plan, Inspector};

#[test]
fn dependency_plan_includes_only_missing_tools() {
    let inspector = Inspector::from_installed([
        ("et", false),
        ("tmux", true),
        ("mutagen", false),
        ("tailscale-app", false),
    ]);

    let plan = build_dependency_plan(&inspector);
    assert_eq!(plan.formulae, vec!["et", "mutagen"]);
    assert_eq!(plan.casks, vec!["tailscale-app"]);
}

#[test]
fn dependency_plan_treats_unknown_tools_as_missing_and_keeps_last_answer() {
    let inspector = Inspector::from_installed([("et", false), ("et", true), ("tailscale-app", true)]);
    assert!(inspector.has("et"));
    assert!(!inspector.has("tmux"));

    let plan = build_dependency_plan(&inspector);
    assert_eq!(plan.formulae, vec!["tmux", "mutagen"]);
    assert!(plan.casks.is_empty());
}

#[test]
fn dependency_plan_is_empty_when_everything_is_installed() {
    let inspector = Inspector::from_installed([
        ("et", true),
        ("tmux", true),
        ("mutagen", true),
        ("tailscale-app", true),
    ]);
    let plan = build_dependency_plan(&inspector);
    assert!(plan.formulae.is_empty());
    assert!(plan.casks.is_empty());
}
