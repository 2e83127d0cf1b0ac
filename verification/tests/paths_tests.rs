use backend_supervisor::paths::{packaged_candidates, dev_layout, resolve, PathResolutionError};

fn p(components: &[&str]) -> Vec<String> {
    components.iter().map(|c| c.to_string()).collect()
}

#[test]
fn packaged_candidates_are_exact() {
    let exe_dir = p(&["opt", "app"]);
    let cands = packaged_candidates(&exe_dir);
    assert_eq!(cands.len(), 2);
    assert_eq!(cands[0], p(&["opt", "app", "resources", "src"]));
    assert_eq!(
        cands[1],
        p(&["opt", "app", "..", "Resources", "resources", "src"])
    );
}

#[test]
fn packaged_layout_preferred_over_dev() {
    // The first packaged candidate exists; a development entry point also
    // exists, but the packaged path must win.
    let exe_dir = p(&["opt", "app"]);
    let cwd = p(&["home", "proj", "ui", "src-tauri"]);
    let flags = vec![true, false];
    let ep = resolve(&exe_dir, &cwd, &flags, true).unwrap();
    assert_eq!(ep.working_dir, p(&["opt", "app", "resources", "src"]));
    assert_eq!(
        ep.entry_point,
        p(&["opt", "app", "resources", "src", "run_server.py"])
    );
}

#[test]
fn bundle_candidate_used_when_first_missing() {
    let exe_dir = p(&["Applications", "Shell.app", "Contents", "MacOS"]);
    let cwd = p(&["home"]);
    let flags = vec![false, true];
    let ep = resolve(&exe_dir, &cwd, &flags, false).unwrap();
    let dir = p(&[
        "Applications",
        "Shell.app",
        "Contents",
        "MacOS",
        "..",
        "Resources",
        "resources",
        "src",
    ]);
    assert_eq!(ep.working_dir, dir);
    let mut entry = dir.clone();
    entry.push("run_server.py".to_string());
    assert_eq!(ep.entry_point, entry);
}

#[test]
fn dev_layout_two_levels_up() {
    // No packaged directory exists; the working directory sits two levels
    // below the project root, which holds src/run_server.py.
    let exe_dir = p(&["target", "debug"]);
    let cwd = p(&["home", "proj", "ui", "src-tauri"]);
    let flags = vec![false, false];
    let ep = resolve(&exe_dir, &cwd, &flags, true).unwrap();
    assert_eq!(ep.working_dir, p(&["home", "proj", "src"]));
    assert_eq!(ep.entry_point, p(&["home", "proj", "src", "run_server.py"]));
}

#[test]
fn dev_layout_shallow_working_directory() {
    // Popping past the top is a no-op, as it is for a filesystem root.
    let ep = dev_layout(&p(&["only"]));
    assert_eq!(ep.working_dir, p(&["src"]));
    assert_eq!(ep.entry_point, p(&["src", "run_server.py"]));
}

#[test]
fn resolution_fails_when_nothing_exists() {
    let exe_dir = p(&["opt", "app"]);
    let cwd = p(&["home", "proj", "ui", "src-tauri"]);
    let flags = vec![false, false];
    let r = resolve(&exe_dir, &cwd, &flags, false);
    assert_eq!(r.unwrap_err(), PathResolutionError::NotFound);
}
