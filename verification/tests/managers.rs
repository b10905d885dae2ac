use rnpm::manager::{PackageManager, ParseManagerError};
use rnpm::scripts::{find_exact, find_matching, plan, Launch};

#[test]
fn every_manager_is_read_from_its_name() {
    assert_eq!(PackageManager::from_str("npm"), Ok(PackageManager::Npm));
    assert_eq!(PackageManager::from_str("pnpm"), Ok(PackageManager::Pnpm));
    assert_eq!(PackageManager::from_str("yarn"), Ok(PackageManager::Yarn));
    assert_eq!(PackageManager::from_str("bun"), Ok(PackageManager::Bun));
}

#[test]
fn other_names_are_refused() {
    for name in ["", "NPM", "npm ", "cargo", "pnp", "yarnx", "bu"] {
        assert_eq!(PackageManager::from_str(name), Err(ParseManagerError));
    }
}

#[test]
fn every_manager_has_its_name_and_lockfile() {
    assert_eq!(PackageManager::Npm.as_str(), "npm");
    assert_eq!(PackageManager::Pnpm.as_str(), "pnpm");
    assert_eq!(PackageManager::Yarn.as_str(), "yarn");
    assert_eq!(PackageManager::Bun.as_str(), "bun");
    assert_eq!(PackageManager::Npm.lockfile(), "package-lock.json");
    assert_eq!(PackageManager::Yarn.lockfile(), "yarn.lock");
    assert_eq!(PackageManager::Pnpm.lockfile(), "pnpm-lock.yaml");
    assert_eq!(PackageManager::Bun.lockfile(), "bun.lockb");
}

#[test]
fn names_are_read_back() {
    for manager in PackageManager::search_order() {
        assert_eq!(PackageManager::from_str(manager.as_str()), Ok(manager));
    }
}

#[test]
fn lockfiles_are_looked_for_in_a_fixed_order() {
    assert_eq!(
        PackageManager::search_order(),
        [PackageManager::Npm, PackageManager::Yarn, PackageManager::Pnpm, PackageManager::Bun]
    );
}

#[test]
fn matching_keeps_the_scripts_that_hold_the_search() {
    let scripts = vec!["build", "test", "test:unit", "lint", "pretest"];
    assert_eq!(find_matching(&scripts, Some("test")), vec!["test", "test:unit", "pretest"]);
    assert_eq!(find_matching(&scripts, Some("t:u")), vec!["test:unit"]);
    assert_eq!(find_matching(&scripts, Some("")), scripts);
    assert_eq!(find_matching(&scripts, None), scripts);
    assert_eq!(find_matching(&scripts, Some("deploy")), Vec::<&str>::new());
    assert_eq!(find_matching(&scripts, Some("tset")), Vec::<&str>::new());
}

#[test]
fn exact_names_are_found() {
    let scripts = vec!["build", "test", "test:unit"];
    assert!(find_exact(&scripts, "test"));
    assert!(find_exact(&scripts, "test:unit"));
    assert!(!find_exact(&scripts, "tes"));
    assert!(!find_exact(&scripts, "Test"));
    assert!(!find_exact(&Vec::new(), "test"));
}

#[test]
fn an_exact_script_runs_at_once_when_asked_for() {
    let scripts = vec!["test:unit", "test", "pretest"];
    match plan(&scripts, Some("test"), true) {
        Launch::Exact(script) => assert_eq!(script, "test"),
        other => panic!("unexpected launch: {:?}", other),
    }
}

#[test]
fn without_the_wish_an_exact_script_is_one_of_several() {
    let scripts = vec!["test:unit", "test", "pretest"];
    match plan(&scripts, Some("test"), false) {
        Launch::Choose(offered) => assert_eq!(offered, vec!["pretest", "test", "test:unit"]),
        other => panic!("unexpected launch: {:?}", other),
    }
}

#[test]
fn no_wanted_script_means_nothing_to_do() {
    let scripts = vec!["build", "test"];
    assert!(matches!(plan(&scripts, Some("deploy"), false), Launch::Nothing));
    assert!(matches!(plan(&scripts, Some("deploy"), true), Launch::Nothing));
    assert!(matches!(plan(&Vec::new(), None, false), Launch::Nothing));
}

#[test]
fn a_single_wanted_script_runs_without_a_question() {
    let scripts = vec!["build", "test", "lint"];
    match plan(&scripts, Some("li"), false) {
        Launch::Only(script) => assert_eq!(script, "lint"),
        other => panic!("unexpected launch: {:?}", other),
    }
    let only = vec!["start"];
    match plan(&only, None, true) {
        Launch::Only(script) => assert_eq!(script, "start"),
        other => panic!("unexpected launch: {:?}", other),
    }
}

#[test]
fn several_wanted_scripts_are_offered_in_ascending_order() {
    let scripts = vec!["test", "build", "lint", "Build", "a", "build:prod", ""];
    match plan(&scripts, None, false) {
        Launch::Choose(offered) => {
            assert_eq!(offered, vec!["", "Build", "a", "build", "build:prod", "lint", "test"])
        }
        other => panic!("unexpected launch: {:?}", other),
    }
    match plan(&scripts, Some("build"), true) {
        Launch::Exact(script) => assert_eq!(script, "build"),
        other => panic!("unexpected launch: {:?}", other),
    }
    match plan(&scripts, Some("uild"), true) {
        Launch::Choose(offered) => assert_eq!(offered, vec!["Build", "build", "build:prod"]),
        other => panic!("unexpected launch: {:?}", other),
    }
}

#[test]
fn an_exact_single_script_still_counts_as_exact() {
    let scripts = vec!["build", "lint"];
    match plan(&scripts, Some("lint"), true) {
        Launch::Exact(script) => assert_eq!(script, "lint"),
        other => panic!("unexpected launch: {:?}", other),
    }
    match plan(&scripts, Some("lint"), false) {
        Launch::Only(script) => assert_eq!(script, "lint"),
        other => panic!("unexpected launch: {:?}", other),
    }
}

#[test]
fn the_first_lockfile_in_the_search_order_governs() {
    assert_eq!(PackageManager::governing([false, false, false, false]), None);
    assert_eq!(PackageManager::governing([true, true, true, true]), Some(PackageManager::Npm));
    assert_eq!(PackageManager::governing([false, true, true, true]), Some(PackageManager::Yarn));
    assert_eq!(PackageManager::governing([false, false, true, true]), Some(PackageManager::Pnpm));
    assert_eq!(PackageManager::governing([false, false, false, true]), Some(PackageManager::Bun));
    assert_eq!(PackageManager::governing([true, false, false, false]), Some(PackageManager::Npm));
    assert_eq!(PackageManager::governing([false, true, false, true]), Some(PackageManager::Yarn));
}

#[test]
fn candidates_come_in_the_search_order_and_then_end() {
    assert_eq!(PackageManager::candidate(0), Some(PackageManager::Npm));
    assert_eq!(PackageManager::candidate(1), Some(PackageManager::Yarn));
    assert_eq!(PackageManager::candidate(2), Some(PackageManager::Pnpm));
    assert_eq!(PackageManager::candidate(3), Some(PackageManager::Bun));
    assert_eq!(PackageManager::candidate(4), None);
    assert_eq!(PackageManager::candidate(usize::MAX), None);
}

#[test]
fn a_search_by_candidates_finds_what_governs() {
    for bits in 0..16u8 {
        let present = [bits & 1 != 0, bits & 2 != 0, bits & 4 != 0, bits & 8 != 0];
        let mut misses = 0;
        let mut found = None;
        while let Some(manager) = PackageManager::candidate(misses) {
            if present[misses] {
                found = Some(manager);
                break;
            }
            misses += 1;
        }
        assert_eq!(found, PackageManager::governing(present));
    }
}
