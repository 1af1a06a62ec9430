use dothoard::paths::PathKey;
use dothoard::selection::{CheckState, SourceConfig, SourceSelection};

fn path(s: &str) -> PathKey {
    PathKey { parts: s.split('/').filter(|p| !p.is_empty()).map(String::from).collect() }
}

fn source(p: &str, ignore: &[&str]) -> SourceConfig {
    SourceConfig { path: p.to_string(), ignore: ignore.iter().map(|s| s.to_string()).collect() }
}

#[test]
fn loaded_configuration_has_no_changes() {
    let sources = vec![source(".config/fish", &[]), source(".bashrc", &[]), source(".config/fish/", &[])];
    let mut sel = SourceSelection::new(&path("/home/me"));
    sel.load_from_config(&sources);
    assert!(!sel.has_changes(&sources));
    assert_eq!(sel.summary(), (2, 0));
    assert_eq!(sel.is_selected(&path("/home/me/.config/fish")), CheckState::Explicit);
    assert_eq!(sel.is_selected(&path("/home/me/.config/fish/config.fish")), CheckState::Inherited);
    assert_eq!(sel.is_selected(&path("/home/me/.config")), CheckState::Unchecked);
}

#[test]
fn toggling_an_inherited_path_twice_restores_the_selection() {
    let sources = vec![source(".config/fish", &[])];
    let mut sel = SourceSelection::new(&path("/home/me"));
    sel.load_from_config(&sources);
    let child = path("/home/me/.config/fish/completions");
    sel.toggle(&child, true);
    assert_eq!(sel.is_selected(&child), CheckState::Unchecked);
    assert_eq!(sel.is_selected(&path("/home/me/.config/fish/completions/git.fish")), CheckState::Unchecked);
    assert_eq!(sel.summary(), (1, 1));
    let diff = sel.diff_against_config(&sources);
    assert_eq!(diff.ignore_rules.len(), 1);
    assert_eq!(diff.ignore_rules[0].source, ".config/fish");
    assert_eq!(diff.ignore_rules[0].rules, vec!["/completions/".to_string()]);
    sel.toggle(&child, true);
    assert_eq!(sel.is_selected(&child), CheckState::Inherited);
    assert!(!sel.has_changes(&sources));
    assert_eq!(sel.summary(), (1, 0));
}

#[test]
fn toggling_an_unrelated_path_twice_restores_the_selection() {
    let sources = vec![source(".config/fish", &[])];
    let mut sel = SourceSelection::new(&path("/home/me"));
    sel.load_from_config(&sources);
    let other = path("/home/me/.vimrc");
    sel.toggle(&other, false);
    assert_eq!(sel.is_selected(&other), CheckState::Explicit);
    let diff = sel.diff_against_config(&sources);
    assert_eq!(diff.additions, vec![".vimrc".to_string()]);
    assert!(diff.removals.is_empty());
    sel.toggle(&other, false);
    assert_eq!(sel.is_selected(&other), CheckState::Unchecked);
    assert!(!sel.has_changes(&sources));
}

#[test]
fn unchecking_a_source_removes_it_and_its_exclusions() {
    let sources = vec![source(".config/fish", &[]), source(".bashrc", &[])];
    let mut sel = SourceSelection::new(&path("/home/me"));
    sel.load_from_config(&sources);
    sel.toggle(&path("/home/me/.config/fish/fish_variables"), false);
    sel.toggle(&path("/home/me/.config/fish"), true);
    assert_eq!(sel.summary(), (1, 0));
    let diff = sel.diff_against_config(&sources);
    assert_eq!(diff.removals, vec![".config/fish".to_string()]);
    assert!(diff.additions.is_empty());
    assert!(diff.ignore_rules.is_empty());
}

#[test]
fn existing_ignore_rules_are_not_proposed_again() {
    let sources = vec![source(".config/fish", &["/fish_variables"])];
    let mut sel = SourceSelection::new(&path("/home/me"));
    sel.load_from_config(&sources);
    sel.toggle(&path("/home/me/.config/fish/fish_variables"), false);
    let diff = sel.diff_against_config(&sources);
    assert!(diff.ignore_rules.is_empty());
    sel.toggle(&path("/home/me/.config/fish/conf.d"), true);
    let diff = sel.diff_against_config(&sources);
    assert_eq!(diff.ignore_rules.len(), 1);
    assert_eq!(diff.ignore_rules[0].rules, vec!["/conf.d/".to_string()]);
}

#[test]
fn ancestor_search_stops_at_home() {
    let mut sel = SourceSelection::new(&path("/home/me"));
    sel.toggle(&path("/home"), true);
    assert_eq!(sel.is_selected(&path("/home")), CheckState::Explicit);
    assert_eq!(sel.is_selected(&path("/home/me/notes.txt")), CheckState::Unchecked);
    assert_eq!(sel.is_selected(&path("/home/me")), CheckState::Inherited);
    assert_eq!(sel.home().parts, vec!["home".to_string(), "me".to_string()]);
    let diff = sel.diff_against_config(&[]);
    assert!(diff.additions.is_empty());
}

#[test]
fn toggling_an_explicit_path_inside_a_selected_folder_unchecks_it() {
    let sources = vec![source(".config", &[]), source(".config/fish", &[])];
    let mut sel = SourceSelection::new(&path("/home/me"));
    sel.load_from_config(&sources);
    let fish = path("/home/me/.config/fish");
    assert_eq!(sel.is_selected(&fish), CheckState::Explicit);
    sel.toggle(&fish, true);
    assert_eq!(sel.is_selected(&fish), CheckState::Unchecked);
    assert_eq!(sel.is_selected(&path("/home/me/.config/fish/config.fish")), CheckState::Unchecked);
    assert_eq!(sel.is_selected(&path("/home/me/.config/git")), CheckState::Inherited);
}

#[test]
fn restoring_a_path_inside_a_deselected_directory_keeps_it_unchecked() {
    let sources = vec![source(".config/fish", &[])];
    let mut sel = SourceSelection::new(&path("/home/me"));
    sel.load_from_config(&sources);
    let conf = path("/home/me/.config/fish/conf.d");
    let file = path("/home/me/.config/fish/conf.d/abbr.fish");
    sel.toggle(&file, false);
    sel.toggle(&conf, true);
    assert_eq!(sel.summary(), (1, 2));
    assert_eq!(sel.is_selected(&file), CheckState::Unchecked);
    sel.toggle(&file, false);
    assert_eq!(sel.is_selected(&file), CheckState::Unchecked);
    assert_eq!(sel.summary(), (1, 1));
    sel.toggle(&conf, true);
    assert_eq!(sel.is_selected(&file), CheckState::Inherited);
    assert!(!sel.has_changes(&sources));
}

#[test]
fn new_rules_list_each_source_once() {
    let sources = vec![source(".config/fish", &["/conf.d/"])];
    let mut sel = SourceSelection::new(&path("/home/me"));
    sel.load_from_config(&sources);
    sel.toggle(&path("/home/me/.config/fish/conf.d"), true);
    sel.toggle(&path("/home/me/.config/fish/functions"), true);
    sel.toggle(&path("/home/me/.config/fish/fish_variables"), false);
    let diff = sel.diff_against_config(&sources);
    assert_eq!(diff.ignore_rules.len(), 1);
    assert_eq!(diff.ignore_rules[0].source, ".config/fish");
    assert_eq!(
        diff.ignore_rules[0].rules,
        vec!["/functions/".to_string(), "/fish_variables".to_string()]
    );
}
