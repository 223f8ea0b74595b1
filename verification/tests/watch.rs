use incro::watch::{directive_for, rename_directive, Directive, WatchKind};

fn text(s: &str) -> String {
    s.to_string()
}

fn paths(all: &[&str]) -> Vec<String> {
    let mut out = Vec::new();
    for p in all {
        out.push(p.to_string());
    }
    out
}

#[test]
fn a_created_file_is_loaded() {
    let directive = directive_for(WatchKind::Created, &paths(&["/macros/a.so"]));
    assert_eq!(directive, Some(Directive::Load(text("/macros/a.so"))));
}

#[test]
fn a_modified_file_is_reloaded() {
    let directive = directive_for(WatchKind::Modified, &paths(&["/macros/a.so"]));
    assert_eq!(directive, Some(Directive::Reload(text("/macros/a.so"))));
}

#[test]
fn a_removed_file_is_unloaded() {
    let directive = directive_for(WatchKind::Removed, &paths(&["/macros/a.so"]));
    assert_eq!(directive, Some(Directive::Unload(text("/macros/a.so"))));
}

#[test]
fn other_changes_ask_nothing() {
    assert_eq!(directive_for(WatchKind::Other, &paths(&[])), Some(Directive::Nothing));
    assert_eq!(directive_for(WatchKind::Other, &paths(&["/macros/a.so"])), Some(Directive::Nothing));
}

#[test]
fn a_file_renamed_out_of_hiding_is_loaded_under_its_new_path() {
    let directive = directive_for(WatchKind::Renamed, &paths(&["/macros/.a.so", "/macros/a.so"]));
    assert_eq!(directive, Some(Directive::Load(text("/macros/a.so"))));
}

#[test]
fn a_file_renamed_into_hiding_is_unloaded_under_its_old_path() {
    let directive = directive_for(WatchKind::Renamed, &paths(&["/macros/a.so", "/macros/.a.so"]));
    assert_eq!(directive, Some(Directive::Unload(text("/macros/a.so"))));
}

#[test]
fn a_rename_that_keeps_visibility_asks_nothing() {
    let visible = directive_for(WatchKind::Renamed, &paths(&["/macros/a.so", "/macros/b.so"]));
    assert_eq!(visible, Some(Directive::Nothing));
    let hidden = directive_for(WatchKind::Renamed, &paths(&["/macros/.a.so", "/macros/.b.so"]));
    assert_eq!(hidden, Some(Directive::Nothing));
}

#[test]
fn a_rename_is_judged_by_file_names_not_by_directories() {
    let directive = directive_for(WatchKind::Renamed, &paths(&["/.cache/a.so", "/.cache/b.so"]));
    assert_eq!(directive, Some(Directive::Nothing));
}

#[test]
fn an_event_without_its_paths_has_no_answer() {
    assert_eq!(directive_for(WatchKind::Created, &paths(&[])), None);
    assert_eq!(directive_for(WatchKind::Modified, &paths(&[])), None);
    assert_eq!(directive_for(WatchKind::Removed, &paths(&[])), None);
    assert_eq!(directive_for(WatchKind::Renamed, &paths(&[])), None);
    assert_eq!(directive_for(WatchKind::Renamed, &paths(&["/macros/a.so"])), None);
}

#[test]
fn a_rename_of_a_path_without_file_name_has_no_answer() {
    assert_eq!(directive_for(WatchKind::Renamed, &paths(&["/", "/macros/a.so"])), None);
    assert_eq!(directive_for(WatchKind::Renamed, &paths(&["/macros/a.so", "/macros/.."])), None);
}

#[test]
fn rename_directive_follows_the_names_it_is_given() {
    let from = text("/macros/old");
    let to = text("/macros/new");
    let hidden = text(".x");
    let visible = text("x");
    assert_eq!(
        rename_directive(&from, &to, Some(&hidden), Some(&visible)),
        Some(Directive::Load(text("/macros/new")))
    );
    assert_eq!(
        rename_directive(&from, &to, Some(&visible), Some(&hidden)),
        Some(Directive::Unload(text("/macros/old")))
    );
    assert_eq!(rename_directive(&from, &to, Some(&visible), Some(&visible)), Some(Directive::Nothing));
    assert_eq!(rename_directive(&from, &to, Some(&hidden), Some(&hidden)), Some(Directive::Nothing));
    assert_eq!(rename_directive(&from, &to, None, Some(&visible)), None);
    assert_eq!(rename_directive(&from, &to, Some(&visible), None), None);
    assert_eq!(rename_directive(&from, &to, None, None), None);
}
