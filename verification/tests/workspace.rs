use golem_unlimited::envman::Error;
use golem_unlimited::model::{CreateOptions, VolumeDef};
use golem_unlimited::workspace::{strip_strings, DirRemoval, Workspace, WorkspacesManager};

fn strings(items: &[&str]) -> Vec<String> {
    items.iter().map(|s| s.to_string()).collect()
}

fn bind(src: &str, target: &str) -> VolumeDef {
    VolumeDef::BindRw { src: src.to_string(), target: target.to_string() }
}

#[test]
fn new_workspace_is_empty() {
    let ws = Workspace::new("docker".to_string(), "/work/docker/1".to_string());
    assert_eq!(ws.name(), "docker");
    assert_eq!(ws.path(), "/work/docker/1");
    assert!(ws.tags().is_empty());
    assert!(ws.volumes().is_empty());
}

#[test]
fn manager_places_workspaces_below_its_namespace() {
    let manager = WorkspacesManager::new("/var/gu", "hd");
    let ws = manager.workspace("7f");
    assert_eq!(ws.name(), "hd");
    assert_eq!(ws.path(), "/var/gu/hd/7f");
}

#[test]
fn add_tags_keeps_the_order_of_first_occurrence() {
    let mut ws = Workspace::new("n".to_string(), "/p".to_string());
    ws.add_tags(strings(&["b", "a", "b"]));
    assert_eq!(ws.tags(), strings(&["b", "a"]));
    ws.add_tags(strings(&["c", "a"]));
    assert_eq!(ws.tags(), strings(&["b", "a", "c"]));
}

#[test]
fn add_tags_twice_is_add_tags_once() {
    let mut once = Workspace::new("n".to_string(), "/p".to_string());
    once.add_tags(strings(&["x"]));
    once.add_tags(strings(&["gpu", "x", "fast"]));
    let mut twice = Workspace::new("n".to_string(), "/p".to_string());
    twice.add_tags(strings(&["x"]));
    twice.add_tags(strings(&["gpu", "x", "fast"]));
    twice.add_tags(strings(&["gpu", "x", "fast"]));
    assert_eq!(once.tags(), twice.tags());
    assert_eq!(twice.tags(), strings(&["x", "gpu", "fast"]));
}

#[test]
fn remove_tags_after_add_tags_leaves_none_of_them() {
    let mut ws = Workspace::new("n".to_string(), "/p".to_string());
    ws.add_tags(strings(&["keep", "gpu"]));
    ws.add_tags(strings(&["gpu", "fast"]));
    ws.remove_tags(strings(&["gpu", "fast"]));
    assert_eq!(ws.tags(), strings(&["keep"]));
    ws.remove_tags(strings(&["gpu", "fast"]));
    assert_eq!(ws.tags(), strings(&["keep"]));
    ws.remove_tags(strings(&[]));
    assert_eq!(ws.tags(), strings(&["keep"]));
}

#[test]
fn strip_strings_keeps_order_and_repeats() {
    let kept = strip_strings(&strings(&["a", "b", "a", "c"]), &strings(&["b", "z"]));
    assert_eq!(kept, strings(&["a", "a", "c"]));
}

#[test]
fn volumes_are_recorded_once() {
    let mut ws = Workspace::new("n".to_string(), "/p".to_string());
    ws.add_volume(bind("/a", "/x"));
    ws.add_volume(bind("/b", "/x"));
    ws.add_volume(bind("/a", "/x"));
    assert_eq!(ws.volumes().len(), 2);
    assert!(ws.volumes()[0] == bind("/a", "/x"));
    assert!(ws.volumes()[1] == bind("/b", "/x"));
}

#[test]
fn volume_directories() {
    let volume = bind("/host/data", "/workspace/data");
    assert_eq!(volume.source_dir().unwrap(), "/host/data");
    assert_eq!(volume.target_dir().unwrap(), "/workspace/data");
    assert!(volume.duplicate() == volume);
    assert!(bind("/host/data", "/other") != volume);
    assert!(bind("/other", "/workspace/data") != volume);
}

#[test]
fn default_options_ask_for_nothing() {
    let options = CreateOptions::default();
    assert!(options.volumes.is_empty());
    assert!(options.cmd.is_none());
}

#[test]
fn directory_outcomes() {
    let ws = Workspace::new("n".to_string(), "/p".to_string());
    assert!(ws.created(Ok(())).is_ok());
    match ws.created(Err("denied".to_string())) {
        Err(Error::IoError(reason)) => assert_eq!(reason, "denied"),
        other => panic!("unexpected outcome: {:?}", other),
    }
    assert!(ws.destroyed(DirRemoval::Removed).is_ok());
    assert!(ws.destroyed(DirRemoval::Absent).is_ok());
    match ws.destroyed(DirRemoval::Failed("busy".to_string())) {
        Err(Error::IoError(reason)) => assert_eq!(reason, "busy"),
        other => panic!("unexpected outcome: {:?}", other),
    }
}
