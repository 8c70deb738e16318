use golem_unlimited::plugin::{
    format_plugins_table, metadata_file_name, DirectoryHandler, Plugin, PluginHandler, PluginInfo,
    PluginMetadata, PluginStatus, PluginVersion, PluginsTable, ZipHandler,
};
use semver::{Version, VersionReq};
use std::path::{Path, PathBuf};

fn read(version: &Version) -> PluginVersion {
    PluginVersion {
        major: version.major,
        minor: version.minor,
        patch: version.patch,
        pre: version.pre.iter().map(|id| id.to_string()).collect(),
        build: version.build.iter().map(|id| id.to_string()).collect(),
    }
}

fn parts(version: &PluginVersion) -> (u64, u64, u64, Vec<String>, Vec<String>) {
    (version.major, version.minor, version.patch, version.pre.clone(), version.build.clone())
}

fn metadata(name: &str, version: PluginVersion) -> PluginMetadata {
    PluginMetadata::from_parts(
        name.to_string(),
        version,
        "me".to_string(),
        "a plugin".to_string(),
        VersionReq::parse(">=0.2").unwrap(),
        vec!["main.js".to_string()],
    )
}

#[test]
fn default_metadata() {
    let meta = PluginMetadata::new();
    assert_eq!(meta.name(), "plugin");
    assert_eq!(parts(&meta.version()), (0, 0, 1, vec![], vec![]));
    assert_eq!(meta.gu_version_req(), VersionReq::any());
    assert_eq!(meta.author(), "");
    assert_eq!(meta.description(), "");
    assert!(meta.load().is_empty());
    assert_eq!(PluginMetadata::default_name(), "plugin");
    assert_eq!(parts(&PluginMetadata::default_version()), parts(&read(&Version::new(0, 0, 1))));
    assert_eq!(PluginMetadata::default_version().to_string(), "0.0.1");
}

#[test]
fn metadata_keeps_its_parts() {
    let meta = metadata("sum", read(&Version::parse("1.2.3-rc.1").unwrap()));
    let copy = meta.duplicate();
    assert_eq!(copy.name(), "sum");
    assert_eq!(
        parts(&copy.version()),
        (1, 2, 3, vec!["rc".to_string(), "1".to_string()], vec![])
    );
    assert_eq!(copy.gu_version_req(), VersionReq::parse(">=0.2").unwrap());
    assert_eq!(copy.author(), "me");
    assert_eq!(copy.description(), "a plugin");
    assert_eq!(copy.load(), &vec!["main.js".to_string()]);
}

#[test]
fn status_names() {
    assert_eq!(PluginStatus::Active.to_string(), "Active");
    assert_eq!(PluginStatus::Installed.to_string(), "Installed");
    assert_eq!(PluginStatus::Error.to_string(), "Error");
}

#[test]
fn plugins_table() {
    match format_plugins_table(&vec![]) {
        PluginsTable::Empty(line) => assert_eq!(line, "No plugins installed"),
        other => panic!("unexpected table: {:?}", other),
    }
    let plugins = vec![
        PluginInfo::new(metadata("sum", PluginVersion::new(1, 2, 3)), PluginStatus::Active),
        PluginInfo::new(PluginMetadata::new(), PluginStatus::Error),
    ];
    match format_plugins_table(&plugins) {
        PluginsTable::Rows { titles, rows } => {
            assert_eq!(titles, vec!["Name", "Version", "Status"]);
            assert_eq!(rows, vec![vec!["sum", "1.2.3", "Active"], vec!["plugin", "0.0.1", "Error"]]);
        }
        other => panic!("unexpected table: {:?}", other),
    }
    assert_eq!(plugins[0].status(), PluginStatus::Active);
    assert_eq!(plugins[0].metadata().name(), "sum");
}

#[test]
fn directory_handler_keeps_its_directory() {
    let handler = DirectoryHandler::new(PathBuf::from("/plugins/sum"));
    assert_eq!(handler.directory(), &PathBuf::from("/plugins/sum"));
    assert_eq!(metadata_file_name(), "gu-plugin.json");
}

#[test]
fn archive_handler_serves_its_files() {
    let handler = ZipHandler::new(metadata("sum", PluginVersion::new(1, 0, 0)))
        .add_file("sum/main.js".to_string(), b"old".to_vec())
        .add_file("sum/index.html".to_string(), b"<html>".to_vec())
        .add_file("sum/main.js".to_string(), b"new".to_vec());
    assert_eq!(handler.file_named(&"sum/main.js".to_string()).unwrap(), b"new");
    assert_eq!(handler.file(Path::new("sum/index.html")).unwrap(), b"<html>");
    assert_eq!(
        handler.file(Path::new("sum/none \"x\"")).unwrap_err(),
        "File \"sum/none \\\"x\\\"\" not found"
    );
    assert_eq!(handler.metadata().unwrap().name(), "sum");
}

#[test]
fn only_an_active_plugin_serves_files() {
    let handler = ZipHandler::new(metadata("sum", PluginVersion::new(1, 0, 0)))
        .add_file("a".to_string(), vec![1, 2]);
    let mut plugin = Plugin::new(handler);
    assert_eq!(plugin.status(), PluginStatus::Installed);
    assert_eq!(
        plugin.file(Path::new("a")).unwrap_err(),
        "Plugin is not active (State - Installed)"
    );
    plugin.activate();
    assert_eq!(plugin.status(), PluginStatus::Active);
    assert_eq!(plugin.file(Path::new("a")).unwrap(), vec![1, 2]);
    assert_eq!(plugin.file(Path::new("b")).unwrap_err(), "File \"b\" not found");
    let info = plugin.info().unwrap();
    assert_eq!(info.status(), PluginStatus::Active);
    assert_eq!(info.metadata().name(), "sum");
    plugin.log_error("broken".to_string());
    assert_eq!(plugin.status(), PluginStatus::Error);
    assert_eq!(plugin.file(Path::new("a")).unwrap_err(), "Plugin is not active (State - Error)");
    plugin.inactivate();
    assert_eq!(plugin.status(), PluginStatus::Installed);
    assert_eq!(plugin.metadata().unwrap().name(), "sum");
}

#[test]
fn version_text_agrees_with_semver() {
    for text in [
        "0.0.1",
        "1.2.3",
        "10.20.30",
        "1.0.0-alpha",
        "1.0.0-alpha.1",
        "1.0.0-0.3.7",
        "1.0.0+20130313144700",
        "1.0.0-beta.2+exp.sha.5114f85",
        "18446744073709551615.0.0",
    ] {
        let theirs = Version::parse(text).unwrap();
        assert_eq!(read(&theirs).to_string(), theirs.to_string());
        assert_eq!(read(&theirs).to_string(), text);
        assert_eq!(parts(&read(&theirs).duplicate()), parts(&read(&theirs)));
    }
    let version = PluginVersion::new(4, 5, 6);
    assert_eq!(parts(&version), parts(&read(&Version::new(4, 5, 6))));
    assert_eq!(version.to_string(), "4.5.6");
}

#[test]
fn info_passes_the_failure_of_the_handler_on() {
    let failed = PluginInfo::from_metadata(Err("no metadata".to_string()), PluginStatus::Active);
    assert_eq!(failed.unwrap_err(), "no metadata");
    let info = PluginInfo::from_metadata(Ok(PluginMetadata::new()), PluginStatus::Error).unwrap();
    assert_eq!(info.status(), PluginStatus::Error);
    assert_eq!(info.metadata().name(), "plugin");
}

#[test]
fn archive_handler_hands_its_metadata_out() {
    let version = read(&Version::parse("2.0.1-rc.1+b7").unwrap());
    let handler = ZipHandler::new(metadata("sum", version));
    let meta = handler.metadata().unwrap();
    assert_eq!(meta.name(), "sum");
    assert_eq!(meta.version().to_string(), "2.0.1-rc.1+b7");
    assert_eq!(meta.author(), "me");
    assert_eq!(meta.description(), "a plugin");
    assert_eq!(meta.gu_version_req(), VersionReq::parse(">=0.2").unwrap());
    assert_eq!(meta.load(), &vec!["main.js".to_string()]);
}
