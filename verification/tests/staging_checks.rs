use mcsdk::staging::{copy_file_to_folder, copy_plugins, stage_plugin, CopyError, CopyOrder, PluginProbe, StagingStep};

fn regular(path: &str, name: &str) -> PluginProbe {
    PluginProbe {
        path: path.to_string(),
        found: true,
        is_file: true,
        is_symlink: false,
        file_name: Some(name.to_string()),
    }
}

fn missing(path: &str, name: &str) -> PluginProbe {
    PluginProbe {
        path: path.to_string(),
        found: false,
        is_file: false,
        is_symlink: false,
        file_name: Some(name.to_string()),
    }
}

fn copy(from: &str, to: &str) -> StagingStep {
    StagingStep::Copy(CopyOrder { from: from.to_string(), to: to.to_string() })
}

fn copies(plan: &[StagingStep]) -> usize {
    plan.iter().filter(|s| matches!(s, StagingStep::Copy(_))).count()
}

#[test]
fn existing_file_after_a_missing_one_is_not_copied() {
    let plugins = vec![missing("/plugins/gone.jar", "gone.jar"), regular("/plugins/here.jar", "here.jar")];
    let plan = copy_plugins(&plugins, "/srv/w/plugins", true);
    assert_eq!(plan, vec![StagingStep::Missing]);
    assert_eq!(copies(&plan), 0);
}

#[test]
fn existing_file_before_a_missing_one_is_copied() {
    let plugins = vec![regular("/plugins/here.jar", "here.jar"), missing("/plugins/gone.jar", "gone.jar")];
    let plan = copy_plugins(&plugins, "/srv/w/plugins", true);
    assert_eq!(plan, vec![copy("/plugins/here.jar", "/srv/w/plugins/here.jar"), StagingStep::Missing]);
}

#[test]
fn staging_stops_at_the_first_missing_file() {
    let plugins = vec![
        regular("/p/a.jar", "a.jar"),
        missing("/p/b.jar", "b.jar"),
        regular("/p/c.jar", "c.jar"),
        missing("/p/d.jar", "d.jar"),
        regular("/p/e.jar", "e.jar"),
    ];
    let plan = copy_plugins(&plugins, "/w/plugins", true);
    assert_eq!(plan, vec![copy("/p/a.jar", "/w/plugins/a.jar"), StagingStep::Missing]);
}

#[test]
fn relative_path_symlink_and_directory_are_rejected() {
    let relative = regular("plugins/rel.jar", "rel.jar");
    let symlink = PluginProbe { is_symlink: true, ..regular("/plugins/link.jar", "link.jar") };
    let directory = PluginProbe { is_file: false, ..regular("/plugins/dir", "dir") };
    let plan = copy_plugins(&vec![relative.clone(), symlink.clone(), directory.clone()], "/srv/w/plugins", true);
    assert_eq!(plan, vec![StagingStep::Rejected, StagingStep::Rejected, StagingStep::Rejected]);
    assert_eq!(copies(&plan), 0);
    assert_eq!(stage_plugin(&relative, "/srv/w/plugins", true), StagingStep::Rejected);
    assert_eq!(stage_plugin(&symlink, "/srv/w/plugins", true), StagingStep::Rejected);
    assert_eq!(stage_plugin(&directory, "/srv/w/plugins", true), StagingStep::Rejected);
}

#[test]
fn rejected_entries_do_not_stop_the_staging() {
    let plugins = vec![
        regular("rel.jar", "rel.jar"),
        regular("/p/a.jar", "a.jar"),
        PluginProbe { is_symlink: true, ..regular("/p/l.jar", "l.jar") },
        regular("/p/b.jar", "b.jar"),
    ];
    let plan = copy_plugins(&plugins, "/w/plugins", true);
    assert_eq!(
        plan,
        vec![
            StagingStep::Rejected,
            copy("/p/a.jar", "/w/plugins/a.jar"),
            StagingStep::Rejected,
            copy("/p/b.jar", "/w/plugins/b.jar"),
        ]
    );
}

#[test]
fn all_regular_files_are_copied_in_order() {
    let plugins = vec![regular("/p/a.jar", "a.jar"), regular("/q/b.jar", "b.jar"), regular("/p/a.jar", "a.jar")];
    let plan = copy_plugins(&plugins, "/w/plugins/", true);
    assert_eq!(
        plan,
        vec![
            copy("/p/a.jar", "/w/plugins/a.jar"),
            copy("/q/b.jar", "/w/plugins/b.jar"),
            copy("/p/a.jar", "/w/plugins/a.jar"),
        ]
    );
}

#[test]
fn empty_list_stages_nothing() {
    assert_eq!(copy_plugins(&vec![], "/w/plugins", true), vec![]);
}

#[test]
fn copy_needs_an_existing_destination_folder() {
    assert_eq!(copy_file_to_folder("/p/a.jar", Some("a.jar"), "/w/plugins", false), Err(CopyError::NoDestination));
    assert_eq!(copy_file_to_folder("/p/a.jar", None, "/w/plugins", false), Err(CopyError::NoDestination));
    let plan = copy_plugins(&vec![regular("/p/a.jar", "a.jar")], "/w/plugins", false);
    assert_eq!(plan, vec![StagingStep::Refused(CopyError::NoDestination)]);
}

#[test]
fn copy_needs_a_file_name() {
    assert_eq!(copy_file_to_folder("/", None, "/w/plugins", true), Err(CopyError::NoFileName));
    let nameless = PluginProbe { file_name: None, ..regular("/p/..", "x") };
    assert_eq!(stage_plugin(&nameless, "/w/plugins", true), StagingStep::Refused(CopyError::NoFileName));
}

#[test]
fn copy_keeps_the_file_name() {
    assert_eq!(
        copy_file_to_folder("/some/where/plugin.jar", Some("plugin.jar"), "/w/plugins", true),
        Ok(CopyOrder { from: "/some/where/plugin.jar".to_string(), to: "/w/plugins/plugin.jar".to_string() })
    );
}

#[test]
fn missing_entry_is_reported_as_missing() {
    assert_eq!(stage_plugin(&missing("/p/a.jar", "a.jar"), "/w/plugins", true), StagingStep::Missing);
    assert_eq!(stage_plugin(&missing("a.jar", "a.jar"), "/w/plugins", false), StagingStep::Missing);
}
