use binchotan_filters::errors::LoadError;
use binchotan_filters::loader::{config_file_name, Filter, LoadAction, LoadEvent, Loader};

const DROPPER_CONFIG: &str = "name = \"dropper\"\ndescription = \"drops all\"\nauthor = \"t\"\nentrypoint = \"main.script\"\n";

fn drive_one_package(
    config: Option<&str>,
    entry: Option<&str>,
) -> (Loader, LoadAction) {
    let (loader, action) = Filter::load();
    assert!(matches!(action, LoadAction::CheckRoot));
    let (loader, action) = loader.step(LoadEvent::IsDir(true));
    assert!(matches!(action, LoadAction::ListPackages));
    let (loader, action) = loader.step(LoadEvent::Packages(Some(vec![String::from("dropper")])));
    match &action {
        LoadAction::CheckPackage(name) => assert_eq!(name, "dropper"),
        other => panic!("unexpected action: {}", action_name(other)),
    }
    let (loader, action) = loader.step(LoadEvent::IsDir(true));
    match &action {
        LoadAction::ReadConfig(name) => assert_eq!(name, "dropper"),
        other => panic!("unexpected action: {}", action_name(other)),
    }
    let (loader, action) = loader.step(LoadEvent::FileContent(config.map(String::from)));
    if let LoadAction::ReadEntry(name, file) = &action {
        assert_eq!(name, "dropper");
        assert_eq!(file, "main.script");
        return loader.step(LoadEvent::FileContent(entry.map(String::from)));
    }
    (loader, action)
}

fn action_name(action: &LoadAction) -> &'static str {
    match action {
        LoadAction::CheckRoot => "CheckRoot",
        LoadAction::ListPackages => "ListPackages",
        LoadAction::CheckPackage(_) => "CheckPackage",
        LoadAction::ReadConfig(_) => "ReadConfig",
        LoadAction::ReadEntry(_, _) => "ReadEntry",
        LoadAction::Done(_) => "Done",
        LoadAction::Fail(_) => "Fail",
    }
}

#[test]
fn config_file_name_is_fixed() {
    assert_eq!(config_file_name(), "binchotan.toml");
}

#[test]
fn root_not_a_directory_fails() {
    let (loader, _) = Filter::load();
    let (_, action) = loader.step(LoadEvent::IsDir(false));
    assert!(matches!(action, LoadAction::Fail(LoadError::NotADirectory)));
}

#[test]
fn empty_repository_loads_no_filters() {
    let (loader, _) = Filter::load();
    let (loader, _) = loader.step(LoadEvent::IsDir(true));
    let (_, action) = loader.step(LoadEvent::Packages(Some(Vec::new())));
    match action {
        LoadAction::Done(filters) => assert_eq!(filters.len(), 0),
        other => panic!("unexpected action: {}", action_name(&other)),
    }
}

#[test]
fn one_package_loads_src_and_meta() {
    let (_, action) = drive_one_package(Some(DROPPER_CONFIG), Some("return nil"));
    match action {
        LoadAction::Done(filters) => {
            assert_eq!(filters.len(), 1);
            assert_eq!(filters[0].src, "return nil");
            assert_eq!(filters[0].meta.name, "dropper");
            assert_eq!(filters[0].meta.description, "drops all");
            assert_eq!(filters[0].meta.author, "t");
            assert_eq!(filters[0].meta.entrypoint, "main.script");
        }
        other => panic!("unexpected action: {}", action_name(&other)),
    }
}

#[test]
fn load_one_is_deterministic() {
    let (_, first) = drive_one_package(Some(DROPPER_CONFIG), Some("return nil"));
    let (_, second) = drive_one_package(Some(DROPPER_CONFIG), Some("return nil"));
    match (first, second) {
        (LoadAction::Done(a), LoadAction::Done(b)) => {
            assert_eq!(a.len(), b.len());
            assert_eq!(a[0].src, b[0].src);
            assert_eq!(a[0].meta.name, b[0].meta.name);
            assert_eq!(a[0].meta.description, b[0].meta.description);
            assert_eq!(a[0].meta.author, b[0].meta.author);
            assert_eq!(a[0].meta.entrypoint, b[0].meta.entrypoint);
        }
        _ => panic!("expected two successful loads"),
    }
}

#[test]
fn missing_entrypoint_file_fails_whole_load() {
    let (_, action) = drive_one_package(Some(DROPPER_CONFIG), None);
    assert!(matches!(action, LoadAction::Fail(LoadError::IoError)));
}

#[test]
fn unreadable_config_fails_whole_load() {
    let (_, action) = drive_one_package(None, None);
    assert!(matches!(action, LoadAction::Fail(LoadError::IoError)));
}

#[test]
fn malformed_config_fails_whole_load() {
    let (_, action) = drive_one_package(Some("name = ["), None);
    assert!(matches!(action, LoadAction::Fail(LoadError::MetaParseError(_))));
}

#[test]
fn config_missing_key_fails_whole_load() {
    let (_, action) =
        drive_one_package(Some("name = \"d\"\ndescription = \"x\"\nauthor = \"t\"\n"), None);
    assert!(matches!(action, LoadAction::Fail(LoadError::MetaParseError(_))));
}

#[test]
fn unreadable_root_listing_fails() {
    let (loader, _) = Filter::load();
    let (loader, _) = loader.step(LoadEvent::IsDir(true));
    let (_, action) = loader.step(LoadEvent::Packages(None));
    assert!(matches!(action, LoadAction::Fail(LoadError::IoError)));
}

#[test]
fn vanished_package_directory_fails() {
    let (loader, _) = Filter::load();
    let (loader, _) = loader.step(LoadEvent::IsDir(true));
    let (loader, _) = loader.step(LoadEvent::Packages(Some(vec![String::from("gone")])));
    let (_, action) = loader.step(LoadEvent::IsDir(false));
    assert!(matches!(action, LoadAction::Fail(LoadError::NotADirectory)));
}

#[test]
fn one_bad_package_of_three_fails_fast() {
    let packages = vec![String::from("a"), String::from("b"), String::from("c")];
    let (loader, _) = Filter::load();
    let (loader, _) = loader.step(LoadEvent::IsDir(true));
    let (mut loader, mut action) = loader.step(LoadEvent::Packages(Some(packages)));
    let mut steps = 0;
    loop {
        steps += 1;
        assert!(steps < 20, "loader did not settle");
        let event = match &action {
            LoadAction::CheckPackage(_) => LoadEvent::IsDir(true),
            LoadAction::ReadConfig(_) => LoadEvent::FileContent(Some(String::from(DROPPER_CONFIG))),
            LoadAction::ReadEntry(name, _) => {
                // package "b" is malformed: its entrypoint file is missing
                if name == "b" {
                    LoadEvent::FileContent(None)
                } else {
                    LoadEvent::FileContent(Some(String::from("return nil")))
                }
            }
            LoadAction::Done(_) => panic!("load must fail, not yield the other filters"),
            LoadAction::Fail(e) => {
                assert!(matches!(e, LoadError::IoError));
                return;
            }
            other => panic!("unexpected action: {}", action_name(other)),
        };
        let next = loader.step(event);
        loader = next.0;
        action = next.1;
    }
}
