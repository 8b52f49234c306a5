use auto_launch::{AutoLaunch, AutostartDir, Error, NativeStore};
use auto_launch::{build_desktop_entry_content, build_desktop_file_name};

#[test]
fn test_linux() {
    let app_name = "AutoLaunchTest";
    let app_path = "/usr/local/bin/auto-launch-test";
    let args = vec!["--minimized".to_string()];

    // default round trip
    let auto1 = AutoLaunch::new(app_name, app_path, &args, false);
    let mut store = NativeStore::DesktopEntries(AutostartDir::new());

    assert_eq!(auto1.get_app_name(), app_name);
    assert!(auto1.enable(&mut store).is_ok());
    assert!(auto1.is_enabled(&store).unwrap());
    assert!(auto1.disable(&mut store).is_ok());
    assert!(!auto1.is_enabled(&store).unwrap());

    // the same entry again
    let auto2 = AutoLaunch::new(app_name, app_path, &args, false);

    assert_eq!(auto2.get_app_name(), app_name);
    assert!(auto2.enable(&mut store).is_ok());
    assert!(auto2.is_enabled(&store).unwrap());
    assert!(auto2.disable(&mut store).is_ok());
    assert!(!auto2.is_enabled(&store).unwrap());
}

#[test]
fn desktop_entry_content_is_exact() {
    let args = vec!["--minimized".to_string()];
    let auto = AutoLaunch::new("Demo", "/usr/local/bin/demo", &args, false);

    assert_eq!(build_desktop_file_name(&auto), "Demo.desktop");
    let content = build_desktop_entry_content(&auto);
    assert_eq!(
        content,
        "[Desktop Entry]\nType=Application\nName=Demo\nExec=/usr/local/bin/demo --minimized\n"
    );
    assert!(content.contains("--minimized"));
}

#[test]
fn desktop_enable_overwrites_previous_file() {
    let args_a = vec!["--minimized".to_string()];
    let args_b: Vec<String> = Vec::new();
    let first = AutoLaunch::new("Demo", "/usr/local/bin/demo", &args_a, false);
    let second = AutoLaunch::new("Demo", "/usr/local/bin/other", &args_b, false);

    let mut dir = AutostartDir::new();
    assert!(dir.enable(&first).is_ok());
    assert!(dir.enable(&second).is_ok());
    let content = dir.content_of("Demo.desktop").unwrap().clone();
    assert_eq!(
        content,
        "[Desktop Entry]\nType=Application\nName=Demo\nExec=/usr/local/bin/other \n"
    );
    assert!(dir.is_enabled(&second));
}

#[test]
fn desktop_disable_without_file_reports_not_found() {
    let args: Vec<String> = Vec::new();
    let auto = AutoLaunch::new("Demo", "/usr/local/bin/demo", &args, false);
    let mut store = NativeStore::DesktopEntries(AutostartDir::new());
    assert_eq!(auto.disable(&mut store), Err(Error::NotFound));
}
