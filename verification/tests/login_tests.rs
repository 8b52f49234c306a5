use auto_launch::{AutoLaunch, Error, LoginItemList, LoginState, NativeStore};
use auto_launch::build_agent_file_name;

#[test]
fn test_macos_new() {
    let name_1 = "AutoLaunchTest"; // different name
    let name_2 = "auto-launch-test"; // same name as the pre-existing item

    let args = vec!["--minimized".to_string(), "--hidden".to_string()];
    let app_path = "/usr/local/bin/auto-launch-test";

    // The login-item list already holds an item launching the same path.
    let mut existing = LoginItemList::new();
    existing.set_item(name_2, app_path);

    // scripted mechanism
    let auto1 = AutoLaunch::new_login_item(name_1, app_path, &args, false, &existing);
    let auto2 = AutoLaunch::new_login_item(name_2, app_path, &args, false, &existing);
    // agent mechanism
    let auto3 = AutoLaunch::new_login_item(name_1, app_path, &args, true, &existing);
    let auto4 = AutoLaunch::new_login_item(name_2, app_path, &args, true, &existing);

    // the requested name is corrected for the scripted mechanism
    assert_eq!(auto1.get_app_name(), name_2);
    assert_eq!(auto2.get_app_name(), name_2);
    // the agent mechanism keeps the requested name
    assert_eq!(auto3.get_app_name(), name_1);
    assert_eq!(auto4.get_app_name(), name_2);
}

#[test]
fn test_macos_main() {
    let app_name = "auto-launch-test";
    let app_path = "/usr/local/bin/auto-launch-test";
    let args = vec!["--minimized".to_string(), "--hidden".to_string()];

    // a target that does not exist
    let app_name_not = "Calculator1";
    let app_path_not = "/Applications/Calculator1.app";

    let mut state = LoginState::new();
    state.mark_installed(app_path);

    // scripted mechanism
    let auto1 = AutoLaunch::new_login_item(app_name, app_path, &args, false, state.login_items());
    assert_eq!(auto1.get_app_name(), app_name);
    let mut store = NativeStore::LoginItems(state);
    assert!(auto1.enable(&mut store).is_ok());
    assert!(auto1.is_enabled(&store).unwrap());
    assert!(auto1.disable(&mut store).is_ok());
    assert!(!auto1.is_enabled(&store).unwrap());

    // agent mechanism
    let existing = LoginItemList::new();
    let auto1 = AutoLaunch::new_login_item(app_name, app_path, &args, true, &existing);
    assert_eq!(auto1.get_app_name(), app_name);
    assert!(auto1.enable(&mut store).is_ok());
    assert!(auto1.is_enabled(&store).unwrap());
    assert!(auto1.disable(&mut store).is_ok());
    assert!(!auto1.is_enabled(&store).unwrap());

    // agent mechanism, missing launch target: the proactive check fails,
    // nothing is written, and disabling still succeeds
    let auto2 = AutoLaunch::new_login_item(app_name_not, app_path_not, &args, true, &existing);
    assert_eq!(auto2.get_app_name(), app_name_not);
    assert_eq!(auto2.enable(&mut store), Err(Error::LaunchTarget));
    assert!(!auto2.is_enabled(&store).unwrap());
    assert!(auto2.disable(&mut store).is_ok());
    assert!(!auto2.is_enabled(&store).unwrap());
}

#[test]
fn corrected_names_agree_for_one_path() {
    let app_path = "/usr/local/bin/auto-launch-test";
    let mut existing = LoginItemList::new();
    existing.set_item("auto-launch-test", app_path);

    let first = existing.corrected_app_name("AutoLaunchTest", app_path);
    let second = existing.corrected_app_name("SomethingElse", app_path);
    assert_eq!(first, second);
    assert_eq!(first, "auto-launch-test");

    // without a matching path the requested name stands
    let other = existing.corrected_app_name("AutoLaunchTest", "/usr/local/bin/other");
    assert_eq!(other, "AutoLaunchTest");
}

#[test]
fn scripted_disable_without_item_reports_not_found() {
    let args: Vec<String> = Vec::new();
    let existing = LoginItemList::new();
    let auto = AutoLaunch::new_login_item("Demo", "/usr/local/bin/demo", &args, false, &existing);
    let mut store = NativeStore::LoginItems(LoginState::new());
    assert_eq!(auto.disable(&mut store), Err(Error::NotFound));
}

#[test]
fn scripted_enable_twice_keeps_item() {
    let args: Vec<String> = Vec::new();
    let existing = LoginItemList::new();
    let auto = AutoLaunch::new_login_item("Demo", "/usr/local/bin/demo", &args, false, &existing);
    let mut store = NativeStore::LoginItems(LoginState::new());
    assert!(auto.enable(&mut store).is_ok());
    assert!(auto.enable(&mut store).is_ok());
    assert!(auto.is_enabled(&store).unwrap());
}

#[test]
fn agent_descriptor_holds_path_arguments_and_flag() {
    let args = vec!["--minimized".to_string()];
    let existing = LoginItemList::new();
    let auto = AutoLaunch::new_login_item("Demo", "/usr/local/bin/demo", &args, true, &existing);

    let mut state = LoginState::new();
    state.mark_installed("/usr/local/bin/demo");
    assert!(state.enable(&auto).is_ok());

    let file_name = build_agent_file_name(&auto);
    assert_eq!(file_name, "Demo.plist");
    let content = state.agent_content_of(file_name.as_str()).unwrap().clone();
    let expected = "<?xml version=\"1.0\" encoding=\"UTF-8\"?>\n<plist version=\"1.0\">\n<dict>\n  <key>Label</key>\n  <string>Demo</string>\n  <key>ProgramArguments</key>\n  <array>\n    <string>/usr/local/bin/demo</string>\n    <string>--minimized</string>\n  </array>\n  <key>RunAtLoad</key>\n  <true/>\n</dict>\n</plist>\n";
    assert_eq!(content, expected);
    assert!(content.contains("--minimized"));
    assert!(content.contains("/usr/local/bin/demo"));
    assert!(content.contains("RunAtLoad"));
}

#[test]
fn agent_enable_after_target_appears() {
    let args: Vec<String> = Vec::new();
    let existing = LoginItemList::new();
    let auto = AutoLaunch::new_login_item("Demo", "/usr/local/bin/demo", &args, true, &existing);
    let mut state = LoginState::new();

    assert_eq!(state.enable(&auto), Err(Error::LaunchTarget));
    assert!(!state.is_enabled(&auto));

    state.mark_installed("/usr/local/bin/demo");
    assert!(state.enable(&auto).is_ok());
    // the second enable overwrites without error
    assert!(state.enable(&auto).is_ok());
    assert!(state.is_enabled(&auto));

    // deleting the descriptor succeeds even after it is already gone
    assert!(state.disable(&auto).is_ok());
    assert!(state.disable(&auto).is_ok());
    assert!(!state.is_enabled(&auto));
}
