use auto_launch::{AutoLaunch, Error, NativeStore, RegistryRunKeys};
use auto_launch::{build_launch_command, join_args};

#[test]
fn test_windows() {
    let app_name = "AutoLaunchTest";
    let app_path = "/usr/local/bin/auto-launch-test";
    let args = vec!["--minimized".to_string()];

    let mut store = NativeStore::Registry(RegistryRunKeys::new());

    let auto = AutoLaunch::new(app_name, app_path, &args, false);
    assert_eq!(auto.get_app_name(), app_name);
    assert!(auto.enable(&mut store).is_ok());
    assert!(auto.is_enabled(&store).unwrap());
    assert!(auto.disable(&mut store).is_ok());
    assert!(!auto.is_enabled(&store).unwrap());

    let auto = AutoLaunch::new(app_name, app_path, &args, true);
    assert_eq!(auto.get_app_name(), app_name);
    assert!(auto.enable(&mut store).is_ok());
    assert!(auto.is_enabled(&store).unwrap());
    assert!(auto.disable(&mut store).is_ok());
    assert!(!auto.is_enabled(&store).unwrap());
}

#[test]
fn example_scenario_round_trip() {
    let args = vec!["--minimized".to_string()];
    let auto = AutoLaunch::new("Demo", "/usr/local/bin/demo", &args, false);
    let mut keys = RegistryRunKeys::new();

    assert!(keys.enable(&auto).is_ok());
    let value = keys.value_of(false, "Demo").unwrap().clone();
    assert_eq!(value, "/usr/local/bin/demo --minimized");
    assert!(value.contains("--minimized"));
    assert!(keys.is_enabled(&auto));

    assert!(keys.disable(&auto).is_ok());
    assert!(!keys.is_enabled(&auto));
}

#[test]
fn enable_twice_overwrites_without_error() {
    let args = vec!["--minimized".to_string()];
    let auto = AutoLaunch::new("Demo", "/usr/local/bin/demo", &args, false);
    let mut store = NativeStore::Registry(RegistryRunKeys::new());

    assert!(auto.enable(&mut store).is_ok());
    assert!(auto.enable(&mut store).is_ok());
    assert!(auto.is_enabled(&store).unwrap());
}

#[test]
fn disable_without_registration_reports_not_found() {
    let args: Vec<String> = Vec::new();
    let auto = AutoLaunch::new("Demo", "/usr/local/bin/demo", &args, false);
    let mut store = NativeStore::Registry(RegistryRunKeys::new());
    assert_eq!(auto.disable(&mut store), Err(Error::NotFound));
}

#[test]
fn scopes_are_isolated() {
    let args: Vec<String> = Vec::new();
    let per_user = AutoLaunch::new("Demo", "/usr/local/bin/demo", &args, false);
    let elevated = AutoLaunch::new("Demo", "/usr/local/bin/demo", &args, true);
    let mut store = NativeStore::Registry(RegistryRunKeys::new());

    assert!(per_user.enable(&mut store).is_ok());
    assert!(per_user.is_enabled(&store).unwrap());
    assert!(!elevated.is_enabled(&store).unwrap());

    assert!(elevated.enable(&mut store).is_ok());
    assert!(per_user.disable(&mut store).is_ok());
    assert!(elevated.is_enabled(&store).unwrap());
    assert!(!per_user.is_enabled(&store).unwrap());
}

#[test]
fn launch_command_joins_arguments_with_single_spaces() {
    let args = vec!["--minimized".to_string(), "--hidden".to_string()];
    assert_eq!(join_args(&args), "--minimized --hidden");
    assert_eq!(
        build_launch_command("/usr/local/bin/demo", &args),
        "/usr/local/bin/demo --minimized --hidden"
    );
}

#[test]
fn launch_command_keeps_trailing_space_without_arguments() {
    let args: Vec<String> = Vec::new();
    assert_eq!(join_args(&args), "");
    assert_eq!(build_launch_command("/usr/local/bin/demo", &args), "/usr/local/bin/demo ");
}
