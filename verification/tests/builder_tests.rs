use auto_launch::{AutoLaunch, AutoLaunchBuilder, Error, NativeStore, OsFamily, RegistryRunKeys};
use auto_launch::is_support;

#[test]
fn test_support() {
    assert!(is_support(OsFamily::Windows));
    assert!(is_support(OsFamily::MacOs));
    assert!(is_support(OsFamily::Linux));
    assert!(!is_support(OsFamily::Other));
}

#[test]
fn test_builder() {
    let app_name = "auto-launch-test";
    let app_path = "/usr/local/bin/auto-launch-test";
    let args = vec!["--minimized".to_string()];

    let auto = AutoLaunchBuilder::new()
        .set_app_name(app_name)
        .set_app_path(app_path)
        .set_args(&args)
        .build()
        .unwrap();

    assert_eq!(auto.get_app_name(), app_name);

    let mut store = NativeStore::Registry(RegistryRunKeys::new());
    assert!(auto.enable(&mut store).is_ok());
    assert!(auto.is_enabled(&store).unwrap());
    assert!(auto.disable(&mut store).is_ok());
    assert!(!auto.is_enabled(&store).unwrap());
}

#[test]
fn builder_without_app_path_fails() {
    let result = AutoLaunchBuilder::new().set_app_name("auto-launch-test").build();
    assert_eq!(result.err(), Some(Error::Config));
}

#[test]
fn builder_without_app_name_fails() {
    let result = AutoLaunchBuilder::new().set_app_path("/usr/local/bin/demo").build();
    assert_eq!(result.err(), Some(Error::Config));
}

#[test]
fn builder_with_empty_required_field_fails() {
    let result = AutoLaunchBuilder::new()
        .set_app_name("")
        .set_app_path("/usr/local/bin/demo")
        .build();
    assert_eq!(result.err(), Some(Error::Config));

    let result = AutoLaunchBuilder::new()
        .set_app_name("demo")
        .set_app_path("")
        .build();
    assert_eq!(result.err(), Some(Error::Config));
}

#[test]
fn builder_with_both_required_fields_succeeds() {
    let auto = AutoLaunchBuilder::new()
        .set_app_name("demo")
        .set_app_path("/usr/local/bin/demo")
        .build()
        .unwrap();
    assert_eq!(auto.get_app_name(), "demo");
    assert_eq!(auto.get_app_path(), "/usr/local/bin/demo");
    assert!(auto.get_args().is_empty());
    assert!(!auto.is_elevated());
    assert!(!auto.uses_launch_agent());
}

#[test]
fn builder_platform_options() {
    let auto = AutoLaunchBuilder::new()
        .set_app_name("demo")
        .set_app_path("/usr/local/bin/demo")
        .set_elevate_privileges(true)
        .set_use_launch_agent(true)
        .build()
        .unwrap();
    assert!(auto.is_elevated());
    assert!(auto.uses_launch_agent());
}

#[test]
fn entry_accessors_report_construction() {
    let args = vec!["--minimized".to_string(), "--hidden".to_string()];
    let auto = AutoLaunch::new("AutoLaunchTest", "/usr/local/bin/auto-launch-test", &args, true);
    assert_eq!(auto.get_app_name(), "AutoLaunchTest");
    assert_eq!(auto.get_app_path(), "/usr/local/bin/auto-launch-test");
    assert_eq!(auto.get_args().clone(), args);
    assert!(auto.is_elevated());
    assert!(!auto.uses_launch_agent());
}

#[test]
fn error_messages_name_their_kind() {
    assert_eq!(Error::Config.message(), "required field is missing or empty");
    assert_eq!(Error::Access.message(), "cannot open the native autostart store");
    assert_eq!(Error::Write.message(), "cannot write to the native autostart store");
    assert_eq!(Error::NotFound.message(), "no autostart registration was found");
    assert_eq!(Error::LaunchTarget.message(), "the launch target does not exist");
    assert_eq!(
        Error::Execution("boom".to_string()).message(),
        "a native helper tool reported failure"
    );
}
