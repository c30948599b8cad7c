use nvm_desktop::migrate::Platform;
use nvm_desktop::settings::{default_coder, ISettings, Proxy};

fn text(value: &str) -> Option<String> {
    Some(value.to_string())
}

fn unset() -> ISettings {
    ISettings {
        closer: None,
        coder: None,
        directory: None,
        enable_silent_start: None,
        locale: None,
        mirror: None,
        proxy: None,
        no_proxy: None,
        theme: None,
    }
}

#[test]
fn editor_command_by_platform() {
    assert_eq!(default_coder(Platform::Unix), text("code"));
    assert_eq!(default_coder(Platform::Windows), text("code.cmd"));
}

#[test]
fn template_on_unix() {
    let settings = ISettings::template(Platform::Unix, "/home/alice/.nvmd/versions".to_string());
    assert_eq!(
        settings,
        ISettings {
            closer: text("minimize"),
            coder: text("code"),
            directory: text("/home/alice/.nvmd/versions"),
            enable_silent_start: Some(false),
            locale: text("en"),
            mirror: text("https://nodejs.org/dist"),
            proxy: None,
            no_proxy: Some(false),
            theme: text("system"),
        }
    );
}

#[test]
fn template_on_windows() {
    let settings = ISettings::template(Platform::Windows, String::new());
    assert_eq!(settings.coder, text("code.cmd"));
    assert_eq!(settings.directory, text(""));
    assert_eq!(settings.closer, text("minimize"));
}

#[test]
fn getters_copy_the_fields() {
    let mut settings = unset();
    assert_eq!(settings.get_locale(), None);
    assert_eq!(settings.get_closer(), None);
    assert_eq!(settings.get_directory(), None);
    settings.locale = text("zh-CN");
    settings.closer = text("close");
    settings.directory = text("/opt/node");
    assert_eq!(settings.get_locale(), text("zh-CN"));
    assert_eq!(settings.get_closer(), text("close"));
    assert_eq!(settings.get_directory(), text("/opt/node"));
}

#[test]
fn empty_patch_changes_nothing() {
    let mut settings = ISettings::template(Platform::Unix, "/v".to_string());
    settings.patch_settings(unset());
    assert_eq!(settings, ISettings::template(Platform::Unix, "/v".to_string()));
}

#[test]
fn patch_takes_over_what_it_sets() {
    let mut settings = ISettings::template(Platform::Unix, "/v".to_string());
    let mut patch = unset();
    patch.theme = text("dark");
    patch.enable_silent_start = Some(true);
    patch.proxy = Some(Proxy { ip: "127.0.0.1".to_string(), port: "7890".to_string() });
    settings.patch_settings(patch);
    let mut expected = ISettings::template(Platform::Unix, "/v".to_string());
    expected.theme = text("dark");
    expected.enable_silent_start = Some(true);
    expected.proxy = Some(Proxy { ip: "127.0.0.1".to_string(), port: "7890".to_string() });
    assert_eq!(settings, expected);
}

#[test]
fn full_patch_replaces_everything() {
    let mut settings = ISettings::template(Platform::Unix, "/v".to_string());
    let patch = ISettings {
        closer: text("close"),
        coder: text("vim"),
        directory: text("/w"),
        enable_silent_start: Some(true),
        locale: text("zh-CN"),
        mirror: text("https://npmmirror.com/mirrors/node"),
        proxy: Some(Proxy { ip: "10.0.0.1".to_string(), port: "80".to_string() }),
        no_proxy: Some(true),
        theme: text("light"),
    };
    let expected = patch.clone();
    settings.patch_settings(patch);
    assert_eq!(settings, expected);
}

#[test]
fn patch_cannot_unset_a_field() {
    let mut settings = unset();
    settings.proxy = Some(Proxy { ip: "10.0.0.1".to_string(), port: "80".to_string() });
    settings.no_proxy = Some(true);
    let before = settings.clone();
    settings.patch_settings(unset());
    assert_eq!(settings, before);
}

#[test]
fn window_shows_unless_start_is_silent() {
    let mut settings = unset();
    assert!(settings.shows_window_on_launch());
    settings.enable_silent_start = Some(false);
    assert!(settings.shows_window_on_launch());
    settings.enable_silent_start = Some(true);
    assert!(!settings.shows_window_on_launch());
}

#[test]
fn close_button_ends_the_program_only_on_close() {
    let mut settings = unset();
    assert!(!settings.closes_on_request());
    settings.closer = text("minimize");
    assert!(!settings.closes_on_request());
    settings.closer = text("Close");
    assert!(!settings.closes_on_request());
    settings.closer = text("close");
    assert!(settings.closes_on_request());
}

#[test]
fn clone_keeps_every_field() {
    let settings = ISettings {
        closer: text("close"),
        coder: text("vim"),
        directory: text("/w"),
        enable_silent_start: Some(true),
        locale: text("zh-CN"),
        mirror: text("m"),
        proxy: Some(Proxy { ip: "10.0.0.1".to_string(), port: "80".to_string() }),
        no_proxy: Some(true),
        theme: text("light"),
    };
    assert_eq!(settings.clone(), settings);
}
