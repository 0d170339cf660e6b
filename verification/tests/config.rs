use pretty_error::config::{BuildOptions, DevOptions, Features, LaunchOptions};

#[test]
fn features_defaults() {
    let f = Features::default();
    assert!(f.dev().exclude().is_empty());
    assert!(f.launch().workshop().is_empty());
    assert!(f.launch().parameters().is_empty());
    assert!(f.build().optional_mod_folders());
    assert!(!f.pbo_prefix_allow_leading_slash());
}

#[test]
fn pbo_prefix_leading_slash_choice_is_respected() {
    let mut f = Features::default();
    f.pbo_prefix_allow_leading_slash = Some(true);
    assert!(f.pbo_prefix_allow_leading_slash());
    f.pbo_prefix_allow_leading_slash = Some(false);
    assert!(!f.pbo_prefix_allow_leading_slash());
}

#[test]
fn optional_mod_folders_defaults_to_true() {
    assert!(BuildOptions::default().optional_mod_folders());
    let chosen = BuildOptions { optional_mod_folders: Some(false) };
    assert!(!chosen.optional_mod_folders());
    let explicit = BuildOptions { optional_mod_folders: Some(true) };
    assert!(explicit.optional_mod_folders());
}

#[test]
fn dev_exclude_is_returned_as_given() {
    let dev = DevOptions { exclude: vec![String::from("docs"), String::from("tmp")] };
    assert_eq!(dev.exclude(), ["docs", "tmp"]);
}

#[test]
fn launch_options_are_returned_as_given() {
    let launch = LaunchOptions {
        workshop: vec![String::from("450814997")],
        parameters: vec![String::from("-noSplash"), String::from("-world=empty")],
    };
    assert_eq!(launch.workshop(), ["450814997"]);
    assert_eq!(launch.parameters(), ["-noSplash", "-world=empty"]);
}

#[test]
fn features_carries_config_parser_options() {
    let f = Features {
        config: hemtt_config::Options::default(),
        dev: DevOptions::default(),
        launch: LaunchOptions::default(),
        build: BuildOptions::default(),
        pbo_prefix_allow_leading_slash: None,
    };
    let _options: &hemtt_config::Options = f.config();
    assert!(!f.pbo_prefix_allow_leading_slash());
}
