use cloud_backup::rclone_config::{point_profile, remote_config, remote_name, scheduled_config};
use cloud_backup::models::{AppConfig, IAMCredentials, Profile, ProfileType};
use cloud_backup::tools::{
    all_installed, brew_paths, bundled_binary_name, choose_binary, common_paths, dependency_named,
    dependency_status, describe_candidates, dev_binary_candidates, dev_binary_name, first_of,
    first_working, get_aws_cli_install_command, get_rclone_install_command, iam_file_name,
    installation_needed, installed_paths, progress, resolve_rclone_binary, setup_paths,
    wants_bundled, Dependency, Platform, AWS_MISSING, RCLONE_MISSING, RCLONE_MISSING_ON_MAC,
};

#[test]
fn which_transfer_tool_to_run() {
    assert_eq!(resolve_rclone_binary("bundled", Some("/app/rclone")), Ok("/app/rclone".to_string()));
    assert_eq!(resolve_rclone_binary("bundled", None), Ok("rclone".to_string()));
    assert_eq!(resolve_rclone_binary("the bundled one", None), Ok("rclone".to_string()));
    assert_eq!(
        resolve_rclone_binary("/usr/bin/rclone", Some("/app/rclone")),
        Ok("/usr/bin/rclone".to_string())
    );
    assert_eq!(resolve_rclone_binary("", Some("/app/rclone")), Ok(String::new()));
    assert!(wants_bundled("xbundledx"));
    assert!(!wants_bundled("Bundled"));
}

#[test]
fn places_of_the_transfer_tool() {
    assert_eq!(
        common_paths(),
        vec!["/usr/local/bin/rclone", "/opt/homebrew/bin/rclone", "/usr/bin/rclone", "rclone"]
    );
    assert_eq!(
        setup_paths(),
        vec!["/opt/homebrew/bin/rclone", "/usr/local/bin/rclone", "/usr/bin/rclone", "rclone"]
    );
    assert_eq!(brew_paths("aws"), vec!["/opt/homebrew/bin/aws", "/usr/local/bin/aws"]);
}

#[test]
fn what_is_shown_of_the_tools_found() {
    let places = common_paths();
    assert_eq!(
        describe_candidates(
            Some("/App.app/Contents/Resources/binaries/rclone"),
            true,
            &places,
            &[false, true, false, true]
        ),
        vec![
            "/App.app/Contents/Resources/binaries/rclone (bundled)",
            "/opt/homebrew/bin/rclone (system)",
            "rclone (system)",
        ]
    );
    assert_eq!(
        describe_candidates(Some("/usr/bin/rclone"), true, &places, &[false; 4]),
        vec!["/usr/bin/rclone (system)"]
    );
    assert_eq!(
        describe_candidates(Some("/x/rclone"), false, &places, &[false; 4]),
        vec!["bundled rclone available"]
    );
    assert_eq!(
        describe_candidates(None, false, &places, &[false; 4]),
        vec!["rclone (not found - will need to install or bundle)"]
    );
    assert_eq!(
        describe_candidates(None, true, &places, &[true]),
        vec!["/usr/local/bin/rclone (system)"]
    );
}

#[test]
fn the_first_place_that_works() {
    let places = setup_paths();
    assert_eq!(
        first_working(&places, &[false, true, true, false]),
        Ok("/usr/local/bin/rclone".to_string())
    );
    assert_eq!(first_working(&places, &[false, false, false, true]), Ok("rclone".to_string()));
    let err = "Could not find rclone binary. Please install rclone first.";
    assert_eq!(first_working(&places, &[false; 4]), Err(err.to_string()));
    assert_eq!(first_working(&places, &[]), Err(err.to_string()));
    assert_eq!(first_working(&[], &[true]), Err(err.to_string()));
}

#[test]
fn commands_that_install() {
    assert_eq!(get_aws_cli_install_command(Platform::Windows), "winget install --id=Amazon.AWSCLI");
    assert_eq!(get_aws_cli_install_command(Platform::MacOs), "brew install awscli");
    assert_eq!(
        get_aws_cli_install_command(Platform::Linux),
        "curl 'https://awscli.amazonaws.com/awscli-exe-linux-x86_64.zip' -o 'awscliv2.zip' && unzip awscliv2.zip && sudo ./aws/install"
    );
    assert_eq!(get_rclone_install_command(Platform::Windows), "choco install rclone");
    assert_eq!(get_rclone_install_command(Platform::MacOs), "brew install rclone");
    assert_eq!(
        get_rclone_install_command(Platform::Linux),
        "curl https://rclone.org/install.sh | sudo bash"
    );
}

#[test]
fn what_is_shown_of_a_tool() {
    let status = dependency_status(
        Dependency::AwsCli,
        Platform::MacOs,
        Some("aws-cli/2.15.0 Python/3.11\nmore\n"),
    );
    assert_eq!(status.name, "AWS CLI");
    assert!(status.installed);
    assert_eq!(status.version, Some("aws-cli/2.15.0 Python/3.11".to_string()));
    assert_eq!(status.install_command, "brew install awscli");
    let status = dependency_status(Dependency::Rclone, Platform::Linux, None);
    assert_eq!(status.name, "rclone");
    assert!(!status.installed);
    assert_eq!(status.version, None);
    assert_eq!(status.install_command, "curl https://rclone.org/install.sh | sudo bash");
    let status = dependency_status(Dependency::Rclone, Platform::Linux, Some(""));
    assert!(status.installed);
    assert_eq!(status.version, None);
}

#[test]
fn tools_by_name() {
    assert_eq!(dependency_named("AWS CLI"), Ok(Dependency::AwsCli));
    assert_eq!(dependency_named("rclone"), Ok(Dependency::Rclone));
    assert_eq!(dependency_named("git"), Err("Unknown dependency: git".to_string()));
    assert_eq!(dependency_named(""), Err("Unknown dependency: ".to_string()));
}

#[test]
fn whether_to_install() {
    assert!(all_installed(true, true, true));
    assert!(!all_installed(false, true, true));
    assert!(!all_installed(true, false, true));
    assert!(!all_installed(true, true, false));
    assert!(installation_needed(false, false));
    assert!(!installation_needed(true, false));
    assert!(!installation_needed(false, true));
    let shown = progress(40, "Installing Homebrew core...");
    assert_eq!((shown.downloaded, shown.total), (40, Some(100)));
    assert_eq!(shown.status, "Installing Homebrew core...");
}

#[test]
fn names_while_building() {
    assert_eq!(dev_binary_name("aarch64", Platform::MacOs), "rclone-aarch64-apple-darwin");
    assert_eq!(dev_binary_name("x86_64", Platform::Windows), "rclone-x86_64-pc-windows-msvc.exe");
    assert_eq!(dev_binary_name("x86_64", Platform::Linux), "rclone-x86_64-unknown-linux-gnu");
    assert_eq!(
        dev_binary_candidates("/t/debug", "rclone-x"),
        vec![
            "/t/debug/../binaries/rclone-x",
            "/t/debug/../../binaries/rclone-x",
            "/t/debug/../../../binaries/rclone-x",
            "/t/debug/../../../../src-tauri/binaries/rclone-x",
        ]
    );
    assert_eq!(bundled_binary_name(Platform::Windows), "rclone.exe");
    assert_eq!(bundled_binary_name(Platform::MacOs), "rclone");
    assert_eq!(bundled_binary_name(Platform::Linux), "rclone");
    assert_eq!(iam_file_name("u1"), "iam-u1.json");
}

#[test]
fn what_the_configuration_says() {
    assert_eq!(
        remote_config("my_bucket-s3", "AK", "SK", "eu-west-1"),
        "[my_bucket-s3]\ntype = s3\nprovider = AWS\naccess_key_id = AK\nsecret_access_key = SK\nregion = eu-west-1\nlocation_constraint = eu-west-1\n\n"
    );
    let credentials = IAMCredentials {
        access_key_id: "AK".to_string(),
        secret_access_key: "SK".to_string(),
        region: "eu-west-1".to_string(),
        iam_username: "u".to_string(),
        bucket: "b".to_string(),
        s3_prefix: "p".to_string(),
    };
    assert_eq!(
        scheduled_config(&credentials),
        "[aws]\ntype = s3\nprovider = AWS\nenv_auth = false\naccess_key_id = AK\nsecret_access_key = SK\nregion = eu-west-1\nacl = private\n\n"
    );
    assert_eq!(remote_name("my-shared-bucket"), "my_shared_bucket-s3");
    assert_eq!(remote_name("plain"), "plain-s3");
    assert_eq!(remote_name(""), "-s3");
}

#[test]
fn pointing_a_profile_at_the_tool() {
    let mut a = Profile::new("a".to_string(), ProfileType::User);
    a.id = "a".to_string();
    let mut b = Profile::new("b".to_string(), ProfileType::User);
    b.id = "b".to_string();
    let mut config = AppConfig {
        profiles: vec![a, b],
        active_profile_id: None,
        app_version: "1".to_string(),
        backup_operations: Vec::new(),
        created_at: 1,
        updated_at: 1,
    };
    let done = point_profile(&mut config, "b", "/bin/rclone".to_string(), "/c".to_string(), None, 9);
    assert_eq!(done, Ok(1));
    assert_eq!(config.updated_at, 9);
    assert_eq!(config.profiles[1].rclone_bin, "/bin/rclone");
    assert_eq!(config.profiles[1].rclone_conf, "/c");
    assert_eq!(config.profiles[1].remote, "aws");
    assert_eq!(config.profiles[1].updated_at, 9);
    assert_eq!(config.profiles[0].rclone_bin, "");
    let done = point_profile(&mut config, "a", "r".to_string(), "c".to_string(), Some("x-s3".to_string()), 10);
    assert_eq!(done, Ok(0));
    assert_eq!(config.profiles[0].remote, "x-s3");
    let done = point_profile(&mut config, "z", "r".to_string(), "c".to_string(), None, 11);
    assert_eq!(done, Err("Profile not found".to_string()));
    assert_eq!(config.updated_at, 10);
}

#[test]
fn where_an_installed_tool_is_looked_for() {
    assert_eq!(
        installed_paths(Some("/app/Contents/MacOS"), Some("/app/Contents"), Platform::MacOs, true),
        vec![
            "/app/Contents/MacOS/rclone",
            "/app/Contents/Resources/rclone",
            "/opt/homebrew/bin/rclone",
            "/usr/local/bin/rclone",
        ]
    );
    assert_eq!(
        installed_paths(Some("/app/Contents/MacOS"), Some("/app/Contents"), Platform::MacOs, false),
        vec!["/app/Contents/Resources/rclone", "/opt/homebrew/bin/rclone", "/usr/local/bin/rclone"]
    );
    assert_eq!(
        installed_paths(Some("C:/app"), Some("C:/"), Platform::Windows, true),
        vec!["C:/app/rclone.exe"]
    );
    assert_eq!(
        installed_paths(Some("/opt/app"), Some("/opt"), Platform::Linux, true),
        vec!["/opt/app/rclone"]
    );
    assert!(installed_paths(Some("/opt/app"), Some("/opt"), Platform::Linux, false).is_empty());
    assert!(installed_paths(None, None, Platform::Linux, true).is_empty());
    assert_eq!(
        installed_paths(None, None, Platform::MacOs, true),
        vec!["/opt/homebrew/bin/rclone", "/usr/local/bin/rclone"]
    );
}

#[test]
fn choosing_the_tool_to_run() {
    let none: Vec<Option<String>> = vec![None, None];
    let some = vec![None, Some("b".to_string()), Some("c".to_string())];
    assert_eq!(first_of(&none), None);
    assert_eq!(first_of(&[]), None);
    assert_eq!(first_of(&some), Some("b".to_string()));
    assert_eq!(
        choose_binary(&some, &[Some("x".to_string())], Some("y".to_string()), "nowhere"),
        Ok("b".to_string())
    );
    assert_eq!(
        choose_binary(&none, &[None, Some("x".to_string())], Some("y".to_string()), "nowhere"),
        Ok("x".to_string())
    );
    assert_eq!(choose_binary(&none, &[], Some("y".to_string()), "nowhere"), Ok("y".to_string()));
    assert_eq!(choose_binary(&none, &none, None, "nowhere"), Err("nowhere".to_string()));
    assert_eq!(choose_binary(&[], &[], None, RCLONE_MISSING), Err(RCLONE_MISSING.to_string()));
    assert_eq!(
        RCLONE_MISSING_ON_MAC,
        "rclone not found. Please ensure rclone is bundled with the app or install it via Homebrew."
    );
    assert_eq!(AWS_MISSING, "AWS CLI not found. Please run dependency installation first.");
}
