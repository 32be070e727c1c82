use astrbot_client::cli::{
    handle_plugin_command, Cli, Commands, LogCommands, PluginCommands, PluginPlan,
};
use astrbot_client::digest::{md5_hex, to_hex};
use astrbot_client::login::{
    handle_login, login_from_json, login_outcome, login_request, LoginData, LoginError,
    LoginResponse,
};
use astrbot_client::request::{Method, RequestBody};
use astrbot_client::text::{
    decimal, first_chars, join2, join3, owned, strip_leading_slashes, strip_trailing_slashes,
};
use astrbot_client::utils::{git_archive_plan, strf_timestamp, InvalidTimestamp};
use astrbot_client::verbose::{info_line, init_verbose, is_verbose, verbose_line, VerboseFlag};

fn json(text: &str) -> serde_json::Value {
    serde_json::from_str(text).expect("the test's JSON is valid")
}

#[test]
fn plugin_names_of_commands() {
    let name = || "demo".to_string();
    assert_eq!(PluginCommands::Off { plugin_name: name() }.plugin_name(), Some("demo"));
    assert_eq!(PluginCommands::On { plugin_name: name() }.plugin_name(), Some("demo"));
    assert_eq!(PluginCommands::Reload { plugin_name: name() }.plugin_name(), Some("demo"));
    assert_eq!(PluginCommands::Uninstall { plugin_name: name() }.plugin_name(), Some("demo"));
    assert_eq!(PluginCommands::Get.plugin_name(), None);
    assert_eq!(
        PluginCommands::Install { from_local: true, from_git: Some(name()) }.plugin_name(),
        None
    );
}

#[test]
fn names_of_commands() {
    let name = || "demo".to_string();
    assert_eq!(PluginCommands::Get.as_ref(), "Get");
    assert_eq!(PluginCommands::Install { from_local: false, from_git: None }.as_ref(), "Install");
    assert_eq!(PluginCommands::Off { plugin_name: name() }.as_ref(), "Off");
    assert_eq!(PluginCommands::On { plugin_name: name() }.as_ref(), "On");
    assert_eq!(PluginCommands::Reload { plugin_name: name() }.as_ref(), "Reload");
    assert_eq!(PluginCommands::Uninstall { plugin_name: name() }.as_ref(), "Uninstall");
    assert_eq!(PluginCommands::Get.action_name(), "get");
    assert_eq!(PluginCommands::Off { plugin_name: name() }.action_name(), "off");
    assert_eq!(PluginCommands::On { plugin_name: name() }.action_name(), "on");
    assert_eq!(PluginCommands::Reload { plugin_name: name() }.action_name(), "reload");
    assert_eq!(PluginCommands::Uninstall { plugin_name: name() }.action_name(), "uninstall");
    assert_eq!(LogCommands::Live { flush: true }.as_ref(), "Live");
    assert_eq!(LogCommands::History { output_file: "o".to_string() }.as_ref(), "History");
}

#[test]
fn plans_of_plugin_commands() {
    assert!(matches!(handle_plugin_command(PluginCommands::Get), PluginPlan::List));
    assert!(matches!(
        handle_plugin_command(PluginCommands::Install { from_local: true, from_git: None }),
        PluginPlan::InstallLocal
    ));
    assert!(matches!(
        handle_plugin_command(PluginCommands::Install {
            from_local: true,
            from_git: Some("https://g/r".to_string())
        }),
        PluginPlan::InstallLocal
    ));
    match handle_plugin_command(PluginCommands::Install {
        from_local: false,
        from_git: Some("https://g/r".to_string()),
    }) {
        PluginPlan::InstallRemote(url) => assert_eq!(url, "https://g/r"),
        other => panic!("unexpected plan: {:?}", other),
    }
    let refused =
        handle_plugin_command(PluginCommands::Install { from_local: false, from_git: None });
    assert!(matches!(refused, PluginPlan::MissingSource));
    assert_eq!(
        refused.refusal(),
        Some("Please specify either --from-local or --from-git option")
    );
    assert_eq!(refused.trace(), None);
    for (command, expected) in [
        (PluginCommands::Off { plugin_name: "p".to_string() }, "off"),
        (PluginCommands::On { plugin_name: "p".to_string() }, "on"),
        (PluginCommands::Reload { plugin_name: "p".to_string() }, "reload"),
        (PluginCommands::Uninstall { plugin_name: "p".to_string() }, "uninstall"),
    ] {
        match handle_plugin_command(command) {
            PluginPlan::Action { action, plugin_name } => {
                assert_eq!(action, expected);
                assert_eq!(plugin_name, "p");
            }
            other => panic!("unexpected plan: {:?}", other),
        }
    }
}

#[test]
fn traces_of_plans() {
    assert_eq!(PluginPlan::List.trace(), None);
    assert_eq!(PluginPlan::List.refusal(), None);
    assert_eq!(
        PluginPlan::InstallLocal.trace(),
        Some("Installing plugin from current path".to_string())
    );
    assert_eq!(
        PluginPlan::InstallRemote("u".to_string()).trace(),
        Some("Installing plugin from git repository: u".to_string())
    );
    assert_eq!(
        PluginPlan::Action { action: "reload".to_string(), plugin_name: "p".to_string() }.trace(),
        Some("reload plugin: p".to_string())
    );
}

#[test]
fn command_lines_are_plain_values() {
    let cli = Cli {
        verbose: true,
        command: Commands::Login {
            username: "u".to_string(),
            password: "p".to_string(),
            server: "s".to_string(),
        },
    };
    assert!(cli.verbose);
    assert!(matches!(cli.command, Commands::Login { .. }));
    let cli = Cli { verbose: false, command: Commands::Log { action: LogCommands::Live { flush: true } } };
    assert!(matches!(cli.command, Commands::Log { action: LogCommands::Live { flush: true } }));
    assert!(matches!(Commands::Stat, Commands::Stat));
    assert!(matches!(
        Commands::Plugin { action: PluginCommands::Get },
        Commands::Plugin { action: PluginCommands::Get }
    ));
}

#[test]
fn verbose_flag_is_set_once() {
    let mut flag = VerboseFlag::new();
    assert!(!flag.is_initialized());
    assert!(!is_verbose(&flag));
    assert_eq!(verbose_line(&flag, "m"), None);
    init_verbose(&mut flag, true);
    assert!(flag.is_initialized());
    assert!(is_verbose(&flag));
    assert_eq!(verbose_line(&flag, "GET http://h/x"), Some("[VERBOSE] GET http://h/x".to_string()));
    let mut quiet = VerboseFlag::new();
    init_verbose(&mut quiet, false);
    assert!(quiet.is_initialized());
    assert!(!is_verbose(&quiet));
    assert_eq!(verbose_line(&quiet, "m"), None);
    assert_eq!(info_line("Fetching stat..."), "[INFO]    Fetching stat...");
}

#[test]
fn md5_in_hexadecimal() {
    assert_eq!(md5_hex(""), "d41d8cd98f00b204e9800998ecf8427e");
    assert_eq!(md5_hex("password"), "5f4dcc3b5aa765d61d8327deb882cf99");
    assert_eq!(md5_hex("abc"), "900150983cd24fb0d6963f7d28e17f72");
    assert_eq!(to_hex(&[]), "");
    assert_eq!(to_hex(&[0x00, 0x0f, 0xa0, 0xff, 0x10]), "000fa0ff10");
}

#[test]
fn login_request_carries_the_digest() {
    let request = login_request("admin", "password", "http://h:6185//");
    assert_eq!(request.method, Method::Post);
    assert_eq!(request.url, "http://h:6185/api/auth/login");
    assert_eq!(request.authorization, None);
    match request.body {
        RequestBody::Json(fields) => {
            assert_eq!(fields.len(), 2);
            assert_eq!(fields[0].name, "username");
            assert_eq!(fields[0].value, "admin");
            assert_eq!(fields[1].name, "password");
            assert_eq!(fields[1].value, "5f4dcc3b5aa765d61d8327deb882cf99");
        }
        other => panic!("unexpected body: {:?}", other),
    }
}

#[test]
fn accepted_login_yields_credentials() {
    let body = r#"{"status":"ok","message":null,
        "data":{"token":"T","username":"root","change_pwd_hint":false}}"#;
    let credentials = handle_login(body, "http://h/").expect("the login is accepted");
    assert_eq!(credentials.token, "T");
    assert_eq!(credentials.server_url, "http://h/");
    assert_eq!(credentials.username, "root");
}

#[test]
fn rejected_login_tells_why() {
    match handle_login(r#"{"status":"error","message":"wrong password"}"#, "s") {
        Err(LoginError::Rejected(message)) => assert_eq!(message, "wrong password"),
        other => panic!("unexpected outcome: {:?}", other),
    }
    match handle_login(r#"{"status":"error"}"#, "s") {
        Err(LoginError::Rejected(message)) => assert_eq!(message, "Unknown error"),
        other => panic!("unexpected outcome: {:?}", other),
    }
    let body = r#"{"status":"OK","data":{"token":"T","username":"u","change_pwd_hint":true}}"#;
    match handle_login(body, "s") {
        Err(LoginError::Rejected(message)) => assert_eq!(message, "Unknown error"),
        other => panic!("unexpected outcome: {:?}", other),
    }
}

#[test]
fn login_without_data_or_shape() {
    assert!(matches!(handle_login(r#"{"status":"ok"}"#, "s"), Err(LoginError::MissingData)));
    assert!(matches!(
        handle_login(r#"{"status":"ok","data":null}"#, "s"),
        Err(LoginError::MissingData)
    ));
    for body in ["", "<html>", "{\"status\":"] {
        let expected = serde_json::from_str::<serde_json::Value>(body)
            .expect_err("the body is no JSON")
            .to_string();
        match handle_login(body, "s") {
            Err(LoginError::Decode(diagnostic)) => assert_eq!(diagnostic, expected),
            other => panic!("unexpected outcome: {:?}", other),
        }
    }
    for body in [
        r#"{"message":"m"}"#,
        r#"{"status":"ok","message":{"a":1}}"#,
        r#"{"status":"ok","data":{"token":"T","username":"u"}}"#,
        r#"{"status":"error","data":{"token":1,"username":"u","change_pwd_hint":true}}"#,
        r#"{"status":"ok","data":"T"}"#,
    ] {
        match handle_login(body, "s") {
            Err(LoginError::Decode(diagnostic)) => {
                assert_eq!(diagnostic, "the reply is no login reply", "for {}", body)
            }
            other => panic!("unexpected outcome: {:?}", other),
        }
    }
}

#[test]
fn login_from_parsed_values() {
    let value = json(r#"{"status":"ok","data":{"token":"T","username":"u","change_pwd_hint":true}}"#);
    let credentials = login_from_json(&value, "srv").expect("the login is accepted");
    assert_eq!(credentials.token, "T");
    assert_eq!(credentials.server_url, "srv");
    let response = LoginResponse::from_json(&value).expect("the reply decodes");
    assert!(response.is_ok());
    assert_eq!(response.message, None);
    let data = response.data.expect("data is there");
    assert!(data.change_pwd_hint);
    assert_eq!(data.username, "u");
    let response = LoginResponse {
        status: "ok".to_string(),
        message: Some("hello".to_string()),
        data: Some(LoginData {
            token: "T2".to_string(),
            username: "v".to_string(),
            change_pwd_hint: false,
        }),
    };
    let credentials = login_outcome(response, "srv/").expect("the login is accepted");
    assert_eq!(credentials.token, "T2");
    assert_eq!(credentials.username, "v");
    assert_eq!(credentials.server_url, "srv/");
    assert!(LoginData::from_json(&json(r#"{"token":"T"}"#)).is_none());
}

#[test]
fn login_error_messages() {
    assert_eq!(LoginError::MissingData.message(), "Error: Login response missing data");
    assert_eq!(LoginError::Rejected("no".to_string()).message(), "Login failed: no");
    assert_eq!(
        LoginError::Decode("eof".to_string()).message(),
        "Error parsing login response: eof"
    );
}

#[test]
fn timestamps_as_text() {
    assert_eq!(strf_timestamp(0), Ok("1970-01-01 00:00:00".to_string()));
    assert_eq!(strf_timestamp(1431648000), Ok("2015-05-15 00:00:00".to_string()));
    assert_eq!(strf_timestamp(1700000000), Ok("2023-11-14 22:13:20".to_string()));
    assert_eq!(strf_timestamp(-1), Ok("1969-12-31 23:59:59".to_string()));
    assert_eq!(strf_timestamp(i64::MAX), Err(InvalidTimestamp { secs: i64::MAX }));
    assert_eq!(strf_timestamp(i64::MIN), Err(InvalidTimestamp { secs: i64::MIN }));
}

#[test]
fn archive_plans() {
    let plan = git_archive_plan("/home/u/demo", "demo", "main");
    assert_eq!(plan.archive_name, "demo-main");
    assert_eq!(plan.output_file, "/home/u/demo/demo-main.zip");
    assert_eq!(
        plan.arguments,
        vec![
            "archive".to_string(),
            "--format=zip".to_string(),
            "--prefix=demo-main/".to_string(),
            "-o".to_string(),
            "/home/u/demo/demo-main.zip".to_string(),
            "main".to_string(),
        ]
    );
}

#[test]
fn text_operations() {
    assert_eq!(strip_trailing_slashes("a/b//"), "a/b");
    assert_eq!(strip_trailing_slashes("//"), "");
    assert_eq!(strip_trailing_slashes(""), "");
    assert_eq!(strip_trailing_slashes("/a"), "/a");
    assert_eq!(strip_leading_slashes("//a/b/"), "a/b/");
    assert_eq!(strip_leading_slashes("a"), "a");
    assert_eq!(strip_leading_slashes("///"), "");
    assert_eq!(first_chars("hello", 2), "he");
    assert_eq!(first_chars("hello", 5), "hello");
    assert_eq!(first_chars("hello", 9), "hello");
    assert_eq!(first_chars("hello", 0), "");
    assert_eq!(first_chars("h\u{00e9}llo", 2), "h\u{00e9}");
    assert_eq!(join2("a", "b"), "ab");
    assert_eq!(join3("a", "", "c"), "ac");
    assert_eq!(owned("x"), "x");
    assert_eq!(decimal(0), "0");
    assert_eq!(decimal(9), "9");
    assert_eq!(decimal(10), "10");
    assert_eq!(decimal(404), "404");
    assert_eq!(decimal(u64::MAX), "18446744073709551615");
}
