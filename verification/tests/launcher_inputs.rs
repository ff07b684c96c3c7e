use p5136::auth_client::LauncherAuthMode;
use p5136::i18n::GuiLanguage;
use p5136::launcher_inputs::{
    build_runner, optional_path, parse_u64, parse_usize, pick_gui_mode, reject_unspecified_server,
    required_path, required_text, GuiInputs, GuiRunner, LauncherProfileRole, Runner, RunnerKind,
};

fn fixture_inputs() -> GuiInputs {
    GuiInputs {
        game_directory: "/games/Kart Rider".to_owned(),
        game_executable: "/games/Kart Rider/KartRider.custom.exe".to_owned(),
        nickname: "fixture-user".to_owned(),
        login_account: "fixture-account".to_owned(),
        login_password: "fixture-password".to_owned(),
        launcher_register_mode: false,
        observer_mode: true,
        anonymous_league_mode: false,
        unlock_special_tracks: true,
        data_pack_off: true,
        xun_attach_helper: "/tools/p5136-xun-attach.exe".to_owned(),
        xun_attach_dll: "/tools/p5136-xun.dll".to_owned(),
        xun_dll_logging: false,
        server: "192.0.2.10".to_owned(),
        configured_port: "39311".to_owned(),
        runner: GuiRunner::Wine,
        wine_binary: "/usr/local/bin/wine64".to_owned(),
        wine_prefix: "/bottles/p5136".to_owned(),
        crossover_binary: "/opt/cxoffice/bin/wine".to_owned(),
        crossover_bottle: "P5136".to_owned(),
        sikarugir_app: "/Applications/KartRider.app".to_owned(),
    }
}

#[test]
fn no_arguments_select_gui_and_any_argument_selects_cli() {
    assert!(pick_gui_mode(None).0);
    assert!(!pick_gui_mode(Some(Some("--help"))).0);
    assert!(!pick_gui_mode(Some(Some(""))).0);
}

#[test]
fn launcher_only_argument_selects_the_login_tool_gui() {
    let (gui_mode, launcher_only) = pick_gui_mode(Some(Some("--launcher-only")));
    assert!(gui_mode);
    assert!(launcher_only);
    // The full GUI is still the bare-invocation default.
    let (gui_mode, launcher_only) = pick_gui_mode(None);
    assert!(gui_mode);
    assert!(!launcher_only);
    // Any other first argument remains a CLI command.
    let (gui_mode, launcher_only) = pick_gui_mode(Some(Some("server")));
    assert!(!gui_mode);
    assert!(!launcher_only);
}

#[test]
fn non_unicode_first_argument_selects_cli() {
    assert_eq!(pick_gui_mode(Some(None)), (false, false));
}

#[test]
fn native_runner_is_the_explicit_non_elevated_mode() {
    assert!(matches!(
        build_runner(RunnerKind::Native, None, None, None, None, None).unwrap(),
        Runner::Native
    ));
}

#[test]
fn command_line_runners_need_their_paths() {
    assert_eq!(
        build_runner(RunnerKind::Wine, None, Some("/pfx".to_owned()), None, None, None).unwrap(),
        Runner::Wine { binary: "wine".to_owned(), prefix: Some("/pfx".to_owned()) }
    );
    assert_eq!(
        build_runner(RunnerKind::Crossover, None, None, None, Some("b".to_owned()), None).unwrap_err(),
        "--crossover-binary is required for the CrossOver runner"
    );
    assert_eq!(
        build_runner(RunnerKind::Crossover, None, None, Some("/cx".to_owned()), None, None).unwrap_err(),
        "--bottle is required for the CrossOver runner"
    );
    assert_eq!(
        build_runner(RunnerKind::Sikarugir, None, None, None, None, None).unwrap_err(),
        "--sikarugir-app is required for the Sikarugir runner"
    );
    assert_eq!(
        build_runner(
            RunnerKind::Sikarugir,
            None,
            None,
            None,
            None,
            Some("/Users/player/Applications/Sikarugir/kartrider.app".to_owned())
        )
        .unwrap(),
        Runner::Sikarugir { app: "/Users/player/Applications/Sikarugir/kartrider.app".to_owned() }
    );
}

#[test]
fn blank_fields_are_refused_with_their_label() {
    assert_eq!(required_text("  \t", "Name", GuiLanguage::English).unwrap_err(), "Name cannot be empty");
    assert_eq!(
        required_text("", "이름", GuiLanguage::Korean).unwrap_err(),
        "이름을(를) 비워 둘 수 없습니다"
    );
    assert_eq!(required_text("", "名称", GuiLanguage::SimplifiedChinese).unwrap_err(), "名称不能为空");
    // a field with text is kept as typed, surrounding spaces included
    assert_eq!(required_text(" x ", "Name", GuiLanguage::English).unwrap(), " x ");
    assert_eq!(required_path(" /a ", "Path", GuiLanguage::English).unwrap(), " /a ");
    assert_eq!(optional_path("   "), None);
    assert_eq!(optional_path("rel"), Some("rel".to_owned()));
}

#[test]
fn integer_fields() {
    assert_eq!(parse_u64(" 250 ", "Delay", GuiLanguage::English).unwrap(), 250);
    assert_eq!(parse_u64("+7", "Delay", GuiLanguage::English).unwrap(), 7);
    assert_eq!(
        parse_u64("-1", "Delay", GuiLanguage::English).unwrap_err(),
        "Delay must be a non-negative integer"
    );
    assert_eq!(
        parse_u64("18446744073709551616", "Delay", GuiLanguage::Korean).unwrap_err(),
        "Delay은(는) 0 이상의 정수여야 합니다"
    );
    assert_eq!(parse_usize("12", "Sessions", GuiLanguage::English).unwrap(), 12);
    assert_eq!(
        parse_usize("1.5", "Sessions", GuiLanguage::SimplifiedChinese).unwrap_err(),
        "Sessions必须是非负整数"
    );
}

#[test]
fn gui_runners_need_their_paths() {
    let inputs = fixture_inputs();
    assert_eq!(
        inputs.runner(GuiLanguage::Korean).unwrap(),
        Runner::Wine {
            binary: "/usr/local/bin/wine64".to_owned(),
            prefix: Some("/bottles/p5136".to_owned())
        }
    );

    let mut wine = fixture_inputs();
    wine.wine_prefix = " ".to_owned();
    assert_eq!(
        wine.runner(GuiLanguage::English).unwrap(),
        Runner::Wine { binary: "/usr/local/bin/wine64".to_owned(), prefix: None }
    );
    wine.wine_binary.clear();
    assert_eq!(wine.runner(GuiLanguage::English).unwrap_err(), "Wine executable cannot be empty");
}

#[test]
fn account_role_checkboxes_map_to_explicit_profiles() {
    let mut inputs = fixture_inputs();
    inputs.observer_mode = false;
    assert_eq!(inputs.launcher_profile_role(GuiLanguage::Korean).unwrap(), LauncherProfileRole::Regular);
    inputs.observer_mode = true;
    assert_eq!(
        inputs.launcher_profile_role(GuiLanguage::Korean).unwrap(),
        LauncherProfileRole::ObserverMaster
    );
    inputs.observer_mode = false;
    inputs.anonymous_league_mode = true;
    assert_eq!(
        inputs.launcher_profile_role(GuiLanguage::Korean).unwrap(),
        LauncherProfileRole::AnonymousLeague
    );
    inputs.observer_mode = true;
    assert!(inputs.launcher_profile_role(GuiLanguage::Korean).is_err());
}

#[test]
fn connector_target_validates_location_and_server() {
    let inputs = fixture_inputs();
    let target = inputs.connector_target(GuiLanguage::English).unwrap();
    assert_eq!(target.game_directory, "/games/Kart Rider");
    assert_eq!(target.game_executable.as_deref(), Some("/games/Kart Rider/KartRider.custom.exe"));
    assert_eq!(target.server_address, [192, 0, 2, 10]);
    assert_eq!(target.configured_port, 39311);

    let mut unspecified = fixture_inputs();
    unspecified.server = "0.0.0.0".to_owned();
    assert_eq!(
        unspecified.connector_target(GuiLanguage::English).unwrap_err(),
        "0.0.0.0 cannot be used as the server address"
    );
    let mut domain = fixture_inputs();
    domain.server = "server.lan".to_owned();
    assert_eq!(
        domain.connector_target(GuiLanguage::English).unwrap_err(),
        "The server address must be IPv4"
    );
    let mut port = fixture_inputs();
    port.configured_port = "65536".to_owned();
    assert_eq!(
        port.connector_target(GuiLanguage::English).unwrap_err(),
        "The base port must be in the range 0–65535"
    );
    let mut directory = fixture_inputs();
    directory.game_directory.clear();
    assert_eq!(
        directory.connector_target(GuiLanguage::English).unwrap_err(),
        "Game directory cannot be empty"
    );
}

#[test]
fn launcher_auth_is_skipped_without_credentials() {
    let mut inputs = fixture_inputs();
    inputs.login_account = "  ".to_owned();
    inputs.login_password.clear();
    assert_eq!(inputs.launcher_auth_request(GuiLanguage::English).unwrap(), None);
}

#[test]
fn launcher_auth_targets_the_sidecar_port() {
    let mut inputs = fixture_inputs();
    inputs.login_account = " fixture-account ".to_owned();
    let request = inputs.launcher_auth_request(GuiLanguage::English).unwrap().unwrap();
    assert_eq!(request.mode, LauncherAuthMode::Login);
    assert_eq!(request.username, "fixture-account");
    assert_eq!(request.password, "fixture-password");
    assert_eq!(request.nickname, "");
    assert_eq!(request.sidecar_address, [192, 0, 2, 10]);
    assert_eq!(request.sidecar_port, 39314);

    inputs.launcher_register_mode = true;
    let request = inputs.launcher_auth_request(GuiLanguage::English).unwrap().unwrap();
    assert_eq!(request.mode, LauncherAuthMode::Register);
    assert_eq!(request.nickname, "fixture-user");
}

#[test]
fn launcher_auth_reports_each_missing_piece() {
    let message = |f: &dyn Fn(&mut GuiInputs)| {
        let mut inputs = fixture_inputs();
        f(&mut inputs);
        inputs.launcher_auth_request(GuiLanguage::English).unwrap_err()
    };
    assert_eq!(message(&|i: &mut GuiInputs| i.login_account.clear()), "Enter the account name");
    assert_eq!(message(&|i: &mut GuiInputs| i.login_password.clear()), "Enter the account password");
    assert_eq!(
        message(&|i: &mut GuiInputs| {
            i.launcher_register_mode = true;
            i.nickname = " ".to_owned();
        }),
        "Enter a rider nickname to register an account"
    );
    assert_eq!(message(&|i: &mut GuiInputs| i.server = "192.0.2".to_owned()), "The server address must be IPv4");
    assert_eq!(message(&|i: &mut GuiInputs| i.configured_port = "port".to_owned()), "The base port must be in the range 0–65535");
    assert_eq!(
        message(&|i: &mut GuiInputs| i.configured_port = "65533".to_owned()),
        "The base port is too large to derive the sidecar port"
    );
    let mut inputs = fixture_inputs();
    inputs.login_account.clear();
    assert_eq!(inputs.launcher_auth_request(GuiLanguage::Korean).unwrap_err(), "로그인 계정을 입력하세요");
}

#[test]
fn unspecified_server_is_refused() {
    assert_eq!(
        reject_unspecified_server([0, 0, 0, 0]).unwrap_err(),
        "connector server address cannot be 0.0.0.0"
    );
    assert!(reject_unspecified_server([127, 0, 0, 1]).is_ok());
}

#[test]
fn runner_labels() {
    assert_eq!(GuiRunner::Auto.label(GuiLanguage::English), "Automatic");
    assert_eq!(GuiRunner::Native.label(GuiLanguage::Korean), "직접 실행 (관리자 권한 없음)");
    assert_eq!(GuiRunner::Wine.label(GuiLanguage::SimplifiedChinese), "Wine");
}

#[test]
fn crossover_requires_both_binary_and_bottle() {
    let mut inputs = fixture_inputs();
    inputs.runner = GuiRunner::CrossOver;
    inputs.crossover_bottle.clear();

    let error = inputs.runner(GuiLanguage::Korean).unwrap_err();
    assert!(error.contains("CrossOver 보틀"));
}

#[test]
fn sikarugir_requires_a_wrapper_app_path() {
    let mut inputs = fixture_inputs();
    inputs.runner = GuiRunner::Sikarugir;
    inputs.sikarugir_app.clear();

    let error = inputs.runner(GuiLanguage::Korean).unwrap_err();
    assert!(error.contains("Sikarugir wrapper 앱"));
}

#[test]
fn server_inputs_require_a_client_location() {
    let error = required_path("", "클라이언트 또는 Profile 경로", GuiLanguage::Korean).unwrap_err();
    assert!(error.contains("클라이언트 또는 Profile 경로"));
}
