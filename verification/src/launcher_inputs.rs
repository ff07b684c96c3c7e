//! The launcher's form: validation of what the user typed, and the choices
//! that follow from it (the runner, the optional account exchange, and the
//! mode of the program).
use vstd::prelude::*;
use vstd::string::*;

use crate::auth_client::LauncherAuthMode;
use crate::i18n::{tr, tr_owned, tr_spec, GuiLanguage};
use crate::text::{
    ipv4_octets, parse_ipv4, parse_u16_text, parse_u64_text, parse_usize_text, text_eq, trim,
    trim_chars, unsigned_decimal,
};

verus! {

broadcast use crate::text::lemma_digits_value_nonneg;

/// How the game is started, as the form offers it.
#[derive(Debug, Clone, Copy, PartialEq, Eq, Structural)]
pub enum GuiRunner {
    Auto,
    Native,
    NativeElevated,
    Wine,
    CrossOver,
    Sikarugir,
}

/// How the game is started, with what each way needs.
#[derive(Debug, Clone, PartialEq, Eq)]
pub enum Runner {
    Auto,
    Native,
    NativeElevated,
    Wine { binary: String, prefix: Option<String> },
    CrossOver { wine_binary: String, bottle: String },
    Sikarugir { app: String },
}

/// The runner choices of the command line.
#[derive(Debug, Clone, Copy, PartialEq, Eq, Structural)]
pub enum RunnerKind {
    Auto,
    /// Launch directly as the current user, without UAC.
    Native,
    /// Request Windows UAC elevation before launching.
    NativeElevated,
    Wine,
    Crossover,
    Sikarugir,
}

/// The connector form as the user filled it in.
#[derive(Debug, Clone, PartialEq, Eq)]
pub struct GuiInputs {
    pub game_directory: String,
    pub game_executable: String,
    pub nickname: String,
    /// Launcher account name (server-side launcher auth).
    pub login_account: String,
    /// Launcher password; it is never persisted.
    pub login_password: String,
    /// When registration mode is active the connector registers a new account
    /// with `login_account` / `login_password` and binds `nickname`.
    pub launcher_register_mode: bool,
    pub observer_mode: bool,
    pub anonymous_league_mode: bool,
    pub unlock_special_tracks: bool,
    pub data_pack_off: bool,
    pub xun_attach_helper: String,
    pub xun_attach_dll: String,
    pub xun_dll_logging: bool,
    pub server: String,
    pub configured_port: String,
    pub runner: GuiRunner,
    pub wine_binary: String,
    pub wine_prefix: String,
    pub crossover_binary: String,
    pub crossover_bottle: String,
    pub sikarugir_app: String,
}

/// The launcher profile role that the client logs in with.
#[derive(Debug, Clone, Copy, PartialEq, Eq, Structural)]
pub enum LauncherProfileRole {
    Regular,
    ObserverMaster,
    AnonymousLeague,
}

/// Where the connector points the client: the validated game location and
/// server of the connector form.
#[derive(Debug, Clone, PartialEq, Eq)]
pub struct ConnectorTarget {
    pub game_directory: String,
    pub game_executable: Option<String>,
    pub server_address: [u8; 4],
    pub configured_port: u16,
}

/// The launcher account exchange that precedes the game start.
#[derive(Debug, Clone, PartialEq, Eq)]
pub struct LauncherAuthRequest {
    pub mode: LauncherAuthMode,
    pub username: String,
    pub password: String,
    pub nickname: String,
    /// IPv4 address of the sidecar endpoint.
    pub sidecar_address: [u8; 4],
    /// Sidecar port: the configured base port + 3.
    pub sidecar_port: u16,
}

// ---------------------------------------------------------------------------
// Messages
// ---------------------------------------------------------------------------

pub open spec fn empty_field_message(language: GuiLanguage, label: Seq<char>) -> Seq<char> {
    match language {
        GuiLanguage::Korean => label + "을(를) 비워 둘 수 없습니다"@,
        GuiLanguage::English => label + " cannot be empty"@,
        GuiLanguage::SimplifiedChinese => label + "不能为空"@,
    }
}

pub open spec fn non_negative_integer_message(language: GuiLanguage, label: Seq<char>) -> Seq<
    char,
> {
    match language {
        GuiLanguage::Korean => label + "은(는) 0 이상의 정수여야 합니다"@,
        GuiLanguage::English => label + " must be a non-negative integer"@,
        GuiLanguage::SimplifiedChinese => label + "必须是非负整数"@,
    }
}

pub open spec fn account_missing_message(language: GuiLanguage) -> Seq<char> {
    tr_spec(language, "로그인 계정을 입력하세요"@, "Enter the account name"@, "请输入账号"@)
}

pub open spec fn password_missing_message(language: GuiLanguage) -> Seq<char> {
    tr_spec(
        language,
        "로그인 비밀번호를 입력하세요"@,
        "Enter the account password"@,
        "请输入账号密码"@,
    )
}

pub open spec fn register_nickname_missing_message(language: GuiLanguage) -> Seq<char> {
    tr_spec(
        language,
        "등록 모드에서는 게임 닉네임을 입력하세요"@,
        "Enter a rider nickname to register an account"@,
        "注册模式请输入游戏昵称"@,
    )
}

pub open spec fn server_not_ipv4_message(language: GuiLanguage) -> Seq<char> {
    tr_spec(
        language,
        "서버 주소는 IPv4여야 합니다"@,
        "The server address must be IPv4"@,
        "服务器地址必须是 IPv4"@,
    )
}

pub open spec fn base_port_message(language: GuiLanguage) -> Seq<char> {
    tr_spec(
        language,
        "기준 포트는 0~65535 범위여야 합니다"@,
        "The base port must be in the range 0–65535"@,
        "基准端口必须在 0–65535 范围内"@,
    )
}

pub open spec fn sidecar_port_message(language: GuiLanguage) -> Seq<char> {
    tr_spec(
        language,
        "기준 포트가 너무 커서 Sidecar 포트를 만들 수 없습니다"@,
        "The base port is too large to derive the sidecar port"@,
        "基准端口过大，无法推导 Sidecar 端口"@,
    )
}

pub open spec fn game_directory_label(language: GuiLanguage) -> Seq<char> {
    tr_spec(language, "게임 디렉터리"@, "Game directory"@, "游戏目录"@)
}

pub open spec fn unspecified_server_message(language: GuiLanguage) -> Seq<char> {
    tr_spec(
        language,
        "서버 주소로 0.0.0.0을 사용할 수 없습니다"@,
        "0.0.0.0 cannot be used as the server address"@,
        "不能将 0.0.0.0 用作服务器地址"@,
    )
}

pub open spec fn conflicting_roles_message(language: GuiLanguage) -> Seq<char> {
    tr_spec(
        language,
        "옵저버 모드와 익명 리그 모드는 동시에 사용할 수 없습니다"@,
        "Observer mode and anonymous league mode cannot be enabled together"@,
        "观察者模式和匿名联赛模式不能同时启用"@,
    )
}

pub open spec fn wine_binary_label(language: GuiLanguage) -> Seq<char> {
    tr_spec(language, "Wine 실행 파일"@, "Wine executable"@, "Wine 可执行文件"@)
}

pub open spec fn crossover_binary_label(language: GuiLanguage) -> Seq<char> {
    tr_spec(language, "CrossOver 실행 파일"@, "CrossOver executable"@, "CrossOver 可执行文件"@)
}

pub open spec fn crossover_bottle_label(language: GuiLanguage) -> Seq<char> {
    tr_spec(language, "CrossOver 보틀"@, "CrossOver bottle"@, "CrossOver 容器"@)
}

pub open spec fn sikarugir_app_label(language: GuiLanguage) -> Seq<char> {
    tr_spec(language, "Sikarugir wrapper 앱"@, "Sikarugir wrapper app"@, "Sikarugir 包装器应用"@)
}

/// The label under which a runner is offered.
pub open spec fn runner_label(runner: GuiRunner, language: GuiLanguage) -> Seq<char> {
    match runner {
        GuiRunner::Auto => tr_spec(language, "자동"@, "Automatic"@, "自动"@),
        GuiRunner::Native => tr_spec(
            language,
            "직접 실행 (관리자 권한 없음)"@,
            "Direct launch (no administrator rights)"@,
            "直接启动（无管理员权限）"@,
        ),
        GuiRunner::NativeElevated => tr_spec(
            language,
            "직접 실행 (Windows UAC)"@,
            "Direct launch (Windows UAC)"@,
            "直接启动（Windows UAC）"@,
        ),
        GuiRunner::Wine => "Wine"@,
        GuiRunner::CrossOver => "CrossOver"@,
        GuiRunner::Sikarugir => "Sikarugir wrapper"@,
    }
}

/// The value that a decimal field holds once trimmed, if it fits below `max`.
pub open spec fn field_value(text: Seq<char>, max: int) -> Option<int> {
    match unsigned_decimal(trim_chars(text)) {
        Some(v) => if v <= max {
            Some(v)
        } else {
            None
        },
        None => None,
    }
}

// ---------------------------------------------------------------------------
// Field validation
// ---------------------------------------------------------------------------

fn concat_text(first: &str, second: &str) -> (res: String)
    ensures
        res@ == first@ + second@,
{
    first.to_owned().concat(second)
}

/// A field that must not be blank; the field is returned as typed.
pub fn required_text<'a>(value: &'a str, label: &str, language: GuiLanguage) -> (res: Result<
    &'a str,
    String,
>)
    ensures
        match res {
            Ok(text) => trim_chars(value@).len() > 0 && text@ == value@,
            Err(message) => trim_chars(value@).len() == 0 && message@ == empty_field_message(
                language,
                label@,
            ),
        },
{
    if trim(value).is_empty() {
        let message = match language {
            GuiLanguage::Korean => concat_text(label, "을(를) 비워 둘 수 없습니다"),
            GuiLanguage::English => concat_text(label, " cannot be empty"),
            GuiLanguage::SimplifiedChinese => concat_text(label, "不能为空"),
        };
        Err(message)
    } else {
        Ok(value)
    }
}

/// A path field that must not be blank.
pub fn required_path(value: &str, label: &str, language: GuiLanguage) -> (res: Result<
    String,
    String,
>)
    ensures
        match res {
            Ok(path) => trim_chars(value@).len() > 0 && path@ == value@,
            Err(message) => trim_chars(value@).len() == 0 && message@ == empty_field_message(
                language,
                label@,
            ),
        },
{
    match required_text(value, label, language) {
        Ok(text) => Ok(text.to_owned()),
        Err(message) => Err(message),
    }
}

/// A path field that may be left blank.
pub fn optional_path_ref(value: &str) -> (res: Option<&str>)
    ensures
        match res {
            Some(path) => trim_chars(value@).len() > 0 && path@ == value@,
            None => trim_chars(value@).len() == 0,
        },
{
    if trim(value).is_empty() {
        None
    } else {
        Some(value)
    }
}

/// A path field that may be left blank, as an owned path.
pub fn optional_path(value: &str) -> (res: Option<String>)
    ensures
        match res {
            Some(path) => trim_chars(value@).len() > 0 && path@ == value@,
            None => trim_chars(value@).len() == 0,
        },
{
    match optional_path_ref(value) {
        Some(path) => Some(path.to_owned()),
        None => None,
    }
}

fn non_negative_integer_error(label: &str, language: GuiLanguage) -> (res: String)
    ensures
        res@ == non_negative_integer_message(language, label@),
{
    match language {
        GuiLanguage::Korean => concat_text(label, "은(는) 0 이상의 정수여야 합니다"),
        GuiLanguage::English => concat_text(label, " must be a non-negative integer"),
        GuiLanguage::SimplifiedChinese => concat_text(label, "必须是非负整数"),
    }
}

/// A field that must hold a non-negative integer.
pub fn parse_u64(value: &str, label: &str, language: GuiLanguage) -> (res: Result<u64, String>)
    ensures
        match field_value(value@, u64::MAX as int) {
            Some(v) => res == Ok::<u64, String>(v as u64),
            None => res matches Err(message) && message@ == non_negative_integer_message(
                language,
                label@,
            ),
        },
{
    match parse_u64_text(trim(value)) {
        Some(v) => Ok(v),
        None => Err(non_negative_integer_error(label, language)),
    }
}

/// A field that must hold a non-negative integer of the machine's word size.
pub fn parse_usize(value: &str, label: &str, language: GuiLanguage) -> (res: Result<
    usize,
    String,
>)
    ensures
        match field_value(value@, usize::MAX as int) {
            Some(v) => res == Ok::<usize, String>(v as usize),
            None => res matches Err(message) && message@ == non_negative_integer_message(
                language,
                label@,
            ),
        },
{
    match parse_usize_text(trim(value)) {
        Some(v) => Ok(v),
        None => Err(non_negative_integer_error(label, language)),
    }
}

// ---------------------------------------------------------------------------
// Runners
// ---------------------------------------------------------------------------

impl GuiRunner {
    pub fn label(self, language: GuiLanguage) -> (res: &'static str)
        ensures
            res@ == runner_label(self, language),
    {
        match self {
            GuiRunner::Auto => tr(language, "자동", "Automatic", "自动"),
            GuiRunner::Native => tr(
                language,
                "직접 실행 (관리자 권한 없음)",
                "Direct launch (no administrator rights)",
                "直接启动（无管理员权限）",
            ),
            GuiRunner::NativeElevated => tr(
                language,
                "직접 실행 (Windows UAC)",
                "Direct launch (Windows UAC)",
                "直接启动（Windows UAC）",
            ),
            GuiRunner::Wine => "Wine",
            GuiRunner::CrossOver => "CrossOver",
            GuiRunner::Sikarugir => "Sikarugir wrapper",
        }
    }
}

impl GuiInputs {
    /// The runner that the form selects, with the paths it needs.  A
    /// required path or bottle that is blank is refused with its label.
    pub fn runner(&self, language: GuiLanguage) -> (res: Result<Runner, String>)
        ensures
            match self.runner {
                GuiRunner::Auto => res matches Ok(Runner::Auto),
                GuiRunner::Native => res matches Ok(Runner::Native),
                GuiRunner::NativeElevated => res matches Ok(Runner::NativeElevated),
                GuiRunner::Wine => if trim_chars(self.wine_binary@).len() == 0 {
                    res matches Err(m) && m@ == empty_field_message(
                        language,
                        wine_binary_label(language),
                    )
                } else {
                    res matches Ok(Runner::Wine { binary, prefix }) && binary@
                        == self.wine_binary@ && (match prefix {
                        Some(p) => trim_chars(self.wine_prefix@).len() > 0 && p@
                            == self.wine_prefix@,
                        None => trim_chars(self.wine_prefix@).len() == 0,
                    })
                },
                GuiRunner::CrossOver => if trim_chars(self.crossover_binary@).len() == 0 {
                    res matches Err(m) && m@ == empty_field_message(
                        language,
                        crossover_binary_label(language),
                    )
                } else if trim_chars(self.crossover_bottle@).len() == 0 {
                    res matches Err(m) && m@ == empty_field_message(
                        language,
                        crossover_bottle_label(language),
                    )
                } else {
                    res matches Ok(Runner::CrossOver { wine_binary, bottle }) && wine_binary@
                        == self.crossover_binary@ && bottle@ == self.crossover_bottle@
                },
                GuiRunner::Sikarugir => if trim_chars(self.sikarugir_app@).len() == 0 {
                    res matches Err(m) && m@ == empty_field_message(
                        language,
                        sikarugir_app_label(language),
                    )
                } else {
                    res matches Ok(Runner::Sikarugir { app }) && app@ == self.sikarugir_app@
                },
            },
    {
        match self.runner {
            GuiRunner::Auto => Ok(Runner::Auto),
            GuiRunner::Native => Ok(Runner::Native),
            GuiRunner::NativeElevated => Ok(Runner::NativeElevated),
            GuiRunner::Wine => {
                let binary = match required_path(
                    self.wine_binary.as_str(),
                    tr(language, "Wine 실행 파일", "Wine executable", "Wine 可执行文件"),
                    language,
                ) {
                    Ok(path) => path,
                    Err(message) => return Err(message),
                };
                Ok(Runner::Wine { binary, prefix: optional_path(self.wine_prefix.as_str()) })
            },
            GuiRunner::CrossOver => {
                let wine_binary = match required_path(
                    self.crossover_binary.as_str(),
                    tr(language, "CrossOver 실행 파일", "CrossOver executable", "CrossOver 可执行文件"),
                    language,
                ) {
                    Ok(path) => path,
                    Err(message) => return Err(message),
                };
                let bottle = match required_text(
                    self.crossover_bottle.as_str(),
                    tr(language, "CrossOver 보틀", "CrossOver bottle", "CrossOver 容器"),
                    language,
                ) {
                    Ok(text) => text.to_owned(),
                    Err(message) => return Err(message),
                };
                Ok(Runner::CrossOver { wine_binary, bottle })
            },
            GuiRunner::Sikarugir => {
                let app = match required_path(
                    self.sikarugir_app.as_str(),
                    tr(language, "Sikarugir wrapper 앱", "Sikarugir wrapper app", "Sikarugir 包装器应用"),
                    language,
                ) {
                    Ok(path) => path,
                    Err(message) => return Err(message),
                };
                Ok(Runner::Sikarugir { app })
            },
        }
    }

    /// The game location and server that the form names: the game directory
    /// must not be blank, the executable may be, and the server must be an
    /// IPv4 address other than `0.0.0.0` with a decimal base port.
    pub fn connector_target(&self, language: GuiLanguage) -> (res: Result<ConnectorTarget, String>)
        ensures
            ({
                let address = ipv4_octets(trim_chars(self.server@));
                let port = field_value(self.configured_port@, u16::MAX as int);
                if trim_chars(self.game_directory@).len() == 0 {
                    res matches Err(m) && m@ == empty_field_message(
                        language,
                        game_directory_label(language),
                    )
                } else if address is None {
                    res matches Err(m) && m@ == server_not_ipv4_message(language)
                } else if address->0 == seq![0u8, 0u8, 0u8, 0u8] {
                    res matches Err(m) && m@ == unspecified_server_message(language)
                } else if port is None {
                    res matches Err(m) && m@ == base_port_message(language)
                } else {
                    res matches Ok(target) && target.game_directory@ == self.game_directory@ && (
                    match target.game_executable {
                        Some(e) => trim_chars(self.game_executable@).len() > 0 && e@
                            == self.game_executable@,
                        None => trim_chars(self.game_executable@).len() == 0,
                    }) && target.server_address@ == address->0 && target.configured_port
                        == port->0
                }
            }),
    {
        let game_directory = match required_path(
            self.game_directory.as_str(),
            tr(language, "게임 디렉터리", "Game directory", "游戏目录"),
            language,
        ) {
            Ok(path) => path,
            Err(message) => return Err(message),
        };
        let game_executable = optional_path(self.game_executable.as_str());
        let server_address = match parse_ipv4(trim(self.server.as_str())) {
            Some(address) => address,
            None => {
                return Err(
                    tr_owned(
                        language,
                        "서버 주소는 IPv4여야 합니다",
                        "The server address must be IPv4",
                        "服务器地址必须是 IPv4",
                    ),
                );
            },
        };
        if server_address[0] == 0 && server_address[1] == 0 && server_address[2] == 0
            && server_address[3] == 0 {
            assert(server_address@ =~= seq![0u8, 0u8, 0u8, 0u8]);
            return Err(
                tr_owned(
                    language,
                    "서버 주소로 0.0.0.0을 사용할 수 없습니다",
                    "0.0.0.0 cannot be used as the server address",
                    "不能将 0.0.0.0 用作服务器地址",
                ),
            );
        }
        let configured_port = match parse_u16_text(trim(self.configured_port.as_str())) {
            Some(port) => port,
            None => {
                return Err(
                    tr_owned(
                        language,
                        "기준 포트는 0~65535 범위여야 합니다",
                        "The base port must be in the range 0–65535",
                        "基准端口必须在 0–65535 范围内",
                    ),
                );
            },
        };
        Ok(ConnectorTarget { game_directory, game_executable, server_address, configured_port })
    }

    /// The launcher profile role that the two role boxes select; both at
    /// once are refused.
    pub fn launcher_profile_role(&self, language: GuiLanguage) -> (res: Result<
        LauncherProfileRole,
        String,
    >)
        ensures
            match (self.observer_mode, self.anonymous_league_mode) {
                (false, false) => res matches Ok(LauncherProfileRole::Regular),
                (true, false) => res matches Ok(LauncherProfileRole::ObserverMaster),
                (false, true) => res matches Ok(LauncherProfileRole::AnonymousLeague),
                (true, true) => res matches Err(m) && m@ == conflicting_roles_message(language),
            },
    {
        match (self.observer_mode, self.anonymous_league_mode) {
            (false, false) => Ok(LauncherProfileRole::Regular),
            (true, false) => Ok(LauncherProfileRole::ObserverMaster),
            (false, true) => Ok(LauncherProfileRole::AnonymousLeague),
            (true, true) => Err(
                tr_owned(
                    language,
                    "옵저버 모드와 익명 리그 모드는 동시에 사용할 수 없습니다",
                    "Observer mode and anonymous league mode cannot be enabled together",
                    "观察者模式和匿名联赛模式不能同时启用",
                ),
            ),
        }
    }

    /// The optional launcher account exchange.
    ///
    /// When the account and password fields are both blank the connector
    /// skips the exchange.  Otherwise it must authenticate against the
    /// server's sidecar endpoint (base port + 3); registration additionally
    /// requires the rider nickname so the account can bind it.
    pub fn launcher_auth_request(&self, language: GuiLanguage) -> (res: Result<
        Option<LauncherAuthRequest>,
        String,
    >)
        ensures
            ({
                let account = trim_chars(self.login_account@);
                let password = trim_chars(self.login_password@);
                let nickname = trim_chars(self.nickname@);
                let address = ipv4_octets(trim_chars(self.server@));
                let port = field_value(self.configured_port@, u16::MAX as int);
                if account.len() == 0 && password.len() == 0 {
                    res matches Ok(None)
                } else if account.len() == 0 {
                    res matches Err(m) && m@ == account_missing_message(language)
                } else if password.len() == 0 {
                    res matches Err(m) && m@ == password_missing_message(language)
                } else if self.launcher_register_mode && nickname.len() == 0 {
                    res matches Err(m) && m@ == register_nickname_missing_message(language)
                } else if address is None {
                    res matches Err(m) && m@ == server_not_ipv4_message(language)
                } else if port is None {
                    res matches Err(m) && m@ == base_port_message(language)
                } else if port->0 + 3 > u16::MAX {
                    res matches Err(m) && m@ == sidecar_port_message(language)
                } else {
                    res matches Ok(Some(request)) && request.mode == (if self.launcher_register_mode {
                        LauncherAuthMode::Register
                    } else {
                        LauncherAuthMode::Login
                    }) && request.username@ == account && request.password@ == password
                        && request.nickname@ == (if self.launcher_register_mode {
                        nickname
                    } else {
                        Seq::<char>::empty()
                    }) && request.sidecar_address@ == address->0 && request.sidecar_port
                        == port->0 + 3
                }
            }),
    {
        let account = trim(self.login_account.as_str());
        let password = trim(self.login_password.as_str());
        if account.is_empty() && password.is_empty() {
            return Ok(None);
        }
        if account.is_empty() {
            return Err(
                tr_owned(language, "로그인 계정을 입력하세요", "Enter the account name", "请输入账号"),
            );
        }
        if password.is_empty() {
            return Err(
                tr_owned(
                    language,
                    "로그인 비밀번호를 입력하세요",
                    "Enter the account password",
                    "请输入账号密码",
                ),
            );
        }
        let nickname = if self.launcher_register_mode {
            let nickname = trim(self.nickname.as_str());
            if nickname.is_empty() {
                return Err(
                    tr_owned(
                        language,
                        "등록 모드에서는 게임 닉네임을 입력하세요",
                        "Enter a rider nickname to register an account",
                        "注册模式请输入游戏昵称",
                    ),
                );
            }
            nickname.to_owned()
        } else {
            String::new()
        };
        let server_address = match parse_ipv4(trim(self.server.as_str())) {
            Some(address) => address,
            None => {
                return Err(
                    tr_owned(
                        language,
                        "서버 주소는 IPv4여야 합니다",
                        "The server address must be IPv4",
                        "服务器地址必须是 IPv4",
                    ),
                );
            },
        };
        let configured_port = match parse_u16_text(trim(self.configured_port.as_str())) {
            Some(port) => port,
            None => {
                return Err(
                    tr_owned(
                        language,
                        "기준 포트는 0~65535 범위여야 합니다",
                        "The base port must be in the range 0–65535",
                        "基准端口必须在 0–65535 范围内",
                    ),
                );
            },
        };
        let sidecar_port = match configured_port.checked_add(3) {
            Some(port) => port,
            None => {
                return Err(
                    tr_owned(
                        language,
                        "기준 포트가 너무 커서 Sidecar 포트를 만들 수 없습니다",
                        "The base port is too large to derive the sidecar port",
                        "基准端口过大，无法推导 Sidecar 端口",
                    ),
                );
            },
        };
        Ok(
            Some(
                LauncherAuthRequest {
                    mode: if self.launcher_register_mode {
                        LauncherAuthMode::Register
                    } else {
                        LauncherAuthMode::Login
                    },
                    username: account.to_owned(),
                    password: password.to_owned(),
                    nickname,
                    sidecar_address: server_address,
                    sidecar_port,
                },
            ),
        )
    }
}

/// The runner that the command line selects.  Wine defaults to the `wine`
/// on the search path; CrossOver needs its binary and bottle, Sikarugir its
/// wrapper app.
pub fn build_runner(
    kind: RunnerKind,
    wine_binary: Option<String>,
    wine_prefix: Option<String>,
    crossover_binary: Option<String>,
    bottle: Option<String>,
    sikarugir_app: Option<String>,
) -> (res: Result<Runner, String>)
    ensures
        match kind {
            RunnerKind::Auto => res matches Ok(Runner::Auto),
            RunnerKind::Native => res matches Ok(Runner::Native),
            RunnerKind::NativeElevated => res matches Ok(Runner::NativeElevated),
            RunnerKind::Wine => res matches Ok(Runner::Wine { binary, prefix }) && binary@
                == (match wine_binary {
                Some(b) => b@,
                None => "wine"@,
            }) && prefix == wine_prefix,
            RunnerKind::Crossover => match (crossover_binary, bottle) {
                (Some(b), Some(name)) => res matches Ok(Runner::CrossOver { wine_binary, bottle }) && wine_binary == b && bottle == name,
                (None, _) => res matches Err(m) && m@
                    == "--crossover-binary is required for the CrossOver runner"@,
                (Some(_), None) => res matches Err(m) && m@
                    == "--bottle is required for the CrossOver runner"@,
            },
            RunnerKind::Sikarugir => match sikarugir_app {
                Some(a) => res matches Ok(Runner::Sikarugir { app }) && app == a,
                None => res matches Err(m) && m@
                    == "--sikarugir-app is required for the Sikarugir runner"@,
            },
        },
{
    match kind {
        RunnerKind::Auto => Ok(Runner::Auto),
        RunnerKind::Native => Ok(Runner::Native),
        RunnerKind::NativeElevated => Ok(Runner::NativeElevated),
        RunnerKind::Wine => Ok(
            Runner::Wine {
                binary: match wine_binary {
                    Some(binary) => binary,
                    None => "wine".to_owned(),
                },
                prefix: wine_prefix,
            },
        ),
        RunnerKind::Crossover => {
            let wine_binary = match crossover_binary {
                Some(binary) => binary,
                None => {
                    return Err("--crossover-binary is required for the CrossOver runner".to_owned());
                },
            };
            let bottle = match bottle {
                Some(bottle) => bottle,
                None => {
                    return Err("--bottle is required for the CrossOver runner".to_owned());
                },
            };
            Ok(Runner::CrossOver { wine_binary, bottle })
        },
        RunnerKind::Sikarugir => match sikarugir_app {
            Some(app) => Ok(Runner::Sikarugir { app }),
            None => Err("--sikarugir-app is required for the Sikarugir runner".to_owned()),
        },
    }
}

/// Refuses `0.0.0.0` as the server that the connector talks to.
pub fn reject_unspecified_server(address: [u8; 4]) -> (res: Result<(), String>)
    ensures
        match res {
            Ok(()) => address@ != seq![0u8, 0u8, 0u8, 0u8],
            Err(m) => address@ == seq![0u8, 0u8, 0u8, 0u8] && m@
                == "connector server address cannot be 0.0.0.0"@,
        },
{
    if address[0] == 0 && address[1] == 0 && address[2] == 0 && address[3] == 0 {
        assert(address@ =~= seq![0u8, 0u8, 0u8, 0u8]);
        Err("connector server address cannot be 0.0.0.0".to_owned())
    } else {
        Ok(())
    }
}

/// Classifies the first argument of an invocation into GUI versus CLI mode:
/// `(gui, launcher_only)`.
///
/// A bare invocation starts the full GUI.  The single `--launcher-only`
/// argument starts the dedicated login-tool GUI.  Any other first argument,
/// including one that is not Unicode (`Some(None)`), is a CLI command.
pub fn pick_gui_mode(first_argument: Option<Option<&str>>) -> (res: (bool, bool))
    ensures
        res == (match first_argument {
            None => (true, false),
            Some(Some(argument)) => if argument@ == "--launcher-only"@ {
                (true, true)
            } else {
                (false, false)
            },
            Some(None) => (false, false),
        }),
{
    match first_argument {
        None => (true, false),
        Some(Some(argument)) => if text_eq(argument, "--launcher-only") {
            (true, true)
        } else {
            (false, false)
        },
        Some(None) => (false, false),
    }
}

} // verus!
