//! The connector run as the launcher shows it: stages, and the states of
//! the connector run, the DLL attachment and the content import.
use vstd::prelude::*;

use crate::i18n::{tr, tr_spec, GuiLanguage};

verus! {

/// A step of the connector, reported before it starts.
#[derive(Debug, Clone, Copy, PartialEq, Eq, Structural)]
pub enum ConnectorStage {
    Authenticating,
    PreparingInstallation,
    CheckingDataRaw,
    ProbingMessenger,
    LaunchingGame,
}

/// The host mechanism that launched the game.
#[derive(Debug, Clone, Copy, PartialEq, Eq, Structural)]
pub enum RunnerBackend {
    Native,
    NativeElevated,
    Wine,
    CrossOver,
    Sikarugir,
}

/// A finished connector run.
#[derive(Debug, Clone, PartialEq, Eq)]
pub struct GuiSuccess {
    pub backend: RunnerBackend,
    pub pid: Option<u32>,
    pub status: String,
}

/// The connector run as the launcher tracks it.
#[derive(Debug, Clone, PartialEq, Eq)]
pub enum GuiRunState {
    Idle,
    Running(ConnectorStage),
    Succeeded(GuiSuccess),
    Failed(String),
}

/// What the connector worker reports.
pub enum ConnectorGuiEvent {
    Stage(ConnectorStage),
    Finished(Result<GuiSuccess, String>),
}

/// The state that an event leaves the run in.
pub open spec fn run_state_after(event: ConnectorGuiEvent) -> GuiRunState {
    match event {
        ConnectorGuiEvent::Stage(stage) => GuiRunState::Running(stage),
        ConnectorGuiEvent::Finished(Ok(success)) => GuiRunState::Succeeded(success),
        ConnectorGuiEvent::Finished(Err(error)) => GuiRunState::Failed(error),
    }
}

impl GuiRunState {
    pub fn is_running(&self) -> (res: bool)
        ensures
            res == (*self is Running),
    {
        match self {
            GuiRunState::Running(_) => true,
            _ => false,
        }
    }

    /// Starts a run unless one is already running; a second start is refused
    /// and leaves the state as it was.
    pub fn begin(&mut self) -> (res: bool)
        ensures
            res == !(*old(self) is Running),
            res ==> *final(self) == GuiRunState::Running(ConnectorStage::PreparingInstallation),
            !res ==> *final(self) == *old(self),
    {
        if self.is_running() {
            false
        } else {
            *self = GuiRunState::Running(ConnectorStage::PreparingInstallation);
            true
        }
    }

    /// Records what the worker reported: a stage keeps the run going, a
    /// result ends it.
    pub fn apply(&mut self, event: ConnectorGuiEvent)
        ensures
            *final(self) == run_state_after(event),
    {
        match event {
            ConnectorGuiEvent::Stage(stage) => *self = GuiRunState::Running(stage),
            ConnectorGuiEvent::Finished(Ok(success)) => *self = GuiRunState::Succeeded(success),
            ConnectorGuiEvent::Finished(Err(error)) => *self = GuiRunState::Failed(error),
        }
    }
}

/// The DLL attachment as the launcher tracks it.
#[derive(Debug, Clone, PartialEq, Eq)]
pub enum XunAttachState {
    Idle,
    Running,
    Succeeded(String),
    Failed(String),
}

impl XunAttachState {
    pub fn is_running(&self) -> (res: bool)
        ensures
            res == (*self is Running),
    {
        match self {
            XunAttachState::Running => true,
            _ => false,
        }
    }
}

/// The content import as the launcher tracks it.
#[derive(Debug, Clone, Copy, PartialEq, Eq, Structural)]
pub enum TrackImportState {
    Idle,
    Scanning,
    Importing,
}

impl TrackImportState {
    pub fn busy(self) -> (res: bool)
        ensures
            res == (self is Scanning || self is Importing),
    {
        match self {
            TrackImportState::Scanning => true,
            TrackImportState::Importing => true,
            TrackImportState::Idle => false,
        }
    }
}

/// Whether the diagnostic log file is written.
#[derive(Debug, Clone, Copy, PartialEq, Eq, Structural)]
pub enum GuiFileLogging {
    Disabled,
    Enabled,
}

impl Default for GuiFileLogging {
    fn default() -> (res: GuiFileLogging)
        ensures
            res == GuiFileLogging::Enabled,
    {
        GuiFileLogging::Enabled
    }
}

impl GuiFileLogging {
    pub fn enabled(self) -> (res: bool)
        ensures
            res == (self is Enabled),
    {
        match self {
            GuiFileLogging::Enabled => true,
            GuiFileLogging::Disabled => false,
        }
    }
}

/// The progress line of a stage.
pub open spec fn stage_text(stage: ConnectorStage, language: GuiLanguage) -> Seq<char> {
    match stage {
        ConnectorStage::Authenticating => tr_spec(
            language,
            "계정 인증(Sidecar)을 확인하는 중…"@,
            "Authenticating the account with the server…"@,
            "正在与服务器验证账号……"@,
        ),
        ConnectorStage::PreparingInstallation => tr_spec(
            language,
            "PIN과 XML 파일을 준비하는 중…"@,
            "Preparing PIN and XML files…"@,
            "正在准备 PIN 和 XML 文件……"@,
        ),
        ConnectorStage::CheckingDataRaw => tr_spec(
            language,
            "DataRaw 파일 목록을 서버와 확인하는 중…"@,
            "Checking the DataRaw file list with the server…"@,
            "正在与服务器核对 DataRaw 文件列表…"@,
        ),
        ConnectorStage::ProbingMessenger => tr_spec(
            language,
            "메신저 TCP 접속을 확인하는 중…"@,
            "Checking messenger TCP reachability…"@,
            "正在检查聊天服务器 TCP 连接……"@,
        ),
        ConnectorStage::LaunchingGame => tr_spec(
            language,
            "카트라이더를 실행하는 중…"@,
            "Launching KartRider…"@,
            "正在启动跑跑卡丁车……"@,
        ),
    }
}

pub fn stage_label(stage: ConnectorStage, language: GuiLanguage) -> (res: &'static str)
    ensures
        res@ == stage_text(stage, language),
{
    match stage {
        ConnectorStage::Authenticating => tr(
            language,
            "계정 인증(Sidecar)을 확인하는 중…",
            "Authenticating the account with the server…",
            "正在与服务器验证账号……",
        ),
        ConnectorStage::PreparingInstallation => tr(
            language,
            "PIN과 XML 파일을 준비하는 중…",
            "Preparing PIN and XML files…",
            "正在准备 PIN 和 XML 文件……",
        ),
        ConnectorStage::CheckingDataRaw => tr(
            language,
            "DataRaw 파일 목록을 서버와 확인하는 중…",
            "Checking the DataRaw file list with the server…",
            "正在与服务器核对 DataRaw 文件列表…",
        ),
        ConnectorStage::ProbingMessenger => tr(
            language,
            "메신저 TCP 접속을 확인하는 중…",
            "Checking messenger TCP reachability…",
            "正在检查聊天服务器 TCP 连接……",
        ),
        ConnectorStage::LaunchingGame => tr(
            language,
            "카트라이더를 실행하는 중…",
            "Launching KartRider…",
            "正在启动跑跑卡丁车……",
        ),
    }
}

} // verus!
