//! Display labels of the server and import settings that the launcher
//! offers.
use vstd::prelude::*;

use crate::i18n::{tr, tr_spec, GuiLanguage};

verus! {

/// A phase of a track import.
#[derive(Debug, Clone, Copy, PartialEq, Eq, Structural)]
pub enum TrackImportPhase {
    IndexSource,
    IndexTarget,
    ReadCatalog,
    SelectTracks,
    CollectResources,
    AnalyzeDependencies,
    WriteBundle,
    VerifyBundle,
    InstallDataRaw,
    Complete,
}

pub open spec fn track_import_phase_text(phase: TrackImportPhase, language: GuiLanguage) -> Seq<char> {
    match phase {
        TrackImportPhase::IndexSource => tr_spec(language, "소스 RHO/RHO5 인덱싱"@, "Indexing source RHO/RHO5"@, "正在索引源 RHO/RHO5"@),
        TrackImportPhase::IndexTarget => tr_spec(language, "P5136 RHO/RHO5 인덱싱"@, "Indexing P5136 RHO/RHO5"@, "正在索引 P5136 RHO/RHO5"@),
        TrackImportPhase::ReadCatalog => tr_spec(language, "트랙·테마 카탈로그 해석"@, "Reading track and theme catalogs"@, "正在读取赛道和主题目录"@),
        TrackImportPhase::SelectTracks => tr_spec(language, "가져오기 후보 판정"@, "Evaluating import candidates"@, "正在评估导入候选项"@),
        TrackImportPhase::CollectResources => tr_spec(language, "트랙·테마 리소스 수집"@, "Collecting track and theme resources"@, "正在收集赛道和主题资源"@),
        TrackImportPhase::AnalyzeDependencies => tr_spec(language, "재질·음원·참조 의존성 분석"@, "Analyzing materials, audio, and references"@, "正在分析材质、音频和引用依赖"@),
        TrackImportPhase::WriteBundle => tr_spec(language, "검증용 번들 생성"@, "Writing verification bundle"@, "正在生成验证资源包"@),
        TrackImportPhase::VerifyBundle => tr_spec(language, "번들 재검증"@, "Verifying bundle"@, "正在验证资源包"@),
        TrackImportPhase::InstallDataRaw => tr_spec(language, "DataRaw 설치 및 확인"@, "Installing and verifying DataRaw"@, "正在安装并验证 DataRaw"@),
        TrackImportPhase::Complete => tr_spec(language, "완료"@, "Complete"@, "完成"@),
    }
}

pub fn track_import_phase_label(phase: TrackImportPhase, language: GuiLanguage) -> (res: &'static str)
    ensures
        res@ == track_import_phase_text(phase, language),
{
    match phase {
        TrackImportPhase::IndexSource => tr(language, "소스 RHO/RHO5 인덱싱", "Indexing source RHO/RHO5", "正在索引源 RHO/RHO5"),
        TrackImportPhase::IndexTarget => tr(language, "P5136 RHO/RHO5 인덱싱", "Indexing P5136 RHO/RHO5", "正在索引 P5136 RHO/RHO5"),
        TrackImportPhase::ReadCatalog => tr(language, "트랙·테마 카탈로그 해석", "Reading track and theme catalogs", "正在读取赛道和主题目录"),
        TrackImportPhase::SelectTracks => tr(language, "가져오기 후보 판정", "Evaluating import candidates", "正在评估导入候选项"),
        TrackImportPhase::CollectResources => tr(language, "트랙·테마 리소스 수집", "Collecting track and theme resources", "正在收集赛道和主题资源"),
        TrackImportPhase::AnalyzeDependencies => tr(language, "재질·음원·참조 의존성 분석", "Analyzing materials, audio, and references", "正在分析材质、音频和引用依赖"),
        TrackImportPhase::WriteBundle => tr(language, "검증용 번들 생성", "Writing verification bundle", "正在生成验证资源包"),
        TrackImportPhase::VerifyBundle => tr(language, "번들 재검증", "Verifying bundle", "正在验证资源包"),
        TrackImportPhase::InstallDataRaw => tr(language, "DataRaw 설치 및 확인", "Installing and verifying DataRaw", "正在安装并验证 DataRaw"),
        TrackImportPhase::Complete => tr(language, "완료", "Complete", "完成"),
    }
}

/// A phase of an asset import.
#[derive(Debug, Clone, Copy, PartialEq, Eq, Structural)]
pub enum AssetImportPhase {
    IndexSource,
    Plan,
    Stage,
    InstallDataRaw,
    UpdateCatalogs,
    Complete,
}

pub open spec fn asset_import_phase_text(phase: AssetImportPhase, language: GuiLanguage) -> Seq<char> {
    match phase {
        AssetImportPhase::IndexSource => tr_spec(language, "외부 RHO/RHO5 인덱싱"@, "Indexing external RHO/RHO5"@, "正在索引外部 RHO/RHO5"@),
        AssetImportPhase::Plan => tr_spec(language, "호환성 및 의존성 분석"@, "Auditing compatibility and dependencies"@, "正在审计兼容性与依赖项"@),
        AssetImportPhase::Stage => tr_spec(language, "검증 번들 생성"@, "Building verified bundle"@, "正在生成验证资源包"@),
        AssetImportPhase::InstallDataRaw => tr_spec(language, "DataRaw 리소스 설치"@, "Installing DataRaw resources"@, "正在安装 DataRaw 资源"@),
        AssetImportPhase::UpdateCatalogs => tr_spec(language, "클라이언트·서버 카탈로그 갱신"@, "Updating client and server catalogs"@, "正在更新客户端与服务器目录"@),
        AssetImportPhase::Complete => tr_spec(language, "완료"@, "Complete"@, "完成"@),
    }
}

pub fn asset_import_phase_label(phase: AssetImportPhase, language: GuiLanguage) -> (res: &'static str)
    ensures
        res@ == asset_import_phase_text(phase, language),
{
    match phase {
        AssetImportPhase::IndexSource => tr(language, "외부 RHO/RHO5 인덱싱", "Indexing external RHO/RHO5", "正在索引外部 RHO/RHO5"),
        AssetImportPhase::Plan => tr(language, "호환성 및 의존성 분석", "Auditing compatibility and dependencies", "正在审计兼容性与依赖项"),
        AssetImportPhase::Stage => tr(language, "검증 번들 생성", "Building verified bundle", "正在生成验证资源包"),
        AssetImportPhase::InstallDataRaw => tr(language, "DataRaw 리소스 설치", "Installing DataRaw resources", "正在安装 DataRaw 资源"),
        AssetImportPhase::UpdateCatalogs => tr(language, "클라이언트·서버 카탈로그 갱신", "Updating client and server catalogs", "正在更新客户端与服务器目录"),
        AssetImportPhase::Complete => tr(language, "완료", "Complete", "完成"),
    }
}

/// A kind of importable asset.
#[derive(Debug, Clone, Copy, PartialEq, Eq, Structural)]
pub enum AssetCategory {
    Kart,
    Character,
    Pet,
    FlyingPet,
}

pub open spec fn asset_category_text(category: AssetCategory, language: GuiLanguage) -> Seq<char> {
    match category {
        AssetCategory::Kart => tr_spec(language, "카트"@, "Karts"@, "车辆"@),
        AssetCategory::Character => tr_spec(language, "캐릭터"@, "Characters"@, "角色"@),
        AssetCategory::Pet => tr_spec(language, "펫"@, "Pets"@, "宠物"@),
        AssetCategory::FlyingPet => tr_spec(language, "플라잉펫"@, "Flying pets"@, "飞行宠物"@),
    }
}

pub fn asset_category_label(category: AssetCategory, language: GuiLanguage) -> (res: &'static str)
    ensures
        res@ == asset_category_text(category, language),
{
    match category {
        AssetCategory::Kart => tr(language, "카트", "Karts", "车辆"),
        AssetCategory::Character => tr(language, "캐릭터", "Characters", "角色"),
        AssetCategory::Pet => tr(language, "펫", "Pets", "宠物"),
        AssetCategory::FlyingPet => tr(language, "플라잉펫", "Flying pets", "飞行宠物"),
    }
}

/// The time-attack physics that the server imposes.
#[derive(Debug, Clone, Copy, PartialEq, Eq, Structural)]
pub enum TimeAttackPhysicsPreset {
    ClientDefault,
    S0,
    S1,
    S2,
    S3,
    S4,
    S5,
    S6,
    S7,
    S8,
}

pub open spec fn time_attack_physics_preset_text(language: GuiLanguage, preset: TimeAttackPhysicsPreset) -> Seq<char> {
    match preset {
        TimeAttackPhysicsPreset::ClientDefault => tr_spec(language, "기본 설정 (클라이언트 선택)"@, "Default (client selection)"@, "默认设置（客户端选择）"@),
        TimeAttackPhysicsPreset::S0 => tr_spec(language, "S0 보통"@, "S0 Normal"@, "S0 普通"@),
        TimeAttackPhysicsPreset::S1 => tr_spec(language, "S1 빠름"@, "S1 Fast"@, "S1 快速"@),
        TimeAttackPhysicsPreset::S2 => tr_spec(language, "S2 매우 빠름"@, "S2 Very fast"@, "S2 非常快"@),
        TimeAttackPhysicsPreset::S3 => tr_spec(language, "S3 가장 빠름"@, "S3 Fastest"@, "S3 极速"@),
        TimeAttackPhysicsPreset::S4 => tr_spec(language, "S4 무한부스터"@, "S4 Infinite Booster"@, "S4 无限加速"@),
        TimeAttackPhysicsPreset::S5 => tr_spec(language, "S5 특수 프리셋"@, "S5 special preset"@, "S5 特殊预设"@),
        TimeAttackPhysicsPreset::S6 => tr_spec(language, "S6 이벤트 무한부스터"@, "S6 event Infinite Booster"@, "S6 活动无限加速"@),
        TimeAttackPhysicsPreset::S7 => tr_spec(language, "S7 통합"@, "S7 integrated"@, "S7 标准速度"@),
        TimeAttackPhysicsPreset::S8 => tr_spec(language, "S8 통합속도"@, "S8 integrated speed"@, "S8 标准速度"@),
    }
}

pub fn time_attack_physics_preset_label(language: GuiLanguage, preset: TimeAttackPhysicsPreset) -> (res: &'static str)
    ensures
        res@ == time_attack_physics_preset_text(language, preset),
{
    match preset {
        TimeAttackPhysicsPreset::ClientDefault => tr(language, "기본 설정 (클라이언트 선택)", "Default (client selection)", "默认设置（客户端选择）"),
        TimeAttackPhysicsPreset::S0 => tr(language, "S0 보통", "S0 Normal", "S0 普通"),
        TimeAttackPhysicsPreset::S1 => tr(language, "S1 빠름", "S1 Fast", "S1 快速"),
        TimeAttackPhysicsPreset::S2 => tr(language, "S2 매우 빠름", "S2 Very fast", "S2 非常快"),
        TimeAttackPhysicsPreset::S3 => tr(language, "S3 가장 빠름", "S3 Fastest", "S3 极速"),
        TimeAttackPhysicsPreset::S4 => tr(language, "S4 무한부스터", "S4 Infinite Booster", "S4 无限加速"),
        TimeAttackPhysicsPreset::S5 => tr(language, "S5 특수 프리셋", "S5 special preset", "S5 特殊预设"),
        TimeAttackPhysicsPreset::S6 => tr(language, "S6 이벤트 무한부스터", "S6 event Infinite Booster", "S6 活动无限加速"),
        TimeAttackPhysicsPreset::S7 => tr(language, "S7 통합", "S7 integrated", "S7 标准速度"),
        TimeAttackPhysicsPreset::S8 => tr(language, "S8 통합속도", "S8 integrated speed", "S8 标准速度"),
    }
}

/// The rider-school PRO mission pair that the server offers.
#[derive(Debug, Clone, Copy, PartialEq, Eq, Structural)]
pub enum RiderSchoolProMissionSet {
    Automatic,
    FairyMabinogi,
    ChinaSword,
    GoldAbyss,
    ForestOlympus,
    PirateNemo,
    MineMaple,
}

pub open spec fn rider_school_pro_mission_set_text(language: GuiLanguage, selection: RiderSchoolProMissionSet) -> Seq<char> {
    match selection {
        RiderSchoolProMissionSet::Automatic => tr_spec(language, "자동 (현재 2개월 주기)"@, "Automatic (current two-month rotation)"@, "自动（当前双月轮换）"@),
        RiderSchoolProMissionSet::FairyMabinogi => tr_spec(language, "동화 이상한 나라의 문 → 마비노기 이멘 마하"@, "Fairy Door to Wonderland → Mabinogi Emain Macha"@, "童话 奇境之门 → 洛奇 伊文玛哈"@),
        RiderSchoolProMissionSet::ChinaSword => tr_spec(language, "차이나 골목길 대질주 → 도검 구름의 협곡"@, "China Alley Rush → Sword Cloud Canyon"@, "中国 胡同疾驰 → 刀剑 云之峡谷"@),
        RiderSchoolProMissionSet::GoldAbyss => tr_spec(language, "황금문명 비밀장치의 위협 → 어비스 스카이라인"@, "Golden Civilization Secret Device → Abyss Skyline"@, "黄金文明 秘密装置的威胁 → 深渊 天际线"@),
        RiderSchoolProMissionSet::ForestOlympus => tr_spec(language, "포레스트 아찔한 다운힐 → 올림포스 하늘의 신전"@, "Forest Dizzying Downhill → Olympus Sky Temple"@, "森林 惊险下坡 → 奥林匹斯 天空神殿"@),
        RiderSchoolProMissionSet::PirateNemo => tr_spec(language, "해적 숨겨진 보물 → 네모 산타의 비밀공간"@, "Pirate Hidden Treasure → Cube Santa's Secret Space"@, "海盗 隐藏宝藏 → 方块 圣诞老人的秘密空间"@),
        RiderSchoolProMissionSet::MineMaple => tr_spec(language, "광산 위험한 제련소 → 메이플 레헬른 악몽의 시계탑"@, "Mine Dangerous Refinery → MapleStory Lachelein Clocktower"@, "矿山 危险冶炼厂 → 冒险岛 梦都噩梦钟楼"@),
    }
}

pub fn rider_school_pro_mission_set_label(language: GuiLanguage, selection: RiderSchoolProMissionSet) -> (res: &'static str)
    ensures
        res@ == rider_school_pro_mission_set_text(language, selection),
{
    match selection {
        RiderSchoolProMissionSet::Automatic => tr(language, "자동 (현재 2개월 주기)", "Automatic (current two-month rotation)", "自动（当前双月轮换）"),
        RiderSchoolProMissionSet::FairyMabinogi => tr(language, "동화 이상한 나라의 문 → 마비노기 이멘 마하", "Fairy Door to Wonderland → Mabinogi Emain Macha", "童话 奇境之门 → 洛奇 伊文玛哈"),
        RiderSchoolProMissionSet::ChinaSword => tr(language, "차이나 골목길 대질주 → 도검 구름의 협곡", "China Alley Rush → Sword Cloud Canyon", "中国 胡同疾驰 → 刀剑 云之峡谷"),
        RiderSchoolProMissionSet::GoldAbyss => tr(language, "황금문명 비밀장치의 위협 → 어비스 스카이라인", "Golden Civilization Secret Device → Abyss Skyline", "黄金文明 秘密装置的威胁 → 深渊 天际线"),
        RiderSchoolProMissionSet::ForestOlympus => tr(language, "포레스트 아찔한 다운힐 → 올림포스 하늘의 신전", "Forest Dizzying Downhill → Olympus Sky Temple", "森林 惊险下坡 → 奥林匹斯 天空神殿"),
        RiderSchoolProMissionSet::PirateNemo => tr(language, "해적 숨겨진 보물 → 네모 산타의 비밀공간", "Pirate Hidden Treasure → Cube Santa's Secret Space", "海盗 隐藏宝藏 → 方块 圣诞老人的秘密空间"),
        RiderSchoolProMissionSet::MineMaple => tr(language, "광산 위험한 제련소 → 메이플 레헬른 악몽의 시계탑", "Mine Dangerous Refinery → MapleStory Lachelein Clocktower", "矿山 危险冶炼厂 → 冒险岛 梦都噩梦钟楼"),
    }
}

/// The rank band whose item probabilities apply.
#[derive(Debug, Clone, Copy, PartialEq, Eq, Structural)]
pub enum ItemProbabilityRankBand {
    Live,
    Top,
    High,
    Middle,
    Low,
    Combined,
}

pub open spec fn rank_band_text(rank_band: ItemProbabilityRankBand, language: GuiLanguage) -> Seq<char> {
    match rank_band {
        ItemProbabilityRankBand::Live => tr_spec(language, "현재 순위 자동"@, "Automatic live rank"@, "自动使用当前排名"@),
        ItemProbabilityRankBand::Top => tr_spec(language, "1등"@, "1st"@, "第1名"@),
        ItemProbabilityRankBand::High => tr_spec(language, "상위"@, "High"@, "前列"@),
        ItemProbabilityRankBand::Middle => tr_spec(language, "중위"@, "Middle"@, "中游"@),
        ItemProbabilityRankBand::Low => tr_spec(language, "하위"@, "Low"@, "后列"@),
        ItemProbabilityRankBand::Combined => tr_spec(language, "통합"@, "Combined"@, "综合"@),
    }
}

pub fn rank_band_label(rank_band: ItemProbabilityRankBand, language: GuiLanguage) -> (res: &'static str)
    ensures
        res@ == rank_band_text(rank_band, language),
{
    match rank_band {
        ItemProbabilityRankBand::Live => tr(language, "현재 순위 자동", "Automatic live rank", "自动使用当前排名"),
        ItemProbabilityRankBand::Top => tr(language, "1등", "1st", "第1名"),
        ItemProbabilityRankBand::High => tr(language, "상위", "High", "前列"),
        ItemProbabilityRankBand::Middle => tr(language, "중위", "Middle", "中游"),
        ItemProbabilityRankBand::Low => tr(language, "하위", "Low", "后列"),
        ItemProbabilityRankBand::Combined => tr(language, "통합", "Combined", "综合"),
    }
}

} // verus!
