//! Display labels of values that the launcher shows: floater (kart
//! enhancement) codes, import candidate reasons and status lines.
use vstd::prelude::*;
use vstd::string::*;

use crate::i18n::{tr, tr_owned, tr_spec, GuiLanguage};
use crate::text::{
    ascii_lower, contains, contains_chars, decimal, i16_to_string, starts_with,
    starts_with_chars, text_eq, to_ascii_lowercase, trim_prefix_repeated, trim_start_matches,
};

verus! {

// ---------------------------------------------------------------------------
// Floater codes
// ---------------------------------------------------------------------------

/// The effect of a graded floater group (`code / 100` for codes below 10000).
pub open spec fn floater_effect(language: GuiLanguage, group: int) -> Option<Seq<char>> {
    if group == 0 {
        None
    } else if group == 1 {
        Some(tr_spec(language, "항력 감소"@, "Drag reduction"@, "阻力降低"@))
    } else if group == 2 {
        Some(tr_spec(language, "전진 가속"@, "Forward acceleration"@, "前进加速"@))
    } else if group == 3 {
        Some(tr_spec(language, "코너링"@, "Cornering"@, "弯道性能"@))
    } else if group == 4 {
        Some(tr_spec(language, "팀 부스터 지속"@, "Team-booster duration"@, "组队加速持续时间"@))
    } else if group == 5 {
        Some(tr_spec(language, "개인 부스터 지속"@, "Normal-booster duration"@, "普通加速持续时间"@))
    } else if group == 6 {
        Some(tr_spec(language, "출발 부스터 지속"@, "Start-booster duration"@, "起步加速持续时间"@))
    } else if group == 7 {
        Some(tr_spec(language, "변신 가속"@, "Transform acceleration"@, "变形加速"@))
    } else if group == 8 {
        Some(tr_spec(language, "드리프트 게이지"@, "Drift gauge"@, "漂移集气"@))
    } else if group == 9 {
        Some(tr_spec(language, "드리프트 탈출력"@, "Drift escape force"@, "漂移脱离力"@))
    } else {
        None
    }
}

/// The stock enchantment names of the codes from 10000 on (group * 100 + id),
/// in Korean, English and Chinese, with the level that the label shows.
pub open spec fn enchant_names(code: int) -> Option<(Seq<char>, Seq<char>, Seq<char>, Option<int>)> {
    if code == 10_103 {
        Some(("물폭탄 방어"@, "Water-bomb defense"@, "防御水炸弹"@, Some(3int)))
    } else if code == 10_203 {
        Some(("물파리 방어"@, "Water-fly defense"@, "防御水苍蝇"@, Some(3int)))
    } else if code == 10_303 {
        Some(("아이템 큐브 획득 시 루찌 획득"@, "Gain Lucci from an item cube"@, "获得道具箱时获得金币"@, Some(3int)))
    } else if code == 10_401 {
        Some(("대마왕 류 방어 (100%)"@, "Devil-family defense (100%)"@, "防御大魔王类道具（100%）"@, None))
    } else if code == 10_503 {
        Some(("실드 획득 시 슈퍼 실드로 변경"@, "Chance to convert an acquired shield to a super shield"@, "获得盾牌时一定概率变为超级盾牌"@, Some(3int)))
    } else if code == 10_603 {
        Some(("보스전 미사일 데미지 증가"@, "Increased rocket damage in Boss mode"@, "Boss 模式导弹伤害增加"@, Some(3int)))
    } else if code == 10_703 {
        Some(("우주선 전파를 실드로 획득"@, "Chance to gain a shield from a UFO signal"@, "一定概率将宇宙船电波变为盾牌"@, Some(3int)))
    } else if code == 10_803 {
        Some(("자석 사용 시 부스터 획득"@, "Chance to gain a booster after using a magnet"@, "使用磁铁时一定概率获得加速器"@, Some(3int)))
    } else if code == 10_901 {
        Some(("바나나를 밟았을 때 부스터 획득 (100%)"@, "Gain a booster after hitting a banana (100%)"@, "踩到香蕉时获得加速器（100%）"@, None))
    } else if code == 11_001 {
        Some(("물폭탄 대신 독성 물폭탄 사용"@, "Use a toxic water bomb instead of a water bomb"@, "用毒性水炸弹替代水炸弹"@, None))
    } else if code == 11_103 {
        Some(("미사일을 황금 미사일로 변경"@, "Chance to convert a rocket to a gold rocket"@, "一定概率将导弹变为黄金导弹"@, Some(3int)))
    } else if code == 11_201 {
        Some(("물폭탄 대신 얼음 물폭탄 사용"@, "Use an ice water bomb instead of a water bomb"@, "用冰冻水炸弹替代水炸弹"@, None))
    } else if code == 11_301 {
        Some(("바나나 방어 (100%)"@, "Banana defense (100%)"@, "防御香蕉（100%）"@, None))
    } else if code == 11_403 {
        Some(("부스터 획득 시 사이렌으로 변경"@, "Chance to convert an acquired booster to a siren"@, "获得加速器时一定概率变为警笛"@, Some(3int)))
    } else if code == 11_501 {
        Some(("바나나 대신 물지뢰 사용"@, "Use a water mine instead of a banana"@, "用水雷替代香蕉"@, None))
    } else if code == 11_601 {
        Some(("물폭탄·물파리에서 재빨리 탈출"@, "Quick escape from a water-bomb or water-fly hit"@, "被水炸弹或水苍蝇命中时快速脱离"@, None))
    } else if code == 11_701 {
        Some(("미사일 2발 동시 발사"@, "Fire two rockets simultaneously"@, "同时发射两枚导弹"@, None))
    } else if code == 11_803 {
        Some(("부스터 획득 시 슈퍼 실드로 변경"@, "Chance to convert an acquired booster to a super shield"@, "获得加速器时一定概率变为超级盾牌"@, Some(3int)))
    } else if code == 11_903 {
        Some(("배틀·챔피언스 모드 물파리 방어"@, "Water-fly defense in Battle/Champions mode"@, "战斗／冠军模式水苍蝇防御"@, Some(3int)))
    } else if code == 12_003 {
        Some(("배틀·챔피언스 모드 물폭탄 방어"@, "Water-bomb defense in Battle/Champions mode"@, "战斗／冠军模式水炸弹防御"@, Some(3int)))
    } else {
        None
    }
}

/// The label of a floater code.
pub open spec fn floater_label(language: GuiLanguage, code: int) -> Seq<char> {
    if code == 0 {
        tr_spec(language, "없음 (0)"@, "None (0)"@, "无（0）"@)
    } else if code < 10_000 {
        match floater_effect(language, if code > 0 { code / 100 } else { 0 }) {
            Some(effect) => match language {
                GuiLanguage::Korean => effect + " "@ + decimal(code % 100) + "단계 ("@ + decimal(code)
                    + ")"@,
                GuiLanguage::English => effect + " grade "@ + decimal(code % 100) + " ("@ + decimal(
                    code,
                ) + ")"@,
                GuiLanguage::SimplifiedChinese => effect + " "@ + decimal(code % 100) + "级（"@
                    + decimal(code) + "）"@,
            },
            None => decimal(code),
        }
    } else {
        match enchant_names(code) {
            Some((ko, en, zh, level)) => {
                let effect = tr_spec(language, ko, en, zh);
                let tail = match language {
                    GuiLanguage::SimplifiedChinese => "（"@ + decimal(code) + "）"@,
                    _ => " ("@ + decimal(code) + ")"@,
                };
                match level {
                    Some(l) => effect + " +"@ + decimal(l) + tail,
                    None => effect + tail,
                }
            },
            None => decimal(code),
        }
    }
}

fn floater_effect_text(language: GuiLanguage, group: i16) -> (res: Option<&'static str>)
    ensures
        match floater_effect(language, group as int) {
            Some(text) => res matches Some(r) && r@ == text,
            None => res is None,
        },
{
    match group {
        1 => Some(tr(language, "항력 감소", "Drag reduction", "阻力降低")),
        2 => Some(tr(language, "전진 가속", "Forward acceleration", "前进加速")),
        3 => Some(tr(language, "코너링", "Cornering", "弯道性能")),
        4 => Some(tr(language, "팀 부스터 지속", "Team-booster duration", "组队加速持续时间")),
        5 => Some(tr(language, "개인 부스터 지속", "Normal-booster duration", "普通加速持续时间")),
        6 => Some(tr(language, "출발 부스터 지속", "Start-booster duration", "起步加速持续时间")),
        7 => Some(tr(language, "변신 가속", "Transform acceleration", "变形加速")),
        8 => Some(tr(language, "드리프트 게이지", "Drift gauge", "漂移集气")),
        9 => Some(tr(language, "드리프트 탈출력", "Drift escape force", "漂移脱离力")),
        _ => None,
    }
}

fn enchant_entry(code: i16) -> (res: Option<(&'static str, &'static str, &'static str, Option<i16>)>)
    ensures
        match enchant_names(code as int) {
            Some((ko, en, zh, level)) => res matches Some((a, b, c, l)) && a@ == ko && b@ == en
                && c@ == zh && (match level {
                Some(v) => l == Some(v as i16),
                None => l is None,
            }),
            None => res is None,
        },
{
    match code {
        10_103 => Some(("물폭탄 방어", "Water-bomb defense", "防御水炸弹", Some(3i16))),
        10_203 => Some(("물파리 방어", "Water-fly defense", "防御水苍蝇", Some(3i16))),
        10_303 => Some(("아이템 큐브 획득 시 루찌 획득", "Gain Lucci from an item cube", "获得道具箱时获得金币", Some(3i16))),
        10_401 => Some(("대마왕 류 방어 (100%)", "Devil-family defense (100%)", "防御大魔王类道具（100%）", None)),
        10_503 => Some(("실드 획득 시 슈퍼 실드로 변경", "Chance to convert an acquired shield to a super shield", "获得盾牌时一定概率变为超级盾牌", Some(3i16))),
        10_603 => Some(("보스전 미사일 데미지 증가", "Increased rocket damage in Boss mode", "Boss 模式导弹伤害增加", Some(3i16))),
        10_703 => Some(("우주선 전파를 실드로 획득", "Chance to gain a shield from a UFO signal", "一定概率将宇宙船电波变为盾牌", Some(3i16))),
        10_803 => Some(("자석 사용 시 부스터 획득", "Chance to gain a booster after using a magnet", "使用磁铁时一定概率获得加速器", Some(3i16))),
        10_901 => Some(("바나나를 밟았을 때 부스터 획득 (100%)", "Gain a booster after hitting a banana (100%)", "踩到香蕉时获得加速器（100%）", None)),
        11_001 => Some(("물폭탄 대신 독성 물폭탄 사용", "Use a toxic water bomb instead of a water bomb", "用毒性水炸弹替代水炸弹", None)),
        11_103 => Some(("미사일을 황금 미사일로 변경", "Chance to convert a rocket to a gold rocket", "一定概率将导弹变为黄金导弹", Some(3i16))),
        11_201 => Some(("물폭탄 대신 얼음 물폭탄 사용", "Use an ice water bomb instead of a water bomb", "用冰冻水炸弹替代水炸弹", None)),
        11_301 => Some(("바나나 방어 (100%)", "Banana defense (100%)", "防御香蕉（100%）", None)),
        11_403 => Some(("부스터 획득 시 사이렌으로 변경", "Chance to convert an acquired booster to a siren", "获得加速器时一定概率变为警笛", Some(3i16))),
        11_501 => Some(("바나나 대신 물지뢰 사용", "Use a water mine instead of a banana", "用水雷替代香蕉", None)),
        11_601 => Some(("물폭탄·물파리에서 재빨리 탈출", "Quick escape from a water-bomb or water-fly hit", "被水炸弹或水苍蝇命中时快速脱离", None)),
        11_701 => Some(("미사일 2발 동시 발사", "Fire two rockets simultaneously", "同时发射两枚导弹", None)),
        11_803 => Some(("부스터 획득 시 슈퍼 실드로 변경", "Chance to convert an acquired booster to a super shield", "获得加速器时一定概率变为超级盾牌", Some(3i16))),
        11_903 => Some(("배틀·챔피언스 모드 물파리 방어", "Water-fly defense in Battle/Champions mode", "战斗／冠军模式水苍蝇防御", Some(3i16))),
        12_003 => Some(("배틀·챔피언스 모드 물폭탄 방어", "Water-bomb defense in Battle/Champions mode", "战斗／冠军模式水炸弹防御", Some(3i16))),
        _ => None,
    }
}

/// The label of a floater code: `0` is none, codes below 10000 are a graded
/// effect (`group * 100 + grade`), codes from 10000 on are the stock
/// enchantments, and any other code is shown as its number.
pub fn floater_code_label(language: GuiLanguage, code: i16) -> (res: String)
    ensures
        res@ == floater_label(language, code as int),
{
    if code == 0 {
        return tr_owned(language, "없음 (0)", "None (0)", "无（0）");
    }
    if code < 10_000 {
        let group: i16 = if code > 0 {
            code / 100
        } else {
            0
        };
        let effect = match floater_effect_text(language, group) {
            Some(effect) => effect,
            None => return i16_to_string(code),
        };
        let grade: i16 = code % 100;
        let grade_text = i16_to_string(grade);
        let code_text = i16_to_string(code);
        return match language {
            GuiLanguage::Korean => effect.to_owned().concat(" ").concat(grade_text.as_str()).concat(
                "단계 (",
            ).concat(code_text.as_str()).concat(")"),
            GuiLanguage::English => effect.to_owned().concat(" grade ").concat(
                grade_text.as_str(),
            ).concat(" (").concat(code_text.as_str()).concat(")"),
            GuiLanguage::SimplifiedChinese => effect.to_owned().concat(" ").concat(
                grade_text.as_str(),
            ).concat("级（").concat(code_text.as_str()).concat("）"),
        };
    }
    let (ko, en, zh, level) = match enchant_entry(code) {
        Some(entry) => entry,
        None => return i16_to_string(code),
    };
    let effect = tr(language, ko, en, zh);
    let code_text = i16_to_string(code);
    let tail = match language {
        GuiLanguage::SimplifiedChinese => "（".to_owned().concat(code_text.as_str()).concat("）"),
        _ => " (".to_owned().concat(code_text.as_str()).concat(")"),
    };
    match level {
        Some(level) => {
            let level_text = i16_to_string(level);
            effect.to_owned().concat(" +").concat(level_text.as_str()).concat(tail.as_str())
        },
        None => effect.to_owned().concat(tail.as_str()),
    }
}

/// A graded floater label starts with its effect.
proof fn lemma_graded_label_starts_with_effect(language: GuiLanguage, code: int)
    requires
        100 <= code < 10_000,
        floater_effect(language, code / 100) is Some,
    ensures
        starts_with_chars(floater_label(language, code), floater_effect(language, code / 100)->0),
{
    let effect = floater_effect(language, code / 100)->0;
    let label = floater_label(language, code);
    match language {
        GuiLanguage::Korean => {
            let rest = " "@ + decimal(code % 100) + "단계 ("@ + decimal(code) + ")"@;
            assert(label =~= effect + rest);
        },
        GuiLanguage::English => {
            let rest = " grade "@ + decimal(code % 100) + " ("@ + decimal(code) + ")"@;
            assert(label =~= effect + rest);
        },
        GuiLanguage::SimplifiedChinese => {
            let rest = " "@ + decimal(code % 100) + "级（"@ + decimal(code) + "）"@;
            assert(label =~= effect + rest);
        },
    }
    assert(label.take(effect.len() as int) =~= effect);
}

/// Every graded floater code from 100 to 9999 is labelled first by the
/// effect of its group `code / 100`: 1 drag reduction, 2 forward
/// acceleration, 3 cornering, 4 team-booster duration, 5 normal-booster
/// duration, 6 start-booster duration, 7 transform acceleration, 8 drift
/// gauge, 9 drift escape force, each in the label's language.
pub proof fn lemma_graded_floater_effects(language: GuiLanguage, code: int)
    requires
        100 <= code < 10_000,
    ensures
        code / 100 == 1 ==> starts_with_chars(
            floater_label(language, code),
            tr_spec(language, "항력 감소"@, "Drag reduction"@, "阻力降低"@),
        ),
        code / 100 == 2 ==> starts_with_chars(
            floater_label(language, code),
            tr_spec(language, "전진 가속"@, "Forward acceleration"@, "前进加速"@),
        ),
        code / 100 == 3 ==> starts_with_chars(
            floater_label(language, code),
            tr_spec(language, "코너링"@, "Cornering"@, "弯道性能"@),
        ),
        code / 100 == 4 ==> starts_with_chars(
            floater_label(language, code),
            tr_spec(language, "팀 부스터 지속"@, "Team-booster duration"@, "组队加速持续时间"@),
        ),
        code / 100 == 5 ==> starts_with_chars(
            floater_label(language, code),
            tr_spec(language, "개인 부스터 지속"@, "Normal-booster duration"@, "普通加速持续时间"@),
        ),
        code / 100 == 6 ==> starts_with_chars(
            floater_label(language, code),
            tr_spec(language, "출발 부스터 지속"@, "Start-booster duration"@, "起步加速持续时间"@),
        ),
        code / 100 == 7 ==> starts_with_chars(
            floater_label(language, code),
            tr_spec(language, "변신 가속"@, "Transform acceleration"@, "变形加速"@),
        ),
        code / 100 == 8 ==> starts_with_chars(
            floater_label(language, code),
            tr_spec(language, "드리프트 게이지"@, "Drift gauge"@, "漂移集气"@),
        ),
        code / 100 == 9 ==> starts_with_chars(
            floater_label(language, code),
            tr_spec(language, "드리프트 탈출력"@, "Drift escape force"@, "漂移脱离力"@),
        ),
{
    if code / 100 <= 9 {
        lemma_graded_label_starts_with_effect(language, code);
    }
}

// ---------------------------------------------------------------------------
// Import candidates
// ---------------------------------------------------------------------------

/// The shown text of a track import candidate's reason: the known reasons
/// in the chosen language, an unsupported game type with its type, and any
/// other reason as it is.
pub open spec fn track_reason_text(reason: Seq<char>, language: GuiLanguage) -> Seq<char> {
    if reason == "already installed in the selected P5136 DataRaw tree"@ {
        tr_spec(
            language,
            "선택한 P5136 DataRaw에 이미 설치됨"@,
            "Already installed in the selected P5136 DataRaw tree"@,
            "已安装到所选 P5136 DataRaw"@,
        )
    } else if reason == "missing source locale row"@ {
        tr_spec(language, "소스 로케일 행이 없음"@, "Missing source locale row"@, "缺少源区域文本行"@)
    } else if reason == "source locale marks the track blocked or unchoosable"@ {
        tr_spec(
            language,
            "소스에서 차단되었거나 선택 불가인 트랙"@,
            "Blocked or unchoosable in the source client"@,
            "在源客户端中被屏蔽或不可选择"@,
        )
    } else if reason == "source track folder has no effective files"@ {
        tr_spec(
            language,
            "소스 트랙 폴더에 유효 파일이 없음"@,
            "Source track folder has no effective files"@,
            "源赛道目录中没有有效文件"@,
        )
    } else if starts_with_chars(reason, "unsupported gameType"@) {
        tr_spec(language, "지원하지 않는 게임 형식: "@, "Unsupported game type: "@, "不支持的游戏类型："@)
            + trim_prefix_repeated(reason, "unsupported gameType "@)
    } else {
        reason
    }
}

/// Shows a track import candidate's reason in the launcher's language.
pub fn localized_track_candidate_reason(reason: &str, language: GuiLanguage) -> (res: String)
    ensures
        res@ == track_reason_text(reason@, language),
{
    if text_eq(reason, "already installed in the selected P5136 DataRaw tree") {
        tr_owned(
            language,
            "선택한 P5136 DataRaw에 이미 설치됨",
            "Already installed in the selected P5136 DataRaw tree",
            "已安装到所选 P5136 DataRaw",
        )
    } else if text_eq(reason, "missing source locale row") {
        tr_owned(language, "소스 로케일 행이 없음", "Missing source locale row", "缺少源区域文本行")
    } else if text_eq(reason, "source locale marks the track blocked or unchoosable") {
        tr_owned(
            language,
            "소스에서 차단되었거나 선택 불가인 트랙",
            "Blocked or unchoosable in the source client",
            "在源客户端中被屏蔽或不可选择",
        )
    } else if text_eq(reason, "source track folder has no effective files") {
        tr_owned(
            language,
            "소스 트랙 폴더에 유효 파일이 없음",
            "Source track folder has no effective files",
            "源赛道目录中没有有效文件",
        )
    } else if starts_with(reason, "unsupported gameType") {
        proof {
            reveal_strlit("unsupported gameType ");
        }
        let game_type = trim_start_matches(reason, "unsupported gameType ");
        tr(language, "지원하지 않는 게임 형식: ", "Unsupported game type: ", "不支持的游戏类型：")
            .to_owned().concat(game_type)
    } else {
        reason.to_owned()
    }
}

/// The shown text of an asset import candidate's reason.
pub open spec fn asset_reason_text(reason: Seq<char>, language: GuiLanguage) -> Seq<char> {
    if reason == "requires item-result rules that do not exist in P5136"@ {
        tr_spec(
            language,
            "P5136에 없는 신규 아이템 결과 규칙이 필요함"@,
            "Requires new item-result rules unavailable in P5136"@,
            "需要 P5136 中不存在的新道具结果规则"@,
        )
    } else if reason
        == "experimental XUN sidecar candidate; extended driving systems remain incomplete"@ {
        tr_spec(
            language,
            "XUN 사이드카 실험 후보 · 확장 주행 기능은 아직 미완성"@,
            "Experimental XUN sidecar candidate; extended driving systems remain incomplete"@,
            "XUN 边车实验候选；扩展驾驶系统尚未完成"@,
        )
    } else {
        reason
    }
}

/// Shows an asset import candidate's reason in the launcher's language.
pub fn localized_asset_candidate_reason(reason: &str, language: GuiLanguage) -> (res: String)
    ensures
        res@ == asset_reason_text(reason@, language),
{
    if text_eq(reason, "requires item-result rules that do not exist in P5136") {
        tr_owned(
            language,
            "P5136에 없는 신규 아이템 결과 규칙이 필요함",
            "Requires new item-result rules unavailable in P5136",
            "需要 P5136 中不存在的新道具结果规则",
        )
    } else if text_eq(
        reason,
        "experimental XUN sidecar candidate; extended driving systems remain incomplete",
    ) {
        tr_owned(
            language,
            "XUN 사이드카 실험 후보 · 확장 주행 기능은 아직 미완성",
            "Experimental XUN sidecar candidate; extended driving systems remain incomplete",
            "XUN 边车实验候选；扩展驾驶系统尚未完成",
        )
    } else {
        reason.to_owned()
    }
}

// ---------------------------------------------------------------------------
// Status lines
// ---------------------------------------------------------------------------

/// A status line reports a failure, in any of the three languages.
pub open spec fn reports_failure(status: Seq<char>) -> bool {
    ||| contains_chars(status, "실패"@)
    ||| contains_chars(status, "Failed"@)
    ||| contains_chars(status, "失败"@)
}

/// A status line reports an outcome that could not be confirmed.
pub open spec fn reports_uncertainty(status: Seq<char>) -> bool {
    ||| contains_chars(status, "확인하지 못했습니다"@)
    ||| contains_chars(status, "could not be confirmed"@)
    ||| contains_chars(status, "无法确认"@)
}

pub fn status_is_error(status: &str) -> (res: bool)
    ensures
        res == reports_failure(status@),
{
    contains(status, "실패") || contains(status, "Failed") || contains(status, "失败")
}

pub fn status_is_uncertain(status: &str) -> (res: bool)
    ensures
        res == reports_uncertainty(status@),
{
    contains(status, "확인하지 못했습니다") || contains(status, "could not be confirmed")
        || contains(status, "无法确认")
}

// ---------------------------------------------------------------------------
// Network adapters
// ---------------------------------------------------------------------------

/// How well an IPv4 address suits a LAN server, lower first: 192.168/16,
/// then 10/8, then 172.16/12, then any other address, and carrier-grade NAT
/// (100.64/10) last.
pub open spec fn lan_rank(octets: Seq<u8>) -> u8 {
    if octets[0] == 192 && octets[1] == 168 {
        0
    } else if octets[0] == 10 {
        1
    } else if octets[0] == 172 && 16 <= octets[1] <= 31 {
        2
    } else if octets[0] == 100 && 64 <= octets[1] <= 127 {
        4
    } else {
        3
    }
}

pub fn lan_address_rank(address: [u8; 4]) -> (res: u8)
    ensures
        res == lan_rank(address@),
{
    if address[0] == 192 && address[1] == 168 {
        0
    } else if address[0] == 10 {
        1
    } else if address[0] == 172 && address[1] >= 16 && address[1] <= 31 {
        2
    } else if address[0] == 100 && address[1] >= 64 && address[1] <= 127 {
        4
    } else {
        3
    }
}

/// An adapter name marks a virtual, VPN or tunnel adapter (case-insensitive).
pub open spec fn is_virtual_adapter(name: Seq<char>) -> bool {
    let lower = name.map_values(|c: char| ascii_lower(c));
    ||| contains_chars(lower, "virtual"@)
    ||| contains_chars(lower, "vethernet"@)
    ||| contains_chars(lower, "vmware"@)
    ||| contains_chars(lower, "virtualbox"@)
    ||| contains_chars(lower, "wsl"@)
    ||| contains_chars(lower, "vpn"@)
    ||| contains_chars(lower, "tailscale"@)
    ||| contains_chars(lower, "radmin"@)
    ||| contains_chars(lower, "hyper-v"@)
}

/// 1 for a virtual adapter, 0 for a physical one, so physical adapters sort first.
pub fn virtual_adapter_rank(name: &str) -> (res: u8)
    ensures
        res == (if is_virtual_adapter(name@) {
            1u8
        } else {
            0u8
        }),
{
    let lower = to_ascii_lowercase(name);
    let name = lower.as_str();
    if contains(name, "virtual") || contains(name, "vethernet") || contains(name, "vmware")
        || contains(name, "virtualbox") || contains(name, "wsl") || contains(name, "vpn")
        || contains(name, "tailscale") || contains(name, "radmin") || contains(name, "hyper-v") {
        1
    } else {
        0
    }
}

} // verus!
