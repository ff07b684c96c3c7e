use p5136::content_labels::{
    asset_category_label, asset_import_phase_label, rank_band_label,
    rider_school_pro_mission_set_label, time_attack_physics_preset_label,
    track_import_phase_label, AssetCategory, AssetImportPhase, ItemProbabilityRankBand,
    RiderSchoolProMissionSet, TimeAttackPhysicsPreset, TrackImportPhase,
};
use p5136::i18n::{tr, GuiLanguage};
use p5136::labels::{
    floater_code_label, lan_address_rank, localized_asset_candidate_reason,
    localized_track_candidate_reason, status_is_error, status_is_uncertain, virtual_adapter_rank,
};
use p5136::text::parse_ipv4;

#[test]
fn lan_candidates_prefer_home_subnets_and_physical_adapters() {
    assert!(lan_address_rank([192, 168, 1, 10]) < lan_address_rank([10, 0, 0, 10]));
    assert!(lan_address_rank([10, 0, 0, 10]) < lan_address_rank([172, 16, 0, 10]));
    assert_eq!(virtual_adapter_rank("Intel Ethernet"), 0);
    assert_eq!(virtual_adapter_rank("vEthernet (Default Switch)"), 1);
    assert_eq!(virtual_adapter_rank("VMware Network Adapter VMnet8"), 1);
    assert_eq!(virtual_adapter_rank("vEthernet (WSL)"), 1);
    assert_eq!(virtual_adapter_rank("Tailscale"), 1);
}

#[test]
fn lan_rank_orders_every_kind_of_address() {
    assert_eq!(lan_address_rank([192, 168, 0, 1]), 0);
    assert_eq!(lan_address_rank([10, 1, 2, 3]), 1);
    assert_eq!(lan_address_rank([172, 31, 0, 1]), 2);
    assert_eq!(lan_address_rank([172, 32, 0, 1]), 3);
    assert_eq!(lan_address_rank([8, 8, 8, 8]), 3);
    assert_eq!(lan_address_rank([100, 64, 0, 1]), 4);
    assert_eq!(lan_address_rank([100, 128, 0, 1]), 3);
    assert_eq!(virtual_adapter_rank("HYPER-V Switch"), 1);
    assert_eq!(virtual_adapter_rank("Radmin VPN"), 1);
    assert_eq!(virtual_adapter_rank("Wi-Fi"), 0);
}

#[test]
fn ipv4_text_follows_the_standard_grammar() {
    assert_eq!(parse_ipv4("192.168.1.10"), Some([192, 168, 1, 10]));
    assert_eq!(parse_ipv4("0.0.0.0"), Some([0, 0, 0, 0]));
    assert_eq!(parse_ipv4("255.255.255.255"), Some([255, 255, 255, 255]));
    assert_eq!(parse_ipv4("256.1.1.1"), None);
    assert_eq!(parse_ipv4("01.2.3.4"), None);
    assert_eq!(parse_ipv4("1.2.3"), None);
    assert_eq!(parse_ipv4("1.2.3.4.5"), None);
    assert_eq!(parse_ipv4("1..3.4"), None);
    assert_eq!(parse_ipv4("1.2.3.4 "), None);
    assert_eq!(parse_ipv4("1.2.3.1000"), None);
    assert_eq!(parse_ipv4("server.lan"), None);
    assert_eq!(parse_ipv4(""), None);
    assert_eq!(parse_ipv4("00.1.1.1"), None);
    assert_eq!(parse_ipv4("1.2.3.-4"), None);
    assert_eq!(parse_ipv4("1.2.3.4."), None);
    assert_eq!(parse_ipv4("+1.2.3.4"), None);
}

#[test]
fn floater_codes_are_labelled() {
    assert_eq!(floater_code_label(GuiLanguage::Korean, 0), "없음 (0)");
    assert_eq!(floater_code_label(GuiLanguage::English, 0), "None (0)");
    assert_eq!(floater_code_label(GuiLanguage::Korean, 101), "항력 감소 1단계 (101)");
    assert_eq!(floater_code_label(GuiLanguage::English, 912), "Drift escape force grade 12 (912)");
    assert_eq!(floater_code_label(GuiLanguage::SimplifiedChinese, 305), "弯道性能 5级（305）");
    assert_eq!(floater_code_label(GuiLanguage::English, 10_103), "Water-bomb defense +3 (10103)");
    assert_eq!(floater_code_label(GuiLanguage::SimplifiedChinese, 10_103), "防御水炸弹 +3（10103）");
    assert_eq!(
        floater_code_label(GuiLanguage::English, 10_401),
        "Devil-family defense (100%) (10401)"
    );
    assert_eq!(floater_code_label(GuiLanguage::Korean, 11_701), "미사일 2발 동시 발사 (11701)");
    // codes without a name are shown as their number
    assert_eq!(floater_code_label(GuiLanguage::English, 99), "99");
    assert_eq!(floater_code_label(GuiLanguage::English, 1_000), "1000");
    assert_eq!(floater_code_label(GuiLanguage::English, 10_104), "10104");
    assert_eq!(floater_code_label(GuiLanguage::English, -5), "-5");
    assert_eq!(floater_code_label(GuiLanguage::English, -250), "-250");
}

#[test]
fn candidate_reasons_are_translated() {
    assert_eq!(
        localized_track_candidate_reason("missing source locale row", GuiLanguage::English),
        "Missing source locale row"
    );
    assert_eq!(
        localized_track_candidate_reason("unsupported gameType 7", GuiLanguage::Korean),
        "지원하지 않는 게임 형식: 7"
    );
    assert_eq!(
        localized_track_candidate_reason("something else", GuiLanguage::Korean),
        "something else"
    );
    assert_eq!(
        localized_asset_candidate_reason(
            "requires item-result rules that do not exist in P5136",
            GuiLanguage::SimplifiedChinese
        ),
        "需要 P5136 中不存在的新道具结果规则"
    );
    assert_eq!(localized_asset_candidate_reason("other", GuiLanguage::English), "other");
}

#[test]
fn status_lines_are_classified() {
    assert!(status_is_error("Connector execution Failed"));
    assert!(status_is_error("접속기 실행에 실패했습니다"));
    assert!(!status_is_error("running"));
    assert!(status_is_uncertain("the exit could not be confirmed"));
    assert!(!status_is_uncertain("done"));
}

#[test]
fn settings_labels() {
    assert_eq!(track_import_phase_label(TrackImportPhase::Complete, GuiLanguage::English), "Complete");
    assert_eq!(asset_import_phase_label(AssetImportPhase::Plan, GuiLanguage::Korean), "호환성 및 의존성 분석");
    assert_eq!(asset_category_label(AssetCategory::FlyingPet, GuiLanguage::SimplifiedChinese), "飞行宠物");
    assert_eq!(time_attack_physics_preset_label(GuiLanguage::English, TimeAttackPhysicsPreset::S4), "S4 Infinite Booster");
    assert_eq!(
        rider_school_pro_mission_set_label(GuiLanguage::English, RiderSchoolProMissionSet::Automatic),
        "Automatic (current two-month rotation)"
    );
    assert_eq!(rank_band_label(ItemProbabilityRankBand::Combined, GuiLanguage::English), "Combined");
}

#[test]
fn translations_are_picked_by_language() {
    assert_eq!(tr(GuiLanguage::Korean, "가", "a", "甲"), "가");
    assert_eq!(tr(GuiLanguage::English, "가", "a", "甲"), "a");
    assert_eq!(tr(GuiLanguage::SimplifiedChinese, "가", "a", "甲"), "甲");
    assert_eq!(GuiLanguage::default(), GuiLanguage::Korean);
}
