use biu_uploader::text::trim;
use biu_uploader::types::{
    chk_nonempty_str_or_none, DupeCheckError, DupeCheckResponseBody, MusicCategory,
    MusicQualityLevel, MusicType,
};

#[test]
fn category_wire_codes() {
    assert_eq!(MusicCategory::Anime.code(), 1);
    assert_eq!(MusicCategory::Game.code(), 2);
    assert_eq!(MusicCategory::Idol.code(), 3);
    assert_eq!(MusicCategory::Touhou.code(), 4);
    assert_eq!(MusicCategory::Vocaloid.code(), 5);
    assert_eq!(MusicCategory::Doujin.code(), 6);
}

#[test]
fn category_names() {
    assert_eq!(MusicCategory::Anime.to_string(), "动画");
    assert_eq!(MusicCategory::Game.to_string(), "游戏");
    assert_eq!(MusicCategory::Idol.to_string(), "偶像");
    assert_eq!(MusicCategory::Touhou.to_string(), "东方 Project");
    assert_eq!(MusicCategory::Vocaloid.to_string(), "VOCALOID");
    assert_eq!(MusicCategory::Doujin.to_string(), "同人（MAD 用曲和其它）");
}

#[test]
fn type_wire_codes() {
    assert_eq!(MusicType::Original.code(), 1);
    assert_eq!(MusicType::Instrumental.code(), 2);
    assert_eq!(MusicType::PureMusic.code(), 3);
    assert_eq!(MusicType::Feat.code(), 4);
    assert_eq!(MusicType::Others.code(), 5);
}

#[test]
fn type_names() {
    assert_eq!(MusicType::Original.to_string(), "原唱");
    assert_eq!(MusicType::Instrumental.to_string(), "伴奏");
    assert_eq!(MusicType::PureMusic.to_string(), "纯音乐");
    assert_eq!(MusicType::Feat.to_string(), "翻唱");
    assert_eq!(MusicType::Others.to_string(), "其它（Freetalk、广播剧等）");
}

#[test]
fn quality_level_codes_and_names() {
    assert_eq!(MusicQualityLevel::Lossless.code(), 1);
    assert_eq!(MusicQualityLevel::HighQualityAac.code(), 2);
    assert_eq!(MusicQualityLevel::HighQualityMp3.code(), 3);
    assert_eq!(MusicQualityLevel::LowQualityMp3.code(), 4);
    assert_eq!(MusicQualityLevel::Lossless.to_string(), "无损");
    assert_eq!(MusicQualityLevel::HighQualityAac.to_string(), "高音质 AAC");
    assert_eq!(MusicQualityLevel::HighQualityMp3.to_string(), "高音质 MP3");
    assert_eq!(MusicQualityLevel::LowQualityMp3.to_string(), "低音质 MP#");
}

#[test]
fn quality_level_from_code() {
    assert_eq!(MusicQualityLevel::from_code(1), Some(MusicQualityLevel::Lossless));
    assert_eq!(MusicQualityLevel::from_code(4), Some(MusicQualityLevel::LowQualityMp3));
    assert_eq!(MusicQualityLevel::from_code(0), None);
    assert_eq!(MusicQualityLevel::from_code(5), None);
}

#[test]
fn dupe_check_error_codes() {
    assert_eq!(DupeCheckError::BadSignature.code(), 1);
    assert_eq!(DupeCheckError::PotentialDupe.code(), 2);
    assert_eq!(DupeCheckError::QueueIsFull.code(), 3);
    assert_eq!(DupeCheckError::BadParameters.code(), 4);
    assert_eq!(DupeCheckError::Md5Dupe.code(), 5);
    assert_eq!(DupeCheckError::DatabaseError.code(), 6);
    assert_eq!(DupeCheckError::UploadDisabled.code(), 7);
    assert_eq!(DupeCheckError::CategoryError.code(), 8);
}

#[test]
fn dupe_check_error_from_code_round_trips() {
    for code in 1u8..=8 {
        assert_eq!(DupeCheckError::from_code(code).unwrap().code(), code);
    }
    assert_eq!(DupeCheckError::from_code(0), None);
    assert_eq!(DupeCheckError::from_code(9), None);
}

#[test]
fn only_potential_dupe_is_not_terminal() {
    for code in 1u8..=8 {
        let reason = DupeCheckError::from_code(code).unwrap();
        assert_eq!(reason.is_terminal(), reason != DupeCheckError::PotentialDupe);
    }
}

#[test]
fn dupe_check_error_messages() {
    assert_eq!(
        DupeCheckError::BadSignature.to_string(),
        "签名错误。请检查 UID 及 API token。"
    );
    assert_eq!(
        DupeCheckError::PotentialDupe.to_string(),
        "疑似撞车。请确认以下是否有撞车项。"
    );
    assert_eq!(
        DupeCheckError::QueueIsFull.to_string(),
        "待审队列超过 100 首。请删除未通过文件后重试。"
    );
    assert_eq!(
        DupeCheckError::BadParameters.to_string(),
        "参数不齐。歌曲名不能为空。"
    );
    assert_eq!(DupeCheckError::Md5Dupe.to_string(), "存在 MD5 重复的文件。");
    assert_eq!(DupeCheckError::DatabaseError.to_string(), "数据库错误。");
    assert_eq!(DupeCheckError::UploadDisabled.to_string(), "站点暂时关闭上传。");
    assert_eq!(DupeCheckError::CategoryError.to_string(), "分类/类型错误。");
}

#[test]
fn trim_removes_white_space_at_both_ends_only() {
    assert_eq!(trim(""), "");
    assert_eq!(trim("a"), "a");
    assert_eq!(trim("  a b  "), "a b");
    assert_eq!(trim("\t\r\n x \n"), "x");
    assert_eq!(trim("   "), "");
    assert_eq!(trim("\u{3000}曲 名\u{3000}"), "曲 名");
    assert_eq!(trim("\u{a0}x\u{2003}"), "x");
}

#[test]
fn trim_agrees_with_std() {
    for s in ["", " ", "a", " a", "a ", " a ", "\n\ta b\u{85}", "\u{200b}x\u{200b}", "  é  "] {
        assert_eq!(trim(s), s.trim());
    }
}

#[test]
fn tag_that_is_empty_or_blank_is_absent() {
    assert_eq!(chk_nonempty_str_or_none(String::new()), None);
    assert_eq!(chk_nonempty_str_or_none(String::from(" ")), None);
    assert_eq!(chk_nonempty_str_or_none(String::from(" \t\n ")), None);
    assert_eq!(chk_nonempty_str_or_none(String::from("\u{3000}")), None);
}

#[test]
fn tag_with_text_is_trimmed() {
    assert_eq!(
        chk_nonempty_str_or_none(String::from("Title")),
        Some(String::from("Title"))
    );
    assert_eq!(
        chk_nonempty_str_or_none(String::from("  Some Title \n")),
        Some(String::from("Some Title"))
    );
}

#[test]
fn response_is_well_formed_when_reason_goes_with_failure() {
    let ok = DupeCheckResponseBody { success: true, token: None, error_code: None, result: None };
    let refused = DupeCheckResponseBody {
        success: false,
        token: None,
        error_code: Some(DupeCheckError::Md5Dupe),
        result: None,
    };
    let no_reason =
        DupeCheckResponseBody { success: false, token: None, error_code: None, result: None };
    let both = DupeCheckResponseBody {
        success: true,
        token: None,
        error_code: Some(DupeCheckError::Md5Dupe),
        result: None,
    };
    assert!(ok.is_well_formed());
    assert!(refused.is_well_formed());
    assert!(!no_reason.is_well_formed());
    assert!(!both.is_well_formed());
}
