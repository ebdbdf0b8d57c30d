use biu_uploader::types::{DupeItem, MusicQualityLevel};
use biu_uploader::util::{display_dupes, dupe_rows, TableRow};

fn item(sid: &str, title: &str, level: MusicQualityLevel, score: &str) -> DupeItem {
    DupeItem {
        sid: String::from(sid),
        title: String::from(title),
        singer: String::from("Singer"),
        album: String::from("Album"),
        level,
        score: String::from(score),
    }
}

fn row(cells: [&str; 6]) -> TableRow {
    TableRow { cells: cells.iter().map(|c| String::from(*c)).collect(), has_separator: true }
}

#[test]
fn rows_begin_with_headings() {
    assert_eq!(
        dupe_rows(&Vec::new()),
        vec![row(["曲名", "歌手", "专辑", "音质", "撞车评分", "聆听"])]
    );
}

#[test]
fn rows_hold_one_row_per_candidate_in_order() {
    let items = vec![
        item("101", "First", MusicQualityLevel::Lossless, "0.93"),
        item("7", "Second", MusicQualityLevel::LowQualityMp3, "0.5"),
    ];
    assert_eq!(
        dupe_rows(&items),
        vec![
            row(["曲名", "歌手", "专辑", "音质", "撞车评分", "聆听"]),
            row(["First", "Singer", "Album", "无损", "0.93", "https://biu.moe/#/s101"]),
            row(["Second", "Singer", "Album", "低音质 MP#", "0.5", "https://biu.moe/#/s7"]),
        ]
    );
}

#[test]
fn table_is_rendered_by_term_table() {
    let items = vec![item("101", "First", MusicQualityLevel::HighQualityAac, "0.93")];
    let mut table = term_table::Table::new();
    table.add_row(term_table::row::Row::new([
        "曲名", "歌手", "专辑", "音质", "撞车评分", "聆听",
    ]));
    table.add_row(term_table::row::Row::new([
        "First",
        "Singer",
        "Album",
        "高音质 AAC",
        "0.93",
        "https://biu.moe/#/s101",
    ]));
    assert_eq!(display_dupes(&items), table.render());
}

#[test]
fn table_of_one_candidate() {
    let items = vec![item("9", "T", MusicQualityLevel::Lossless, "1")];
    let expected = "\
╔══════╦════════╦═══════╦══════╦══════════╦══════════════════════╗
║ 曲名 ║ 歌手   ║ 专辑  ║ 音质 ║ 撞车评分 ║ 聆听                 ║
╠══════╬════════╬═══════╬══════╬══════════╬══════════════════════╣
║ T    ║ Singer ║ Album ║ 无损 ║ 1        ║ https://biu.moe/#/s9 ║
╚══════╩════════╩═══════╩══════╩══════════╩══════════════════════╝
";
    assert_eq!(display_dupes(&items), expected);
}
