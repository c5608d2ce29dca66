use subtitle_renamer::bangumi::{
    detail_of, detail_url, parse_year, search_query, search_url, subject_of, subjects_of,
};
use subtitle_renamer::json::parse_json;
use subtitle_renamer::types::{BangumiSubject, BangumiSubjectDetail};

#[test]
fn search_url_encodes_the_query() {
    assert_eq!(
        search_url("Kono Healer", None),
        Some("https://api.bgm.tv/search/subject/Kono%20Healer?type=2&responseGroup=small&max_results=10".to_string())
    );
    assert_eq!(
        search_url("  a-b_c.d~e/f  ", Some(3)),
        Some("https://api.bgm.tv/search/subject/a-b_c.d~e%2Ff?type=2&responseGroup=small&max_results=3".to_string())
    );
    assert_eq!(
        search_url("治愈", Some(0)),
        Some("https://api.bgm.tv/search/subject/%E6%B2%BB%E6%84%88?type=2&responseGroup=small&max_results=0".to_string())
    );
}

#[test]
fn search_for_nothing_asks_nothing() {
    assert_eq!(search_url("", None), None);
    assert_eq!(search_url(" \t\n", Some(5)), None);
    assert_eq!(search_query("  x  "), Some("x".to_string()));
    assert_eq!(search_query("\u{3000}"), None);
}

#[test]
fn detail_url_names_the_subject() {
    assert_eq!(detail_url(12345), "https://api.bgm.tv/subject/12345");
    assert_eq!(detail_url(0), "https://api.bgm.tv/subject/0");
    assert_eq!(detail_url(-7), "https://api.bgm.tv/subject/-7");
    assert_eq!(detail_url(i64::MAX), "https://api.bgm.tv/subject/9223372036854775807");
    assert_eq!(detail_url(i64::MIN), "https://api.bgm.tv/subject/-9223372036854775808");
}

#[test]
fn subjects_are_read_from_a_list() {
    let body = parse_json(
        "{\"results\": 3, \"list\": [\
         {\"id\": 1, \"name\": \"A\", \"name_cn\": \"甲\", \"type\": 2, \"air_date\": \"2020-01-02\"},\
         {\"id\": 0, \"name\": \"no id\"},\
         {\"id\": 3, \"name\": \"\"},\
         {\"id\": 4, \"name\": \"D\", \"date\": \"2021-05-06\", \"air_date\": \"1999-01-01\"},\
         {\"id\": 5, \"name\": \"E\", \"date\": null, \"air_date\": \"1999-01-01\", \"type\": 4294967298},\
         7]}",
    )
    .unwrap();
    assert_eq!(
        subjects_of(&body),
        vec![
            BangumiSubject {
                id: 1,
                name: "A".to_string(),
                name_cn: Some("甲".to_string()),
                subject_type: Some(2),
                date: Some("2020-01-02".to_string()),
            },
            BangumiSubject {
                id: 4,
                name: "D".to_string(),
                name_cn: None,
                subject_type: None,
                date: Some("2021-05-06".to_string()),
            },
            BangumiSubject {
                id: 5,
                name: "E".to_string(),
                name_cn: None,
                subject_type: Some(2),
                date: None,
            },
        ]
    );
}

#[test]
fn subjects_are_read_from_a_bare_array() {
    let body = parse_json("[{\"id\": 9, \"name\": \"N\"}]").unwrap();
    let subjects = subjects_of(&body);
    assert_eq!(subjects.len(), 1);
    assert_eq!(subjects[0].id, 9);
    assert_eq!(subject_of(&parse_json("{\"id\": 9, \"name\": \"N\"}").unwrap()), Some(subjects[0].clone()));
    assert_eq!(subject_of(&parse_json("{\"id\": \"9\", \"name\": \"N\"}").unwrap()), None);
}

#[test]
fn no_list_gives_no_subjects() {
    for text in ["{}", "{\"list\": 3}", "null", "\"x\"", "{\"list\": {\"id\": 1, \"name\": \"A\"}}"] {
        assert!(subjects_of(&parse_json(text).unwrap()).is_empty());
    }
}

#[test]
fn year_is_read_from_the_first_four_characters() {
    assert_eq!(parse_year("2024-05-06"), Some(2024));
    assert_eq!(parse_year("0007"), Some(7));
    assert_eq!(parse_year("+123x"), Some(123));
    assert_eq!(parse_year("-123x"), Some(-123));
    assert_eq!(parse_year("-000"), Some(0));
    assert_eq!(parse_year("202"), None);
    assert_eq!(parse_year(""), None);
    assert_eq!(parse_year("20a4"), None);
    assert_eq!(parse_year("+-12"), None);
    assert_eq!(parse_year("２０２４"), None);
    assert_eq!(parse_year("年2024"), None);
}

#[test]
fn detail_is_read_with_its_fallbacks() {
    let body = parse_json(
        "{\"id\": 8, \"name\": \"N\", \"name_cn\": \"名\", \
         \"images\": {\"large\": \"L\", \"common\": \"C\"}, \"cover\": \"V\", \
         \"eps\": 12, \"total_episodes\": 13, \"episodes\": [1, 2], \"date\": \"2019-04-01\"}",
    )
    .unwrap();
    assert_eq!(
        detail_of(&body, 1),
        BangumiSubjectDetail {
            id: 8,
            name: "N".to_string(),
            name_cn: Some("名".to_string()),
            cover_url: Some("L".to_string()),
            episodes: Some(12),
            year: Some(2019),
        }
    );
    let body = parse_json(
        "{\"images\": {\"common\": \"C\"}, \"total_episodes\": 13, \"episodes\": [1, 2], \"air_date\": \"1998\"}",
    )
    .unwrap();
    assert_eq!(
        detail_of(&body, 77),
        BangumiSubjectDetail {
            id: 77,
            name: "".to_string(),
            name_cn: None,
            cover_url: Some("C".to_string()),
            episodes: Some(13),
            year: Some(1998),
        }
    );
    let body = parse_json("{\"images\": {\"large\": 1, \"common\": \"C\"}, \"cover\": \"V\", \"episodes\": [1, 2, 3], \"date\": 5, \"air_date\": \"1998\"}").unwrap();
    let detail = detail_of(&body, 2);
    assert_eq!(detail.cover_url, Some("V".to_string()));
    assert_eq!(detail.episodes, Some(3));
    assert_eq!(detail.year, None);
    let detail = detail_of(&parse_json("[]").unwrap(), 5);
    assert_eq!(
        detail,
        BangumiSubjectDetail { id: 5, name: "".to_string(), name_cn: None, cover_url: None, episodes: None, year: None }
    );
}
