//! Tests of path construction, the placeholder test, the API constants and
//! the existence filter.

use tcg_fetch::paths::{
    card_dir_path, final_image_path, metadata_file_name, required_directories, temp_image_path,
    train_dir_path,
};
use tcg_fetch::pipeline::{filter_missing, is_placeholder_url};
use tcg_fetch::tcg::{
    get_api_type, get_api_url, get_user_agent, GaApi, MtgApi, TcgType, UnifiedCard,
};

#[test]
fn paths_follow_the_layout() {
    assert_eq!(train_dir_path("tcg-data"), "tcg-data/data/train");
    assert_eq!(card_dir_path("tcg-data", "abc"), "tcg-data/data/train/abc");
    assert_eq!(final_image_path("tcg-data", "abc"), "tcg-data/data/train/abc/0000.jpg");
    assert_eq!(
        temp_image_path("tcg-data", "abc", &TcgType::Mtg),
        "tcg-data/data/train/abc/temp.png"
    );
    assert_eq!(
        temp_image_path("tcg-data", "abc", &TcgType::Ga),
        "tcg-data/data/train/abc/temp.jpg"
    );
}

#[test]
fn required_directories_are_root_data_train() {
    let dirs = required_directories("out");
    assert_eq!(dirs, vec!["out".to_string(), "out/data".to_string(), "out/data/train".to_string()]);
}

#[test]
fn metadata_files_are_named_for_the_game() {
    assert_eq!(metadata_file_name(&TcgType::Mtg), "mtg_cards.json");
    assert_eq!(metadata_file_name(&TcgType::Ga), "ga_cards.json");
}

#[test]
fn api_constants_match_the_services() {
    assert_eq!(get_api_type(&TcgType::Mtg), "mtg_cards");
    assert_eq!(get_api_type(&TcgType::Ga), "ga_cards");
    assert_eq!(get_api_url(&TcgType::Mtg), "https://api.scryfall.com/bulk-data");
    assert_eq!(get_api_url(&TcgType::Ga), "https://api.gatcg.com/cards/all");
    assert_eq!(get_user_agent(), "TCGFetch");
    assert_eq!(MtgApi::get_api_url(), "https://api.scryfall.com/bulk-data");
    assert_eq!(MtgApi::get_api_type(), "mtg_cards");
    assert_eq!(GaApi::get_api_url(), "https://api.gatcg.com/cards/all");
}

#[test]
fn placeholder_detection_is_a_substring_test() {
    assert!(is_placeholder_url("https://errors.scryfall.com/soon.jpg"));
    assert!(is_placeholder_url("http://x/errors.scryfall.com/soon.jpg?v=1"));
    assert!(!is_placeholder_url("https://c.scryfall.com/real.png"));
    assert!(!is_placeholder_url(""));
    assert!(!is_placeholder_url("errors.scryfall.com/soon.jp"));
}

#[test]
fn existence_filter_keeps_missing_cards_in_order() {
    let cards: Vec<UnifiedCard> = ["a", "b", "c", "d"]
        .iter()
        .map(|id| UnifiedCard { id: id.to_string(), image_url: format!("https://x/{}.png", id) })
        .collect();
    let exists = vec![true, false, true, false];
    let remaining = filter_missing(&cards, &exists);
    let ids: Vec<&str> = remaining.iter().map(|c| c.id.as_str()).collect();
    assert_eq!(ids, vec!["b", "d"]);
}
