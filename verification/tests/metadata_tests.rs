//! Tests of metadata loading: both card-file shapes, the bulk envelope and
//! the Grand Archive documents.

use tcg_fetch::metadata::{
    flatten_editions, load_bulk_entries, load_cards, load_ga_card_detail, load_ga_card_list,
    normalize_ga_records, normalize_mtg_records, select_bulk_download,
};
use tcg_fetch::pipeline::PipelineError;
use tcg_fetch::tcg::TcgType;

#[test]
fn mtg_records_keep_only_cards_with_images() {
    let json = r#"[
        {"id": "aaa", "image_uris": {"png": "https://c.scryfall.com/a.png"}},
        {"id": "bbb"},
        {"id": "ccc", "image_uris": {"png": "https://c.scryfall.com/c.png"}, "name": "extra"}
    ]"#;
    let cards = load_cards(json, &TcgType::Mtg).expect("well-formed metadata parses");
    assert_eq!(cards.len(), 2);
    assert_eq!(cards[0].id, "aaa");
    assert_eq!(cards[0].image_url, "https://c.scryfall.com/a.png");
    assert_eq!(cards[1].id, "ccc");
    assert_eq!(cards[1].image_url, "https://c.scryfall.com/c.png");
}

#[test]
fn mtg_record_without_id_is_structural_error() {
    let json = r#"[{"image_uris": {"png": "https://c/a.png"}}]"#;
    assert!(matches!(load_cards(json, &TcgType::Mtg), Err(PipelineError::InvalidMetadata)));
}

#[test]
fn ga_records_default_missing_fields() {
    let json = r#"[
        {"slug": "academy-guide-alc", "image": "https://api.gatcg.com/cards/images/a.jpg"},
        {"image": "https://api.gatcg.com/cards/images/b.jpg"},
        {"slug": "no-image"}
    ]"#;
    let cards = load_cards(json, &TcgType::Ga).expect("well-formed metadata parses");
    assert_eq!(cards.len(), 3);
    assert_eq!(cards[0].id, "academy-guide-alc");
    assert_eq!(cards[1].id, "unknown");
    assert_eq!(cards[1].image_url, "https://api.gatcg.com/cards/images/b.jpg");
    assert_eq!(cards[2].id, "no-image");
    assert_eq!(cards[2].image_url, "");
}

#[test]
fn unparsable_metadata_is_structural_error() {
    assert!(matches!(
        load_cards("not json at all", &TcgType::Mtg),
        Err(PipelineError::InvalidMetadata)
    ));
    assert!(matches!(
        load_cards("{\"not\": \"a list\"}", &TcgType::Ga),
        Err(PipelineError::InvalidMetadata)
    ));
}

#[test]
fn normalization_is_checkable_on_given_records() {
    let mtg = vec![
        ("aaa".to_string(), Some("https://c/a.png".to_string())),
        ("bbb".to_string(), None),
        ("ccc".to_string(), Some("https://c/c.png".to_string())),
    ];
    let cards = normalize_mtg_records(&mtg);
    assert_eq!(cards.len(), 2);
    assert_eq!(cards[0].id, "aaa");
    assert_eq!(cards[1].id, "ccc");

    let ga = vec![
        (Some("slug-a".to_string()), Some("https://c/b.jpg".to_string())),
        (None, Some("https://c/d.jpg".to_string())),
        (Some("slug-c".to_string()), None),
    ];
    let cards = normalize_ga_records(&ga);
    assert_eq!(cards.len(), 3);
    assert_eq!(cards[0].id, "slug-a");
    assert_eq!(cards[1].id, "unknown");
    assert_eq!(cards[1].image_url, "https://c/d.jpg");
    assert_eq!(cards[2].image_url, "");
}

#[test]
fn bulk_envelope_selects_the_wanted_entry() {
    let json = r#"{"data": [
        {"type": "oracle_cards", "download_uri": "https://data.scryfall.io/oracle.json"},
        {"type": "all_cards", "download_uri": "https://data.scryfall.io/all.json"},
        {"type": "all_cards", "download_uri": "https://data.scryfall.io/later.json"}
    ]}"#;
    let entries = load_bulk_entries(json).expect("a well-formed envelope parses");
    assert_eq!(entries.len(), 3);
    let uri = select_bulk_download(&entries, "all_cards");
    assert_eq!(uri.as_deref(), Some("https://data.scryfall.io/all.json"));
    assert_eq!(select_bulk_download(&entries, "rulings"), None);
}

#[test]
fn bulk_envelope_without_data_is_empty() {
    let entries = load_bulk_entries("{}").expect("a data-less envelope parses");
    assert_eq!(entries.len(), 0);
    assert_eq!(load_bulk_entries("[1, 2]"), Err(PipelineError::InvalidMetadata));
}

#[test]
fn ga_card_list_parses_names_and_slugs() {
    let json = r#"[
        {"name": "Academy Guide", "slug": "academy-guide"},
        {"name": "Lorraine", "slug": "lorraine-wandering-warrior"}
    ]"#;
    let cards = load_ga_card_list(json).expect("a well-formed listing parses");
    assert_eq!(cards.len(), 2);
    assert_eq!(cards[0].name, "Academy Guide");
    assert_eq!(cards[0].slug, "academy-guide");
    assert_eq!(cards[1].slug, "lorraine-wandering-warrior");
}

#[test]
fn editions_flatten_to_absolute_urls() {
    let json = r#"{
        "name": "Academy Guide",
        "editions": [
            {"slug": "academy-guide-alc", "image": "/cards/images/academy-guide-alc.jpg"},
            {"slug": "academy-guide-p24", "image": "/cards/images/academy-guide-p24.jpg"}
        ]
    }"#;
    let detail = load_ga_card_detail(json).expect("a well-formed detail parses");
    let cards = flatten_editions(&vec![detail]);
    assert_eq!(cards.len(), 2);
    assert_eq!(cards[0].id, "academy-guide-alc");
    assert_eq!(cards[0].image_url, "https://api.gatcg.com/cards/images/academy-guide-alc.jpg");
    assert_eq!(cards[1].id, "academy-guide-p24");
    assert_eq!(cards[1].image_url, "https://api.gatcg.com/cards/images/academy-guide-p24.jpg");
}

#[test]
fn test_academy_guide_json_parsing() {
    let json_data = r#"{
  "classes": [
    "CLERIC"
  ],
  "cost_memory": null,
  "cost_reserve": 3,
  "created_at": "2024-01-24T12:00:00.000Z",
  "durability": null,
  "editions": [
    {
      "card_id": "kk39i1f0ht",
      "collector_number": "042",
      "configuration": "default",
      "created_at": "2024-01-26T12:00:00+00:00",
      "effect": null,
      "effect_raw": null,
      "flavor": "",
      "illustrator": "Leviathan",
      "image": "/cards/images/academy-guide-alc.jpg",
      "last_update": "2025-01-19T12:25:21.173+00:00",
      "orientation": null,
      "rarity": 4,
      "slug": "academy-guide-alc",
      "uuid": "2l8lbewemh",
      "collaborators": [],
      "circulationTemplates": [],
      "circulations": [],
      "other_orientations": [],
      "set": {},
      "effect_html": null
    },
    {
      "card_id": "kk39i1f0ht",
      "collector_number": "120",
      "configuration": "default",
      "created_at": "2024-01-24T12:00:00+00:00",
      "effect": null,
      "effect_raw": null,
      "flavor": null,
      "illustrator": "十尾",
      "image": "/cards/images/academy-guide-p24.jpg",
      "last_update": "2025-01-18T17:40:17.152+00:00",
      "orientation": null,
      "rarity": 6,
      "slug": "academy-guide-p24",
      "uuid": "x99w8eraxx",
      "collaborators": [],
      "circulationTemplates": [],
      "circulations": [
        {
          "created_at": "2025-04-14T16:10:46.103185+00:00",
          "edition_id": "x99w8eraxx",
          "foil": true,
          "kind": "FOIL",
          "last_update": "2025-04-14T16:10:46.071+00:00",
          "population": 160,
          "population_operator": "=",
          "printing": false,
          "uuid": "GhMtde7MVh",
          "variants": [
            {
              "uuid": "tqsCgmQQRy",
              "edition_id": "x99w8eraxx",
              "description": "Ascent Christchurch stamp",
              "image": "/cards/images/academy-guide-p24-chch.jpg",
              "population_operator": "=",
              "population": 32,
              "printing": false,
              "kind": "FOIL",
              "created_at": "2025-05-16T18:17:49.608+00:00",
              "last_update": "2025-05-16T18:17:49.608+00:00"
            }
          ]
        }
      ],
      "other_orientations": [],
      "set": {},
      "effect_html": null
    }
  ],
  "effect": "Champion cards you materialize cost 1 less to materialize.",
  "name": "Academy Guide",
  "slug": "academy-guide"
}"#;

    let card_detail = load_ga_card_detail(json_data);

    match card_detail {
        Ok(card) => {
            println!("Successfully parsed card: {}", card.name);

            println!("Number of editions: {}", card.editions.len());

            for (i, edition) in card.editions.iter().enumerate() {
                println!(
                    "Edition {}: slug={}, image={}",
                    i + 1,
                    edition.slug,
                    edition.image
                );
            }

            assert_eq!(card.name, "Academy Guide");
            assert_eq!(card.editions.len(), 2);

            assert_eq!(card.editions[0].slug, "academy-guide-alc");
            assert_eq!(
                card.editions[0].image,
                "/cards/images/academy-guide-alc.jpg"
            );

            assert_eq!(card.editions[1].slug, "academy-guide-p24");
            assert_eq!(
                card.editions[1].image,
                "/cards/images/academy-guide-p24.jpg"
            );

            println!("All assertions passed!");
        }
        Err(_) => {
            panic!("JSON parsing failed");
        }
    }
}
