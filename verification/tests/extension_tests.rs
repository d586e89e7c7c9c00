use nero::adapter::Adapter;
use nero::extension::{guest_failure, WasmExtension};
use nero::semver::SemanticVersion;
use nero::since_v0_0_1::{
    WireEpisode, WireFilter, WireFilterCategory, WireSearchFilter, WireSeries, WireVideo,
};
use nero::types::{Episode, ExtractError, Page, SearchFilter};

fn extension() -> WasmExtension {
    WasmExtension::bind(SemanticVersion::new(0, 0, 1)).unwrap()
}

fn fixture_search(query: &str, filters: &[WireSearchFilter]) -> Result<Page<WireSeries>, String> {
    let titles = ["Naruto", "Naruto Shippuden", "Boruto: Naruto Next Generations", "Bleach"];
    let items: Vec<WireSeries> = titles
        .iter()
        .enumerate()
        .filter(|(_, t)| t.to_lowercase().contains(query))
        .map(|(i, t)| WireSeries {
            id: format!("series-{}", i),
            title: t.to_string(),
            poster_url: Some(format!("https://fixture.example/posters/{}.jpg", i)),
            synopsis: None,
            kind: if filters.is_empty() { None } else { Some(filters[0].id.clone()) },
        })
        .collect();
    Ok(Page { items, has_next_page: false })
}

fn echo_as_categories(filters: &[WireSearchFilter]) -> Vec<WireFilterCategory> {
    filters
        .iter()
        .map(|f| WireFilterCategory {
            id: f.id.clone(),
            display_name: format!("Name of {}", f.id),
            filters: f
                .values
                .iter()
                .map(|v| WireFilter { id: v.clone(), display_name: v.to_uppercase() })
                .collect(),
        })
        .collect()
}

#[test]
fn binding_follows_the_version() {
    assert!(WasmExtension::bind(SemanticVersion::new(0, 0, 0)).is_none());
    let bound = WasmExtension::bind(SemanticVersion::new(3, 1, 4)).unwrap();
    assert_eq!(bound.version(), SemanticVersion::new(3, 1, 4));
    assert_eq!(bound.adapter(), Adapter::V001);
}

#[test]
fn all_four_operations_accept_empty_replies() {
    let e = extension();
    assert_eq!(e.filters(&Ok(Vec::new())), Ok(Vec::new()));
    assert_eq!(
        e.search(&Ok(Page { items: Vec::new(), has_next_page: false })),
        Ok(Page { items: Vec::new(), has_next_page: false })
    );
    assert_eq!(
        e.get_series_episodes(&Ok(Page { items: Vec::new(), has_next_page: false })),
        Ok(Page { items: Vec::new(), has_next_page: false })
    );
    assert_eq!(e.get_series_videos(&Ok(Vec::new())), Ok(Vec::new()));
    assert_eq!(e.search_filters(&Vec::new()), Vec::new());
}

#[test]
fn search_returns_the_fixture_order() {
    let e = extension();
    let wire_filters = e.search_filters(&Vec::new());
    let page = e.search(&fixture_search("naruto", &wire_filters)).unwrap();
    assert!(!page.items.is_empty());
    let titles: Vec<&str> = page.items.iter().map(|s| s.title.as_str()).collect();
    assert_eq!(titles, vec!["Naruto", "Naruto Shippuden", "Boruto: Naruto Next Generations"]);
    let ids: Vec<&str> = page.items.iter().map(|s| s.id.as_str()).collect();
    assert_eq!(ids, vec!["series-0", "series-1", "series-2"]);
    assert_eq!(
        page.items[2].poster_url,
        Some("https://fixture.example/posters/2.jpg".to_string())
    );
}

#[test]
fn search_passes_unknown_filters_through() {
    let e = extension();
    let filters = vec![SearchFilter {
        id: "no-such-filter".to_string(),
        values: vec!["whatever".to_string()],
    }];
    let wire_filters = e.search_filters(&filters);
    assert_eq!(
        wire_filters,
        vec![WireSearchFilter {
            id: "no-such-filter".to_string(),
            values: vec!["whatever".to_string()],
        }]
    );
    let page = e.search(&fixture_search("naruto", &wire_filters)).unwrap();
    assert_eq!(page.items.len(), 3);
    assert_eq!(page.items[0].kind, Some("no-such-filter".to_string()));
}

#[test]
fn an_episode_without_sources_gives_an_empty_list() {
    let e = extension();
    let reply: Result<Vec<WireVideo>, String> = Ok(Vec::new());
    assert_eq!(e.get_series_videos(&reply), Ok(Vec::new()));
}

#[test]
fn videos_keep_their_order() {
    let e = extension();
    let reply = Ok(vec![
        WireVideo {
            video_url: "https://a.example/1080.mp4".to_string(),
            video_headers: vec![("Referer".to_string(), "https://a.example".to_string())],
            server: "a".to_string(),
            resolution: (1920, 1080),
        },
        WireVideo {
            video_url: "https://b.example/720.mp4".to_string(),
            video_headers: Vec::new(),
            server: "b".to_string(),
            resolution: (1280, 720),
        },
    ]);
    let videos = e.get_series_videos(&reply).unwrap();
    assert_eq!(videos.len(), 2);
    assert_eq!(videos[0].server, "a");
    assert_eq!(videos[0].resolution, (1920, 1080));
    assert_eq!(videos[1].video_url, "https://b.example/720.mp4");
    assert_eq!(videos[1].video_headers, Vec::new());
}

#[test]
fn a_guest_failure_does_not_poison_the_extension() {
    let e = extension();
    let failed = e.get_series_episodes(&Err("network unreachable".to_string()));
    assert_eq!(failed, Err(ExtractError::Guest("network unreachable".to_string())));
    let reply = Ok(Page {
        items: vec![
            WireEpisode {
                id: "e1".to_string(),
                number: 1,
                title: Some("Pilot".to_string()),
                thumbnail_url: None,
                description: None,
            },
            WireEpisode {
                id: "e2".to_string(),
                number: 2,
                title: None,
                thumbnail_url: Some("https://t.example/2.png".to_string()),
                description: None,
            },
        ],
        has_next_page: true,
    });
    assert_eq!(
        e.get_series_episodes(&reply),
        Ok(Page {
            items: vec![
                Episode {
                    id: "e1".to_string(),
                    number: 1,
                    title: Some("Pilot".to_string()),
                    thumbnail_url: None,
                    description: None,
                },
                Episode {
                    id: "e2".to_string(),
                    number: 2,
                    title: None,
                    thumbnail_url: Some("https://t.example/2.png".to_string()),
                    description: None,
                },
            ],
            has_next_page: true,
        })
    );
}

#[test]
fn every_operation_passes_a_guest_failure_on() {
    let e = extension();
    let message = "parse failure: <html>".to_string();
    assert_eq!(e.filters(&Err(message.clone())), Err(ExtractError::Guest(message.clone())));
    assert_eq!(e.search(&Err(message.clone())), Err(ExtractError::Guest(message.clone())));
    assert_eq!(
        e.get_series_videos(&Err(message.clone())),
        Err(ExtractError::Guest(message.clone()))
    );
    assert_eq!(e.get_series_episodes(&Err(String::new())), Err(ExtractError::Guest(String::new())));
    assert_eq!(guest_failure(&message), ExtractError::Guest(message));
}

#[test]
fn an_undecodable_reply_is_a_decode_error_and_the_next_call_works() {
    let e = extension();
    let reply = Ok(vec![WireVideo {
        video_url: "not a url at all".to_string(),
        video_headers: Vec::new(),
        server: "x".to_string(),
        resolution: (0, 0),
    }]);
    assert_eq!(e.get_series_videos(&reply), Err(ExtractError::Decode));
    assert_eq!(e.get_series_videos(&Ok(Vec::new())), Ok(Vec::new()));
}

#[test]
fn filters_round_trip_keeps_ids_and_display_names() {
    let e = extension();
    let filters = vec![
        SearchFilter {
            id: "genre".to_string(),
            values: vec!["action".to_string(), "slice of life".to_string()],
        },
        SearchFilter { id: "Year \u{2603}".to_string(), values: vec!["2024".to_string()] },
        SearchFilter { id: "".to_string(), values: Vec::new() },
    ];
    let wire = e.search_filters(&filters);
    let echoed = echo_as_categories(&wire);
    let categories = e.filters(&Ok(echoed.clone())).unwrap();
    assert_eq!(categories.len(), filters.len());
    for (i, category) in categories.iter().enumerate() {
        assert_eq!(category.id, filters[i].id);
        assert_eq!(category.id, echoed[i].id);
        assert_eq!(category.display_name, echoed[i].display_name);
        assert_eq!(category.filters.len(), filters[i].values.len());
        for (j, filter) in category.filters.iter().enumerate() {
            assert_eq!(filter.id, filters[i].values[j]);
            assert_eq!(filter.display_name, echoed[i].filters[j].display_name);
        }
    }
}
