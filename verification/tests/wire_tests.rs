use nero::since_v0_0_1::{
    decode_episode, decode_episodes_page, decode_filter_categories, decode_optional_url,
    decode_series, decode_series_page, decode_url, decode_video, decode_videos,
    encode_search_filters, url_outcome, WireEpisode, WireFilter, WireFilterCategory,
    WireSearchFilter, WireSeries, WireVideo,
};
use nero::types::{
    clone_headers, clone_text, clone_texts, Episode, ExtractError, Filter, FilterCategory, Page,
    SearchFilter, Series, SeriesVideo,
};

fn wire_series(id: &str, poster: Option<&str>) -> WireSeries {
    WireSeries {
        id: id.to_string(),
        title: format!("Title of {}", id),
        poster_url: poster.map(|p| p.to_string()),
        synopsis: Some("A synopsis".to_string()),
        kind: None,
    }
}

#[test]
fn url_is_parsed_and_normalised() {
    assert_eq!(decode_url("https://example.com"), Ok("https://example.com/".to_string()));
    assert_eq!(
        decode_url("HTTPS://Example.COM/a/../b?q=1"),
        Ok("https://example.com/b?q=1".to_string())
    );
}

#[test]
fn text_that_is_no_url_does_not_decode() {
    assert_eq!(decode_url("not a url"), Err(ExtractError::Decode));
    assert_eq!(decode_url(""), Err(ExtractError::Decode));
    assert_eq!(decode_url("/relative/path.png"), Err(ExtractError::Decode));
}

#[test]
fn url_outcome_follows_the_parse() {
    assert_eq!(url_outcome(Some("https://a.example/".to_string())), Ok("https://a.example/".to_string()));
    assert_eq!(url_outcome(None), Err(ExtractError::Decode));
}

#[test]
fn absent_url_stays_absent() {
    assert_eq!(decode_optional_url(&None), Ok(None));
    assert_eq!(
        decode_optional_url(&Some("https://example.com/p.png".to_string())),
        Ok(Some("https://example.com/p.png".to_string()))
    );
    assert_eq!(decode_optional_url(&Some("nope".to_string())), Err(ExtractError::Decode));
}

#[test]
fn series_keeps_every_field() {
    let wire = WireSeries {
        id: "s1".to_string(),
        title: "One".to_string(),
        poster_url: Some("https://img.example/one.png".to_string()),
        synopsis: Some("text".to_string()),
        kind: Some("tv".to_string()),
    };
    assert_eq!(
        decode_series(&wire),
        Ok(Series {
            id: "s1".to_string(),
            title: "One".to_string(),
            poster_url: Some("https://img.example/one.png".to_string()),
            synopsis: Some("text".to_string()),
            kind: Some("tv".to_string()),
        })
    );
    assert_eq!(decode_series(&wire_series("s2", Some("::"))), Err(ExtractError::Decode));
}

#[test]
fn episode_keeps_every_field() {
    let wire = WireEpisode {
        id: "e7".to_string(),
        number: 7,
        title: None,
        thumbnail_url: Some("http://t.example".to_string()),
        description: Some("d".to_string()),
    };
    assert_eq!(
        decode_episode(&wire),
        Ok(Episode {
            id: "e7".to_string(),
            number: 7,
            title: None,
            thumbnail_url: Some("http://t.example/".to_string()),
            description: Some("d".to_string()),
        })
    );
    let broken = WireEpisode { thumbnail_url: Some("thumb".to_string()), ..wire };
    assert_eq!(decode_episode(&broken), Err(ExtractError::Decode));
}

#[test]
fn video_keeps_headers_in_order() {
    let wire = WireVideo {
        video_url: "https://cdn.example/v.m3u8".to_string(),
        video_headers: vec![
            ("Referer".to_string(), "https://site.example".to_string()),
            ("Accept".to_string(), "*/*".to_string()),
            ("Referer".to_string(), "again".to_string()),
        ],
        server: "main".to_string(),
        resolution: (1920, 1080),
    };
    assert_eq!(
        decode_video(&wire),
        Ok(SeriesVideo {
            video_url: "https://cdn.example/v.m3u8".to_string(),
            video_headers: vec![
                ("Referer".to_string(), "https://site.example".to_string()),
                ("Accept".to_string(), "*/*".to_string()),
                ("Referer".to_string(), "again".to_string()),
            ],
            server: "main".to_string(),
            resolution: (1920, 1080),
        })
    );
    let broken = WireVideo {
        video_url: "no url".to_string(),
        video_headers: Vec::new(),
        server: "main".to_string(),
        resolution: (1, 1),
    };
    assert_eq!(decode_video(&broken), Err(ExtractError::Decode));
}

#[test]
fn video_clone_is_equal() {
    let video = SeriesVideo {
        video_url: "https://cdn.example/v".to_string(),
        video_headers: vec![("a".to_string(), "b".to_string())],
        server: "s".to_string(),
        resolution: (640, 480),
    };
    assert_eq!(video.clone(), video);
}

#[test]
fn page_keeps_order_and_hint() {
    let wire = Page {
        items: vec![wire_series("c", None), wire_series("a", None), wire_series("b", None)],
        has_next_page: true,
    };
    let page = decode_series_page(&wire).unwrap();
    let ids: Vec<&str> = page.items.iter().map(|s| s.id.as_str()).collect();
    assert_eq!(ids, vec!["c", "a", "b"]);
    assert!(page.has_next_page);
    assert_eq!(page.items[1].title, "Title of a");
}

#[test]
fn empty_page_decodes_to_empty_page() {
    let wire: Page<WireSeries> = Page { items: Vec::new(), has_next_page: false };
    assert_eq!(decode_series_page(&wire), Ok(Page { items: Vec::new(), has_next_page: false }));
    let wire: Page<WireEpisode> = Page { items: Vec::new(), has_next_page: true };
    assert_eq!(decode_episodes_page(&wire), Ok(Page { items: Vec::new(), has_next_page: true }));
}

#[test]
fn one_bad_item_makes_the_page_undecodable() {
    let wire = Page {
        items: vec![
            wire_series("a", Some("https://ok.example/a.png")),
            wire_series("b", Some("bad")),
            wire_series("c", None),
        ],
        has_next_page: false,
    };
    assert_eq!(decode_series_page(&wire), Err(ExtractError::Decode));
}

#[test]
fn no_videos_is_no_error() {
    assert_eq!(decode_videos(&Vec::new()), Ok(Vec::new()));
}

#[test]
fn filter_categories_cross_unchanged() {
    let wire = vec![
        WireFilterCategory {
            id: "genre".to_string(),
            display_name: "Genre".to_string(),
            filters: vec![
                WireFilter { id: "act".to_string(), display_name: "Action".to_string() },
                WireFilter { id: "com".to_string(), display_name: "Comedy \u{1F600}".to_string() },
            ],
        },
        WireFilterCategory { id: "".to_string(), display_name: " ".to_string(), filters: Vec::new() },
    ];
    assert_eq!(
        decode_filter_categories(&wire),
        vec![
            FilterCategory {
                id: "genre".to_string(),
                display_name: "Genre".to_string(),
                filters: vec![
                    Filter { id: "act".to_string(), display_name: "Action".to_string() },
                    Filter { id: "com".to_string(), display_name: "Comedy \u{1F600}".to_string() },
                ],
            },
            FilterCategory { id: "".to_string(), display_name: " ".to_string(), filters: Vec::new() },
        ]
    );
    assert_eq!(decode_filter_categories(&Vec::new()), Vec::new());
}

#[test]
fn search_filters_cross_unchanged() {
    let filters = vec![
        SearchFilter { id: "genre".to_string(), values: vec!["act".to_string(), "com".to_string()] },
        SearchFilter { id: "unknown-to-everyone".to_string(), values: Vec::new() },
    ];
    assert_eq!(
        encode_search_filters(&filters),
        vec![
            WireSearchFilter {
                id: "genre".to_string(),
                values: vec!["act".to_string(), "com".to_string()],
            },
            WireSearchFilter { id: "unknown-to-everyone".to_string(), values: Vec::new() },
        ]
    );
}

#[test]
fn copies_are_equal() {
    assert_eq!(clone_text(&None), None);
    assert_eq!(clone_text(&Some("x".to_string())), Some("x".to_string()));
    let texts = vec!["a".to_string(), "".to_string(), "c".to_string()];
    assert_eq!(clone_texts(&texts), texts);
    let headers = vec![("k".to_string(), "v".to_string()), ("k2".to_string(), "v2".to_string())];
    assert_eq!(clone_headers(&headers), headers);
}
