use jikan_rs::reviews::Reviews;
use jikan_rs::search::AnimeResult;
use jikan_rs::search::SearchResult;
use jikan_rs::search::SearchResultEnum;
use jikan_rs::stats::AnimeStats;
use jikan_rs::stats::MangaStats;
use jikan_rs::stats::Stats;
use jikan_rs::user_updates::UserUpdates;

fn anime_stats() -> AnimeStats {
    AnimeStats {
        watching: 10,
        completed: 20,
        on_hold: 3,
        dropped: 2,
        plan_to_watch: 5,
        total: 40,
        scores: vec![],
    }
}

fn manga_stats() -> MangaStats {
    MangaStats {
        reading: 7,
        completed: 9,
        on_hold: 1,
        dropped: 1,
        plan_to_read: 4,
        total: 22,
        scores: vec![],
    }
}

#[test]
fn stats_dispatch_matches() {
    let stats = Stats::Anime(anime_stats());
    let unwrapped = stats.expect_anime().unwrap();
    assert_eq!(unwrapped.total, 40);

    let stats = Stats::Manga(manga_stats());
    let unwrapped = stats.expect_manga().unwrap();
    assert_eq!(unwrapped.total, 22);
}

#[test]
fn stats_dispatch_mismatch_messages() {
    let err = Stats::Manga(manga_stats()).expect_anime().unwrap_err();
    assert_eq!(err, "Expected Anime Stats, but returned Manga Stats");

    let err = Stats::Anime(anime_stats()).expect_manga().unwrap_err();
    assert_eq!(err, "Expected Manga Stats, but returned Anime Stats");
}

#[test]
fn reviews_dispatch() {
    let ok = Reviews::Anime(vec![]).expect_anime();
    assert!(ok.is_ok());
    let err = Reviews::Anime(vec![]).expect_manga().unwrap_err();
    assert_eq!(err, "Expected Manga Reviews, but returned Anime Reviews");
    let err = Reviews::Manga(vec![]).expect_anime().unwrap_err();
    assert_eq!(err, "Expected Anime Reviews, but returned Manga Reviews");
}

#[test]
fn user_updates_dispatch() {
    let ok = UserUpdates::Manga(vec![]).expect_manga();
    assert!(ok.is_ok());
    let err = UserUpdates::Anime(vec![]).expect_manga().unwrap_err();
    assert_eq!(err, "Expected Manga User Updates, but returned Anime User Updates");
    let err = UserUpdates::Manga(vec![]).expect_anime().unwrap_err();
    assert_eq!(err, "Expected Anime User Updates, but returned Manga User Updates");
}

fn one_anime_page() -> SearchResult<AnimeResult> {
    SearchResult {
        request_hash: String::from("h"),
        request_cached: false,
        request_cache_expiry: 0,
        results: vec![AnimeResult {
            mal_id: 21,
            url: String::from("https://myanimelist.net/anime/21"),
            image_url: String::from(""),
            title: String::from("One Piece"),
            airing: true,
            synopsis: String::from(""),
            anime_type: String::from("TV"),
            episodes: None,
            score: Some(871),
            start_date: None,
            end_date: None,
            members: None,
            rated: None,
        }],
        last_page: Some(20),
    }
}

#[test]
fn search_result_dispatch() {
    let result = SearchResultEnum::Anime(one_anime_page());
    let page = result.anime().unwrap();
    assert_eq!(page.results[0].title, "One Piece");

    let result = SearchResultEnum::Anime(one_anime_page());
    assert!(result.manga().is_none());
    let result = SearchResultEnum::Anime(one_anime_page());
    assert!(result.person().is_none());
    let result = SearchResultEnum::Anime(one_anime_page());
    assert!(result.character().is_none());
}
