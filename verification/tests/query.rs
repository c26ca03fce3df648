use jikan_rs::search::AnimeGenre;
use jikan_rs::search::AnimeType;
use jikan_rs::search::Genres;
use jikan_rs::search::MangaGenre;
use jikan_rs::search::MangaType;
use jikan_rs::search::SearchQueryBuilder;
use jikan_rs::search::SearchSource;
use jikan_rs::search::SearchSourceType;
use jikan_rs::search::join_strings;

#[test]
fn join_with_separators() {
    let empty: Vec<String> = vec![];
    assert_eq!(join_strings(&empty, "&"), "");
    let one = vec![String::from("a")];
    assert_eq!(join_strings(&one, "&"), "a");
    let three = vec![String::from("a"), String::from("bc"), String::from("d")];
    assert_eq!(join_strings(&three, "&"), "a&bc&d");
    assert_eq!(join_strings(&three, ","), "a,bc,d");
}

#[test]
fn query_for_anime_one_piece() {
    let query = SearchQueryBuilder::new(SearchSource::Anime)
        .name("one p")
        .type_source(SearchSourceType::Anime(AnimeType::TV))
        .genre(Genres::Anime(vec![AnimeGenre::Shounen, AnimeGenre::Adventure]));
    assert_eq!(query.query_path(), "/search/anime?q=one p&type=tv&genre=27,2");
    assert_eq!(
        query.search_url(),
        "https://api.jikan.moe/v3/search/anime?q=one p&type=tv&genre=27,2"
    );
}

#[test]
fn query_for_manga_berserk() {
    let query = SearchQueryBuilder::new(SearchSource::Manga)
        .name("berser")
        .type_source(SearchSourceType::Manga(MangaType::Manga));
    assert_eq!(query.query_path(), "/search/manga?q=berser&type=manga");
}

#[test]
fn query_for_person() {
    let query = SearchQueryBuilder::new(SearchSource::Person).name("岸本 斉史");
    assert_eq!(query.query_path(), "/search/person?q=岸本 斉史");
}

#[test]
fn query_for_character() {
    let query = SearchQueryBuilder::new(SearchSource::Character).name("ルルーシュ");
    assert_eq!(query.query_path(), "/search/character?q=ルルーシュ");
}

#[test]
fn query_with_no_filter() {
    let query = SearchQueryBuilder::new(SearchSource::Anime);
    assert_eq!(query.query_path(), "/search/anime?");
}

#[test]
fn query_with_page() {
    let query = SearchQueryBuilder::new(SearchSource::Manga).name("berser").page(3);
    assert_eq!(query.query_path(), "/search/manga?q=berser&page=3");
}

#[test]
fn query_with_empty_genre_list() {
    let query = SearchQueryBuilder::new(SearchSource::Anime).genre(Genres::Anime(vec![]));
    assert_eq!(query.query_path(), "/search/anime?genre=");
}

#[test]
fn query_with_one_genre() {
    let query = SearchQueryBuilder::new(SearchSource::Manga)
        .genre(Genres::Manga(vec![MangaGenre::Thriller]));
    assert_eq!(query.query_path(), "/search/manga?genre=45");
}

#[test]
fn genre_ids() {
    assert_eq!(AnimeGenre::Action.id(), 1);
    assert_eq!(AnimeGenre::Adventure.id(), 2);
    assert_eq!(AnimeGenre::Shounen.id(), 27);
    assert_eq!(AnimeGenre::Josei.id(), 43);
    assert_eq!(MangaGenre::Seinen.id(), 41);
    assert_eq!(MangaGenre::Thriller.id(), 45);
}

#[test]
fn source_words() {
    assert_eq!(SearchSource::Anime.get_uri(), "anime");
    assert_eq!(SearchSource::Manga.get_uri(), "manga");
    assert_eq!(SearchSource::Person.get_uri(), "person");
    assert_eq!(SearchSource::Character.get_uri(), "character");
}
