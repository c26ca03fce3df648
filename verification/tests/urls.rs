use jikan_rs::anime::anime_url;
use jikan_rs::base::TypeSource;
use jikan_rs::characters::characters_url;
use jikan_rs::client::base_url;
use jikan_rs::digits::u32_to_dec;
use jikan_rs::episodes::episodes_url;
use jikan_rs::forum::forum_url;
use jikan_rs::manga::manga_url;
use jikan_rs::more_info::more_info_url;
use jikan_rs::news::news_url;
use jikan_rs::pictures::pictures_url;
use jikan_rs::recommendations::recommendations_url;
use jikan_rs::reviews::reviews_url;
use jikan_rs::schedule::schedule_url;
use jikan_rs::schedule::default_content;
use jikan_rs::schedule::ScheduleOn;
use jikan_rs::season::season_url;
use jikan_rs::season::Season;
use jikan_rs::stats::stats_url;
use jikan_rs::user_updates::user_updates_url;

#[test]
fn decimal_rendering() {
    assert_eq!(u32_to_dec(0), "0");
    assert_eq!(u32_to_dec(7), "7");
    assert_eq!(u32_to_dec(10), "10");
    assert_eq!(u32_to_dec(123), "123");
    assert_eq!(u32_to_dec(u32::MAX), "4294967295");
}

#[test]
fn base_url_value() {
    assert_eq!(base_url(), "https://api.jikan.moe/v3");
}

#[test]
fn entity_urls() {
    assert_eq!(anime_url(1), "https://api.jikan.moe/v3/anime/1");
    assert_eq!(anime_url(21), "https://api.jikan.moe/v3/anime/21");
    assert_eq!(manga_url(1), "https://api.jikan.moe/v3/manga/1");
    assert_eq!(manga_url(2), "https://api.jikan.moe/v3/manga/2");
}

#[test]
fn type_source_fragments() {
    assert_eq!(TypeSource::Anime(1).get_uri(), "anime/1");
    assert_eq!(TypeSource::Manga(20).get_uri(), "manga/20");
}

#[test]
fn resource_urls_of_an_anime() {
    let ts = TypeSource::Anime(1);
    assert_eq!(
        characters_url(&ts),
        "https://api.jikan.moe/v3/anime/1/characters_staff"
    );
    assert_eq!(episodes_url(1), "https://api.jikan.moe/v3/anime/1/episodes");
    assert_eq!(
        jikan_rs::videos::videos_url(1),
        "https://api.jikan.moe/v3/anime/1/videos"
    );
    assert_eq!(news_url(&ts), "https://api.jikan.moe/v3/anime/1/news");
    assert_eq!(pictures_url(&ts), "https://api.jikan.moe/v3/anime/1/pictures");
    assert_eq!(forum_url(&ts), "https://api.jikan.moe/v3/anime/1/forum");
    assert_eq!(more_info_url(&ts), "https://api.jikan.moe/v3/anime/1/moreinfo");
    assert_eq!(stats_url(&ts), "https://api.jikan.moe/v3/anime/1/stats");
    assert_eq!(
        recommendations_url(&ts),
        "https://api.jikan.moe/v3/anime/1/recommendations"
    );
    assert_eq!(reviews_url(&ts, 1), "https://api.jikan.moe/v3/anime/1/reviews/1");
    assert_eq!(
        user_updates_url(&ts, 1),
        "https://api.jikan.moe/v3/anime/1/userupdates/1"
    );
}

#[test]
fn resource_urls_of_a_manga() {
    let ts = TypeSource::Manga(1);
    assert_eq!(characters_url(&ts), "https://api.jikan.moe/v3/manga/1/characters");
    assert_eq!(news_url(&ts), "https://api.jikan.moe/v3/manga/1/news");
    assert_eq!(stats_url(&ts), "https://api.jikan.moe/v3/manga/1/stats");
    assert_eq!(reviews_url(&ts, 20), "https://api.jikan.moe/v3/manga/1/reviews/20");
    assert_eq!(
        user_updates_url(&ts, 2),
        "https://api.jikan.moe/v3/manga/1/userupdates/2"
    );
}

#[test]
fn schedule_fragments_and_urls() {
    assert_eq!(ScheduleOn::All.get_uri(), "");
    assert_eq!(ScheduleOn::Monday.get_uri(), "monday");
    assert_eq!(ScheduleOn::Tuesday.get_uri(), "tuesday");
    assert_eq!(ScheduleOn::Wednesday.get_uri(), "wednesday");
    assert_eq!(ScheduleOn::Thursday.get_uri(), "thursday");
    assert_eq!(ScheduleOn::Friday.get_uri(), "friday");
    assert_eq!(ScheduleOn::Saturday.get_uri(), "saturday");
    assert_eq!(ScheduleOn::Sunday.get_uri(), "sunday");
    assert_eq!(ScheduleOn::Other.get_uri(), "other");
    assert_eq!(ScheduleOn::Unknown.get_uri(), "unknown");
    assert_eq!(
        schedule_url(&ScheduleOn::All),
        "https://api.jikan.moe/v3/schedule/"
    );
    assert_eq!(
        schedule_url(&ScheduleOn::Friday),
        "https://api.jikan.moe/v3/schedule/friday"
    );
}

#[test]
fn season_fragments_and_urls() {
    assert_eq!(Season::Winter(2020).get_uri(), "2020/winter");
    assert_eq!(Season::Fall(1999).get_uri(), "1999/fall");
    assert_eq!(Season::Summer(2005).get_uri(), "2005/summer");
    assert_eq!(Season::Spring(2021).get_uri(), "2021/spring");
    assert_eq!(Season::Later.get_uri(), "later");
    assert_eq!(
        season_url(&Season::Winter(2020)),
        "https://api.jikan.moe/v3/season/2020/winter"
    );
    assert_eq!(
        season_url(&Season::Later),
        "https://api.jikan.moe/v3/season/later"
    );
}

#[test]
fn empty_schedule_bucket() {
    assert!(default_content().is_empty());
}
