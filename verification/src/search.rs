//! The search endpoint: a query builder that accumulates optional
//! filters and renders them as a query string, and the tagged union of
//! the result shapes the endpoint answers with.

use vstd::prelude::*;
use vstd::string::StringExecFns;

use crate::base::MALTypeItem;
use crate::client::base_url_spec;
use crate::client::base_url;
use crate::digits::{dec_digits, u32_to_dec};

verus! {

/// Which kind of entity a search is over.
#[derive(Clone, Copy, Debug)]
pub enum SearchSource {
    Anime,
    Manga,
    Person,
    Character,
}

impl SearchSource {
    /// The URI word of this search kind.
    pub open spec fn uri_spec(&self) -> Seq<char> {
        match self {
            SearchSource::Anime => "anime"@,
            SearchSource::Manga => "manga"@,
            SearchSource::Person => "person"@,
            SearchSource::Character => "character"@,
        }
    }

    /// Renders the URI word of this search kind.
    pub fn get_uri(&self) -> (r: &'static str)
        ensures
            r@ == self.uri_spec(),
    {
        match self {
            SearchSource::Anime => "anime",
            SearchSource::Manga => "manga",
            SearchSource::Person => "person",
            SearchSource::Character => "character",
        }
    }
}

/// The format filter on an anime search.
#[derive(Clone, Copy, Debug)]
pub enum AnimeType {
    TV,
    Ova,
    Movie,
    Special,
    Ona,
    Music,
}

impl AnimeType {
    /// The value of the format parameter for this anime format.
    pub open spec fn uri_spec(&self) -> Seq<char> {
        match self {
            AnimeType::TV => "tv"@,
            AnimeType::Ova => "ova"@,
            AnimeType::Movie => "movie"@,
            AnimeType::Special => "special"@,
            AnimeType::Ona => "ona"@,
            AnimeType::Music => "music"@,
        }
    }

    /// Renders the value of the format parameter.
    pub fn get_uri(&self) -> (r: &'static str)
        ensures
            r@ == self.uri_spec(),
    {
        match self {
            AnimeType::TV => "tv",
            AnimeType::Ova => "ova",
            AnimeType::Movie => "movie",
            AnimeType::Special => "special",
            AnimeType::Ona => "ona",
            AnimeType::Music => "music",
        }
    }
}

/// The format filter on a manga search.
#[derive(Clone, Copy, Debug)]
pub enum MangaType {
    Manga,
    Novel,
    Oneshot,
    Doujin,
    Manhwa,
    Manhua,
}

impl MangaType {
    /// The value of the format parameter for this manga format.
    pub open spec fn uri_spec(&self) -> Seq<char> {
        match self {
            MangaType::Manga => "manga"@,
            MangaType::Novel => "novel"@,
            MangaType::Oneshot => "oneshot"@,
            MangaType::Doujin => "doujin"@,
            MangaType::Manhwa => "manhwa"@,
            MangaType::Manhua => "manhua"@,
        }
    }

    /// Renders the value of the format parameter.
    pub fn get_uri(&self) -> (r: &'static str)
        ensures
            r@ == self.uri_spec(),
    {
        match self {
            MangaType::Manga => "manga",
            MangaType::Novel => "novel",
            MangaType::Oneshot => "oneshot",
            MangaType::Doujin => "doujin",
            MangaType::Manhwa => "manhwa",
            MangaType::Manhua => "manhua",
        }
    }
}

/// A format filter, on the side the search is over.
#[derive(Clone, Copy, Debug)]
pub enum SearchSourceType {
    Anime(AnimeType),
    Manga(MangaType),
}

impl SearchSourceType {
    /// The value of the format parameter.
    pub open spec fn uri_spec(&self) -> Seq<char> {
        match self {
            SearchSourceType::Anime(t) => t.uri_spec(),
            SearchSourceType::Manga(t) => t.uri_spec(),
        }
    }

    /// Renders the value of the format parameter.
    pub fn get_uri(&self) -> (r: &'static str)
        ensures
            r@ == self.uri_spec(),
    {
        match self {
            SearchSourceType::Anime(t) => t.get_uri(),
            SearchSourceType::Manga(t) => t.get_uri(),
        }
    }
}

/// A genre filter on an anime search.
#[derive(Clone, Copy, Debug)]
pub enum AnimeGenre {
    Action,
    Adventure,
    Cars,
    Comedy,
    Dementia,
    Demons,
    Mystery,
    Drama,
    Ecchi,
    Fantasy,
    Game,
    Hentai,
    Historical,
    Horror,
    Kids,
    Magic,
    MartialArts,
    Mecha,
    Music,
    Parody,
    Samurai,
    Romance,
    School,
    SciFi,
    Shoujo,
    ShoujoAi,
    Shounen,
    ShounenAi,
    Space,
    Sports,
    SuperPower,
    Vampire,
    Yaoi,
    Yuri,
    Harem,
    SliceOfLife,
    Supernatural,
    Military,
    Police,
    Psychological,
    Thriller,
    Seinen,
    Josei,
}

/// The numeric id the service gives an anime genre.
pub open spec fn anime_genre_id_spec(g: AnimeGenre) -> u32 {
    match g {
        AnimeGenre::Action => 1,
        AnimeGenre::Adventure => 2,
        AnimeGenre::Cars => 3,
        AnimeGenre::Comedy => 4,
        AnimeGenre::Dementia => 5,
        AnimeGenre::Demons => 6,
        AnimeGenre::Mystery => 7,
        AnimeGenre::Drama => 8,
        AnimeGenre::Ecchi => 9,
        AnimeGenre::Fantasy => 10,
        AnimeGenre::Game => 11,
        AnimeGenre::Hentai => 12,
        AnimeGenre::Historical => 13,
        AnimeGenre::Horror => 14,
        AnimeGenre::Kids => 15,
        AnimeGenre::Magic => 16,
        AnimeGenre::MartialArts => 17,
        AnimeGenre::Mecha => 18,
        AnimeGenre::Music => 19,
        AnimeGenre::Parody => 20,
        AnimeGenre::Samurai => 21,
        AnimeGenre::Romance => 22,
        AnimeGenre::School => 23,
        AnimeGenre::SciFi => 24,
        AnimeGenre::Shoujo => 25,
        AnimeGenre::ShoujoAi => 26,
        AnimeGenre::Shounen => 27,
        AnimeGenre::ShounenAi => 28,
        AnimeGenre::Space => 29,
        AnimeGenre::Sports => 30,
        AnimeGenre::SuperPower => 31,
        AnimeGenre::Vampire => 32,
        AnimeGenre::Yaoi => 33,
        AnimeGenre::Yuri => 34,
        AnimeGenre::Harem => 35,
        AnimeGenre::SliceOfLife => 36,
        AnimeGenre::Supernatural => 37,
        AnimeGenre::Military => 38,
        AnimeGenre::Police => 39,
        AnimeGenre::Psychological => 40,
        AnimeGenre::Thriller => 41,
        AnimeGenre::Seinen => 42,
        AnimeGenre::Josei => 43,
    }
}

impl AnimeGenre {
    /// The numeric id the service gives this genre.
    pub fn id(&self) -> (r: u32)
        ensures
            r == anime_genre_id_spec(*self),
    {
        match self {
            AnimeGenre::Action => 1,
            AnimeGenre::Adventure => 2,
            AnimeGenre::Cars => 3,
            AnimeGenre::Comedy => 4,
            AnimeGenre::Dementia => 5,
            AnimeGenre::Demons => 6,
            AnimeGenre::Mystery => 7,
            AnimeGenre::Drama => 8,
            AnimeGenre::Ecchi => 9,
            AnimeGenre::Fantasy => 10,
            AnimeGenre::Game => 11,
            AnimeGenre::Hentai => 12,
            AnimeGenre::Historical => 13,
            AnimeGenre::Horror => 14,
            AnimeGenre::Kids => 15,
            AnimeGenre::Magic => 16,
            AnimeGenre::MartialArts => 17,
            AnimeGenre::Mecha => 18,
            AnimeGenre::Music => 19,
            AnimeGenre::Parody => 20,
            AnimeGenre::Samurai => 21,
            AnimeGenre::Romance => 22,
            AnimeGenre::School => 23,
            AnimeGenre::SciFi => 24,
            AnimeGenre::Shoujo => 25,
            AnimeGenre::ShoujoAi => 26,
            AnimeGenre::Shounen => 27,
            AnimeGenre::ShounenAi => 28,
            AnimeGenre::Space => 29,
            AnimeGenre::Sports => 30,
            AnimeGenre::SuperPower => 31,
            AnimeGenre::Vampire => 32,
            AnimeGenre::Yaoi => 33,
            AnimeGenre::Yuri => 34,
            AnimeGenre::Harem => 35,
            AnimeGenre::SliceOfLife => 36,
            AnimeGenre::Supernatural => 37,
            AnimeGenre::Military => 38,
            AnimeGenre::Police => 39,
            AnimeGenre::Psychological => 40,
            AnimeGenre::Thriller => 41,
            AnimeGenre::Seinen => 42,
            AnimeGenre::Josei => 43,
        }
    }
}

/// A genre filter on a manga search.
#[derive(Clone, Copy, Debug)]
pub enum MangaGenre {
    Action,
    Adventure,
    Cars,
    Comedy,
    Dementia,
    Demons,
    Mystery,
    Drama,
    Ecchi,
    Fantasy,
    Game,
    Hentai,
    Historical,
    Horror,
    Kids,
    Magic,
    MartialArts,
    Mecha,
    Music,
    Parody,
    Samurai,
    Romance,
    School,
    SciFi,
    Shoujo,
    ShoujoAi,
    Shounen,
    ShounenAi,
    Space,
    Sports,
    SuperPower,
    Vampire,
    Yaoi,
    Yuri,
    Harem,
    SliceOfLife,
    Supernatural,
    Military,
    Police,
    Psychological,
    Seinen,
    Josei,
    Doujinshi,
    GenderBender,
    Thriller,
}

/// The numeric id the service gives a manga genre.
pub open spec fn manga_genre_id_spec(g: MangaGenre) -> u32 {
    match g {
        MangaGenre::Action => 1,
        MangaGenre::Adventure => 2,
        MangaGenre::Cars => 3,
        MangaGenre::Comedy => 4,
        MangaGenre::Dementia => 5,
        MangaGenre::Demons => 6,
        MangaGenre::Mystery => 7,
        MangaGenre::Drama => 8,
        MangaGenre::Ecchi => 9,
        MangaGenre::Fantasy => 10,
        MangaGenre::Game => 11,
        MangaGenre::Hentai => 12,
        MangaGenre::Historical => 13,
        MangaGenre::Horror => 14,
        MangaGenre::Kids => 15,
        MangaGenre::Magic => 16,
        MangaGenre::MartialArts => 17,
        MangaGenre::Mecha => 18,
        MangaGenre::Music => 19,
        MangaGenre::Parody => 20,
        MangaGenre::Samurai => 21,
        MangaGenre::Romance => 22,
        MangaGenre::School => 23,
        MangaGenre::SciFi => 24,
        MangaGenre::Shoujo => 25,
        MangaGenre::ShoujoAi => 26,
        MangaGenre::Shounen => 27,
        MangaGenre::ShounenAi => 28,
        MangaGenre::Space => 29,
        MangaGenre::Sports => 30,
        MangaGenre::SuperPower => 31,
        MangaGenre::Vampire => 32,
        MangaGenre::Yaoi => 33,
        MangaGenre::Yuri => 34,
        MangaGenre::Harem => 35,
        MangaGenre::SliceOfLife => 36,
        MangaGenre::Supernatural => 37,
        MangaGenre::Military => 38,
        MangaGenre::Police => 39,
        MangaGenre::Psychological => 40,
        MangaGenre::Seinen => 41,
        MangaGenre::Josei => 42,
        MangaGenre::Doujinshi => 43,
        MangaGenre::GenderBender => 44,
        MangaGenre::Thriller => 45,
    }
}

impl MangaGenre {
    /// The numeric id the service gives this genre.
    pub fn id(&self) -> (r: u32)
        ensures
            r == manga_genre_id_spec(*self),
    {
        match self {
            MangaGenre::Action => 1,
            MangaGenre::Adventure => 2,
            MangaGenre::Cars => 3,
            MangaGenre::Comedy => 4,
            MangaGenre::Dementia => 5,
            MangaGenre::Demons => 6,
            MangaGenre::Mystery => 7,
            MangaGenre::Drama => 8,
            MangaGenre::Ecchi => 9,
            MangaGenre::Fantasy => 10,
            MangaGenre::Game => 11,
            MangaGenre::Hentai => 12,
            MangaGenre::Historical => 13,
            MangaGenre::Horror => 14,
            MangaGenre::Kids => 15,
            MangaGenre::Magic => 16,
            MangaGenre::MartialArts => 17,
            MangaGenre::Mecha => 18,
            MangaGenre::Music => 19,
            MangaGenre::Parody => 20,
            MangaGenre::Samurai => 21,
            MangaGenre::Romance => 22,
            MangaGenre::School => 23,
            MangaGenre::SciFi => 24,
            MangaGenre::Shoujo => 25,
            MangaGenre::ShoujoAi => 26,
            MangaGenre::Shounen => 27,
            MangaGenre::ShounenAi => 28,
            MangaGenre::Space => 29,
            MangaGenre::Sports => 30,
            MangaGenre::SuperPower => 31,
            MangaGenre::Vampire => 32,
            MangaGenre::Yaoi => 33,
            MangaGenre::Yuri => 34,
            MangaGenre::Harem => 35,
            MangaGenre::SliceOfLife => 36,
            MangaGenre::Supernatural => 37,
            MangaGenre::Military => 38,
            MangaGenre::Police => 39,
            MangaGenre::Psychological => 40,
            MangaGenre::Seinen => 41,
            MangaGenre::Josei => 42,
            MangaGenre::Doujinshi => 43,
            MangaGenre::GenderBender => 44,
            MangaGenre::Thriller => 45,
        }
    }
}

/// A genre filter list, on the side the search is over.
#[derive(Debug)]
pub enum Genres {
    Anime(Vec<AnimeGenre>),
    Manga(Vec<MangaGenre>),
}

/// The pieces of `ps` joined with `sep` between each two of them.
pub open spec fn join_sep(ps: Seq<Seq<char>>, sep: Seq<char>) -> Seq<char>
    decreases ps.len(),
{
    if ps.len() == 0 {
        Seq::empty()
    } else if ps.len() == 1 {
        ps[0]
    } else {
        ps[0] + sep + join_sep(ps.drop_first(), sep)
    }
}

/// Joining one more piece appends one separator and the piece.
proof fn lemma_join_sep_push(ps: Seq<Seq<char>>, x: Seq<char>, sep: Seq<char>)
    requires
        ps.len() >= 1,
    ensures
        join_sep(ps.push(x), sep) =~= join_sep(ps, sep) + sep + x,
    decreases ps.len(),
{
    if ps.len() == 1 {
        assert(ps.push(x).len() == 2);
        assert(ps.push(x)[0] == ps[0]);
        assert(ps.push(x).drop_first() =~= seq![x]);
        assert(join_sep(seq![x], sep) == seq![x][0]);
        assert(join_sep(ps.push(x), sep) == ps.push(x)[0] + sep + join_sep(
            ps.push(x).drop_first(),
            sep,
        ));
    } else {
        lemma_join_sep_push(ps.drop_first(), x, sep);
        assert(ps.push(x).drop_first() =~= ps.drop_first().push(x));
        assert(join_sep(ps.push(x), sep) == ps[0] + sep + (join_sep(ps.drop_first(), sep) + sep
            + x));
        assert(ps[0] + sep + (join_sep(ps.drop_first(), sep) + sep + x) =~= (ps[0] + sep
            + join_sep(ps.drop_first(), sep)) + sep + x);
    }
}

/// The views of the strings of `ps`.
pub open spec fn str_views(ps: Seq<String>) -> Seq<Seq<char>> {
    ps.map_values(|p: String| p@)
}

/// Joins the strings of `ps` with `sep` between each two of them.
pub fn join_strings(ps: &Vec<String>, sep: &str) -> (s: String)
    ensures
        s@ == join_sep(str_views(ps@), sep@),
{
    let ghost all: Seq<Seq<char>> = str_views(ps@);
    let mut s = String::new();
    let mut i: usize = 0;
    while i < ps.len()
        invariant
            i <= ps.len(),
            all == str_views(ps@),
            all.len() == ps@.len(),
            s@ == join_sep(all.take(i as int), sep@),
        decreases ps.len() - i,
    {
        proof {
            assert(all[i as int] == ps@[i as int]@);
            assert(all.take(i as int + 1) =~= all.take(i as int).push(all[i as int]));
        }
        if i > 0 {
            s.append(sep);
            proof {
                lemma_join_sep_push(all.take(i as int), all[i as int], sep@);
            }
        } else {
            proof {
                assert(join_sep(all.take(1), sep@) == all.take(1)[0]);
            }
        }
        s.append(ps[i].as_str());
        proof {
            assert(s@ =~= join_sep(all.take(i as int + 1), sep@));
        }
        i = i + 1;
    }
    proof {
        assert(all.take(ps@.len() as int) =~= all);
    }
    s
}

/// The decimal id strings of a list of anime genres.
pub open spec fn anime_genre_strs(gs: Seq<AnimeGenre>) -> Seq<Seq<char>> {
    gs.map_values(|x: AnimeGenre| dec_digits(anime_genre_id_spec(x) as nat))
}

/// The decimal id strings of a list of manga genres.
pub open spec fn manga_genre_strs(gs: Seq<MangaGenre>) -> Seq<Seq<char>> {
    gs.map_values(|x: MangaGenre| dec_digits(manga_genre_id_spec(x) as nat))
}

/// The genre ids of `g`, each in decimal, joined with commas.
pub open spec fn genres_csv_spec(g: &Genres) -> Seq<char> {
    match g {
        Genres::Anime(gs) => join_sep(anime_genre_strs(gs@), ","@),
        Genres::Manga(gs) => join_sep(manga_genre_strs(gs@), ","@),
    }
}

/// Renders the genre ids of `g` as a comma-separated list.
pub fn genres_csv(g: &Genres) -> (s: String)
    ensures
        s@ == genres_csv_spec(g),
{
    match g {
        Genres::Anime(gs) => {
            let mut ids: Vec<String> = Vec::new();
            let mut i: usize = 0;
            while i < gs.len()
                invariant
                    i <= gs.len(),
                    str_views(ids@) == anime_genre_strs(gs@.take(i as int)),
                decreases gs.len() - i,
            {
                let ghost prev = ids@;
                let d = u32_to_dec(gs[i].id());
                ids.push(d);
                proof {
                    assert(ids@ == prev.push(d));
                    assert(str_views(ids@) =~= str_views(prev).push(d@));
                    assert(gs@.take(i as int + 1) =~= gs@.take(i as int).push(gs@[i as int]));
                    assert(anime_genre_strs(gs@.take(i as int + 1)) =~= anime_genre_strs(
                        gs@.take(i as int),
                    ).push(dec_digits(anime_genre_id_spec(gs@[i as int]) as nat)));
                    assert(str_views(ids@) =~= anime_genre_strs(gs@.take(i as int + 1)));
                }
                i = i + 1;
            }
            proof {
                assert(gs@.take(gs@.len() as int) =~= gs@);
            }
            join_strings(&ids, ",")
        },
        Genres::Manga(gs) => {
            let mut ids: Vec<String> = Vec::new();
            let mut i: usize = 0;
            while i < gs.len()
                invariant
                    i <= gs.len(),
                    str_views(ids@) == manga_genre_strs(gs@.take(i as int)),
                decreases gs.len() - i,
            {
                let ghost prev = ids@;
                let d = u32_to_dec(gs[i].id());
                ids.push(d);
                proof {
                    assert(ids@ == prev.push(d));
                    assert(str_views(ids@) =~= str_views(prev).push(d@));
                    assert(gs@.take(i as int + 1) =~= gs@.take(i as int).push(gs@[i as int]));
                    assert(manga_genre_strs(gs@.take(i as int + 1)) =~= manga_genre_strs(
                        gs@.take(i as int),
                    ).push(dec_digits(manga_genre_id_spec(gs@[i as int]) as nat)));
                    assert(str_views(ids@) =~= manga_genre_strs(gs@.take(i as int + 1)));
                }
                i = i + 1;
            }
            proof {
                assert(gs@.take(gs@.len() as int) =~= gs@);
            }
            join_strings(&ids, ",")
        },
    }
}

/// A search query in the making: the kind it is over, and the filters
/// set so far.
#[derive(Debug)]
pub struct SearchQueryBuilder {
    pub source: SearchSource,
    pub name: Option<String>,
    pub type_source: Option<SearchSourceType>,
    pub genres: Option<Genres>,
    pub page: Option<u32>,
}

/// The rendered `key=value` pieces of the filters that are set, in the
/// order name, format, genres, page.
pub open spec fn pieces_spec(b: &SearchQueryBuilder) -> Seq<Seq<char>> {
    (match b.name {
        Some(n) => seq!["q="@ + n@],
        None => Seq::empty(),
    }) + (match b.type_source {
        Some(t) => seq!["type="@ + t.uri_spec()],
        None => Seq::empty(),
    }) + (match b.genres {
        Some(g) => seq!["genre="@ + genres_csv_spec(&g)],
        None => Seq::empty(),
    }) + (match b.page {
        Some(p) => seq!["page="@ + dec_digits(p as nat)],
        None => Seq::empty(),
    })
}

/// The query path of `b`: the search root, the kind word, and the set
/// filters joined with ampersands after the question mark.
pub open spec fn query_path_spec(b: &SearchQueryBuilder) -> Seq<char> {
    "/search/"@ + b.source.uri_spec() + "?"@ + join_sep(pieces_spec(b), "&"@)
}

/// The full URL of the search query `b`.
pub open spec fn search_url_spec(b: &SearchQueryBuilder) -> Seq<char> {
    base_url_spec() + query_path_spec(b)
}

impl SearchQueryBuilder {
    /// Starts a query over `source` with no filter set.
    pub fn new(source: SearchSource) -> (b: Self)
        ensures
            b.source == source,
            b.name is None,
            b.type_source is None,
            b.genres is None,
            b.page is None,
    {
        SearchQueryBuilder { source, name: None, type_source: None, genres: None, page: None }
    }

    /// Sets the name filter; the other fields stay.
    pub fn name(self, name: &str) -> (b: Self)
        ensures
            b.source == self.source,
            b.name matches Some(n) && n@ == name@,
            b.type_source == self.type_source,
            b.genres == self.genres,
            b.page == self.page,
    {
        SearchQueryBuilder { name: Some(String::from_str(name)), ..self }
    }

    /// Sets the format filter; the other fields stay.
    pub fn type_source(self, type_source: SearchSourceType) -> (b: Self)
        ensures
            b.source == self.source,
            b.name == self.name,
            b.type_source matches Some(t) && t == type_source,
            b.genres == self.genres,
            b.page == self.page,
    {
        SearchQueryBuilder { type_source: Some(type_source), ..self }
    }

    /// Sets the genre filter; the other fields stay.
    pub fn genre(self, genres: Genres) -> (b: Self)
        ensures
            b.source == self.source,
            b.name == self.name,
            b.type_source == self.type_source,
            b.genres matches Some(g) && g == genres,
            b.page == self.page,
    {
        SearchQueryBuilder { genres: Some(genres), ..self }
    }

    /// Sets the page filter; the other fields stay.
    pub fn page(self, page: u32) -> (b: Self)
        ensures
            b.source == self.source,
            b.name == self.name,
            b.type_source == self.type_source,
            b.genres == self.genres,
            b.page matches Some(p) && p == page,
    {
        SearchQueryBuilder { page: Some(page), ..self }
    }

    /// Renders the query path, for example
    /// `/search/anime?q=one p&type=tv&genre=27,2`.
    pub fn query_path(&self) -> (s: String)
        ensures
            s@ == query_path_spec(self),
    {
        let mut ps: Vec<String> = Vec::new();
        if let Some(n) = &self.name {
            let mut p = String::from_str("q=");
            p.append(n.as_str());
            ps.push(p);
        }
        if let Some(t) = &self.type_source {
            let mut p = String::from_str("type=");
            p.append(t.get_uri());
            ps.push(p);
        }
        if let Some(g) = &self.genres {
            let mut p = String::from_str("genre=");
            let csv = genres_csv(g);
            p.append(csv.as_str());
            ps.push(p);
        }
        if let Some(pg) = &self.page {
            let mut p = String::from_str("page=");
            let d = u32_to_dec(*pg);
            p.append(d.as_str());
            ps.push(p);
        }
        proof {
            assert(str_views(ps@) =~= pieces_spec(self));
        }
        let joined = join_strings(&ps, "&");
        let mut s = String::from_str("/search/");
        s.append(self.source.get_uri());
        s.append("?");
        s.append(joined.as_str());
        proof {
            assert(s@ =~= query_path_spec(self));
        }
        s
    }

    /// Builds the full URL of this query.
    pub fn search_url(&self) -> (s: String)
        ensures
            s@ == search_url_spec(self),
    {
        let mut s = String::from_str(base_url());
        let path = self.query_path();
        s.append(path.as_str());
        s
    }
}

/// A page of search results: the request trailer and the hits of the
/// shape the kind decodes into.
#[derive(Debug)]
pub struct SearchResult<T> {
    pub request_hash: String,
    pub request_cached: bool,
    pub request_cache_expiry: u32,
    pub results: Vec<T>,
    pub last_page: Option<u32>,
}

/// One anime hit. The upstream JSON carries the score as a fraction;
/// the library holds it in hundredths of a point.
#[derive(Debug)]
pub struct AnimeResult {
    pub mal_id: u32,
    pub url: String,
    pub image_url: String,
    pub title: String,
    pub airing: bool,
    pub synopsis: String,
    pub anime_type: String,
    pub episodes: Option<u16>,
    pub score: Option<u32>,
    pub start_date: Option<String>,
    pub end_date: Option<String>,
    pub members: Option<u32>,
    pub rated: Option<String>,
}

/// One manga hit. The upstream JSON carries the score as a fraction;
/// the library holds it in hundredths of a point.
#[derive(Debug)]
pub struct MangaResult {
    pub mal_id: u32,
    pub url: String,
    pub image_url: String,
    pub title: String,
    pub publishing: bool,
    pub synopsis: String,
    pub manga_type: String,
    pub chapters: Option<u32>,
    pub volumes: Option<u32>,
    pub score: Option<u32>,
    pub start_date: Option<String>,
    pub end_date: Option<String>,
    pub members: Option<u32>,
}

/// One person hit.
#[derive(Debug)]
pub struct PersonResult {
    pub mal_id: u32,
    pub url: String,
    pub image_url: String,
    pub name: String,
    pub alternative_names: Vec<String>,
}

/// One character hit.
#[derive(Debug)]
pub struct CharacterResult {
    pub mal_id: u32,
    pub url: String,
    pub image_url: String,
    pub name: String,
    pub alternative_names: Vec<String>,
    pub anime: Vec<MALTypeItem>,
    pub manga: Vec<MALTypeItem>,
}

/// The answer of the search endpoint, tagged by the kind that was
/// searched: each kind decodes into its own shape.
#[derive(Debug)]
pub enum SearchResultEnum {
    Anime(SearchResult<AnimeResult>),
    Manga(SearchResult<MangaResult>),
    Person(SearchResult<PersonResult>),
    Character(SearchResult<CharacterResult>),
}

impl SearchResultEnum {
    /// The kind whose search this answer belongs to.
    pub open spec fn source_spec(&self) -> SearchSource {
        match self {
            SearchResultEnum::Anime(_) => SearchSource::Anime,
            SearchResultEnum::Manga(_) => SearchSource::Manga,
            SearchResultEnum::Person(_) => SearchSource::Person,
            SearchResultEnum::Character(_) => SearchSource::Character,
        }
    }

    /// Unwraps an anime answer; any other kind gives nothing.
    pub fn anime(self) -> (r: Option<SearchResult<AnimeResult>>)
        ensures
            match self {
                SearchResultEnum::Anime(x) => (r matches Some(v) && v == x),
                _ => r is None,
            },
    {
        match self {
            SearchResultEnum::Anime(x) => Some(x),
            _ => None,
        }
    }

    /// Unwraps a manga answer; any other kind gives nothing.
    pub fn manga(self) -> (r: Option<SearchResult<MangaResult>>)
        ensures
            match self {
                SearchResultEnum::Manga(x) => (r matches Some(v) && v == x),
                _ => r is None,
            },
    {
        match self {
            SearchResultEnum::Manga(x) => Some(x),
            _ => None,
        }
    }

    /// Unwraps a person answer; any other kind gives nothing.
    pub fn person(self) -> (r: Option<SearchResult<PersonResult>>)
        ensures
            match self {
                SearchResultEnum::Person(x) => (r matches Some(v) && v == x),
                _ => r is None,
            },
    {
        match self {
            SearchResultEnum::Person(x) => Some(x),
            _ => None,
        }
    }

    /// Unwraps a character answer; any other kind gives nothing.
    pub fn character(self) -> (r: Option<SearchResult<CharacterResult>>)
        ensures
            match self {
                SearchResultEnum::Character(x) => (r matches Some(v) && v == x),
                _ => r is None,
            },
    {
        match self {
            SearchResultEnum::Character(x) => Some(x),
            _ => None,
        }
    }
}

} // verus!
