//! The names a caller of the library usually wants in scope.

pub use crate::anime::Aired;
pub use crate::anime::Anime;
pub use crate::base::AnimeInfo;
pub use crate::base::MALItem;
pub use crate::base::MALRoleItem;
pub use crate::base::MALTypeItem;
pub use crate::base::RelatedContent;
pub use crate::base::TypeSource;
pub use crate::manga::Manga;
pub use crate::manga::Published;
pub use crate::schedule::Schedule;
pub use crate::schedule::ScheduleOn;
pub use crate::search::AnimeGenre;
pub use crate::search::AnimeType;
pub use crate::search::Genres;
pub use crate::search::MangaGenre;
pub use crate::search::MangaType;
pub use crate::search::SearchQueryBuilder;
pub use crate::search::SearchResult;
pub use crate::search::SearchResultEnum;
pub use crate::search::SearchSource;
pub use crate::search::SearchSourceType;
pub use crate::season::AnimeSeason;
pub use crate::season::Season;
pub use crate::season::SeasonResult;
pub use crate::stats::AnimeStats;
pub use crate::stats::MangaStats;
pub use crate::stats::Stats;
