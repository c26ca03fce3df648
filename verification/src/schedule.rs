//! The schedule endpoint: the airing schedule of a weekday, of the
//! other or unknown buckets, or of the whole week.

use vstd::prelude::*;
use vstd::string::StringExecFns;

use crate::base::AnimeInfo;
use crate::client::base_url_spec;
use crate::client::base_url;

verus! {

/// Which part of the week's schedule is asked for.
#[derive(Debug)]
pub enum ScheduleOn {
    All,
    Monday,
    Tuesday,
    Wednesday,
    Thursday,
    Friday,
    Saturday,
    Sunday,
    Other,
    Unknown,
}

impl ScheduleOn {
    /// The URI fragment for this bucket: the day word in lower case,
    /// and nothing for the whole week.
    pub open spec fn uri_spec(&self) -> Seq<char> {
        match self {
            ScheduleOn::All => Seq::<char>::empty(),
            ScheduleOn::Monday => "monday"@,
            ScheduleOn::Tuesday => "tuesday"@,
            ScheduleOn::Wednesday => "wednesday"@,
            ScheduleOn::Thursday => "thursday"@,
            ScheduleOn::Friday => "friday"@,
            ScheduleOn::Saturday => "saturday"@,
            ScheduleOn::Sunday => "sunday"@,
            ScheduleOn::Other => "other"@,
            ScheduleOn::Unknown => "unknown"@,
        }
    }

    /// Renders the URI fragment, for example `monday`, and the empty
    /// string for the whole week.
    pub fn get_uri(&self) -> (s: String)
        ensures
            s@ == self.uri_spec(),
    {
        match self {
            ScheduleOn::All => String::new(),
            ScheduleOn::Monday => String::from_str("monday"),
            ScheduleOn::Tuesday => String::from_str("tuesday"),
            ScheduleOn::Wednesday => String::from_str("wednesday"),
            ScheduleOn::Thursday => String::from_str("thursday"),
            ScheduleOn::Friday => String::from_str("friday"),
            ScheduleOn::Saturday => String::from_str("saturday"),
            ScheduleOn::Sunday => String::from_str("sunday"),
            ScheduleOn::Other => String::from_str("other"),
            ScheduleOn::Unknown => String::from_str("unknown"),
        }
    }
}

/// The URL of the schedule for `on`. The whole week keeps the trailing
/// slash, since its fragment is empty.
pub open spec fn schedule_url_spec(on: &ScheduleOn) -> Seq<char> {
    base_url_spec() + "/schedule/"@ + on.uri_spec()
}

/// Builds the URL of the schedule for `on`.
pub fn schedule_url(on: &ScheduleOn) -> (s: String)
    ensures
        s@ == schedule_url_spec(on),
{
    let mut s = String::from_str(base_url());
    s.append("/schedule/");
    let uri = on.get_uri();
    s.append(uri.as_str());
    s
}

/// The response of the schedule endpoint: one list of anime per
/// bucket. A bucket the response leaves out stays empty.
#[derive(Debug)]
pub struct Schedule {
    pub request_hash: String,
    pub request_cached: bool,
    pub request_cache_expiry: u32,
    pub monday: Vec<AnimeInfo>,
    pub tuesday: Vec<AnimeInfo>,
    pub wednesday: Vec<AnimeInfo>,
    pub thursday: Vec<AnimeInfo>,
    pub friday: Vec<AnimeInfo>,
    pub saturday: Vec<AnimeInfo>,
    pub sunday: Vec<AnimeInfo>,
    pub other: Vec<AnimeInfo>,
    pub unknown: Vec<AnimeInfo>,
}

/// The content of a schedule bucket that the response leaves out: no
/// anime at all.
pub fn default_content() -> (v: Vec<AnimeInfo>)
    ensures
        v@ == Seq::<AnimeInfo>::empty(),
{
    Vec::with_capacity(0)
}

} // verus!
