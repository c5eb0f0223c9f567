//! The settings of the program and their defaults.
use vstd::prelude::*;

verus! {

/// Which time an NFO file shows.
#[derive(Clone, Copy, Debug, PartialEq, Eq, Structural)]
pub enum NFOTimeType {
    FavTime,
    PubTime,
}

impl Default for NFOTimeType {
    fn default() -> (r: Self)
        ensures
            r == NFOTimeType::FavTime,
    {
        NFOTimeType::FavTime
    }
}

/// How much is downloaded at a time.
#[derive(Clone, Debug, PartialEq, Eq, Structural)]
pub struct ConcurrentLimit {
    pub video: usize,
    pub page: usize,
    pub rate_limit: Option<RateLimit>,
    pub download: ConcurrentDownloadLimit,
}

/// Whether and how a single file is downloaded in several parts.
#[derive(Clone, Copy, Debug, PartialEq, Eq, Structural)]
pub struct ConcurrentDownloadLimit {
    pub enable: bool,
    pub concurrency: usize,
    /// The size in bytes from which on a file is split.
    pub threshold: u64,
}

impl Default for ConcurrentDownloadLimit {
    /// Four parts, for files from 20 MB on.
    fn default() -> (r: Self)
        ensures
            r.enable,
            r.concurrency == 4,
            r.threshold == 20 * 1024 * 1024,
    {
        ConcurrentDownloadLimit { enable: true, concurrency: 4, threshold: 20971520 }
    }
}

/// At most `limit` requests in each `duration` milliseconds.
#[derive(Clone, Copy, Debug, PartialEq, Eq, Structural)]
pub struct RateLimit {
    pub limit: usize,
    pub duration: u64,
}

impl Default for ConcurrentLimit {
    /// Three videos, two pages each, and four requests in 250 ms.
    fn default() -> (r: Self)
        ensures
            r.video == 3,
            r.page == 2,
            r.rate_limit == Some(RateLimit { limit: 4, duration: 250 }),
            r.download.enable,
            r.download.concurrency == 4,
            r.download.threshold == 20 * 1024 * 1024,
    {
        ConcurrentLimit {
            video: 3,
            page: 2,
            rate_limit: Some(RateLimit { limit: 4, duration: 250 }),
            download: ConcurrentDownloadLimit::default(),
        }
    }
}

/// What is left out of a download.
#[derive(Clone, Copy, Debug, PartialEq, Eq, Structural)]
pub struct SkipOption {
    pub no_poster: bool,
    pub no_video_nfo: bool,
    pub no_upper: bool,
    pub no_danmaku: bool,
    pub no_subtitle: bool,
}

impl Default for SkipOption {
    /// Nothing is left out.
    fn default() -> (r: Self)
        ensures
            !r.no_poster && !r.no_video_nfo && !r.no_upper && !r.no_danmaku && !r.no_subtitle,
    {
        SkipOption {
            no_poster: false,
            no_video_nfo: false,
            no_upper: false,
            no_danmaku: false,
            no_subtitle: false,
        }
    }
}

/// When a background task runs: every so many seconds, or by a cron expression.
#[derive(Debug)]
pub enum Trigger {
    Interval(u64),
    Cron(String),
}

impl Clone for Trigger {
    fn clone(&self) -> (r: Self)
        ensures
            r == *self,
    {
        match self {
            Trigger::Interval(secs) => Trigger::Interval(*secs),
            Trigger::Cron(cron) => Trigger::Cron(cron.clone()),
        }
    }
}

impl Default for Trigger {
    /// Every twenty minutes.
    fn default() -> (r: Self)
        ensures
            r == Trigger::Interval(1200),
    {
        Trigger::Interval(1200)
    }
}

/// The settings of the automatic management of uploaders.
#[derive(Debug)]
pub struct UpperAutoManageOption {
    /// Whether inspections run by themselves.
    pub enabled: bool,
    /// When inspections run.
    pub interval: Trigger,
    /// An uploader who has not published for more days than this is disabled.
    pub inactive_threshold_days: i64,
    /// How many disabled uploaders are checked at a time.
    pub check_concurrency: usize,
}

impl Clone for UpperAutoManageOption {
    fn clone(&self) -> (r: Self)
        ensures
            r == *self,
    {
        UpperAutoManageOption {
            enabled: self.enabled,
            interval: self.interval.clone(),
            inactive_threshold_days: self.inactive_threshold_days,
            check_concurrency: self.check_concurrency,
        }
    }
}

impl Default for UpperAutoManageOption {
    /// Off; every six hours, ninety days, three at a time.
    fn default() -> (r: Self)
        ensures
            !r.enabled,
            r.interval matches Trigger::Interval(secs) && secs == 6 * 3600,
            r.inactive_threshold_days == 90,
            r.check_concurrency == 3,
    {
        UpperAutoManageOption {
            enabled: false,
            interval: Trigger::Interval(21600),
            inactive_threshold_days: 90,
            check_concurrency: 3,
        }
    }
}

} // verus!
