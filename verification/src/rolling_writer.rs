//! Log files that roll over with time: how they are named, when a new one
//! begins, and which old ones are removed.

use chrono::NaiveDate;
use vstd::prelude::*;
use vstd::string::*;

use crate::text::{
    concat2, concat3, digit, ends_with, has_prefix, has_suffix, lemma_prefix_of_concat,
    lemma_suffix_of_concat, same, starts_with, strip_prefix, strip_suffix,
};

verus! {

/// How long a log file is written to before the next one begins.
#[derive(Clone, Copy, Debug, PartialEq, Eq, Structural)]
pub enum Rotation {
    Minutely,
    Hourly,
    Daily,
    Weekly,
    /// Treated as `Weekly`.
    Never,
}

/// What a writer of log files is configured with.
pub struct WriterConfig {
    /// Prefix for log file names (e.g., "app" results in "app.2024-01-15.log").
    pub file_prefix: String,
    /// Suffix for log file names (typically ".log").
    pub file_suffix: String,
    /// Time period for automatic rotation.
    pub rotation: Rotation,
    /// Maximum total size in bytes of all log files before cleanup.
    pub max_total_size_bytes: u64,
    /// Maximum age in seconds before a log file is removed during cleanup.
    pub max_age_seconds: u64,
}

/// A date and a time of day.
#[derive(Clone, Copy, Debug, PartialEq, Eq, Structural)]
pub struct CivilTime {
    pub year: i32,
    pub month: u32,
    pub day: u32,
    pub hour: u32,
    pub minute: u32,
}

/// Whether the year has a 29th of February.
pub open spec fn is_leap_year(year: int) -> bool {
    year % 4 == 0 && (year % 100 != 0 || year % 400 == 0)
}

/// The number of days of a month.
pub open spec fn days_in_month(year: int, month: int) -> int {
    if month == 2 {
        if is_leap_year(year) {
            29
        } else {
            28
        }
    } else if month == 4 || month == 6 || month == 9 || month == 11 {
        30
    } else {
        31
    }
}

/// Whether the date exists in the Gregorian calendar, in a year of at most
/// four digits, and the time of day on the clock.
pub open spec fn is_ordinary_time(time: CivilTime) -> bool {
    &&& 0 <= time.year <= 9999
    &&& 1 <= time.month <= 12
    &&& 1 <= time.day <= days_in_month(time.year as int, time.month as int)
    &&& time.hour < 24
    &&& time.minute < 60
}

/// A number with two digits.
pub open spec fn padded2(n: int) -> Seq<char> {
    seq![digit((n / 10 % 10) as nat), digit((n % 10) as nat)]
}

/// A number with four digits.
pub open spec fn padded4(n: int) -> Seq<char> {
    seq![
        digit((n / 1000 % 10) as nat),
        digit((n / 100 % 10) as nat),
        digit((n / 10 % 10) as nat),
        digit((n % 10) as nat),
    ]
}

/// `YYYY-MM-DD`.
pub open spec fn date_text(time: CivilTime) -> Seq<char> {
    padded4(time.year as int) + seq!['-'] + padded2(time.month as int) + seq!['-'] + padded2(
        time.day as int,
    )
}

/// `YYYY-MM-DD-HH`.
pub open spec fn hour_text(time: CivilTime) -> Seq<char> {
    date_text(time) + seq!['-'] + padded2(time.hour as int)
}

/// `YYYY-MM-DD-HH-MM`.
pub open spec fn minute_text(time: CivilTime) -> Seq<char> {
    hour_text(time) + seq!['-'] + padded2(time.minute as int)
}

/// How many days there are before a year, from the first day of the year 1 on.
pub open spec fn days_before_year(year: int) -> int {
    365 * (year - 1) + (year - 1) / 4 - (year - 1) / 100 + (year - 1) / 400
}

/// How many days of a year there are before a month.
pub open spec fn days_before_month(year: int, month: int) -> int
    decreases month,
{
    if month <= 1 {
        0
    } else {
        days_before_month(year, month - 1) + days_in_month(year, month - 1)
    }
}

/// The number of a day. The first day of the year 1, a Monday, has the number 0.
pub open spec fn day_number(time: CivilTime) -> int {
    days_before_year(time.year as int) + days_before_month(time.year as int, time.month as int)
        + time.day - 1
}

/// The number of a week. Weeks begin on Mondays.
pub open spec fn week_number(time: CivilTime) -> int {
    day_number(time) / 7
}

/// The number of the Thursday of a week.
pub open spec fn thursday(time: CivilTime) -> int {
    7 * week_number(time) + 3
}

/// The year that a week belongs to: the one of its Thursday.
pub open spec fn iso_year(time: CivilTime) -> int {
    if thursday(time) < days_before_year(time.year as int) {
        time.year - 1
    } else if thursday(time) >= days_before_year(time.year + 1) {
        time.year + 1
    } else {
        time.year as int
    }
}

/// Which week of its year a week is.
pub open spec fn iso_week(time: CivilTime) -> int {
    (thursday(time) - days_before_year(iso_year(time))) / 7 + 1
}

/// `YYYY-Www`.
pub open spec fn week_text(time: CivilTime) -> Seq<char> {
    padded4(iso_year(time)) + seq!['-', 'W'] + padded2(iso_week(time))
}

/// Whether the week of a time belongs to a year of at most four digits.
pub open spec fn has_ordinary_week(time: CivilTime) -> bool {
    is_ordinary_time(time) && 0 <= iso_year(time) <= 9999
}

/// The format of the timestamp of a rotation period, in the notation of
/// `strftime`. Weeks are those of ISO 8601, with the year that they belong to.
pub open spec fn rotation_format(rotation: Rotation) -> Seq<char> {
    match rotation {
        Rotation::Minutely => "%Y-%m-%d-%H-%M"@,
        Rotation::Hourly => "%Y-%m-%d-%H"@,
        Rotation::Daily => "%Y-%m-%d"@,
        Rotation::Weekly | Rotation::Never => "%G-W%V"@,
    }
}

/// The text of a time in a format.
pub uninterp spec fn formatted_time(
    year: int,
    month: nat,
    day: nat,
    hour: nat,
    minute: nat,
    format: Seq<char>,
) -> Option<Seq<char>>;

/// The text of a time in a format.
pub open spec fn time_text(time: CivilTime, format: Seq<char>) -> Option<Seq<char>> {
    formatted_time(
        time.year as int,
        time.month as nat,
        time.day as nat,
        time.hour as nat,
        time.minute as nat,
        format,
    )
}

/// The views of an optional string.
pub open spec fn opt_view(s: Option<String>) -> Option<Seq<char>> {
    match s {
        Some(s) => Some(s@),
        None => None,
    }
}

/// `chrono::NaiveDate::from_ymd_opt`, `and_hms_opt` and the text of
/// `chrono::NaiveDateTime::format`. Claimed: the text depends on the time and
/// the format alone; every ordinary time has one; those of the formats that
/// are made of the year, month, day, hour and minute are these numbers, padded
/// with zeros, with hyphens between them; that of the format with the week is made
/// of the week of ISO 8601 and the year that it belongs to, where that year has at
/// most four digits.
#[verifier::external_body]
fn format_time(time: CivilTime, format: &str) -> (r: Option<String>)
    requires
        exists|rotation: Rotation| format@ == #[trigger] rotation_format(rotation),
    ensures
        opt_view(r) == formatted_time(
            time.year as int,
            time.month as nat,
            time.day as nat,
            time.hour as nat,
            time.minute as nat,
            format@,
        ),
        is_ordinary_time(time) ==> r is Some,
        is_ordinary_time(time) && format@ == rotation_format(Rotation::Minutely) ==> r->0@
            == minute_text(time),
        is_ordinary_time(time) && format@ == rotation_format(Rotation::Hourly) ==> r->0@
            == hour_text(time),
        is_ordinary_time(time) && format@ == rotation_format(Rotation::Daily) ==> r->0@
            == date_text(time),
        has_ordinary_week(time) && format@ == rotation_format(Rotation::Weekly) ==> r->0@
            == week_text(time),
{
    NaiveDate::from_ymd_opt(time.year, time.month, time.day)
        .and_then(|date| date.and_hms_opt(time.hour, time.minute, 0))
        .map(|time| time.format(format).to_string())
}

/// The name of the log file of a period: `{prefix}.{timestamp}{suffix}`.
pub open spec fn file_name(config: WriterConfig, timestamp: Seq<char>) -> Seq<char> {
    config.file_prefix@ + "."@ + timestamp + config.file_suffix@
}

/// The timestamp in the name of a log file.
pub open spec fn timestamp_in(config: WriterConfig, name: Seq<char>) -> Option<Seq<char>> {
    let head = config.file_prefix@ + "."@;
    let rest = name.subrange(head.len() as int, name.len() as int);
    if has_prefix(name, head) && has_suffix(rest, config.file_suffix@) {
        Some(rest.subrange(0, rest.len() - config.file_suffix@.len()))
    } else {
        None
    }
}

/// Whether a name is one of a log file that the writer manages.
pub open spec fn is_managed(config: WriterConfig, name: Seq<char>) -> bool {
    has_prefix(name, config.file_prefix@) && has_suffix(name, config.file_suffix@)
}

/// What is known of an entry of the log directory.
pub struct DirEntry {
    /// Its name, if that is text.
    pub name: Option<String>,
    pub is_file: bool,
    /// When it was last written to, in nanoseconds since the Unix epoch, if
    /// that could be read.
    pub modified: Option<i128>,
    /// Its size in bytes, if that could be read.
    pub size: Option<u64>,
}

/// A log file that the writer manages.
pub struct LogFile {
    pub name: String,
    /// When it was last written to, in nanoseconds since the Unix epoch.
    pub modified: i128,
    /// Its size in bytes.
    pub size: u64,
}

/// The metadata of a log file that the writer manages could not be read.
pub struct MetadataError {
    /// The name of the file.
    pub name: String,
}

/// Whether an entry is a log file that the writer manages.
pub open spec fn is_log_file(config: WriterConfig, entry: DirEntry) -> bool {
    entry.is_file && entry.name is Some && is_managed(config, entry.name->0@)
}

/// Whether an entry is a log file whose metadata could not be read.
pub open spec fn is_unreadable(config: WriterConfig, entry: DirEntry) -> bool {
    is_log_file(config, entry) && (entry.modified is None || entry.size is None)
}

/// The log file that an entry is, if it is one and its metadata could be read.
pub open spec fn as_log_file(config: WriterConfig, entry: DirEntry) -> Option<LogFile> {
    if is_log_file(config, entry) && !is_unreadable(config, entry) {
        Some(
            LogFile { name: entry.name->0, modified: entry.modified->0, size: entry.size->0 },
        )
    } else {
        None
    }
}

/// The log files among the entries, in their order.
pub open spec fn log_files(config: WriterConfig, entries: Seq<DirEntry>) -> Seq<LogFile>
    decreases entries.len(),
{
    if entries.len() == 0 {
        Seq::empty()
    } else {
        let before = log_files(config, entries.drop_last());
        match as_log_file(config, entries.last()) {
            Some(file) => before.push(file),
            None => before,
        }
    }
}

/// The files that were last written to at a given time, in their order.
pub open spec fn written_at(files: Seq<LogFile>, time: i128) -> Seq<LogFile> {
    files.filter(|file: LogFile| file.modified == time)
}

/// Whether the files stand in the order in which they were written to.
pub open spec fn oldest_first(files: Seq<LogFile>) -> bool {
    forall|i: int, j: int|
        0 <= i <= j < files.len() ==> (#[trigger] files[i]).modified <= (
        #[trigger] files[j]).modified
}

/// Whether `sorted` holds the files of `files`, oldest first, those of the
/// same age in the order that they had.
pub open spec fn is_sorted_from(sorted: Seq<LogFile>, files: Seq<LogFile>) -> bool {
    &&& oldest_first(sorted)
    &&& forall|time: i128| #[trigger] written_at(sorted, time) == written_at(files, time)
}

/// Whether a file is older than the given number of seconds. One from the
/// future is not.
pub open spec fn is_older(modified: i128, now: i128, max_age_seconds: u64) -> bool {
    now >= modified && (now - modified) / 1_000_000_000 > max_age_seconds
}

/// Whether a file is removed for its age.
pub open spec fn is_outdated(
    file: LogFile,
    current: Seq<char>,
    now: i128,
    max_age_seconds: u64,
) -> bool {
    file.name@ != current && is_older(file.modified, now, max_age_seconds)
}

/// The names of files.
pub open spec fn names(files: Seq<LogFile>) -> Seq<Seq<char>> {
    files.map_values(|file: LogFile| file.name@)
}

/// The files that are removed for their age.
pub open spec fn outdated(
    files: Seq<LogFile>,
    current: Seq<char>,
    now: i128,
    max_age_seconds: u64,
) -> Seq<LogFile> {
    files.filter(|file: LogFile| is_outdated(file, current, now, max_age_seconds))
}

/// The sizes of all files together.
pub open spec fn total_size(files: Seq<LogFile>) -> int
    decreases files.len(),
{
    if files.len() == 0 {
        0
    } else {
        total_size(files.drop_last()) + files.last().size
    }
}

/// Whether a file may be removed to make room: any but the current one.
pub open spec fn is_removable(file: LogFile, current: Seq<char>) -> bool {
    file.name@ != current
}

/// The files that may be removed to make room.
pub open spec fn removable(files: Seq<LogFile>, current: Seq<char>) -> Seq<LogFile> {
    files.filter(|file: LogFile| is_removable(file, current))
}

/// How many of the candidates go, from the first on, until the total is
/// within the limit.
pub open spec fn eviction_count(candidates: Seq<LogFile>, total: int, limit: int) -> nat
    decreases candidates.len(),
{
    if total <= limit || candidates.len() == 0 {
        0
    } else {
        1 + eviction_count(candidates.drop_first(), total - candidates[0].size, limit)
    }
}

/// The files that are removed to keep within the limit.
pub open spec fn evicted(files: Seq<LogFile>, current: Seq<char>, limit: int) -> Seq<LogFile> {
    let candidates = removable(files, current);
    candidates.take(eviction_count(candidates, total_size(files), limit) as int)
}

impl Rotation {
    /// The format of the timestamp of the period.
    pub fn format(&self) -> (r: &'static str)
        ensures
            r@ == rotation_format(*self),
    {
        match self {
            Rotation::Minutely => "%Y-%m-%d-%H-%M",
            Rotation::Hourly => "%Y-%m-%d-%H",
            Rotation::Daily => "%Y-%m-%d",
            Rotation::Weekly | Rotation::Never => "%G-W%V",
        }
    }
}

impl WriterConfig {
    /// The timestamp of the period that the time lies in; none for a time
    /// that is not one.
    pub fn format_rotation_timestamp(&self, time: CivilTime) -> (r: Option<String>)
        ensures
            opt_view(r) == time_text(time, rotation_format(self.rotation)),
            is_ordinary_time(time) ==> r is Some,
            is_ordinary_time(time) && self.rotation is Minutely ==> r->0@ == minute_text(time),
            is_ordinary_time(time) && self.rotation is Hourly ==> r->0@ == hour_text(time),
            is_ordinary_time(time) && self.rotation is Daily ==> r->0@ == date_text(time),
            has_ordinary_week(time) && (self.rotation is Weekly || self.rotation is Never)
                ==> r->0@ == week_text(time),
    {
        format_time(time, self.rotation.format())
    }

    /// The name of the log file of a period.
    pub fn log_file_name(&self, timestamp: &str) -> (r: String)
        ensures
            r@ == file_name(*self, timestamp@),
    {
        let head: String = concat3(self.file_prefix.as_str(), ".", timestamp);
        concat2(head.as_str(), self.file_suffix.as_str())
    }

    /// Extract the timestamp from the name of a log file.
    pub fn extract_timestamp(&self, name: &str) -> (r: Option<String>)
        ensures
            opt_view(r) == timestamp_in(*self, name@),
    {
        let head: String = concat2(self.file_prefix.as_str(), ".");
        match strip_prefix(name, head.as_str()) {
            Some(rest) => match strip_suffix(rest, self.file_suffix.as_str()) {
                Some(timestamp) => Some(timestamp.to_owned()),
                None => None,
            },
            None => None,
        }
    }

    /// Check if rotation is needed based on time period change: the current
    /// file is of another period, or its name tells of none.
    pub fn should_rotate_by_time(&self, current: &str, timestamp: &str) -> (r: bool)
        ensures
            r == (timestamp_in(*self, current@) != Some(timestamp@)),
    {
        match self.extract_timestamp(current) {
            Some(last) => !same(last.as_str(), timestamp),
            None => true,
        }
    }

    /// The name of the file to open next, if one is to be opened: with
    /// `check_conditions` only where there is no current file or the period
    /// has changed, else always.
    pub fn rotate(&self, current: Option<&str>, check_conditions: bool, timestamp: &str) -> (r:
        Option<String>)
        ensures
            r is None <==> (check_conditions && current is Some && timestamp_in(
                *self,
                current->0@,
            ) == Some(timestamp@)),
            r matches Some(name) ==> name@ == file_name(*self, timestamp@),
    {
        if check_conditions {
            if let Some(name) = current {
                if !self.should_rotate_by_time(name, timestamp) {
                    return None;
                }
            }
        }
        Some(self.log_file_name(timestamp))
    }

    /// The log file that an entry is, if it is one.
    fn to_log_file(&self, entry: &DirEntry) -> (r: Result<Option<LogFile>, MetadataError>)
        ensures
            match r {
                Ok(file) => !is_unreadable(*self, *entry) && file == as_log_file(*self, *entry),
                Err(error) => is_unreadable(*self, *entry) && error.name == entry.name->0,
            },
    {
        match &entry.name {
            Some(name) => if entry.is_file && starts_with(name.as_str(), self.file_prefix.as_str())
                && ends_with(name.as_str(), self.file_suffix.as_str()) {
                match (entry.modified, entry.size) {
                    (Some(modified), Some(size)) => Ok(
                        Some(LogFile { name: name.clone(), modified, size }),
                    ),
                    _ => Err(MetadataError { name: name.clone() }),
                }
            } else {
                Ok(None)
            },
            None => Ok(None),
        }
    }

    /// Get all log files matching our prefix and suffix, sorted by
    /// modification time, oldest first. It is an error if the metadata of one of
    /// them could not be read; the first such file is told.
    pub fn matching_log_files(&self, entries: &Vec<DirEntry>) -> (r: Result<
        Vec<LogFile>,
        MetadataError,
    >)
        ensures
            match r {
                Ok(files) => {
                    &&& forall|i: int|
                        0 <= i < entries@.len() ==> !is_unreadable(*self, #[trigger] entries@[i])
                    &&& is_sorted_from(files@, log_files(*self, entries@))
                },
                Err(error) => exists|i: int|
                    {
                        &&& 0 <= i < entries@.len()
                        &&& is_unreadable(*self, #[trigger] entries@[i])
                        &&& error.name == entries@[i].name->0
                        &&& forall|j: int|
                            0 <= j < i ==> !is_unreadable(*self, #[trigger] entries@[j])
                    },
            },
    {
        let mut sorted: Vec<LogFile> = Vec::new();
        let mut i: usize = 0;
        while i < entries.len()
            invariant
                i <= entries.len(),
                forall|j: int| 0 <= j < i ==> !is_unreadable(*self, #[trigger] entries@[j]),
                is_sorted_from(sorted@, log_files(*self, entries@.take(i as int))),
            decreases entries.len() - i,
        {
            proof {
                assert(entries@.take(i as int + 1).drop_last() =~= entries@.take(i as int));
            }
            match self.to_log_file(&entries[i]) {
                Ok(Some(file)) => {
                    insert_by_age(
                        &mut sorted,
                        file,
                        Ghost(log_files(*self, entries@.take(i as int))),
                    );
                },
                Ok(None) => {},
                Err(error) => {
                    assert(is_unreadable(*self, entries@[i as int]));
                    return Err(error);
                },
            }
            i = i + 1;
        }
        assert(entries@.take(i as int) =~= entries@);
        Ok(sorted)
    }

    /// The names of the log files, other than the current one, that are older
    /// than the configured max age.
    pub fn trim_old_logs(&self, files: &Vec<LogFile>, current: &str, now: i128) -> (r: Vec<String>)
        ensures
            crate::text::views(r@) == names(
                outdated(files@, current@, now, self.max_age_seconds),
            ),
    {
        let mut out: Vec<String> = Vec::new();
        let ghost keep = |file: LogFile| is_outdated(file, current@, now, self.max_age_seconds);
        let mut i: usize = 0;
        proof {
            assert(files@.take(0).filter(keep) =~= Seq::empty()) by {
                reveal(Seq::filter);
            }
        }
        while i < files.len()
            invariant
                i <= files.len(),
                keep == (|file: LogFile| is_outdated(file, current@, now, self.max_age_seconds)),
                crate::text::views(out@) =~= names(files@.take(i as int).filter(keep)),
            decreases files.len() - i,
        {
            let file: &LogFile = &files[i];
            proof {
                assert(files@.take(i as int + 1).drop_last() =~= files@.take(i as int));
                reveal(Seq::filter);
            }
            let ghost before = out@;
            if !same(file.name.as_str(), current) && older(
                file.modified,
                now,
                self.max_age_seconds,
            ) {
                out.push(file.name.clone());
                assert(crate::text::views(out@) =~= crate::text::views(before).push(file.name@));
            }
            i = i + 1;
        }
        assert(files@.take(i as int) =~= files@);
        out
    }

    /// The names of the log files to remove, oldest first, for the total size
    /// to come within the limit. The current file stays.
    pub fn enforce_total_size_limit(&self, files: &Vec<LogFile>, current: &str) -> (r: Vec<String>)
        requires
            total_size(files@) <= u64::MAX,
        ensures
            crate::text::views(r@) == names(
                evicted(files@, current@, self.max_total_size_bytes as int),
            ),
    {
        let max_total: u64 = self.max_total_size_bytes;
        let mut total: u64 = sum_sizes(files);
        let mut out: Vec<String> = Vec::new();
        let ghost may_go = |file: LogFile| is_removable(file, current@);
        let ghost candidates = removable(files@, current@);
        let ghost count = eviction_count(candidates, total as int, max_total as int);
        proof {
            lemma_eviction_bound(candidates, total as int, max_total as int);
        }
        if total <= max_total {
            assert(crate::text::views(out@) =~= names(candidates.take(0)));
            return out;
        }
        let mut i: usize = 0;
        let ghost mut gone: int = 0;
        assert(files@.skip(0) =~= files@);
        assert(candidates.skip(0) =~= candidates);
        while i < files.len()
            invariant
                i <= files.len(),
                may_go == (|file: LogFile| is_removable(file, current@)),
                candidates == removable(files@, current@),
                0 <= gone <= candidates.len(),
                files@.skip(i as int).filter(may_go) == candidates.skip(gone),
                total_size(files@.skip(i as int)) <= total,
                total > max_total,
                crate::text::views(out@) =~= names(candidates.take(gone)),
                count == gone + eviction_count(
                    candidates.skip(gone),
                    total as int,
                    max_total as int,
                ),
                count <= candidates.len(),
                count == eviction_count(candidates, total_size(files@), max_total as int),
                max_total == self.max_total_size_bytes,
            decreases files.len() - i,
        {
            let file: &LogFile = &files[i];
            let ghost rest = files@.skip(i as int);
            proof {
                assert(rest[0] == *file);
                assert(rest.drop_first() =~= files@.skip(i as int + 1));
                lemma_filter_first(rest, may_go);
                lemma_total_size_first(rest);
                lemma_total_size_nonnegative(rest.drop_first());
            }
            if !same(file.name.as_str(), current) {
                proof {
                    assert(candidates.skip(gone)[0] == *file);
                    assert(candidates.skip(gone).drop_first() =~= candidates.skip(gone + 1));
                    assert(candidates.take(gone + 1) =~= candidates.take(gone).push(*file));
                    assert(files@.skip(i as int + 1).filter(may_go) =~= candidates.skip(gone + 1));
                    gone = gone + 1;
                }
                let ghost before = out@;
                out.push(file.name.clone());
                assert(crate::text::views(out@) =~= crate::text::views(before).push(file.name@));
                assert(names(candidates.take(gone)) =~= names(candidates.take(gone - 1)).push(
                    file.name@,
                ));
                total = total - file.size;
                if total <= max_total {
                    assert(eviction_count(candidates.skip(gone), total as int, max_total as int)
                        == 0);
                    assert(count == gone);
                    return out;
                }
            }
            i = i + 1;
        }
        proof {
            assert(files@.skip(i as int) =~= Seq::empty());
            assert(files@.skip(i as int).filter(may_go).len() == 0) by {
                reveal(Seq::filter);
            }
        }
        out
    }
}

/// Whether a file is older than the given number of seconds.
fn older(modified: i128, now: i128, max_age_seconds: u64) -> (r: bool)
    ensures
        r == is_older(modified, now, max_age_seconds),
{
    if now < modified {
        return false;
    }
    match now.checked_sub(modified) {
        Some(age) => age / 1_000_000_000 > max_age_seconds as i128,
        None => true,
    }
}

/// The sizes of all files together.
fn sum_sizes(files: &Vec<LogFile>) -> (r: u64)
    requires
        total_size(files@) <= u64::MAX,
    ensures
        r == total_size(files@),
{
    let mut total: u64 = 0;
    let mut i: usize = 0;
    while i < files.len()
        invariant
            i <= files.len(),
            total == total_size(files@.take(i as int)),
            total_size(files@) <= u64::MAX,
        decreases files.len() - i,
    {
        proof {
            assert(files@.take(i as int + 1).drop_last() =~= files@.take(i as int));
            lemma_total_size_take(files@, i as int + 1);
        }
        total = total + files[i].size;
        i = i + 1;
    }
    assert(files@.take(i as int) =~= files@);
    total
}

/// Puts a file behind all those that are not younger.
fn insert_by_age(sorted: &mut Vec<LogFile>, file: LogFile, files: Ghost<Seq<LogFile>>)
    requires
        is_sorted_from(old(sorted)@, files@),
    ensures
        is_sorted_from(final(sorted)@, files@.push(file)),
{
    let mut i: usize = sorted.len();
    while i > 0 && sorted[i - 1].modified > file.modified
        invariant
            i <= sorted.len(),
            *sorted == *old(sorted),
            forall|j: int| i <= j < sorted@.len() ==> (#[trigger] sorted@[j]).modified > file.modified,
        decreases i,
    {
        i = i - 1;
    }
    let ghost before = sorted@;
    sorted.insert(i, file);
    proof {
        let head = before.take(i as int);
        let tail = before.skip(i as int);
        assert(before =~= head + tail);
        assert(sorted@ =~= head + seq![file] + tail);
        assert forall|time: i128| #[trigger]
            written_at(sorted@, time) == written_at(files@.push(file), time) by {
            let at = |f: LogFile| f.modified == time;
            assert(written_at(before, time) == written_at(files@, time));
            lemma_filter_add(head + seq![file], tail, at);
            lemma_filter_add(head, seq![file], at);
            lemma_filter_add(head, tail, at);
            lemma_filter_one(file, at);
            if file.modified == time {
                lemma_filter_none(tail, at);
            }
            assert(files@.push(file) =~= files@ + seq![file]);
            lemma_filter_add(files@, seq![file], at);
            assert(written_at(sorted@, time) =~= written_at(files@.push(file), time));
        }
    }
}

/// Choosing from two sequences, one after the other.
proof fn lemma_filter_add(a: Seq<LogFile>, b: Seq<LogFile>, keep: spec_fn(LogFile) -> bool)
    ensures
        (a + b).filter(keep) == a.filter(keep) + b.filter(keep),
{
    Seq::filter_distributes_over_add(a, b, keep);
}

/// Choosing from one file.
proof fn lemma_filter_one(file: LogFile, keep: spec_fn(LogFile) -> bool)
    ensures
        seq![file].filter(keep) == (if keep(file) {
            seq![file]
        } else {
            Seq::empty()
        }),
{
    reveal(Seq::filter);
    assert(seq![file].drop_last() =~= Seq::empty());
    assert(Seq::<LogFile>::empty().filter(keep) =~= Seq::empty());
    assert(seq![file].filter(keep) =~= (if keep(file) {
        seq![file]
    } else {
        Seq::empty()
    }));
}

/// Choosing nothing.
proof fn lemma_filter_none(files: Seq<LogFile>, keep: spec_fn(LogFile) -> bool)
    requires
        forall|i: int| 0 <= i < files.len() ==> !keep(#[trigger] files[i]),
    ensures
        files.filter(keep) == Seq::<LogFile>::empty(),
    decreases files.len(),
{
    reveal(Seq::filter);
    if files.len() > 0 {
        lemma_filter_none(files.drop_last(), keep);
    }
}

/// Choosing from a sequence, from its first file on.
proof fn lemma_filter_first(files: Seq<LogFile>, keep: spec_fn(LogFile) -> bool)
    requires
        files.len() > 0,
    ensures
        files.filter(keep) == (if keep(files[0]) {
            seq![files[0]]
        } else {
            Seq::empty()
        }) + files.drop_first().filter(keep),
{
    assert(files =~= seq![files[0]] + files.drop_first());
    lemma_filter_add(seq![files[0]], files.drop_first(), keep);
    lemma_filter_one(files[0], keep);
}

/// Sizes are not negative.
proof fn lemma_total_size_nonnegative(files: Seq<LogFile>)
    ensures
        total_size(files) >= 0,
    decreases files.len(),
{
    if files.len() > 0 {
        lemma_total_size_nonnegative(files.drop_last());
    }
}

/// The first files are not larger than all of them.
proof fn lemma_total_size_take(files: Seq<LogFile>, n: int)
    requires
        0 <= n <= files.len(),
    ensures
        total_size(files.take(n)) <= total_size(files),
    decreases files.len(),
{
    if n == files.len() {
        assert(files.take(n) =~= files);
    } else {
        assert(files.drop_last().take(n) =~= files.take(n));
        lemma_total_size_take(files.drop_last(), n);
    }
}

/// The total, from the first file on.
proof fn lemma_total_size_first(files: Seq<LogFile>)
    requires
        files.len() > 0,
    ensures
        total_size(files) == files[0].size + total_size(files.drop_first()),
    decreases files.len(),
{
    if files.len() == 1 {
        assert(files.drop_last() =~= Seq::empty());
        assert(files.drop_first() =~= Seq::empty());
    } else {
        lemma_total_size_first(files.drop_last());
        assert(files.drop_last().drop_first() =~= files.drop_first().drop_last());
    }
}

/// No more files go than there are.
proof fn lemma_eviction_bound(candidates: Seq<LogFile>, total: int, limit: int)
    ensures
        eviction_count(candidates, total, limit) <= candidates.len(),
    decreases candidates.len(),
{
    if total > limit && candidates.len() > 0 {
        lemma_eviction_bound(candidates.drop_first(), total - candidates[0].size, limit);
    }
}

/// The timestamp that a log file is named after can be read off its name.
pub proof fn timestamp_can_be_read_off(config: WriterConfig, timestamp: Seq<char>)
    ensures
        timestamp_in(config, file_name(config, timestamp)) == Some(timestamp),
{
    let head = config.file_prefix@ + "."@;
    let rest = timestamp + config.file_suffix@;
    let name = file_name(config, timestamp);
    assert(name =~= head + rest);
    lemma_prefix_of_concat(head, rest);
    lemma_suffix_of_concat(timestamp, config.file_suffix@);
}

/// A file that was named after one period is rolled over in exactly the other
/// periods.
pub proof fn rolls_over_in_other_periods(
    config: WriterConfig,
    timestamp: Seq<char>,
    other: Seq<char>,
)
    ensures
        (timestamp_in(config, file_name(config, timestamp)) != Some(other)) <==> timestamp
            != other,
{
    timestamp_can_be_read_off(config, timestamp);
}

/// The writer manages its own files.
pub proof fn own_files_are_managed(config: WriterConfig, timestamp: Seq<char>)
    ensures
        is_managed(config, file_name(config, timestamp)),
{
    let name = file_name(config, timestamp);
    let rest = "."@ + timestamp + config.file_suffix@;
    assert(name =~= config.file_prefix@ + rest);
    lemma_prefix_of_concat(config.file_prefix@, rest);
    let front = config.file_prefix@ + "."@ + timestamp;
    assert(name =~= front + config.file_suffix@);
    lemma_suffix_of_concat(front, config.file_suffix@);
}

/// Digits tell numbers apart.
proof fn lemma_digit_injective(a: nat, b: nat)
    requires
        a < 10,
        b < 10,
        digit(a) == digit(b),
    ensures
        a == b,
{
}

/// Two digits tell numbers below a hundred apart.
#[verifier::spinoff_prover]
#[verifier::rlimit(50)]
proof fn lemma_padded2_injective(a: int, b: int)
    requires
        0 <= a < 100,
        0 <= b < 100,
        padded2(a) == padded2(b),
    ensures
        a == b,
{
    assert(padded2(a)[0] == padded2(b)[0]);
    assert(padded2(a)[1] == padded2(b)[1]);
    lemma_digit_injective((a / 10 % 10) as nat, (b / 10 % 10) as nat);
    lemma_digit_injective((a % 10) as nat, (b % 10) as nat);
}

/// Four digits tell numbers below ten thousand apart.
#[verifier::spinoff_prover]
#[verifier::rlimit(50)]
proof fn lemma_padded4_injective(a: int, b: int)
    requires
        0 <= a < 10000,
        0 <= b < 10000,
        padded4(a) == padded4(b),
    ensures
        a == b,
{
    assert(padded4(a)[0] == padded4(b)[0]);
    assert(padded4(a)[1] == padded4(b)[1]);
    assert(padded4(a)[2] == padded4(b)[2]);
    assert(padded4(a)[3] == padded4(b)[3]);
    lemma_digit_injective((a / 1000 % 10) as nat, (b / 1000 % 10) as nat);
    lemma_digit_injective((a / 100 % 10) as nat, (b / 100 % 10) as nat);
    lemma_digit_injective((a / 10 % 10) as nat, (b / 10 % 10) as nat);
    lemma_digit_injective((a % 10) as nat, (b % 10) as nat);
}

/// Days have the same daily timestamp only if they are the same day.
#[verifier::spinoff_prover]
#[verifier::rlimit(50)]
pub proof fn daily_period_is_the_day(a: CivilTime, b: CivilTime)
    requires
        is_ordinary_time(a),
        is_ordinary_time(b),
    ensures
        date_text(a) == date_text(b) <==> a.year == b.year && a.month == b.month && a.day
            == b.day,
{
    if date_text(a) == date_text(b) {
        assert(date_text(a).subrange(0, 4) =~= padded4(a.year as int));
        assert(date_text(b).subrange(0, 4) =~= padded4(b.year as int));
        assert(date_text(a).subrange(5, 7) =~= padded2(a.month as int));
        assert(date_text(b).subrange(5, 7) =~= padded2(b.month as int));
        assert(date_text(a).subrange(8, 10) =~= padded2(a.day as int));
        assert(date_text(b).subrange(8, 10) =~= padded2(b.day as int));
        lemma_padded4_injective(a.year as int, b.year as int);
        lemma_padded2_injective(a.month as int, b.month as int);
        lemma_padded2_injective(a.day as int, b.day as int);
    }
}

/// Times have the same hourly timestamp only if they lie in the same hour.
#[verifier::spinoff_prover]
#[verifier::rlimit(50)]
pub proof fn hourly_period_is_the_hour(a: CivilTime, b: CivilTime)
    requires
        is_ordinary_time(a),
        is_ordinary_time(b),
    ensures
        hour_text(a) == hour_text(b) <==> date_text(a) == date_text(b) && a.hour == b.hour,
{
    if hour_text(a) == hour_text(b) {
        assert(hour_text(a).subrange(0, 10) =~= date_text(a));
        assert(hour_text(b).subrange(0, 10) =~= date_text(b));
        assert(hour_text(a).subrange(11, 13) =~= padded2(a.hour as int));
        assert(hour_text(b).subrange(11, 13) =~= padded2(b.hour as int));
        lemma_padded2_injective(a.hour as int, b.hour as int);
    }
}

/// Times have the same timestamp of a minute only if they lie in the same
/// minute.
#[verifier::spinoff_prover]
#[verifier::rlimit(50)]
pub proof fn minutely_period_is_the_minute(a: CivilTime, b: CivilTime)
    requires
        is_ordinary_time(a),
        is_ordinary_time(b),
    ensures
        minute_text(a) == minute_text(b) <==> hour_text(a) == hour_text(b) && a.minute == b.minute,
{
    if minute_text(a) == minute_text(b) {
        assert(minute_text(a).subrange(0, 13) =~= hour_text(a));
        assert(minute_text(b).subrange(0, 13) =~= hour_text(b));
        assert(minute_text(a).subrange(14, 16) =~= padded2(a.minute as int));
        assert(minute_text(b).subrange(14, 16) =~= padded2(b.minute as int));
        lemma_padded2_injective(a.minute as int, b.minute as int);
    }
}

/// The months before the last one have 334 days together, and a day more in a leap
/// year.
proof fn lemma_days_before_december(year: int)
    ensures
        days_before_month(year, 12) == 306 + days_in_month(year, 2),
{
    reveal_with_fuel(days_before_month, 13);
}

/// A year has as many days as its months together.
#[verifier::spinoff_prover]
proof fn lemma_days_of_year(year: int)
    ensures
        days_before_year(year + 1) == days_before_year(year) + days_before_month(year, 12)
            + days_in_month(year, 12),
        365 <= days_before_year(year + 1) - days_before_year(year) <= 366,
{
    lemma_days_before_december(year);
}

/// The days of a month are days of its year.
#[verifier::spinoff_prover]
#[verifier::rlimit(50)]
proof fn lemma_days_of_month(time: CivilTime)
    requires
        is_ordinary_time(time),
    ensures
        days_before_year(time.year as int) <= day_number(time) < days_before_year(time.year + 1),
{
    reveal_with_fuel(days_before_month, 13);
    lemma_days_of_year(time.year as int);
}

/// The Thursday of a week is a day of the year that the week belongs to.
#[verifier::spinoff_prover]
#[verifier::rlimit(50)]
proof fn lemma_iso_year(time: CivilTime)
    requires
        is_ordinary_time(time),
    ensures
        days_before_year(iso_year(time)) <= thursday(time) < days_before_year(iso_year(time) + 1),
        1 <= iso_week(time) <= 53,
{
    lemma_days_of_month(time);
    lemma_days_of_year(time.year - 1);
    lemma_days_of_year(time.year as int);
    lemma_days_of_year(time.year + 1);
}

/// Later years begin later.
proof fn lemma_years_are_in_order(a: int, b: int)
    requires
        a <= b,
    ensures
        days_before_year(a) <= days_before_year(b),
    decreases b - a,
{
    if a < b {
        lemma_years_are_in_order(a, b - 1);
        lemma_days_of_year(b - 1);
    }
}

/// Times have the same weekly timestamp only if they lie in the same week, from
/// Monday to Sunday.
#[verifier::spinoff_prover]
#[verifier::rlimit(50)]
pub proof fn weekly_period_is_the_week(a: CivilTime, b: CivilTime)
    requires
        has_ordinary_week(a),
        has_ordinary_week(b),
    ensures
        week_text(a) == week_text(b) <==> week_number(a) == week_number(b),
{
    lemma_iso_year(a);
    lemma_iso_year(b);
    if week_text(a) == week_text(b) {
        assert(week_text(a).subrange(0, 4) =~= padded4(iso_year(a)));
        assert(week_text(b).subrange(0, 4) =~= padded4(iso_year(b)));
        assert(week_text(a).subrange(6, 8) =~= padded2(iso_week(a)));
        assert(week_text(b).subrange(6, 8) =~= padded2(iso_week(b)));
        lemma_padded4_injective(iso_year(a), iso_year(b));
        lemma_padded2_injective(iso_week(a), iso_week(b));
    }
    if week_number(a) == week_number(b) {
        if iso_year(a) < iso_year(b) {
            lemma_years_are_in_order(iso_year(a) + 1, iso_year(b));
        } else if iso_year(b) < iso_year(a) {
            lemma_years_are_in_order(iso_year(b) + 1, iso_year(a));
        }
    }
}

/// What is chosen comes from the sequence and meets the condition.
proof fn lemma_filter_member(files: Seq<LogFile>, keep: spec_fn(LogFile) -> bool, i: int)
    requires
        0 <= i < files.filter(keep).len(),
    ensures
        keep(files.filter(keep)[i]),
        files.contains(files.filter(keep)[i]),
    decreases files.len(),
{
    reveal(Seq::filter);
    let front = files.drop_last();
    if files.len() > 0 {
        if i < front.filter(keep).len() {
            lemma_filter_member(front, keep, i);
            let j = choose|j: int| 0 <= j < front.len() && front[j] == front.filter(keep)[i];
            assert(files[j] == files.filter(keep)[i]);
        } else {
            assert(files[files.len() - 1] == files.filter(keep)[i]);
        }
    }
}

/// What meets the condition is chosen.
proof fn lemma_filter_keeps(files: Seq<LogFile>, keep: spec_fn(LogFile) -> bool, i: int)
    requires
        0 <= i < files.len(),
        keep(files[i]),
    ensures
        files.filter(keep).contains(files[i]),
    decreases files.len(),
{
    reveal(Seq::filter);
    let front = files.drop_last();
    if i == files.len() - 1 {
        assert(files.filter(keep)[front.filter(keep).len() as int] == files[i]);
    } else {
        lemma_filter_keeps(front, keep, i);
        let j = choose|j: int|
            0 <= j < front.filter(keep).len() && front.filter(keep)[j] == front[i];
        assert(files.filter(keep)[j] == files[i]);
    }
}

/// The current file is never removed, neither for its age nor to make room.
pub proof fn current_file_is_never_removed(
    files: Seq<LogFile>,
    current: Seq<char>,
    now: i128,
    max_age_seconds: u64,
    limit: int,
)
    ensures
        !names(outdated(files, current, now, max_age_seconds)).contains(current),
        !names(evicted(files, current, limit)).contains(current),
{
    let old_ones = outdated(files, current, now, max_age_seconds);
    assert forall|i: int| 0 <= i < names(old_ones).len() implies names(old_ones)[i] != current by {
        lemma_filter_member(
            files,
            |file: LogFile| is_outdated(file, current, now, max_age_seconds),
            i,
        );
    }
    let gone = evicted(files, current, limit);
    let candidates = removable(files, current);
    lemma_eviction_bound(candidates, total_size(files), limit);
    assert forall|i: int| 0 <= i < names(gone).len() implies names(gone)[i] != current by {
        lemma_filter_member(
            files,
            |file: LogFile| is_removable(file, current),
            i,
        );
    }
}

/// What is listed as a log file is an entry of the directory with a managed
/// name.
proof fn lemma_log_files_are_managed(config: WriterConfig, entries: Seq<DirEntry>, i: int)
    requires
        0 <= i < log_files(config, entries).len(),
    ensures
        is_managed(config, log_files(config, entries)[i].name@),
    decreases entries.len(),
{
    if entries.len() > 0 {
        let front = entries.drop_last();
        if i < log_files(config, front).len() {
            lemma_log_files_are_managed(config, front, i);
        }
    }
}

/// Only files whose name has the configured prefix and suffix are ever
/// removed; other files in the directory are left alone.
pub proof fn only_managed_files_are_removed(
    config: WriterConfig,
    entries: Seq<DirEntry>,
    sorted: Seq<LogFile>,
    current: Seq<char>,
    now: i128,
    i: int,
)
    requires
        is_sorted_from(sorted, log_files(config, entries)),
    ensures
        0 <= i < outdated(sorted, current, now, config.max_age_seconds).len() ==> is_managed(
            config,
            outdated(sorted, current, now, config.max_age_seconds)[i].name@,
        ),
        0 <= i < evicted(sorted, current, config.max_total_size_bytes as int).len()
            ==> is_managed(
            config,
            evicted(sorted, current, config.max_total_size_bytes as int)[i].name@,
        ),
{
    let all = log_files(config, entries);
    assert forall|file: LogFile| #[trigger] sorted.contains(file) implies is_managed(
        config,
        file.name@,
    ) by {
        let k = choose|k: int| 0 <= k < sorted.len() && sorted[k] == file;
        let at = |f: LogFile| f.modified == file.modified;
        lemma_filter_keeps(sorted, at, k);
        assert(written_at(sorted, file.modified) == written_at(all, file.modified));
        let m = choose|m: int|
            0 <= m < sorted.filter(at).len() && sorted.filter(at)[m] == file;
        lemma_filter_member(all, at, m);
        let n = choose|n: int| 0 <= n < all.len() && all[n] == all.filter(at)[m];
        lemma_log_files_are_managed(config, entries, n);
    }
    let old_ones = outdated(sorted, current, now, config.max_age_seconds);
    if 0 <= i < old_ones.len() {
        lemma_filter_member(
            sorted,
            |file: LogFile| is_outdated(file, current, now, config.max_age_seconds),
            i,
        );
    }
    let limit = config.max_total_size_bytes as int;
    let candidates = removable(sorted, current);
    lemma_eviction_bound(candidates, total_size(sorted), limit);
    if 0 <= i < evicted(sorted, current, limit).len() {
        lemma_filter_member(
            sorted,
            |file: LogFile| is_removable(file, current),
            i,
        );
    }
}

/// Removing candidates one by one stops as soon as the rest is within the
/// limit.
proof fn lemma_eviction(candidates: Seq<LogFile>, total: int, limit: int, j: int)
    ensures
        ({
            let count = eviction_count(candidates, total, limit);
            &&& total - total_size(candidates.take(count as int)) <= limit || count
                == candidates.len()
            &&& 0 <= j < count ==> total - total_size(candidates.take(j)) > limit
        }),
    decreases candidates.len(),
{
    let count = eviction_count(candidates, total, limit);
    lemma_eviction_bound(candidates, total, limit);
    assert(candidates.take(0) =~= Seq::empty());
    if total > limit && candidates.len() > 0 {
        let first = candidates[0];
        let rest = candidates.drop_first();
        lemma_eviction_bound(rest, total - first.size, limit);
        lemma_eviction(rest, total - first.size, limit, j - 1);
        assert(candidates.take(count as int).drop_first() =~= rest.take(count - 1));
        lemma_total_size_first(candidates.take(count as int));
        if 0 < j < count {
            assert(candidates.take(j).drop_first() =~= rest.take(j - 1));
            lemma_total_size_first(candidates.take(j));
        }
    }
}

/// The oldest files go until the total size is within the limit: what stays is
/// within it, or nothing is left that may go; and one file less would not have
/// been enough.
pub proof fn total_size_comes_within_the_limit(
    files: Seq<LogFile>,
    current: Seq<char>,
    limit: int,
    fewer: int,
)
    ensures
        ({
            let gone = evicted(files, current, limit);
            &&& total_size(files) - total_size(gone) <= limit || gone == removable(
                files,
                current,
            )
            &&& 0 <= fewer < gone.len() ==> total_size(files) - total_size(gone.take(fewer))
                > limit
        }),
{
    let candidates = removable(files, current);
    let gone = evicted(files, current, limit);
    lemma_eviction_bound(candidates, total_size(files), limit);
    lemma_eviction(candidates, total_size(files), limit, fewer);
    if gone.len() == candidates.len() {
        assert(gone =~= candidates);
    }
    if 0 <= fewer < gone.len() {
        assert(gone.take(fewer) =~= candidates.take(fewer));
    }
}

/// Whether the name is that of a file, other than the current one, that was last written
/// to longer ago than the given age, by a full second, as ages are counted in seconds.
pub open spec fn names_an_old_file(
    files: Seq<LogFile>,
    current: Seq<char>,
    now: i128,
    max_age_seconds: u64,
    name: Seq<char>,
) -> bool {
    exists|i: int|
        {
            &&& 0 <= i < files.len()
            &&& (#[trigger] files[i]).name@ == name
            &&& name != current
            &&& now - files[i].modified >= (max_age_seconds + 1) * 1_000_000_000
        }
}

/// Exactly the files that were last written to longer ago than the max age go for their
/// age, the current one apart.
pub proof fn files_beyond_the_max_age_go(
    config: WriterConfig,
    files: Vec<LogFile>,
    current: &str,
    now: i128,
    gone: Vec<String>,
    name: Seq<char>,
)
    requires
        call_ensures(WriterConfig::trim_old_logs, (&config, &files, current, now), gone),
    ensures
        crate::text::views(gone@).contains(name) <==> names_an_old_file(
            files@,
            current@,
            now,
            config.max_age_seconds,
            name,
        ),
{
    let max = config.max_age_seconds;
    let keep = |file: LogFile| is_outdated(file, current@, now, max);
    let old_ones = outdated(files@, current@, now, max);
    let gone_names = crate::text::views(gone@);
    assert(names(old_ones).len() == old_ones.len());
    if names_an_old_file(files@, current@, now, max, name) {
        let i = choose|i: int|
            {
                &&& 0 <= i < files@.len()
                &&& (#[trigger] files@[i]).name@ == name
                &&& name != current@
                &&& now - files@[i].modified >= (max + 1) * 1_000_000_000
            };
        assert(keep(files@[i]));
        lemma_filter_keeps(files@, keep, i);
        let k = choose|k: int| 0 <= k < old_ones.len() && old_ones[k] == files@[i];
        assert(names(old_ones)[k] == name);
        assert(gone_names[k] == name);
    }
    if gone_names.contains(name) {
        let k = choose|k: int| 0 <= k < gone_names.len() && gone_names[k] == name;
        assert(names(old_ones)[k] == old_ones[k].name@);
        lemma_filter_member(files@, keep, k);
        let i = choose|i: int| 0 <= i < files@.len() && files@[i] == old_ones[k];
        assert(files@[i].name@ == name);
    }
}

/// What is not younger than a file that goes for its age goes as well.
pub proof fn older_files_go_first(
    config: WriterConfig,
    files: Vec<LogFile>,
    current: &str,
    now: i128,
    gone: Vec<String>,
    younger: int,
    older: int,
)
    requires
        call_ensures(WriterConfig::trim_old_logs, (&config, &files, current, now), gone),
        0 <= younger < files@.len() && 0 <= older < files@.len(),
        forall|i: int, j: int|
            0 <= i < j < files@.len() ==> (#[trigger] files@[i]).name@ != (#[trigger] files@[j]).name@,
        files@[older].modified <= files@[younger].modified,
        files@[older].name@ != current@,
        crate::text::views(gone@).contains(files@[younger].name@),
    ensures
        crate::text::views(gone@).contains(files@[older].name@),
{
    let max = config.max_age_seconds;
    let (low, high) = (files@[older].name@, files@[younger].name@);
    files_beyond_the_max_age_go(config, files, current, now, gone, low);
    files_beyond_the_max_age_go(config, files, current, now, gone, high);
    let i = choose|i: int|
        {
            &&& 0 <= i < files@.len()
            &&& (#[trigger] files@[i]).name@ == high
            &&& high != current@
            &&& now - files@[i].modified >= (max + 1) * 1_000_000_000
        };
    assert(i == younger);
    assert(names_an_old_file(files@, current@, now, max, low)) by {
        assert(files@[older].name@ == low);
    }
}

/// The files other than the current one, in their order.
pub open spec fn other_files(files: Seq<LogFile>, current: Seq<char>) -> Seq<LogFile> {
    files.filter(|file: LogFile| file.name@ != current)
}

/// The total is the sum of the sizes.
pub proof fn total_size_is_the_sum(files: Seq<LogFile>, file: LogFile)
    ensures
        total_size(Seq::<LogFile>::empty()) == 0,
        total_size(files.push(file)) == total_size(files) + file.size,
{
    assert(files.push(file).drop_last() =~= files);
}

/// Of the files but the current one, in their order, as many go as it takes for the rest to
/// be within the limit, and not one more; all of them where even that is not enough.
pub proof fn as_many_files_go_as_it_takes(
    config: WriterConfig,
    files: Vec<LogFile>,
    current: &str,
    gone: Vec<String>,
)
    requires
        total_size(files@) <= u64::MAX,
        call_ensures(WriterConfig::enforce_total_size_limit, (&config, &files, current), gone),
    ensures
        ({
            let n = gone@.len() as int;
            let others = other_files(files@, current@);
            let limit = config.max_total_size_bytes;
            &&& n <= others.len()
            &&& forall|k: int| 0 <= k < n ==> (#[trigger] gone@[k])@ == others[k].name@
            &&& total_size(files@) - total_size(others.take(n)) <= limit || n == others.len()
            &&& n > 0 ==> total_size(files@) - total_size(others.take(n - 1)) > limit
        }),
{
    let others = other_files(files@, current@);
    let candidates = removable(files@, current@);
    let limit = config.max_total_size_bytes as int;
    let count = eviction_count(candidates, total_size(files@), limit) as int;
    lemma_eviction_bound(candidates, total_size(files@), limit);
    let may_go = |file: LogFile| is_removable(file, current@);
    let other = |file: LogFile| file.name@ != current@;
    assert(may_go =~= other);
    assert(candidates == others);
    lemma_eviction(candidates, total_size(files@), limit, count - 1);
    let evicted_names = names(evicted(files@, current@, limit));
    assert(crate::text::views(gone@) == evicted_names);
    assert(evicted_names.len() == count);
    assert forall|k: int| 0 <= k < gone@.len() implies (#[trigger] gone@[k])@ == others[k].name@ by {
        assert(crate::text::views(gone@)[k] == gone@[k]@);
        assert(evicted_names[k] == candidates[k].name@);
    }
}

/// The log files that are found are the files of the directory whose names begin and end
/// as configured, oldest first, with what was read of them.
pub proof fn managed_files_are_found(
    config: WriterConfig,
    entries: Vec<DirEntry>,
    files: Vec<LogFile>,
)
    requires
        call_ensures(
            WriterConfig::matching_log_files,
            (&config, &entries),
            Ok::<Vec<LogFile>, MetadataError>(files),
        ),
    ensures
        forall|i: int, j: int|
            0 <= i <= j < files@.len() ==> (#[trigger] files@[i]).modified <= (
            #[trigger] files@[j]).modified,
        forall|file: LogFile| #[trigger]
            files@.contains(file) <==> exists|i: int|
                {
                    &&& 0 <= i < entries@.len()
                    &&& (#[trigger] entries@[i]).is_file
                    &&& entries@[i].name == Some(file.name)
                    &&& entries@[i].modified == Some(file.modified)
                    &&& entries@[i].size == Some(file.size)
                    &&& has_prefix(file.name@, config.file_prefix@)
                    &&& has_suffix(file.name@, config.file_suffix@)
                },
{
    let all = log_files(config, entries@);
    assert forall|file: LogFile| #[trigger]
        files@.contains(file) <==> all.contains(file) by {
        if files@.contains(file) {
            lemma_same_files(files@, all, file);
        }
        if all.contains(file) {
            lemma_same_files(all, files@, file);
        }
    }
    assert forall|file: LogFile| #[trigger]
        files@.contains(file) <==> exists|i: int|
            {
                &&& 0 <= i < entries@.len()
                &&& (#[trigger] entries@[i]).is_file
                &&& entries@[i].name == Some(file.name)
                &&& entries@[i].modified == Some(file.modified)
                &&& entries@[i].size == Some(file.size)
                &&& has_prefix(file.name@, config.file_prefix@)
                &&& has_suffix(file.name@, config.file_suffix@)
            } by {
        lemma_log_file_entries(config, entries@, file);
        if all.contains(file) {
            let i = choose|i: int|
                0 <= i < entries@.len() && as_log_file(config, #[trigger] entries@[i]) == Some(file);
            assert(entries@[i].is_file);
        }
        if exists|i: int|
            {
                &&& 0 <= i < entries@.len()
                &&& (#[trigger] entries@[i]).is_file
                &&& entries@[i].name == Some(file.name)
                &&& entries@[i].modified == Some(file.modified)
                &&& entries@[i].size == Some(file.size)
                &&& has_prefix(file.name@, config.file_prefix@)
                &&& has_suffix(file.name@, config.file_suffix@)
            } {
            let i = choose|i: int|
                {
                    &&& 0 <= i < entries@.len()
                    &&& (#[trigger] entries@[i]).is_file
                    &&& entries@[i].name == Some(file.name)
                    &&& entries@[i].modified == Some(file.modified)
                    &&& entries@[i].size == Some(file.size)
                    &&& has_prefix(file.name@, config.file_prefix@)
                    &&& has_suffix(file.name@, config.file_suffix@)
                };
            assert(as_log_file(config, entries@[i]) == Some(file));
        }
    }
}

/// A file of one list is in another one with the same files of each age.
proof fn lemma_same_files(a: Seq<LogFile>, b: Seq<LogFile>, file: LogFile)
    requires
        forall|time: i128| #[trigger] written_at(a, time) == written_at(b, time),
        a.contains(file),
    ensures
        b.contains(file),
{
    let k = choose|k: int| 0 <= k < a.len() && a[k] == file;
    let at = |f: LogFile| f.modified == file.modified;
    lemma_filter_keeps(a, at, k);
    assert(written_at(a, file.modified) == written_at(b, file.modified));
    let m = choose|m: int| 0 <= m < a.filter(at).len() && a.filter(at)[m] == file;
    lemma_filter_member(b, at, m);
}

/// The log files are those that entries are.
proof fn lemma_log_file_entries(config: WriterConfig, entries: Seq<DirEntry>, file: LogFile)
    ensures
        log_files(config, entries).contains(file) <==> exists|i: int|
            0 <= i < entries.len() && as_log_file(config, #[trigger] entries[i]) == Some(file),
    decreases entries.len(),
{
    if entries.len() > 0 {
        let front = entries.drop_last();
        let all = log_files(config, entries);
        lemma_log_file_entries(config, front, file);
        let before = log_files(config, front);
        if all.contains(file) {
            let k = choose|k: int| 0 <= k < all.len() && all[k] == file;
            if k < before.len() {
                assert(before[k] == file);
                let i = choose|i: int|
                    0 <= i < front.len() && as_log_file(config, #[trigger] front[i]) == Some(file);
                assert(entries[i] == front[i]);
            } else {
                assert(as_log_file(config, entries[entries.len() - 1]) == Some(file));
            }
        }
        if exists|i: int|
            0 <= i < entries.len() && as_log_file(config, #[trigger] entries[i]) == Some(file) {
            let i = choose|i: int|
                0 <= i < entries.len() && as_log_file(config, #[trigger] entries[i]) == Some(file);
            if i < front.len() {
                assert(front[i] == entries[i]);
                let k = choose|k: int| 0 <= k < before.len() && before[k] == file;
                assert(all[k] == file);
            } else {
                assert(all[all.len() - 1] == file);
            }
        }
    }
}

/// A log file is named after its period, between the prefix and the suffix; a new one is
/// opened unless the current one is already named after the period and that is asked about.
pub proof fn files_are_named_after_their_period(
    config: WriterConfig,
    timestamp: &str,
    current: Option<&str>,
    check_conditions: bool,
    name: String,
    text: &str,
    read: Option<String>,
    next: Option<String>,
)
    requires
        call_ensures(WriterConfig::log_file_name, (&config, timestamp), name),
        text@ == name@,
        call_ensures(WriterConfig::extract_timestamp, (&config, text), read),
        call_ensures(WriterConfig::rotate, (&config, current, check_conditions, timestamp), next),
    ensures
        name@ == config.file_prefix@ + seq!['.'] + timestamp@ + config.file_suffix@,
        read matches Some(read) && read@ == timestamp@,
        next matches Some(next) ==> next@ == name@,
        !check_conditions || current is None ==> next is Some,
        current matches Some(current) ==> (current@ == name@ && check_conditions ==> next is None),
{
    reveal_strlit(".");
    assert("."@ =~= seq!['.']);
    timestamp_can_be_read_off(config, timestamp@);
}

/// Each period has timestamps of its own form, and a file is rolled over where its name tells of
/// another timestamp, or of none.
pub proof fn periods_have_their_formats(
    rotation: Rotation,
    format: &'static str,
    config: WriterConfig,
    name: &str,
    timestamp: &str,
    read: Option<String>,
    rolls: bool,
)
    requires
        call_ensures(Rotation::format, (&rotation,), format),
        call_ensures(WriterConfig::extract_timestamp, (&config, name), read),
        call_ensures(WriterConfig::should_rotate_by_time, (&config, name, timestamp), rolls),
    ensures
        rotation is Minutely ==> format@ == "%Y-%m-%d-%H-%M"@,
        rotation is Hourly ==> format@ == "%Y-%m-%d-%H"@,
        rotation is Daily ==> format@ == "%Y-%m-%d"@,
        rotation is Weekly || rotation is Never ==> format@ == "%G-W%V"@,
        rolls <==> read is None || read->0@ != timestamp@,
        read is Some ==> name@ == config.file_prefix@ + seq!['.'] + read->0@ + config.file_suffix@,
{
    reveal_strlit(".");
    assert("."@ =~= seq!['.']);
    if read is Some {
        let head = config.file_prefix@ + "."@;
        let rest = name@.subrange(head.len() as int, name@.len() as int);
        let end = config.file_suffix@.len();
        assert(name@ =~= name@.subrange(0, head.len() as int) + rest);
        assert(rest =~= rest.subrange(0, rest.len() - end) + rest.subrange(
            rest.len() - end,
            rest.len() as int,
        ));
        assert(name@ =~= config.file_prefix@ + seq!['.'] + read->0@ + config.file_suffix@);
    }
}

/// Two times have the same timestamp, and so the same file, if and only if they lie in the same
/// period: the minute, the hour, the day or the week, as configured.
pub proof fn times_of_a_period_share_a_file(
    config: WriterConfig,
    a: CivilTime,
    b: CivilTime,
    x: Option<String>,
    y: Option<String>,
)
    requires
        has_ordinary_week(a) && has_ordinary_week(b),
        is_ordinary_time(a) && is_ordinary_time(b),
        call_ensures(WriterConfig::format_rotation_timestamp, (&config, a), x),
        call_ensures(WriterConfig::format_rotation_timestamp, (&config, b), y),
    ensures
        x is Some && y is Some,
        config.rotation is Minutely ==> (x->0@ == y->0@ <==> a.year == b.year && a.month == b.month
            && a.day == b.day && a.hour == b.hour && a.minute == b.minute),
        config.rotation is Hourly ==> (x->0@ == y->0@ <==> a.year == b.year && a.month == b.month
            && a.day == b.day && a.hour == b.hour),
        config.rotation is Daily ==> (x->0@ == y->0@ <==> a.year == b.year && a.month == b.month
            && a.day == b.day),
        config.rotation is Weekly || config.rotation is Never ==> (x->0@ == y->0@ <==> week_number(a)
            == week_number(b)),
{
    daily_period_is_the_day(a, b);
    hourly_period_is_the_hour(a, b);
    minutely_period_is_the_minute(a, b);
    weekly_period_is_the_week(a, b);
}

} // verus!
