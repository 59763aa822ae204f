//! The log rotater: when the log is due for rotation, what the rotated file
//! is called, and how it is compressed.
//!
//! The rotater counts what was written; it opens and renames nothing. Whoever
//! owns the log file tells it how much each write took, swaps the files when
//! the rotater says so, and tells it the length of the file that is open
//! after the swap.

use crate::config;
use std::fmt::Write;
use crate::text::{find_last, last_index, lemma_last_index, to_chars};
use vstd::prelude::*;
use vstd::string::*;

verus! {

/// Why a rotation cannot be planned, or its file not compressed.
#[derive(Clone, Copy, Debug, PartialEq, Eq, Structural)]
pub enum RotateError {
    /// The path of the log names no file.
    NoFileName,
    /// The time of the rotation cannot be written as fourteen digits.
    Timestamp,
    /// The compressor failed.
    Compress,
}

impl RotateError {
    /// The error in words.
    pub open spec fn text(self) -> Seq<char> {
        match self {
            RotateError::NoFileName => "log path names no file"@,
            RotateError::Timestamp => "rotation time is out of range"@,
            RotateError::Compress => "failed to gzip rotated log"@,
        }
    }

    /// The error in words.
    pub fn message(&self) -> (text: String)
        ensures
            text@ == self.text(),
    {
        match self {
            RotateError::NoFileName => String::from_str("log path names no file"),
            RotateError::Timestamp => String::from_str("rotation time is out of range"),
            RotateError::Compress => String::from_str("failed to gzip rotated log"),
        }
    }
}

/// Where the file name of `path` starts: after its last slash.
pub open spec fn name_start(path: Seq<char>) -> int {
    last_index(path, '/') + 1
}

/// The file name of `path`: what follows its last slash.
pub open spec fn file_name(path: Seq<char>) -> Seq<char> {
    path.subrange(name_start(path), path.len() as int)
}

/// The directory part of `path`: all up to its last slash, the slash too.
pub open spec fn dir_prefix(path: Seq<char>) -> Seq<char> {
    path.subrange(0, name_start(path))
}

/// Whether `name` can be the name of a file.
pub open spec fn names_file(name: Seq<char>) -> bool {
    name.len() > 0 && name != "."@ && name != ".."@
}

/// Where the extension of `name` starts: at its last dot, unless that is its
/// first character; at its end where it has no extension.
pub open spec fn ext_start(name: Seq<char>) -> int {
    if last_index(name, '.') > 0 {
        last_index(name, '.')
    } else {
        name.len() as int
    }
}

/// The stem of a file name: the name without its extension.
pub open spec fn stem(name: Seq<char>) -> Seq<char> {
    name.subrange(0, ext_start(name))
}

/// The extension of a file name with its dot, or nothing.
pub open spec fn extension(name: Seq<char>) -> Seq<char> {
    name.subrange(ext_start(name), name.len() as int)
}

/// Whether `c` is one of the ten digits.
pub open spec fn is_digit(c: char) -> bool {
    '0' <= c <= '9'
}

/// How many characters a timestamp has: year, month, day, hour, minute and
/// second.
pub const STAMP_LEN: usize = 14;

/// Whether `s` has the shape of a timestamp: fourteen digits.
pub open spec fn is_stamp(s: Seq<char>) -> bool {
    s.len() == STAMP_LEN && forall|i: int| 0 <= i < s.len() ==> is_digit(#[trigger] s[i])
}

/// The name of the file that the log at `path` is rotated to at the time
/// that `stamp` writes: stem, a hyphen, the timestamp, and the extension.
pub open spec fn rotated_name(path: Seq<char>, stamp: Seq<char>) -> Seq<char> {
    stem(file_name(path)) + "-"@ + stamp + extension(file_name(path))
}

/// The path of that file: it lies beside the log.
pub open spec fn rotated_path(path: Seq<char>, stamp: Seq<char>) -> Seq<char> {
    dir_prefix(path) + rotated_name(path, stamp)
}

/// What [`rotated_filename`] gives for `path` and `stamp`.
pub open spec fn rotated_filename_of(path: Seq<char>, stamp: Seq<char>) -> Result<
    Seq<char>,
    RotateError,
> {
    if !names_file(file_name(path)) {
        Err(RotateError::NoFileName)
    } else if !is_stamp(stamp) {
        Err(RotateError::Timestamp)
    } else {
        Ok(rotated_name(path, stamp))
    }
}

/// Whether `text` has the shape of a timestamp: fourteen digits.
pub fn has_stamp_shape(text: &str) -> (shaped: bool)
    ensures
        shaped == is_stamp(text@),
{
    let chars = to_chars(text);
    if chars.len() != STAMP_LEN {
        return false;
    }
    let mut i: usize = 0;
    while i < STAMP_LEN
        invariant
            chars.len() == STAMP_LEN,
            chars@ == text@,
            i <= STAMP_LEN,
            forall|j: int| 0 <= j < i ==> is_digit(#[trigger] chars@[j]),
        decreases STAMP_LEN - i,
    {
        let c = chars[i];
        if !('0' <= c && c <= '9') {
            return false;
        }
        i += 1;
    }
    true
}

/// Where the file name of `path` starts and where its extension starts, both
/// counted in characters of `path`; `None` where `path` names no file.
pub(crate) fn split_path(path: &str) -> (cut: Option<(usize, usize, usize)>)
    ensures
        match cut {
            Some((start, dot, end)) => {
                &&& names_file(file_name(path@))
                &&& start == name_start(path@)
                &&& dot == start + ext_start(file_name(path@))
                &&& end == path@.len()
                &&& start <= dot <= end
            },
            None => !names_file(file_name(path@)),
        },
{
    let chars = to_chars(path);
    let n = chars.len();
    assert(chars@.take(n as int) =~= path@);
    let start = match find_last(&chars, n, '/') {
        Some(i) => i + 1,
        None => 0,
    };
    proof {
        lemma_last_index(path@, '/');
        reveal_strlit(".");
        reveal_strlit("..");
    }
    let ghost name = file_name(path@);
    if start == n {
        return None;
    }
    if n - start == 1 && chars[start] == '.' {
        assert(name =~= "."@);
        return None;
    }
    if n - start == 2 && chars[start] == '.' && chars[start + 1] == '.' {
        assert(name =~= ".."@);
        return None;
    }
    assert(names_file(name)) by {
        if name == "."@ {
            assert(name[0] == '.');
        }
        if name == ".."@ {
            assert(name[0] == '.');
            assert(name[1] == '.');
        }
    }
    // The last dot of the name is the last dot of the path, if that lies in
    // the name at all.
    let dot = match find_last(&chars, n, '.') {
        Some(i) => if i > start {
            i
        } else {
            n
        },
        None => n,
    };
    proof {
        lemma_last_index(path@, '.');
        lemma_last_index(name, '.');
        let p = last_index(path@, '.');
        let q = last_index(name, '.');
        if q >= 0 {
            assert(name[q] == path@[start + q]);
            if p > start + q {
                assert(name[p - start] == path@[p]);
            }
        }
        if p >= start as int {
            assert(name[p - start] == path@[p]);
            if q < p - start {
                assert(name[p - start] != '.');
            }
        }
    }
    Some((start, dot, n))
}

/// The name of the file that the log at `path` is rotated to, given the time
/// of the rotation as a timestamp: the stem of the log's name, a hyphen, the
/// timestamp, and the extension of the log's name with its dot.
pub fn rotated_filename(path: &str, stamp: &str) -> (name: Result<String, RotateError>)
    ensures
        match name {
            Ok(text) => rotated_filename_of(path@, stamp@) == Ok::<Seq<char>, RotateError>(text@),
            Err(e) => rotated_filename_of(path@, stamp@) == Err::<Seq<char>, RotateError>(e),
        },
{
    match split_path(path) {
        None => Err(RotateError::NoFileName),
        Some((start, dot, end)) => {
            if !has_stamp_shape(stamp) {
                return Err(RotateError::Timestamp);
            }
            let mut name = String::from_str(path.substring_char(start, dot));
            name.append("-");
            name.append(stamp);
            name.append(path.substring_char(dot, end));
            proof {
                let whole = file_name(path@);
                assert(path@.subrange(start as int, dot as int) =~= stem(whole));
                assert(path@.subrange(dot as int, end as int) =~= extension(whole));
            }
            Ok(name)
        },
    }
}

/// The path of the file that the log at `path` is rotated to, given the
/// time of the rotation as a timestamp: the file lies beside the log.
pub fn rotated_file(path: &str, stamp: &str) -> (rotated: Result<String, RotateError>)
    ensures
        match rotated {
            Ok(text) => {
                &&& rotated_filename_of(path@, stamp@) is Ok
                &&& text@ == rotated_path(path@, stamp@)
            },
            Err(e) => rotated_filename_of(path@, stamp@) == Err::<Seq<char>, RotateError>(e),
        },
{
    match split_path(path) {
        None => Err(RotateError::NoFileName),
        Some((start, dot, end)) => match rotated_filename(path, stamp) {
            Ok(name) => {
                let mut rotated = String::from_str(path.substring_char(0, start));
                rotated.append(name.as_str());
                Ok(rotated)
            },
            Err(e) => Err(e),
        },
    }
}

/// The directory that the log at `path` lies in, ending in a slash, so that
/// the name of a file put behind it is the path of that file: what stands
/// before the name of the log, or `./` where nothing does.
pub open spec fn log_dir_of(path: Seq<char>) -> Seq<char> {
    if name_start(path) == 0 {
        "./"@
    } else {
        dir_prefix(path)
    }
}

/// The directory that the log at `path` lies in, and its rotated copies
/// with it.
pub fn log_dir(path: &str) -> (dir: String)
    ensures
        dir@ == log_dir_of(path@),
{
    let chars = to_chars(path);
    let n = chars.len();
    assert(chars@.take(n as int) =~= path@);
    match find_last(&chars, n, '/') {
        Some(i) => String::from_str(path.substring_char(0, i + 1)),
        None => String::from_str("./"),
    }
}

/// A path is its directory part and its file name.
pub proof fn lemma_path_is_dir_and_name(path: Seq<char>)
    ensures
        dir_prefix(path) + file_name(path) == path,
        0 <= name_start(path) <= path.len(),
{
    lemma_last_index(path, '/');
    assert(dir_prefix(path) + file_name(path) =~= path);
}

/// The time `secs` seconds after the start of 1970, in UTC, written as
/// `format` asks, in the notation of `strftime`; `None` where the time is
/// out of the range of the calendar, or `format` is no format.
pub uninterp spec fn utc_text(secs: i64, format: Seq<char>) -> Option<Seq<char>>;

/// Writes a time as `format` asks.
///
/// Wraps `chrono::DateTime::from_timestamp` and `DateTime::format`, whose
/// result is written into a string. Not proved: that the text depends on
/// `secs` and `format` alone. Nothing is claimed of its shape.
#[verifier::external_body]
fn format_utc(secs: i64, format: &str) -> (text: Option<String>)
    ensures
        match text {
            Some(t) => utc_text(secs, format@) == Some(t@),
            None => utc_text(secs, format@) is None,
        },
{
    let time = chrono::DateTime::from_timestamp(secs, 0)?;
    let mut text = String::new();
    match write!(text, "{}", time.format(format)) {
        Ok(()) => Some(text),
        Err(_) => None,
    }
}

/// The format of a timestamp: year, month, day, hour, minute and second
/// without anything between them.
pub open spec fn stamp_format() -> Seq<char> {
    "%Y%m%d%H%M%S"@
}

/// The time `secs` seconds after the start of 1970, in UTC, written in the
/// format of a timestamp.
pub open spec fn utc_stamp(secs: i64) -> Option<Seq<char>> {
    utc_text(secs, stamp_format())
}

/// Writes a time in the format of a timestamp. Whether the text has the
/// shape of one is for [`rotated_filename`] to test: a year before 0 or
/// after 9999 has not.
pub(crate) fn stamp_of(secs: i64) -> (stamp: Option<String>)
    ensures
        match stamp {
            Some(text) => utc_stamp(secs) == Some(text@),
            None => utc_stamp(secs) is None,
        },
{
    format_utc(secs, "%Y%m%d%H%M%S")
}

/// The seconds since the start of 1970, by the clock of the machine;
/// negative where the clock stands before 1970.
///
/// Wraps `std::time::SystemTime::now`, chrono's conversion of it into a
/// `DateTime<Utc>`, and `DateTime::timestamp`. Nothing is claimed of the
/// result. The conversion takes a clock before 1970; it panics only on a
/// clock beyond the years that chrono can hold, some 262000 from now.
#[verifier::external_body]
pub(crate) fn unix_now() -> (secs: i64) {
    chrono::DateTime::<chrono::Utc>::from(std::time::SystemTime::now()).timestamp()
}

/// The level at which rotated logs are compressed: the compressor's
/// default, on its scale from 0 to 9.
pub const GZIP_LEVEL: u32 = 6;

/// `data` as a gzip stream made at `level` of compression; `None` where
/// the compressor fails.
pub uninterp spec fn deflated(data: Seq<u8>, level: u32) -> Option<Seq<u8>>;

/// Compresses `data` at `level`.
///
/// Wraps `flate2::write::GzEncoder`: `new` with `Compression::new(level)`,
/// `write_all` into a vector, and `finish`. Not proved: that the stream
/// depends on `data` and `level` alone.
#[verifier::external_body]
fn gzip_encode(data: &[u8], level: u32) -> (packed: Option<Vec<u8>>)
    requires
        level <= 9,
    ensures
        match packed {
            Some(bytes) => deflated(data@, level) == Some(bytes@),
            None => deflated(data@, level) is None,
        },
{
    let mut encoder = flate2::write::GzEncoder::new(Vec::new(), flate2::Compression::new(level));
    match std::io::Write::write_all(&mut encoder, data) {
        Ok(()) => encoder.finish().ok(),
        Err(_) => None,
    }
}

/// `data` as the gzip stream that a rotated log becomes.
pub open spec fn gzip_of(data: Seq<u8>) -> Option<Seq<u8>> {
    deflated(data, GZIP_LEVEL)
}

/// A compressed file, to be written.
#[derive(Clone, Debug, PartialEq, Eq)]
pub struct Archive {
    /// Where the file goes.
    pub path: String,
    /// What the file holds.
    pub bytes: Vec<u8>,
}

/// The path of the compressed copy of the file at `path`.
pub open spec fn gz_path(path: Seq<char>) -> Seq<char> {
    path + ".gz"@
}

/// The compressed copy of the rotated log at `path`, given what the
/// compressor made of its contents: the copy lies beside the file, under its
/// name with `.gz` behind it.
pub fn gzipped(path: &str, packed: Option<Vec<u8>>) -> (archive: Result<Archive, RotateError>)
    ensures
        match packed {
            Some(bytes) => archive matches Ok(a) && a.path@ == gz_path(path@) && a.bytes@
                == bytes@,
            None => archive == Err::<Archive, RotateError>(RotateError::Compress),
        },
{
    match packed {
        Some(bytes) => {
            let mut out = String::from_str(path);
            out.append(".gz");
            Ok(Archive { path: out, bytes })
        },
        None => Err(RotateError::Compress),
    }
}

/// Compresses the rotated log at `path`, whose contents are `data`.
pub fn gzip(path: &str, data: &[u8]) -> (archive: Result<Archive, RotateError>)
    ensures
        match gzip_of(data@) {
            Some(bytes) => archive matches Ok(a) && a.path@ == gz_path(path@) && a.bytes@
                == bytes,
            None => archive == Err::<Archive, RotateError>(RotateError::Compress),
        },
{
    gzipped(path, gzip_encode(data, GZIP_LEVEL))
}

/// What is to be done with a log file that was rotated away.
#[derive(Clone, Debug, PartialEq, Eq)]
pub struct RotationJob {
    /// The path that the log file is renamed to.
    pub path: String,
    /// Whether the file is compressed then.
    pub compress: bool,
    /// Whether compressed files are merged then. Reserved.
    pub merge_compressed: bool,
}

/// What is done in the background with a log file that was rotated away.
#[derive(Clone, Copy, Debug, PartialEq, Eq, Structural)]
pub enum Task {
    /// Compress the file.
    Compress,
    /// Remove the rotated logs that are kept no longer.
    Clean,
}

impl RotationJob {
    /// The tasks of a job, in their order: the file is compressed where the
    /// job says so, and what is kept no longer is removed after that.
    pub open spec fn tasks_of(compress: bool) -> Seq<Task> {
        if compress {
            seq![Task::Compress, Task::Clean]
        } else {
            seq![Task::Clean]
        }
    }

    /// What is done in the background for this job, in this order. A task
    /// that fails does not keep the next from being done.
    pub fn tasks(&self) -> (tasks: Vec<Task>)
        ensures
            tasks@ == RotationJob::tasks_of(self.compress),
    {
        let mut tasks: Vec<Task> = Vec::new();
        if self.compress {
            tasks.push(Task::Compress);
        }
        tasks.push(Task::Clean);
        assert(tasks@ =~= RotationJob::tasks_of(self.compress));
        tasks
    }
}

/// Whether a log that holds `size` bytes is due for rotation at a threshold
/// of `max` bytes. A threshold of zero means that the log is never rotated.
pub open spec fn due(size: int, max: int) -> bool {
    max > 0 && size > max
}

/// What the rotater counts after `written` bytes went into a log that held
/// `size`: their sum, or the largest number that the count can hold.
pub open spec fn counted(size: u64, written: u64) -> u64 {
    if size + written <= u64::MAX {
        (size + written) as u64
    } else {
        u64::MAX
    }
}

/// The rotater of one log file.
pub struct Rotater {
    conf: config::Log,
    size: u64,
}

impl Rotater {
    /// The configuration that the rotater was made with.
    pub closed spec fn spec_conf(&self) -> config::Log {
        self.conf
    }

    /// The bytes that the open log file holds, as far as the rotater was
    /// told.
    pub closed spec fn spec_size(&self) -> u64 {
        self.size
    }

    /// A rotater for the log that `conf` describes, whose file holds
    /// `existing` bytes when it is opened.
    pub fn new(conf: config::Log, existing: u64) -> (rotater: Rotater)
        ensures
            rotater.spec_conf() == conf,
            rotater.spec_size() == existing,
    {
        Rotater { conf, size: existing }
    }

    /// The configuration that the rotater was made with.
    pub fn conf(&self) -> (conf: &config::Log)
        ensures
            *conf == self.spec_conf(),
    {
        &self.conf
    }

    /// The bytes that the open log file holds.
    pub fn size(&self) -> (size: u64)
        ensures
            size == self.spec_size(),
    {
        self.size
    }

    /// Takes note that `written` bytes were appended to the log, and says
    /// whether the log is due for rotation now: whether it holds more than
    /// the threshold. The count stops at the largest number it can hold.
    pub fn write(&mut self, written: u64) -> (rotate: bool)
        ensures
            final(self).spec_conf() == old(self).spec_conf(),
            final(self).spec_size() == counted(old(self).spec_size(), written),
            rotate == due(
                old(self).spec_size() + written,
                old(self).spec_conf().max_size as int,
            ),
    {
        match self.size.checked_add(written) {
            Some(size) => {
                self.size = size;
                self.conf.max_size > 0 && size > self.conf.max_size
            },
            None => {
                self.size = u64::MAX;
                self.conf.max_size > 0
            },
        }
    }

    /// Takes note that the log was rotated and that the file that is open
    /// now holds `len` bytes: none, if it is new.
    pub fn rotated(&mut self, len: u64)
        ensures
            final(self).spec_conf() == old(self).spec_conf(),
            final(self).spec_size() == len,
    {
        self.size = len;
    }

    /// What [`Rotater::rotate_with`] gives for a log at `path`.
    pub open spec fn job_of(conf: config::Log, stamp: Seq<char>, job: RotationJob) -> bool {
        &&& job.path@ == rotated_path(conf.path@, stamp)
        &&& job.compress == conf.compress
        &&& job.merge_compressed == conf.merge_compressed
    }

    /// Plans the rotation of the log at the time that `stamp` writes.
    pub fn rotate_with(&self, stamp: &str) -> (job: Result<RotationJob, RotateError>)
        ensures
            match job {
                Ok(j) => {
                    &&& rotated_filename_of(self.spec_conf().path@, stamp@) is Ok
                    &&& Rotater::job_of(self.spec_conf(), stamp@, j)
                },
                Err(e) => rotated_filename_of(self.spec_conf().path@, stamp@) == Err::<
                    Seq<char>,
                    RotateError,
                >(e),
            },
    {
        match rotated_file(self.conf.path.as_str(), stamp) {
            Ok(path) => Ok(
                RotationJob {
                    path,
                    compress: self.conf.compress,
                    merge_compressed: self.conf.merge_compressed,
                },
            ),
            Err(e) => Err(e),
        }
    }

    /// Plans the rotation of the log at `secs` seconds after the start of
    /// 1970.
    pub fn rotate_at(&self, secs: i64) -> (job: Result<RotationJob, RotateError>)
        ensures
            match job {
                Ok(j) => {
                    &&& names_file(file_name(self.spec_conf().path@))
                    &&& utc_stamp(secs) matches Some(stamp) && is_stamp(stamp) && Rotater::job_of(
                        self.spec_conf(),
                        stamp,
                        j,
                    )
                },
                Err(RotateError::NoFileName) => !names_file(file_name(self.spec_conf().path@)),
                Err(RotateError::Timestamp) => {
                    &&& names_file(file_name(self.spec_conf().path@))
                    &&& utc_stamp(secs) matches Some(stamp) ==> !is_stamp(stamp)
                },
                Err(RotateError::Compress) => false,
            },
    {
        match stamp_of(secs) {
            Some(stamp) => self.rotate_with(stamp.as_str()),
            None => {
                // Without a timestamp the path alone decides which error it is.
                match self.rotate_with("") {
                    Err(RotateError::NoFileName) => Err(RotateError::NoFileName),
                    _ => Err(RotateError::Timestamp),
                }
            },
        }
    }

    /// Plans the rotation of the log now, by the clock of the machine. The
    /// rotated file has the name of the log with a hyphen and the timestamp
    /// of some reading of the clock between its stem and its extension; the
    /// rotation fails only where the path names no file or a reading of the
    /// clock cannot be written in fourteen digits.
    pub fn rotate(&self) -> (job: Result<RotationJob, RotateError>)
        ensures
            match job {
                Ok(j) => {
                    &&& names_file(file_name(self.spec_conf().path@))
                    &&& exists|secs: i64|
                        (#[trigger] utc_stamp(secs)) matches Some(stamp) && is_stamp(stamp)
                            && Rotater::job_of(self.spec_conf(), stamp, j)
                },
                Err(RotateError::NoFileName) => !names_file(file_name(self.spec_conf().path@)),
                Err(RotateError::Timestamp) => {
                    &&& names_file(file_name(self.spec_conf().path@))
                    &&& exists|secs: i64|
                        !((#[trigger] utc_stamp(secs)) matches Some(stamp) && is_stamp(stamp))
                },
                Err(RotateError::Compress) => false,
            },
    {
        self.rotate_at(unix_now())
    }
}

/// The sum of `writes`.
pub open spec fn total(writes: Seq<u64>) -> nat
    decreases writes.len(),
{
    if writes.len() == 0 {
        0
    } else {
        (total(writes.drop_last()) + writes.last()) as nat
    }
}

/// What the rotater counts and the rotations so far, after `writes` went
/// into a log that held `size` bytes, each told to [`Rotater::write`] and
/// the log rotated to an empty file whenever a write left it due.
pub open spec fn feed(size: u64, max: u64, writes: Seq<u64>) -> (u64, nat)
    decreases writes.len(),
{
    if writes.len() == 0 {
        (size, 0)
    } else {
        let (before, rotations) = feed(size, max, writes.drop_last());
        if due(before + writes.last(), max as int) {
            (0, rotations + 1)
        } else {
            (counted(before, writes.last()), rotations)
        }
    }
}

/// The sum of the first writes is no more than the sum of more of them.
pub proof fn lemma_total_grows(writes: Seq<u64>, i: int, j: int)
    requires
        0 <= i <= j <= writes.len(),
    ensures
        total(writes.take(i)) <= total(writes.take(j)),
    decreases j - i,
{
    if i < j {
        lemma_total_grows(writes, i, j - 1);
        assert(writes.take(j).drop_last() =~= writes.take(j - 1));
    }
}

/// Writes that do not take the log over its threshold rotate nothing, and
/// the rotater counts their sum as far as it can count.
pub proof fn lemma_no_rotation_below_threshold(size: u64, max: u64, writes: Seq<u64>)
    requires
        !due(size + total(writes), max as int),
    ensures
        feed(size, max, writes).1 == 0,
        size + total(writes) <= u64::MAX ==> feed(size, max, writes).0 == size + total(writes),
        size + total(writes) > u64::MAX ==> feed(size, max, writes).0 == u64::MAX,
    decreases writes.len(),
{
    if writes.len() > 0 {
        lemma_no_rotation_below_threshold(size, max, writes.drop_last());
    }
}

/// Of writes into a log, whatever their sizes, the first that takes what
/// the log holds over the threshold rotates the log, and no write before it
/// does: right after that write there has been exactly one rotation, and
/// the open file is empty.
pub proof fn law_first_crossing_rotates_once(size: u64, max: u64, writes: Seq<u64>, k: int)
    requires
        0 <= k < writes.len(),
        !due(size + total(writes.take(k)), max as int),
        due(size + total(writes.take(k + 1)), max as int),
    ensures
        forall|j: int| 0 <= j <= k ==> (#[trigger] feed(size, max, writes.take(j))).1 == 0,
        feed(size, max, writes.take(k + 1)) == (0u64, 1nat),
{
    assert forall|j: int| 0 <= j <= k implies (#[trigger] feed(size, max, writes.take(j))).1
        == 0 by {
        lemma_total_grows(writes, j, k);
        lemma_no_rotation_below_threshold(size, max, writes.take(j));
    }
    lemma_no_rotation_below_threshold(size, max, writes.take(k));
    assert(writes.take(k + 1).drop_last() =~= writes.take(k));
}

/// The name that a log is rotated to is the stem of its name, a hyphen,
/// fourteen digits, and the extension of its name.
pub proof fn law_rotated_name_shape(path: Seq<char>, stamp: Seq<char>)
    requires
        rotated_filename_of(path, stamp) is Ok,
    ensures
        ({
            let name = rotated_filename_of(path, stamp)->Ok_0;
            let whole = file_name(path);
            let a = stem(whole).len() as int;
            &&& name.len() == whole.len() + 1 + STAMP_LEN
            &&& name.subrange(0, a) == stem(whole)
            &&& name[a] == '-'
            &&& is_stamp(name.subrange(a + 1, a + 1 + STAMP_LEN))
            &&& name.subrange(a + 1 + STAMP_LEN, name.len() as int) == extension(whole)
            &&& stem(whole) + extension(whole) == whole
        }),
{
    reveal_strlit("-");
    let whole = file_name(path);
    let name = rotated_name(path, stamp);
    lemma_last_index(whole, '.');
    lemma_last_index(path, '/');
    let a = stem(whole).len() as int;
    assert("-"@.len() == 1);
    assert(name.subrange(0, a) =~= stem(whole));
    assert(name.subrange(a + 1, a + 1 + STAMP_LEN) =~= stamp);
    assert(name.subrange(a + 1 + STAMP_LEN, name.len() as int) =~= extension(whole));
    assert(stem(whole) + extension(whole) =~= whole);
}

} // verus!
