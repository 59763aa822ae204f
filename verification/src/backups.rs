//! Which rotated logs are kept and which are removed.
//!
//! A rotated log is known by its name: the stem of the log's name, a hyphen,
//! a timestamp, the extension of the log's name, and `.gz` behind that where
//! the file was compressed. Of these files the newest are kept, as many as
//! the configuration allows, and none that is older than it allows.

use crate::rotate::{
    extension, file_name, is_digit, is_stamp, names_file, split_path, stamp_of, stem, unix_now,
    utc_stamp, RotateError, Rotater, STAMP_LEN,
};
use crate::text::{stands_at, to_chars};
use vstd::prelude::*;
use vstd::string::*;

verus! {

/// The number that the digit `c` stands for.
pub open spec fn digit_value(c: char) -> nat {
    (c as nat - '0' as nat) as nat
}

/// The number that the digits `s` write.
pub open spec fn stamp_value(s: Seq<char>) -> nat
    decreases s.len(),
{
    if s.len() == 0 {
        0
    } else {
        stamp_value(s.drop_last()) * 10 + digit_value(s.last())
    }
}

/// The name of the log with `stem` and `ext` that was rotated at the time
/// that `stamp` writes, compressed or not.
pub open spec fn backup_name(
    stem: Seq<char>,
    stamp: Seq<char>,
    ext: Seq<char>,
    packed: bool,
) -> Seq<char> {
    stem + "-"@ + stamp + ext + if packed {
        ".gz"@
    } else {
        Seq::<char>::empty()
    }
}

/// The timestamp in `name`, where `name` is the name of a rotated log with
/// `stem` and `ext`.
pub open spec fn backup_stamp(name: Seq<char>, stem: Seq<char>, ext: Seq<char>) -> Option<
    Seq<char>,
> {
    let at = stem.len() as int + 1;
    let stamp = name.subrange(at, at + STAMP_LEN);
    if at + STAMP_LEN <= name.len() && is_stamp(stamp) && (name == backup_name(
        stem,
        stamp,
        ext,
        false,
    ) || name == backup_name(stem, stamp, ext, true)) {
        Some(stamp)
    } else {
        None
    }
}

/// The time of rotation in `name` as a number, where `name` is the name of
/// a rotated log with `stem` and `ext`.
pub open spec fn backup_value(name: Seq<char>, stem: Seq<char>, ext: Seq<char>) -> Option<u64> {
    match backup_stamp(name, stem, ext) {
        Some(stamp) => Some(stamp_value(stamp) as u64),
        None => None,
    }
}

/// Ten to the power of `k`.
pub open spec fn ten_to(k: nat) -> nat
    decreases k,
{
    if k == 0 {
        1
    } else {
        10 * ten_to((k - 1) as nat)
    }
}

/// Powers of ten grow with their exponent.
pub proof fn lemma_ten_to_grows(i: nat, j: nat)
    requires
        i <= j,
    ensures
        ten_to(i) <= ten_to(j),
        ten_to(i) >= 1,
    decreases j,
{
    if i < j {
        lemma_ten_to_grows(i, (j - 1) as nat);
    } else if i > 0 {
        lemma_ten_to_grows((i - 1) as nat, (j - 1) as nat);
    }
}

/// Digits write a number below the power of ten of their count.
pub proof fn lemma_stamp_value_bound(s: Seq<char>)
    requires
        s.len() <= STAMP_LEN,
        forall|i: int| 0 <= i < s.len() ==> is_digit(#[trigger] s[i]),
    ensures
        stamp_value(s) < ten_to(s.len()),
        stamp_value(s) < 100_000_000_000_000,
    decreases s.len(),
{
    if s.len() > 0 {
        let rest = s.drop_last();
        lemma_stamp_value_bound(rest);
        assert(is_digit(s[s.len() - 1]));
    }
    lemma_ten_to_grows(s.len(), 14);
    assert(ten_to(14) == 100_000_000_000_000) by {
        reveal_with_fuel(ten_to, 15);
    }
}

/// The number that the fourteen characters of `s` from `at` write, where
/// they are digits.
fn read_stamp(s: &Vec<char>, at: usize) -> (value: Option<u64>)
    requires
        at + STAMP_LEN <= s.len(),
    ensures
        match value {
            Some(v) => is_stamp(s@.subrange(at as int, at + STAMP_LEN)) && v == stamp_value(
                s@.subrange(at as int, at + STAMP_LEN),
            ),
            None => !is_stamp(s@.subrange(at as int, at + STAMP_LEN)),
        },
{
    let ghost stamp = s@.subrange(at as int, at + STAMP_LEN);
    let mut value: u64 = 0;
    let mut k: usize = 0;
    while k < STAMP_LEN
        invariant
            at + STAMP_LEN <= s.len(),
            stamp == s@.subrange(at as int, at + STAMP_LEN),
            k <= STAMP_LEN,
            forall|i: int| 0 <= i < k ==> is_digit(#[trigger] stamp[i]),
            value == stamp_value(stamp.take(k as int)),
            value < 100_000_000_000_000,
        decreases STAMP_LEN - k,
    {
        let c = s[at + k];
        assert(c == stamp[k as int]);
        if !('0' <= c && c <= '9') {
            return None;
        }
        let d: u64 = (c as u32 - '0' as u32) as u64;
        proof {
            let next = stamp.take(k + 1);
            assert(next.drop_last() =~= stamp.take(k as int));
            assert(next.last() == c);
            assert(d == digit_value(c));
            lemma_stamp_value_bound(next);
        }
        value = value * 10 + d;
        k += 1;
    }
    assert(stamp.take(STAMP_LEN as int) =~= stamp);
    Some(value)
}

/// The time of rotation in `name` as a number, where `name` is the name of
/// a rotated log with `stem` and `ext`; `None` for any other name.
pub fn read_backup(name: &str, stem: &str, ext: &str) -> (value: Option<u64>)
    ensures
        value == backup_value(name@, stem@, ext@),
{
    let n = to_chars(name);
    let head = to_chars(stem);
    let tail = to_chars(ext);
    proof {
        reveal_strlit("-");
        reveal_strlit(".gz");
    }
    let ghost at = head.len() as int + 1;
    let ghost stamp = n@.subrange(at, at + STAMP_LEN);
    if n.len() < STAMP_LEN + 1 || n.len() - (STAMP_LEN + 1) < head.len() {
        return None;
    }
    let start = head.len() + 1;
    let rest = start + STAMP_LEN;
    if !stands_at(&n, 0, &head) || n[head.len()] != '-' {
        proof {
            let plain = backup_name(stem@, stamp, ext@, false);
            let packed = backup_name(stem@, stamp, ext@, true);
            if n@ == plain || n@ == packed {
                assert(n@.subrange(0, head.len() as int) =~= head@);
                assert(n@[head.len() as int] == '-');
            }
        }
        return None;
    }
    let value = match read_stamp(&n, start) {
        Some(v) => v,
        None => {
            return None;
        },
    };
    let left = n.len() - rest;
    let plain = left == tail.len() && stands_at(&n, rest, &tail);
    let packed = !plain && left >= 3 && left - 3 == tail.len() && stands_at(&n, rest, &tail)
        && n[n.len() - 3] == '.' && n[n.len() - 2] == 'g' && n[n.len() - 1] == 'z';
    proof {
        let a = backup_name(stem@, stamp, ext@, false);
        let b = backup_name(stem@, stamp, ext@, true);
        assert(a.len() == rest + tail.len());
        assert(b.len() == rest + tail.len() + 3);
        if plain {
            assert(n@ =~= a) by {
                assert forall|i: int| 0 <= i < n@.len() implies n@[i] == a[i] by {
                    if i < head.len() {
                        assert(n@.subrange(0, head.len() as int)[i] == head@[i]);
                    } else if i >= rest {
                        assert(n@.subrange(rest as int, rest + tail.len())[i - rest] == tail@[i
                            - rest]);
                    } else if i >= start {
                        assert(stamp[i - start] == n@[i]);
                    }
                }
            }
        } else if packed {
            assert(n@ =~= b) by {
                assert forall|i: int| 0 <= i < n@.len() implies n@[i] == b[i] by {
                    if i < head.len() {
                        assert(n@.subrange(0, head.len() as int)[i] == head@[i]);
                    } else if i >= rest + tail.len() {
                    } else if i >= rest {
                        assert(n@.subrange(rest as int, rest + tail.len())[i - rest] == tail@[i
                            - rest]);
                    } else if i >= start {
                        assert(stamp[i - start] == n@[i]);
                    }
                }
            }
        } else {
            if n@ == a {
                assert(n@.subrange(rest as int, rest + tail.len()) =~= tail@);
            }
            if n@ == b {
                assert(n@.subrange(rest as int, rest + tail.len()) =~= tail@);
                assert(b[rest + tail.len()] == '.');
                assert(b[rest + tail.len() + 1] == 'g');
                assert(b[rest + tail.len() + 2] == 'z');
            }
        }
        lemma_stamp_value_bound(stamp);
    }
    if plain || packed {
        Some(value)
    } else {
        None
    }
}

/// Of two rotated logs, the one at `j` is the newer: it was rotated later,
/// or at the same time and stands earlier in the list.
pub open spec fn newer(stamps: Seq<Option<u64>>, j: int, i: int) -> bool {
    &&& 0 <= j < stamps.len()
    &&& 0 <= i < stamps.len()
    &&& stamps[j] is Some
    &&& stamps[i] is Some
    &&& (stamps[j]->0 > stamps[i]->0 || (stamps[j]->0 == stamps[i]->0 && j < i))
}

/// How many of the first `upto` files are rotated logs newer than the one at
/// `i`.
pub open spec fn newer_count(stamps: Seq<Option<u64>>, i: int, upto: int) -> nat
    decreases upto,
{
    if upto <= 0 {
        0
    } else {
        newer_count(stamps, i, upto - 1) + if newer(stamps, upto - 1, i) {
            1nat
        } else {
            0nat
        }
    }
}

/// Whether the file at `i` is a rotated log that is to be removed: one that
/// has `max_backups` or more newer ones beside it, or one that is older
/// than `cutoff`. A limit of zero, and no cutoff, remove nothing.
pub open spec fn doomed(
    stamps: Seq<Option<u64>>,
    i: int,
    max_backups: u32,
    cutoff: Option<u64>,
) -> bool {
    &&& 0 <= i < stamps.len()
    &&& stamps[i] is Some
    &&& {
        ||| max_backups > 0 && newer_count(stamps, i, stamps.len() as int) >= max_backups
        ||| cutoff is Some && stamps[i]->0 < cutoff->0
    }
}

/// `out` lists rotated logs from the oldest to the newest.
pub open spec fn oldest_first(stamps: Seq<Option<u64>>, out: Seq<usize>) -> bool {
    forall|a: int, b: int|
        0 <= a < b < out.len() ==> newer(
            stamps,
            #[trigger] out[b] as int,
            #[trigger] out[a] as int,
        )
}

/// `out` lists the rotated logs that are to be removed, each once, the
/// oldest first.
pub open spec fn is_removal(
    stamps: Seq<Option<u64>>,
    max_backups: u32,
    cutoff: Option<u64>,
    out: Seq<usize>,
) -> bool {
    &&& forall|k: int|
        0 <= k < out.len() ==> doomed(stamps, #[trigger] out[k] as int, max_backups, cutoff)
    &&& forall|i: int| doomed(stamps, i, max_backups, cutoff) ==> out.contains(i as usize)
    &&& oldest_first(stamps, out)
}

/// Whether the file at `j` is a rotated log newer than the one at `i`.
fn is_newer(stamps: &Vec<Option<u64>>, j: usize, i: usize) -> (yes: bool)
    requires
        j < stamps.len(),
        i < stamps.len(),
    ensures
        yes == newer(stamps@, j as int, i as int),
{
    match (stamps[j], stamps[i]) {
        (Some(x), Some(y)) => x > y || (x == y && j < i),
        _ => false,
    }
}

/// Whether the file at `i` is a rotated log that is to be removed.
fn is_doomed(
    stamps: &Vec<Option<u64>>,
    i: usize,
    max_backups: u32,
    cutoff: Option<u64>,
) -> (yes: bool)
    requires
        i < stamps.len(),
    ensures
        yes == doomed(stamps@, i as int, max_backups, cutoff),
{
    let own = match stamps[i] {
        Some(v) => v,
        None => {
            return false;
        },
    };
    let old = match cutoff {
        Some(c) => own < c,
        None => false,
    };
    if old {
        return true;
    }
    if max_backups == 0 {
        return false;
    }
    let n = stamps.len();
    let mut count: usize = 0;
    let mut j: usize = 0;
    while j < n
        invariant
            n == stamps.len(),
            i < n,
            j <= n,
            count <= j,
            count == newer_count(stamps@, i as int, j as int),
        decreases n - j,
    {
        if is_newer(stamps, j, i) {
            count += 1;
        }
        j += 1;
    }
    count >= max_backups as usize
}

/// Which rotated logs are to be removed, as positions in `stamps`, the
/// oldest first. `stamps` holds for each file beside the log the time of
/// rotation in its name, or nothing where the file is no rotated log.
pub fn extra_backups(stamps: &Vec<Option<u64>>, max_backups: u32, cutoff: Option<u64>) -> (out: Vec<
    usize,
>)
    ensures
        is_removal(stamps@, max_backups, cutoff, out@),
{
    let n = stamps.len();
    let mut out: Vec<usize> = Vec::new();
    let mut i: usize = 0;
    while i < n
        invariant
            n == stamps.len(),
            i <= n,
            forall|k: int|
                0 <= k < out.len() ==> (#[trigger] out@[k]) < i && doomed(
                    stamps@,
                    out@[k] as int,
                    max_backups,
                    cutoff,
                ),
            forall|x: int|
                0 <= x < i && doomed(stamps@, x, max_backups, cutoff) ==> out@.contains(
                    x as usize,
                ),
            forall|a: int, b: int|
                0 <= a < b < out.len() ==> newer(
                    stamps@,
                    #[trigger] out@[b] as int,
                    #[trigger] out@[a] as int,
                ),
        decreases n - i,
    {
        if is_doomed(stamps, i, max_backups, cutoff) {
            let m = out.len();
            let mut p: usize = 0;
            while p < m && is_newer(stamps, i, out[p])
                invariant
                    n == stamps.len(),
                    i < n,
                    m == out.len(),
                    p <= m,
                    forall|k: int| 0 <= k < out.len() ==> (#[trigger] out@[k]) < i,
                    forall|k: int|
                        0 <= k < p ==> newer(stamps@, i as int, #[trigger] out@[k] as int),
                decreases m - p,
            {
                p += 1;
            }
            let ghost before = out@;
            out.insert(p, i);
            proof {
                before.insert_ensures(p as int, i);
                assert forall|x: int|
                    0 <= x < i + 1 && doomed(
                        stamps@,
                        x,
                        max_backups,
                        cutoff,
                    ) implies out@.contains(x as usize) by {
                    if x == i {
                        assert(out@[p as int] == i);
                    } else {
                        assert(before.contains(x as usize));
                        let k = choose|k: int| 0 <= k < before.len() && before[k] == x as usize;
                        if k < p {
                            assert(out@[k] == before[k]);
                        } else {
                            assert(out@[k + 1] == before[k]);
                        }
                    }
                }
                assert forall|k: int| 0 <= k < out.len() implies (#[trigger] out@[k]) < i + 1
                    && doomed(stamps@, out@[k] as int, max_backups, cutoff) by {
                    if k < p {
                        assert(out@[k] == before[k]);
                    } else if k > p {
                        assert(out@[k] == before[k - 1]);
                    }
                }
                assert forall|a: int, b: int| 0 <= a < b < out.len() implies newer(
                    stamps@,
                    #[trigger] out@[b] as int,
                    #[trigger] out@[a] as int,
                ) by {
                    let xa = if a < p {
                        before[a]
                    } else if a == p {
                        i
                    } else {
                        before[a - 1]
                    };
                    let xb = if b < p {
                        before[b]
                    } else if b == p {
                        i
                    } else {
                        before[b - 1]
                    };
                    assert(out@[a] == xa);
                    assert(out@[b] == xb);
                    if p < m {
                        // The file at `p` is no older than `i`, and is not `i`.
                        assert(before[p as int] < i);
                        assert(newer(stamps@, before[p as int] as int, i as int));
                        if b > p + 1 {
                            assert(newer(stamps@, before[b - 1] as int, before[p as int] as int));
                        }
                    }
                }
            }
        }
        i += 1;
    }
    out
}

/// The number that a timestamp writes; `None` for a text that has not the
/// shape of a timestamp.
pub open spec fn stamp_number(text: Seq<char>) -> Option<u64> {
    if is_stamp(text) {
        Some(stamp_value(text) as u64)
    } else {
        None
    }
}

/// Reads a timestamp as a number.
pub fn read_stamp_text(text: &str) -> (value: Option<u64>)
    ensures
        value == stamp_number(text@),
{
    let chars = to_chars(text);
    if chars.len() != STAMP_LEN {
        return None;
    }
    assert(chars@.subrange(0, STAMP_LEN as int) =~= text@);
    proof {
        if is_stamp(text@) {
            lemma_stamp_value_bound(text@);
        }
    }
    read_stamp(&chars, 0)
}

/// The seconds in a day.
pub const DAY_SECS: i64 = 86400;

/// The time before which a rotated log is too old at the time `now`, where
/// logs are kept for `max_days` days, both in seconds since the start of
/// 1970. There is none where no limit is set, or the time cannot be had.
pub open spec fn cutoff_secs(now: i64, max_days: u32) -> Option<i64> {
    if max_days > 0 && now - max_days * DAY_SECS >= i64::MIN {
        Some((now - max_days * DAY_SECS) as i64)
    } else {
        None
    }
}

/// That time as the number that its timestamp writes. There is none where
/// the time cannot be written as a timestamp.
pub open spec fn cutoff_at(now: i64, max_days: u32) -> Option<u64> {
    match cutoff_secs(now, max_days) {
        Some(secs) => match utc_stamp(secs) {
            Some(stamp) => stamp_number(stamp),
            None => None,
        },
        None => None,
    }
}

/// For each of `names` the time of rotation in it, where it is the name of
/// a rotated copy of the log at `path`.
pub open spec fn stamps_of(names: Seq<String>, path: Seq<char>) -> Seq<Option<u64>> {
    Seq::new(
        names.len(),
        |i: int| backup_value(names[i]@, stem(file_name(path)), extension(file_name(path))),
    )
}

impl Rotater {
    /// For each of `names`, the names of the files beside the log, the time
    /// of rotation in it, or nothing where the file is no rotated log.
    pub fn backup_stamps(&self, names: &Vec<String>) -> (stamps: Result<
        Vec<Option<u64>>,
        RotateError,
    >)
        ensures
            match stamps {
                Ok(found) => names_file(file_name(self.spec_conf().path@)) && found@ == stamps_of(
                    names@,
                    self.spec_conf().path@,
                ),
                Err(e) => e == RotateError::NoFileName && !names_file(
                    file_name(self.spec_conf().path@),
                ),
            },
    {
        let path = self.conf().path.as_str();
        let (start, dot, end) = match split_path(path) {
            Some(cut) => cut,
            None => {
                return Err(RotateError::NoFileName);
            },
        };
        let head = path.substring_char(start, dot);
        let tail = path.substring_char(dot, end);
        proof {
            let whole = file_name(path@);
            assert(path@.subrange(start as int, dot as int) =~= stem(whole));
            assert(path@.subrange(dot as int, end as int) =~= extension(whole));
        }
        let mut found: Vec<Option<u64>> = Vec::new();
        let mut i: usize = 0;
        while i < names.len()
            invariant
                i <= names.len(),
                found.len() == i,
                head@ == stem(file_name(path@)),
                tail@ == extension(file_name(path@)),
                forall|k: int|
                    0 <= k < i ==> #[trigger] found@[k] == backup_value(
                        names@[k]@,
                        head@,
                        tail@,
                    ),
            decreases names.len() - i,
        {
            found.push(read_backup(names[i].as_str(), head, tail));
            i += 1;
        }
        assert(found@ =~= stamps_of(names@, path@));
        Ok(found)
    }

    /// Which of `names`, the names of the files beside the log, are rotated
    /// logs to be removed, as positions in `names`, the oldest first: those
    /// beyond the configured number of newest ones, and those rotated
    /// before `cutoff`.
    pub fn clean_extra_backups_before(&self, names: &Vec<String>, cutoff: Option<u64>) -> (out:
        Result<Vec<usize>, RotateError>)
        ensures
            match out {
                Ok(gone) => names_file(file_name(self.spec_conf().path@)) && is_removal(
                    stamps_of(names@, self.spec_conf().path@),
                    self.spec_conf().max_backups,
                    cutoff,
                    gone@,
                ),
                Err(e) => e == RotateError::NoFileName && !names_file(
                    file_name(self.spec_conf().path@),
                ),
            },
    {
        match self.backup_stamps(names) {
            Ok(stamps) => Ok(extra_backups(&stamps, self.conf().max_backups, cutoff)),
            Err(e) => Err(e),
        }
    }

    /// As [`Rotater::clean_extra_backups_before`], at the time `now` in
    /// seconds since the start of 1970: a rotated log is too old when it was
    /// rotated more than the configured number of days before `now`.
    pub fn clean_extra_backups_at(&self, names: &Vec<String>, now: i64) -> (out: Result<
        Vec<usize>,
        RotateError,
    >)
        ensures
            match out {
                Ok(gone) => names_file(file_name(self.spec_conf().path@)) && is_removal(
                    stamps_of(names@, self.spec_conf().path@),
                    self.spec_conf().max_backups,
                    cutoff_at(now, self.spec_conf().max_days),
                    gone@,
                ),
                Err(e) => e == RotateError::NoFileName && !names_file(
                    file_name(self.spec_conf().path@),
                ),
            },
    {
        let days = self.conf().max_days;
        let secs = if days > 0 {
            now.checked_sub(days as i64 * DAY_SECS)
        } else {
            None
        };
        let cutoff = match secs {
            Some(s) => match stamp_of(s) {
                Some(stamp) => read_stamp_text(stamp.as_str()),
                None => None,
            },
            None => None,
        };
        self.clean_extra_backups_before(names, cutoff)
    }

    /// As [`Rotater::clean_extra_backups_at`], now by the clock of the
    /// machine.
    pub fn clean_extra_backups(&self, names: &Vec<String>) -> (out: Result<
        Vec<usize>,
        RotateError,
    >)
        ensures
            match out {
                Ok(gone) => names_file(file_name(self.spec_conf().path@)) && exists|now: i64|
                    #[trigger] is_removal(
                        stamps_of(names@, self.spec_conf().path@),
                        self.spec_conf().max_backups,
                        cutoff_at(now, self.spec_conf().max_days),
                        gone@,
                    ),
                Err(e) => e == RotateError::NoFileName && !names_file(
                    file_name(self.spec_conf().path@),
                ),
            },
    {
        self.clean_extra_backups_at(names, unix_now())
    }
}

/// Two lists of the same rotated logs, both from the oldest to the newest,
/// are one list.
pub proof fn lemma_ordered_lists_agree(stamps: Seq<Option<u64>>, a: Seq<usize>, b: Seq<usize>)
    requires
        oldest_first(stamps, a),
        oldest_first(stamps, b),
        forall|x: usize| a.contains(x) <==> b.contains(x),
    ensures
        a == b,
    decreases a.len(),
{
    if a.len() == 0 {
        if b.len() > 0 {
            assert(b.contains(b[0]));
            assert(a.contains(b[0]));
        }
        assert(a =~= b);
    } else {
        let x = a.last();
        assert(a.contains(x));
        assert(b.contains(x));
        let k = choose|k: int| 0 <= k < b.len() && b[k] == x;
        let y = b.last();
        assert(b.contains(y));
        assert(a.contains(y));
        let j = choose|j: int| 0 <= j < a.len() && a[j] == y;
        if k < b.len() - 1 {
            assert(newer(stamps, b[b.len() - 1] as int, b[k] as int));
            if j < a.len() - 1 {
                assert(newer(stamps, a[a.len() - 1] as int, a[j] as int));
            }
            assert(false);
        }
        assert(x == y);
        let front = a.drop_last();
        let other = b.drop_last();
        assert forall|z: usize| front.contains(z) <==> other.contains(z) by {
            if front.contains(z) {
                let i = choose|i: int| 0 <= i < front.len() && front[i] == z;
                assert(a[i] == z);
                assert(newer(stamps, a[a.len() - 1] as int, a[i] as int));
                assert(a.contains(z));
                assert(b.contains(z));
                let m = choose|m: int| 0 <= m < b.len() && b[m] == z;
                assert(other[m] == z);
            }
            if other.contains(z) {
                let i = choose|i: int| 0 <= i < other.len() && other[i] == z;
                assert(b[i] == z);
                assert(newer(stamps, b[b.len() - 1] as int, b[i] as int));
                assert(b.contains(z));
                assert(a.contains(z));
                let m = choose|m: int| 0 <= m < a.len() && a[m] == z;
                assert(front[m] == z);
            }
        }
        assert(oldest_first(stamps, front)) by {
            assert forall|c: int, d: int| 0 <= c < d < front.len() implies newer(
                stamps,
                #[trigger] front[d] as int,
                #[trigger] front[c] as int,
            ) by {
                assert(front[d] == a[d] && front[c] == a[c]);
            }
        }
        assert(oldest_first(stamps, other)) by {
            assert forall|c: int, d: int| 0 <= c < d < other.len() implies newer(
                stamps,
                #[trigger] other[d] as int,
                #[trigger] other[c] as int,
            ) by {
                assert(other[d] == b[d] && other[c] == b[c]);
            }
        }
        lemma_ordered_lists_agree(stamps, front, other);
        assert(a =~= front.push(x));
        assert(b =~= other.push(y));
    }
}

/// There is one list of the rotated logs to remove and no other: what
/// [`extra_backups`] returns is fixed by the files and the limits.
pub proof fn law_removal_is_unique(
    stamps: Seq<Option<u64>>,
    max_backups: u32,
    cutoff: Option<u64>,
    a: Seq<usize>,
    b: Seq<usize>,
)
    requires
        is_removal(stamps, max_backups, cutoff, a),
        is_removal(stamps, max_backups, cutoff, b),
    ensures
        a == b,
{
    assert forall|x: usize| a.contains(x) <==> b.contains(x) by {
        if a.contains(x) {
            let i = choose|i: int| 0 <= i < a.len() && a[i] == x;
            assert(doomed(stamps, a[i] as int, max_backups, cutoff));
        }
        if b.contains(x) {
            let i = choose|i: int| 0 <= i < b.len() && b[i] == x;
            assert(doomed(stamps, b[i] as int, max_backups, cutoff));
        }
    }
    lemma_ordered_lists_agree(stamps, a, b);
}

/// With no limit on the number of rotated logs and none on their age,
/// nothing is removed.
pub proof fn law_no_limits_remove_nothing(stamps: Seq<Option<u64>>, out: Seq<usize>)
    requires
        is_removal(stamps, 0, None, out),
    ensures
        out.len() == 0,
{
    if out.len() > 0 {
        assert(doomed(stamps, out[0] as int, 0, None));
    }
}

/// Whatever is removed, the rotated logs that stay are newer than every one
/// that goes.
pub proof fn law_kept_are_newer(
    stamps: Seq<Option<u64>>,
    max_backups: u32,
    cutoff: Option<u64>,
    kept: int,
    gone: int,
)
    requires
        0 <= kept < stamps.len(),
        stamps[kept] is Some,
        !doomed(stamps, kept, max_backups, cutoff),
        doomed(stamps, gone, max_backups, cutoff),
    ensures
        newer(stamps, kept, gone),
{
    if !newer(stamps, kept, gone) {
        // Then `gone` is newer than `kept`, and all that is newer than
        // `gone` is newer than `kept`.
        assert(newer(stamps, gone, kept));
        lemma_newer_count_grows(stamps, gone, kept, stamps.len() as int);
    }
}

/// A rotated log has at least as many newer ones beside it as any that is
/// newer than it.
pub proof fn lemma_newer_count_grows(stamps: Seq<Option<u64>>, young: int, aged: int, upto: int)
    requires
        newer(stamps, young, aged),
    ensures
        newer_count(stamps, young, upto) <= newer_count(stamps, aged, upto),
    decreases upto,
{
    if upto > 0 {
        lemma_newer_count_grows(stamps, young, aged, upto - 1);
    }
}

} // verus!
