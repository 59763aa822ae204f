use std::io::Read;
use sup::backups::{extra_backups, read_backup, read_stamp_text};
use sup::config;
use sup::rotate::{
    gzip, gzipped, has_stamp_shape, log_dir, rotated_file, rotated_filename, Archive,
    RotateError, RotationJob, Rotater, Task,
};

fn log_conf(path: &str, max_size: u64) -> config::Log {
    let mut conf = config::Log::default();
    conf.path = path.to_string();
    conf.max_size = max_size;
    conf
}

fn names_of(names: &[&str]) -> Vec<String> {
    names.iter().map(|n| n.to_string()).collect()
}

#[test]
fn rotated_filename_puts_the_stamp_before_the_extension() {
    assert_eq!(
        rotated_filename("/var/log/app.log", "20240131235959"),
        Ok("app-20240131235959.log".to_string())
    );
    assert_eq!(rotated_filename("app.log", "20240131235959"), Ok("app-20240131235959.log".to_string()));
    assert_eq!(
        rotated_filename("logs/app.tar.gz", "19700101000000"),
        Ok("app.tar-19700101000000.gz".to_string())
    );
}

#[test]
fn rotated_filename_without_extension() {
    assert_eq!(rotated_filename("/var/log/app", "20240131235959"), Ok("app-20240131235959".to_string()));
    assert_eq!(rotated_filename(".hidden", "20240131235959"), Ok(".hidden-20240131235959".to_string()));
    assert_eq!(rotated_filename("a.b/app", "20240131235959"), Ok("app-20240131235959".to_string()));
    assert_eq!(rotated_filename("app.", "20240131235959"), Ok("app-20240131235959.".to_string()));
    assert_eq!(rotated_filename("..x", "20240131235959"), Ok(".-20240131235959.x".to_string()));
}

#[test]
fn rotated_filename_needs_a_file_name() {
    for path in ["", "/", "/var/log/", ".", "..", "/var/..", "logs/."] {
        assert_eq!(rotated_filename(path, "20240131235959"), Err(RotateError::NoFileName));
        assert_eq!(rotated_file(path, "20240131235959"), Err(RotateError::NoFileName));
    }
    assert_eq!(RotateError::NoFileName.message(), "log path names no file");
}

#[test]
fn rotated_filename_needs_fourteen_digits() {
    for stamp in ["", "2024", "2024013123595", "202401312359599", "2024013123595x", "+1000001312359"] {
        assert_eq!(rotated_filename("app.log", stamp), Err(RotateError::Timestamp));
    }
    assert_eq!(RotateError::Timestamp.message(), "rotation time is out of range");
}

#[test]
fn stamp_shape() {
    assert!(has_stamp_shape("20240131235959"));
    assert!(has_stamp_shape("00000000000000"));
    assert!(!has_stamp_shape("2024013123595"));
    assert!(!has_stamp_shape("2024-01-31T23:5"));
    assert!(!has_stamp_shape("２０２４０１３１２３５９５９"));
}

#[test]
fn rotated_file_lies_beside_the_log() {
    assert_eq!(
        rotated_file("/var/log/app.log", "20240131235959"),
        Ok("/var/log/app-20240131235959.log".to_string())
    );
    assert_eq!(rotated_file("app.log", "20240131235959"), Ok("app-20240131235959.log".to_string()));
    assert_eq!(rotated_file("/app.log", "20240131235959"), Ok("/app-20240131235959.log".to_string()));
    assert_eq!(
        rotated_file("./logs/out", "20240131235959"),
        Ok("./logs/out-20240131235959".to_string())
    );
}

#[test]
fn rotation_is_planned_at_a_given_time() {
    let mut conf = log_conf("/var/log/app.log", 10);
    conf.compress = true;
    let rotater = Rotater::new(conf, 0);
    assert_eq!(
        rotater.rotate_at(0),
        Ok(RotationJob {
            path: "/var/log/app-19700101000000.log".to_string(),
            compress: true,
            merge_compressed: false,
        })
    );
    assert_eq!(
        rotater.rotate_at(1431648000).unwrap().path,
        "/var/log/app-20150515000000.log"
    );
    assert_eq!(
        rotater.rotate_at(1706745599).unwrap().path,
        "/var/log/app-20240131235959.log"
    );
    assert_eq!(
        rotater.rotate_with("20240131235959").unwrap().path,
        "/var/log/app-20240131235959.log"
    );
}

#[test]
fn rotation_fails_out_of_the_range_of_timestamps() {
    let rotater = Rotater::new(log_conf("/var/log/app.log", 10), 0);
    // The year 10000 and the year before the year 0.
    assert_eq!(rotater.rotate_at(253402300800), Err(RotateError::Timestamp));
    assert_eq!(rotater.rotate_at(-62198755200), Err(RotateError::Timestamp));
    assert_eq!(rotater.rotate_at(i64::MAX), Err(RotateError::Timestamp));
    assert_eq!(rotater.rotate_at(i64::MIN), Err(RotateError::Timestamp));
    assert_eq!(
        rotater.rotate_at(253402300799).unwrap().path,
        "/var/log/app-99991231235959.log"
    );
    let nameless = Rotater::new(log_conf("/var/log/", 10), 0);
    assert_eq!(nameless.rotate_at(0), Err(RotateError::NoFileName));
    assert_eq!(nameless.rotate_at(i64::MAX), Err(RotateError::NoFileName));
    assert_eq!(nameless.rotate(), Err(RotateError::NoFileName));
}

#[test]
fn rotation_now_has_a_name_of_the_right_shape() {
    let rotater = Rotater::new(log_conf("/var/log/app.log", 10), 0);
    let job = rotater.rotate().unwrap();
    let name = job.path.strip_prefix("/var/log/app-").unwrap().strip_suffix(".log").unwrap();
    assert_eq!(name.len(), 14);
    assert!(name.chars().all(|c| c.is_ascii_digit()));
    assert!(name > "20240101000000");
    assert!(!job.compress);
}

#[test]
fn first_write_over_the_threshold_rotates_once() {
    let mut rotater = Rotater::new(log_conf("app.log", 100), 0);
    let mut rotations = 0;
    let writes = [40u64, 40, 20, 1, 50, 60, 100, 1];
    let wanted = [false, false, false, true, false, true, false, true];
    for (written, want) in writes.iter().zip(wanted) {
        let due = rotater.write(*written);
        assert_eq!(due, want);
        if due {
            rotations += 1;
            rotater.rotated(0);
            assert_eq!(rotater.size(), 0);
        }
    }
    assert_eq!(rotations, 3);
    assert_eq!(rotater.size(), 0);
}

#[test]
fn threshold_itself_does_not_rotate() {
    let mut rotater = Rotater::new(log_conf("app.log", 100), 60);
    assert_eq!(rotater.size(), 60);
    assert!(!rotater.write(40));
    assert_eq!(rotater.size(), 100);
    assert!(!rotater.write(0));
    assert!(rotater.write(1));
    assert_eq!(rotater.size(), 101);
}

#[test]
fn zero_threshold_never_rotates() {
    let mut rotater = Rotater::new(log_conf("app.log", 0), 0);
    assert!(!rotater.write(1 << 40));
    assert!(!rotater.write(u64::MAX - (1 << 40)));
    assert_eq!(rotater.size(), u64::MAX);
}

#[test]
fn failed_rotation_is_tried_again() {
    let mut rotater = Rotater::new(log_conf("app.log", 10), 0);
    assert!(rotater.write(11));
    // The files were not swapped, so the rotater is told nothing.
    assert!(rotater.write(1));
    assert_eq!(rotater.size(), 12);
    rotater.rotated(5);
    assert_eq!(rotater.size(), 5);
    assert!(!rotater.write(5));
    assert!(rotater.write(1));
}

#[test]
fn background_tasks_of_a_job() {
    let mut job = RotationJob { path: "x".to_string(), compress: true, merge_compressed: true };
    assert_eq!(job.tasks(), vec![Task::Compress, Task::Clean]);
    job.compress = false;
    assert_eq!(job.tasks(), vec![Task::Clean]);
}

#[test]
fn gzip_makes_a_stream_that_unpacks_to_the_data() {
    let data = b"the quick brown fox jumps over the lazy dog\n".repeat(100);
    let archive = gzip("/var/log/app-20240131235959.log", &data).unwrap();
    assert_eq!(archive.path, "/var/log/app-20240131235959.log.gz");
    assert_ne!(archive.bytes, data);
    assert!(archive.bytes.len() < data.len());
    assert_eq!(&archive.bytes[..2], &[0x1f, 0x8b]);
    let mut unpacked = Vec::new();
    flate2::read::GzDecoder::new(&archive.bytes[..]).read_to_end(&mut unpacked).unwrap();
    assert_eq!(unpacked, data);
}

#[test]
fn gzip_of_nothing_is_a_stream() {
    let archive = gzip("a", &[]).unwrap();
    assert_eq!(archive.path, "a.gz");
    assert!(!archive.bytes.is_empty());
    let mut unpacked = Vec::new();
    flate2::read::GzDecoder::new(&archive.bytes[..]).read_to_end(&mut unpacked).unwrap();
    assert!(unpacked.is_empty());
}

#[test]
fn gzip_is_the_same_for_the_same_data() {
    let data = b"same data".to_vec();
    assert_eq!(gzip("a", &data), gzip("a", &data));
}

#[test]
fn gzipped_names_the_archive() {
    assert_eq!(
        gzipped("app-1.log", Some(vec![1, 2, 3])),
        Ok(Archive { path: "app-1.log.gz".to_string(), bytes: vec![1, 2, 3] })
    );
    assert_eq!(gzipped("app-1.log", None), Err(RotateError::Compress));
    assert_eq!(RotateError::Compress.message(), "failed to gzip rotated log");
}

#[test]
fn backup_names_are_read() {
    assert_eq!(read_backup("app-20240131235959.log", "app", ".log"), Some(20240131235959));
    assert_eq!(read_backup("app-20240131235959.log.gz", "app", ".log"), Some(20240131235959));
    assert_eq!(read_backup("app-00000000000001", "app", ""), Some(1));
    assert_eq!(read_backup("app-00000000000001.gz", "app", ""), Some(1));
    assert_eq!(read_backup("-99999999999999", "", ""), Some(99999999999999));
}

#[test]
fn other_names_are_no_backups() {
    for name in [
        "app.log",
        "app-20240131235959.txt",
        "app-2024013123595.log",
        "app-2024013123595x.log",
        "app_20240131235959.log",
        "bpp-20240131235959.log",
        "app-20240131235959.log.bz",
        "app-20240131235959.log.gz.gz",
        "app-20240131235959.logx",
        "SECRET-REDACTED.log",
        "app-20240131235959",
        "",
    ] {
        assert_eq!(read_backup(name, "app", ".log"), None, "{name}");
    }
}

#[test]
fn stamps_are_read_as_numbers() {
    assert_eq!(read_stamp_text("20240131235959"), Some(20240131235959));
    assert_eq!(read_stamp_text("00000000000000"), Some(0));
    assert_eq!(read_stamp_text("99999999999999"), Some(99999999999999));
    assert_eq!(read_stamp_text("2024013123595"), None);
    assert_eq!(read_stamp_text("2024013123595a"), None);
}

#[test]
fn no_limits_remove_nothing() {
    let stamps = vec![Some(3), None, Some(1), Some(2)];
    assert_eq!(extra_backups(&stamps, 0, None), Vec::<usize>::new());
    assert_eq!(extra_backups(&vec![], 1, Some(5)), Vec::<usize>::new());
}

#[test]
fn backups_beyond_the_count_are_removed_oldest_first() {
    let stamps = vec![Some(30), None, Some(10), Some(40), Some(20), None];
    assert_eq!(extra_backups(&stamps, 4, None), Vec::<usize>::new());
    assert_eq!(extra_backups(&stamps, 3, None), vec![2]);
    assert_eq!(extra_backups(&stamps, 2, None), vec![2, 4]);
    assert_eq!(extra_backups(&stamps, 1, None), vec![2, 4, 0]);
}

#[test]
fn backups_before_the_cutoff_are_removed_oldest_first() {
    let stamps = vec![Some(30), None, Some(10), Some(40), Some(20), None];
    assert_eq!(extra_backups(&stamps, 0, Some(10)), Vec::<usize>::new());
    assert_eq!(extra_backups(&stamps, 0, Some(11)), vec![2]);
    assert_eq!(extra_backups(&stamps, 0, Some(30)), vec![2, 4]);
    assert_eq!(extra_backups(&stamps, 0, Some(100)), vec![2, 4, 0, 3]);
    assert_eq!(extra_backups(&stamps, 3, Some(25)), vec![2, 4]);
    assert_eq!(extra_backups(&stamps, 1, Some(15)), vec![2, 4, 0]);
}

#[test]
fn backups_of_one_time_count_one_by_one() {
    // Of two files of one rotation the one that stands first is the newer.
    let stamps = vec![Some(5), Some(5), Some(7), Some(5)];
    assert_eq!(extra_backups(&stamps, 1, None), vec![3, 1, 0]);
    assert_eq!(extra_backups(&stamps, 2, None), vec![3, 1]);
    assert_eq!(extra_backups(&stamps, 3, None), vec![3]);
}

#[test]
fn rotater_picks_the_backups_to_remove() {
    let mut conf = log_conf("/var/log/app.log", 100);
    conf.max_backups = 2;
    let rotater = Rotater::new(conf, 0);
    let names = names_of(&[
        "app.log",
        "app-20240103000000.log",
        "other-20240101000000.log",
        "app-20240101000000.log.gz",
        "app-20240104000000.log",
        "app-20240102000000.log.gz",
    ]);
    assert_eq!(
        rotater.backup_stamps(&names),
        Ok(vec![
            None,
            Some(20240103000000),
            None,
            Some(20240101000000),
            Some(20240104000000),
            Some(20240102000000),
        ])
    );
    assert_eq!(rotater.clean_extra_backups_before(&names, None), Ok(vec![3, 5]));
    assert_eq!(rotater.clean_extra_backups_before(&names, Some(20240103120000)), Ok(vec![3, 5, 1]));
    assert_eq!(rotater.clean_extra_backups(&names), Ok(vec![3, 5]));
}

#[test]
fn rotater_removes_backups_by_age() {
    let mut conf = log_conf("app.log", 100);
    conf.max_days = 2;
    let rotater = Rotater::new(conf, 0);
    let names = names_of(&[
        "app-20240101000000.log",
        "app-20240102000000.log",
        "app-20240103000000.log",
        "app-20240102000001.log",
    ]);
    // 2024-01-04 00:00:00 UTC: what was rotated before 2024-01-02 00:00:00 goes.
    assert_eq!(rotater.clean_extra_backups_at(&names, 1704326400), Ok(vec![0]));
    // One second later the file of 2024-01-02 00:00:00 goes too.
    assert_eq!(rotater.clean_extra_backups_at(&names, 1704326401), Ok(vec![0, 1]));
    assert_eq!(rotater.clean_extra_backups_at(&names, 1704326400 + 86400 * 10), Ok(vec![0, 1, 3, 2]));
    assert_eq!(rotater.clean_extra_backups_at(&names, 0), Ok(vec![]));
    assert_eq!(rotater.clean_extra_backups_at(&names, i64::MIN), Ok(vec![]));
    assert_eq!(rotater.clean_extra_backups(&names), Ok(vec![0, 1, 3, 2]));
}

#[test]
fn rotater_without_file_name_cleans_nothing() {
    let rotater = Rotater::new(log_conf("/var/log/", 100), 0);
    assert_eq!(rotater.clean_extra_backups(&names_of(&["a"])), Err(RotateError::NoFileName));
    assert_eq!(rotater.backup_stamps(&vec![]), Err(RotateError::NoFileName));
}

#[test]
fn stem_and_extension_are_those_of_std_for_file_paths() {
    let paths = [
        "app.log",
        "/var/log/app.log",
        "/var/log/app",
        "logs/app.tar.gz",
        "./a.b/c.d.e",
        ".hidden",
        "/home/u/.profile.bak",
        "app.",
        "a b/c d.txt",
        "/x/y.z/w",
        "été/journal.log",
    ];
    for path in paths {
        let std_path = std::path::Path::new(path);
        let stem = std_path.file_stem().unwrap().to_str().unwrap();
        let want = match std_path.extension() {
            Some(ext) => format!("{stem}-20240131235959.{}", ext.to_str().unwrap()),
            None => format!("{stem}-20240131235959"),
        };
        assert_eq!(rotated_filename(path, "20240131235959"), Ok(want.clone()), "{path}");
        let beside = std_path.parent().unwrap().join(&want);
        assert_eq!(
            rotated_file(path, "20240131235959").unwrap().trim_start_matches("./"),
            beside.to_str().unwrap().trim_start_matches("./"),
            "{path}"
        );
    }
}

#[test]
fn count_stops_at_the_largest_number() {
    let mut rotater = Rotater::new(log_conf("app.log", 0), u64::MAX - 1);
    assert!(!rotater.write(5));
    assert_eq!(rotater.size(), u64::MAX);
    assert!(!rotater.write(u64::MAX));
    assert_eq!(rotater.size(), u64::MAX);

    let mut rotater = Rotater::new(log_conf("app.log", u64::MAX), u64::MAX - 1);
    assert!(!rotater.write(1));
    assert_eq!(rotater.size(), u64::MAX);
    // What the log holds is over the threshold, though no number says how far.
    assert!(rotater.write(1));
    assert_eq!(rotater.size(), u64::MAX);
    rotater.rotated(0);
    assert_eq!(rotater.size(), 0);
    assert!(!rotater.write(u64::MAX));

    let mut rotater = Rotater::new(log_conf("app.log", 10), 0);
    assert!(rotater.write(u64::MAX));
    assert!(rotater.write(u64::MAX));
}

#[test]
fn log_dir_ends_in_a_slash() {
    assert_eq!(log_dir("/var/log/app.log"), "/var/log/");
    assert_eq!(log_dir("app.log"), "./");
    assert_eq!(log_dir("/app.log"), "/");
    assert_eq!(log_dir("logs/app"), "logs/");
    assert_eq!(log_dir("./a/b/"), "./a/b/");
    assert_eq!(log_dir(""), "./");
}

#[test]
fn rotated_file_lies_in_the_log_dir() {
    for path in ["/var/log/app.log", "/app.log", "logs/a.b/app"] {
        let name = rotated_filename(path, "20240131235959").unwrap();
        assert_eq!(
            rotated_file(path, "20240131235959").unwrap(),
            format!("{}{}", log_dir(path), name)
        );
    }
}
