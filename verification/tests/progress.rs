use ssh_transfer::progress::{
    average_rate, extract_last_part, extract_last_part_from_path, format_speed, rate,
    ProgressTracker, SAMPLE_INTERVAL_MS, SAMPLE_MIN_BYTES,
};

fn by_floats(bytes_per_sec: u64) -> String {
    if bytes_per_sec < 1024 {
        format!("{} B/s", bytes_per_sec)
    } else if bytes_per_sec < 1024 * 1024 {
        format!("{:.2} KB/s", bytes_per_sec as f64 / 1024.0)
    } else if bytes_per_sec < 1024 * 1024 * 1024 {
        format!("{:.2} MB/s", bytes_per_sec as f64 / (1024.0 * 1024.0))
    } else {
        format!("{:.2} GB/s", bytes_per_sec as f64 / (1024.0 * 1024.0 * 1024.0))
    }
}

#[test]
fn format_speed_examples() {
    assert_eq!(format_speed(0), "0 B/s");
    assert_eq!(format_speed(1023), "1023 B/s");
    assert_eq!(format_speed(1024), "1.00 KB/s");
    assert_eq!(format_speed(1536), "1.50 KB/s");
    assert_eq!(format_speed(1152), "1.12 KB/s");
    assert_eq!(format_speed(1048575), "1024.00 KB/s");
    assert_eq!(format_speed(1048576), "1.00 MB/s");
    assert_eq!(format_speed(5 * 1048576 + 524288), "5.50 MB/s");
    assert_eq!(format_speed(1073741824), "1.00 GB/s");
    assert_eq!(format_speed(u64::MAX), "17179869184.00 GB/s");
}

#[test]
fn format_speed_matches_float_formatting() {
    let mut values: Vec<u64> = Vec::new();
    for v in 0..5000u64 {
        values.push(v);
        values.push(1024 * 1024 - 2500 + v);
        values.push(1024 * 1024 * 1024 - 2500 + v);
        values.push(v * 128);
        values.push(v * 1310720 + 5242);
        values.push(v.wrapping_mul(0x9E3779B97F4A7C15));
        values.push(u64::MAX - v);
        values.push((1u64 << 53) - 2500 + v);
        values.push((1u64 << 54) - 2500 + v);
        values.push((1u64 << 63) - 2500 + v);
        values.push(v * 5368709 + (1 << 30));
    }
    for shift in 0..64 {
        for d in [0u64, 1, 2, 3, 511, 512, 513, 1023, 1024, 1025] {
            values.push((1u64 << shift).wrapping_add(d));
            values.push((1u64 << shift).wrapping_sub(d));
            values.push((3u64 << shift).wrapping_add(d));
        }
    }
    for v in values {
        assert_eq!(format_speed(v), by_floats(v), "rate {}", v);
    }
}

#[test]
fn rate_is_bytes_per_second() {
    assert_eq!(rate(1000, 500), 2000);
    assert_eq!(rate(1000, 1000), 1000);
    assert_eq!(rate(1000, 3000), 333);
    assert_eq!(rate(0, 500), 0);
    assert_eq!(rate(1000, 0), 0);
    assert_eq!(rate(u64::MAX, 1), u64::MAX);
    assert_eq!(rate(u64::MAX, 1000), u64::MAX);
    assert_eq!(rate(u64::MAX, 2000), u64::MAX / 2);
}

#[test]
fn average_rate_guards_short_transfers() {
    assert_eq!(average_rate(1000, 0), 1000);
    assert_eq!(average_rate(0, 0), 0);
    assert_eq!(average_rate(1000, 1), 1000);
    assert_eq!(average_rate(1000, 3), 333);
    assert_eq!(average_rate(0, 9), 0);
}

#[test]
fn extract_last_part_examples() {
    assert_eq!(extract_last_part("Uploading from /home/ann/photos"), "photos");
    assert_eq!(extract_last_part("Downloading from /srv/data/"), "data");
    assert_eq!(extract_last_part("Uploading /home/ann/a.txt"), "a.txt");
    assert_eq!(extract_last_part("Downloading files"), "Downloading files");
    assert_eq!(extract_last_part("/a/b/c.bin"), "c.bin");
    assert_eq!(extract_last_part("Uploading from "), "");
    assert_eq!(extract_last_part(""), "");
}

#[test]
fn extract_last_part_from_path_examples() {
    assert_eq!(extract_last_part_from_path("/a/b"), "b");
    assert_eq!(extract_last_part_from_path("a/.."), "..");
    assert_eq!(extract_last_part_from_path(".."), "..");
    assert_eq!(extract_last_part_from_path("/"), "/");
    assert_eq!(extract_last_part_from_path("a/../"), "a/../");
    assert_eq!(extract_last_part_from_path("c:\\dir\\.."), "c:\\dir\\..");
    assert_eq!(extract_last_part_from_path("c:\\dir\\file"), "c:\\dir\\file");
    assert_eq!(extract_last_part_from_path(""), "");
    assert_eq!(extract_last_part_from_path("."), ".");
}

fn reference_last_part(path: &str) -> String {
    let path_obj = std::path::Path::new(path);
    if let Some(file_name) = path_obj.file_name() {
        return file_name.to_string_lossy().to_string();
    }
    if let Some(pos) = path.rfind('/') {
        if pos < path.len() - 1 {
            return path[(pos + 1)..].to_string();
        }
    } else if let Some(pos) = path.rfind('\\') {
        if pos < path.len() - 1 {
            return path[(pos + 1)..].to_string();
        }
    }
    path.to_string()
}

#[test]
fn extract_last_part_from_path_matches_the_rules() {
    for p in [
        "", "/", "//", ".", "./", "..", "../", "../..", "a", "a/", "a/b", "a/..", "a/b/..", "/..",
        "x\\..", "\\..", "..\\", "é/..", "é\\..", "a/.", "/.", "\\", "a\\", "..\\..", "a/../..",
    ] {
        assert_eq!(extract_last_part_from_path(p), reference_last_part(p), "{:?}", p);
    }
}

#[test]
fn tracker_counts_and_samples() {
    let mut t = ProgressTracker::new(1_000_000, "Uploading from /home/ann/photos");
    assert_eq!(t.total_size(), 1_000_000);
    assert_eq!(t.position(), 0);
    assert_eq!(t.prefix(), "photos");
    assert_eq!(t.message(), "");
    assert_eq!(t.current_file(), "");
    assert_eq!(t.add_bytes(100, 10_000), 100);
    assert_eq!(t.message(), "");
    assert_eq!(t.add_bytes(SAMPLE_MIN_BYTES, SAMPLE_INTERVAL_MS - 1), 100 + 65536);
    assert_eq!(t.message(), "");
    assert_eq!(t.add_bytes(SAMPLE_MIN_BYTES, 1000), 100 + 2 * 65536);
    assert_eq!(t.message(), format_speed(100 + 2 * 65536));
    assert_eq!(t.add_bytes(SAMPLE_MIN_BYTES, 1499), 100 + 3 * 65536);
    assert_eq!(t.message(), format_speed(100 + 2 * 65536));
    assert_eq!(t.add_bytes(SAMPLE_MIN_BYTES, 1500), 100 + 4 * 65536);
    assert_eq!(t.message(), format_speed(2 * 65536 * 2));
    assert_eq!(t.position(), 100 + 4 * 65536);
}

#[test]
fn tracker_update_raises_the_position() {
    let mut t = ProgressTracker::new(1000, "Downloading /r/a.txt");
    t.update(400, 0);
    assert_eq!(t.position(), 400);
    assert_eq!(t.message(), "");
    t.update(900, 500);
    assert_eq!(t.position(), 900);
    assert_eq!(t.message(), "1.76 KB/s");
    t.update(1000, 900);
    assert_eq!(t.position(), 1000);
    assert_eq!(t.message(), "1.76 KB/s");
}

#[test]
fn late_update_never_lowers_the_position() {
    let mut t = ProgressTracker::new(1000, "x");
    t.update(900, 0);
    t.update(100, 100);
    assert_eq!(t.position(), 900);
    t.update(899, 1000);
    assert_eq!(t.position(), 900);
    assert_eq!(t.message(), "900 B/s");
    t.update(900, 1100);
    assert_eq!(t.position(), 900);
    t.add_bytes(50, 1200);
    t.update(10, 1300);
    assert_eq!(t.position(), 950);
    t.update(0, 5000);
    assert_eq!(t.position(), 950);
    assert_eq!(t.message(), format_speed(rate(50, 4000)));
}

#[test]
fn tracker_names_the_current_file() {
    let mut t = ProgressTracker::new(10, "Downloading files");
    assert_eq!(t.prefix(), "Downloading files");
    t.set_current_file("/remote/dir/movie.mkv");
    assert_eq!(t.current_file(), "/remote/dir/movie.mkv");
    assert_eq!(t.prefix(), "movie.mkv");
}

#[test]
fn tracker_closing_texts() {
    let mut t = ProgressTracker::new(10_000, "x");
    t.add_bytes(10_000, 0);
    t.finish(0);
    assert_eq!(t.message(), "Transfer completed (avg speed: 9.77 KB/s)");
    t.finish(4);
    assert_eq!(t.message(), "Transfer completed (avg speed: 2.44 KB/s)");
    t.finish_with_error("connection reset");
    assert_eq!(t.message(), "Transfer failed: connection reset");
    assert_eq!(t.position(), 10_000);
}

#[test]
fn order_of_additions_does_not_matter() {
    let adds: Vec<u64> = vec![5, 70_000, 0, 1, 999, 65536, 131072, 42, 7, 300_000];
    let total: u64 = adds.iter().sum();
    let mut orders: Vec<Vec<u64>> = Vec::new();
    orders.push(adds.clone());
    let mut rev = adds.clone();
    rev.reverse();
    orders.push(rev);
    let mut rotated = adds.clone();
    rotated.rotate_left(3);
    orders.push(rotated);
    let mut sorted = adds.clone();
    sorted.sort();
    orders.push(sorted);
    let mut interleaved = Vec::new();
    let (w1, w2) = adds.split_at(4);
    let mut i = 0;
    while i < w1.len() || i < w2.len() {
        if i < w2.len() {
            interleaved.push(w2[i]);
        }
        if i < w1.len() {
            interleaved.push(w1[i]);
        }
        i += 1;
    }
    orders.push(interleaved);
    for order in orders {
        let mut t = ProgressTracker::new(total, "x");
        let mut now = 0;
        for n in order {
            now += 137;
            t.add_bytes(n, now);
        }
        assert_eq!(t.position(), total);
    }
}

#[test]
fn counter_stops_at_the_largest_count() {
    let mut t = ProgressTracker::new(0, "x");
    assert_eq!(t.add_bytes(u64::MAX - 1, 0), u64::MAX - 1);
    assert_eq!(t.add_bytes(1, 0), u64::MAX);
    assert_eq!(t.add_bytes(2, 0), u64::MAX);
    assert_eq!(t.position(), u64::MAX);
    t.update(5, 0);
    assert_eq!(t.position(), u64::MAX);
}
