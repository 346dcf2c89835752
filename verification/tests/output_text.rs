use devbridge::cli::output::{bytes, kv_lines};

fn float_bytes(v: i64) -> String {
    const UNITS: [&str; 5] = ["B", "KiB", "MiB", "GiB", "TiB"];
    let mut n = v.max(0) as f64;
    let mut i = 0usize;
    while n >= 1024.0 && i < UNITS.len() - 1 {
        n /= 1024.0;
        i += 1;
    }
    if i == 0 {
        format!("{} {}", n as i64, UNITS[i])
    } else {
        format!("{n:.1} {}", UNITS[i])
    }
}

#[test]
fn bytes_below_a_kibibyte_are_whole() {
    assert_eq!(bytes(0), "0 B");
    assert_eq!(bytes(-5), "0 B");
    assert_eq!(bytes(1023), "1023 B");
}

#[test]
fn bytes_use_binary_units_with_one_decimal() {
    assert_eq!(bytes(1024), "1.0 KiB");
    assert_eq!(bytes(1536), "1.5 KiB");
    assert_eq!(bytes(1_048_575), "1024.0 KiB");
    assert_eq!(bytes(1_048_576), "1.0 MiB");
    assert_eq!(bytes(5 * 1024 * 1024 * 1024), "5.0 GiB");
    assert_eq!(bytes(3 << 40), "3.0 TiB");
    assert_eq!(bytes(1 << 52), "4096.0 TiB");
}

#[test]
fn bytes_round_ties_like_float_formatting() {
    for v in [1280i64, 1331, 1382, 1433, 1434, 2304, 1_310_720, 1_363_149, 1024 * 1024 + 52_428] {
        assert_eq!(bytes(v), float_bytes(v), "value {v}");
    }
}

#[test]
fn bytes_match_float_formatting_widely() {
    let mut v: i64 = 1;
    while v < i64::MAX / 3 {
        for d in [-1i64, 0, 1, 511, 512, 513] {
            let x = v.saturating_add(d);
            assert_eq!(bytes(x), float_bytes(x), "value {x}");
        }
        v = v * 3 + 7;
    }
    for x in [i64::MAX, i64::MAX - 1, (1i64 << 53) + 1, (1i64 << 62) + 12345, i64::MIN] {
        assert_eq!(bytes(x), float_bytes(x), "value {x}");
    }
    for x in (0..5_000_000i64).step_by(997) {
        assert_eq!(bytes(x), float_bytes(x), "value {x}");
    }
}

#[test]
fn kv_lines_align_keys() {
    let rows = vec![("Tunnel ID", "abc".to_string()), ("Name", "demo".to_string())];
    let lines = kv_lines(&rows);
    assert_eq!(lines, vec!["Tunnel ID  abc".to_string(), "Name       demo".to_string()]);
    let empty: Vec<(&str, String)> = vec![];
    assert!(kv_lines(&empty).is_empty());
}

#[test]
fn kv_lines_pad_like_format_width() {
    let rows = vec![("名称", "x".to_string()), ("Quota", "1.0 KiB".to_string())];
    let width = rows.iter().map(|(k, _)| k.len()).max().unwrap_or(0);
    let expected: Vec<String> = rows.iter().map(|(k, v)| format!("{k:width$}  {v}")).collect();
    assert_eq!(kv_lines(&rows), expected);
}
