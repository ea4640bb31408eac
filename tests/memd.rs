use std::collections::HashMap;

use hiberman::memd::build_sample_header;
use hiberman::memd::modulo;
use hiberman::memd::parse_vmstats;
use hiberman::memd::read_watermarks;
use hiberman::memd::Watermarks;
use hiberman::memd::test_filename;
use hiberman::memd::SampleType;

#[test]
fn test_parse_vmstats() {
    let vmstats: HashMap<String, i64> = HashMap::from([
        ("noop".to_string(), 600),
        ("pswpin".to_string(), 100),
        ("pswpout".to_string(), 200),
        ("pgalloc_dma".to_string(), 1000),
        ("pgalloc_dma32".to_string(), 2000),
        ("pgalloc_normal".to_string(), 3000),
        ("pgalloc_movable".to_string(), 4000),
        ("pgmajfault".to_string(), 1500),
        ("pgmajfault_f".to_string(), 550),
    ]);
    let entries: Vec<(String, i64)> = vmstats.into_iter().collect();
    let result = parse_vmstats(&entries).unwrap();
    assert_eq!(result[0], 100); // pswpin
    assert_eq!(result[1], 200); // pswpout
    assert_eq!(result[2], 10000); // paalloc
    assert_eq!(result[3], 1500); // pgmajfault
    assert_eq!(result[4], 550); // pgmajfault_f
}

#[test]
fn vmstats_missing_values() {
    let entries = vec![
        ("pswpin".to_string(), 1),
        ("pswpout".to_string(), 2),
        ("pgmajfault".to_string(), 3),
    ];
    assert_eq!(parse_vmstats(&entries).unwrap(), [1, 2, 0, 3, 0]);
    let missing = vec![("pswpin".to_string(), 1), ("pgmajfault".to_string(), 3)];
    assert_eq!(
        parse_vmstats(&missing).unwrap_err(),
        "vmstat: missing value: pswpout"
    );
    let huge = vec![
        ("pswpin".to_string(), 1),
        ("pswpout".to_string(), 2),
        ("pgmajfault".to_string(), 3),
        ("pgalloc_a".to_string(), i64::MAX),
        ("pgalloc_b".to_string(), 1),
    ];
    assert!(parse_vmstats(&huge).is_err());
}

#[test]
fn modulo_is_never_negative() {
    assert_eq!(modulo(7, 5), 2);
    assert_eq!(modulo(-1, 5), 4);
    assert_eq!(modulo(-5, 5), 0);
    assert_eq!(modulo(-6, 5), 4);
    assert_eq!(modulo(isize::MIN, 3), (isize::MIN as i128).rem_euclid(3) as usize);
}

#[test]
fn sample_type_names() {
    assert_eq!(SampleType::default(), SampleType::Uninitialized);
    assert_eq!(SampleType::Timer.name(), "timer");
    assert_eq!(SampleType::OomKillKernel.name(), "keroom");
    assert!(SampleType::Timer.has_internal_timestamp());
    assert!(!SampleType::TabDiscard.has_internal_timestamp());
    assert!(!SampleType::OomKillBrowser.has_internal_timestamp());
}

#[test]
fn testing_file_names() {
    assert_eq!(test_filename(true, "/tmp/root", "/proc/vmstat"), "/tmp/root/proc/vmstat");
    assert_eq!(test_filename(false, "/tmp/root", "/proc/vmstat"), "/proc/vmstat");
}

#[test]
fn sample_header() {
    assert_eq!(
        build_sample_header(),
        "uptime type load freeram freeswap procs runnables available pswpin pswpout pgalloc pgmajfault pgmajfault_f\n"
    );
}

#[test]
fn zoneinfo_watermarks_are_summed() {
    let content = "Node 0, zone      DMA\n  pages free     3975\n        min      10\n        low      20\n        high     30\n\nNode 0, zone   Normal\n        min      5\n        low      6\n        high     7\n";
    assert_eq!(
        read_watermarks(content).unwrap(),
        Watermarks {
            min: 15,
            low: 26,
            high: 37
        }
    );
    assert!(read_watermarks("min x\n").is_err());
    assert!(read_watermarks("  low\n").is_err());
    assert!(read_watermarks("high 4294967295\nhigh 1\n").is_err());
    assert_eq!(
        read_watermarks("").unwrap(),
        Watermarks {
            min: 0,
            low: 0,
            high: 0
        }
    );
}
