use rustspray::detection::{check_setup, Algorithm, SetupError};
use rustspray::logging::{
    action_columns, csv_line, csv_record, sprayer_list, ActionTaken, CsvFields, LogBook,
    LogFormat, LoggingConfig, CSV_HEADER,
};
use rustspray::text::{decimal_string, join, same_text, signed_decimal_string};

#[test]
fn log_format_chooses_files() {
    assert!(LogFormat::Json.writes_json());
    assert!(!LogFormat::Json.writes_csv());
    assert!(!LogFormat::Csv.writes_json());
    assert!(LogFormat::Csv.writes_csv());
    assert!(LogFormat::Both.writes_json());
    assert!(LogFormat::Both.writes_csv());
}

#[test]
fn default_logging_config() {
    let config = LoggingConfig::default();
    assert!(config.enabled);
    assert_eq!(config.output_file, "weed_detections");
    assert_eq!(config.format, LogFormat::Json);
    assert_eq!(config.buffer_size, 1024);
    assert!(config.auto_flush);
    assert_eq!(config.json_path(), "weed_detections.json");
    assert_eq!(config.csv_path(), "weed_detections.csv");
}

#[test]
fn decimal_strings() {
    assert_eq!(decimal_string(0), "0");
    assert_eq!(decimal_string(7), "7");
    assert_eq!(decimal_string(10), "10");
    assert_eq!(decimal_string(1234567890), "1234567890");
    assert_eq!(decimal_string(u64::MAX), u64::MAX.to_string());
    for n in 0..2000u64 {
        assert_eq!(decimal_string(n), n.to_string());
    }
    assert_eq!(signed_decimal_string(0), "0");
    assert_eq!(signed_decimal_string(-1), "-1");
    assert_eq!(signed_decimal_string(-120), "-120");
    assert_eq!(signed_decimal_string(i64::MIN), i64::MIN.to_string());
    assert_eq!(signed_decimal_string(i64::MAX), i64::MAX.to_string());
}

#[test]
fn join_puts_separator_between_parts() {
    let parts = vec!["a".to_string(), "".to_string(), "bc".to_string()];
    assert_eq!(join(&parts, ", "), "a, , bc");
    assert_eq!(join(&parts[..1].to_vec(), ","), "a");
    assert_eq!(join(&Vec::new(), ","), "");
    assert_eq!(join(&vec!["".to_string(), "".to_string()], ";"), ";");
    assert_eq!(csv_line(&parts), "a,,bc");
}

#[test]
fn sprayer_lists() {
    assert_eq!(sprayer_list(&vec![23, 24, 25, 26]), "23;24;25;26");
    assert_eq!(sprayer_list(&vec![0]), "0");
    assert_eq!(sprayer_list(&vec![]), "");
    assert_eq!(sprayer_list(&vec![255, 0, 7]), "255;0;7");
}

#[test]
fn action_columns_of_each_action() {
    let spray = action_columns(&ActionTaken::SprayActivated {
        duration_ms: 200,
        sprayers: vec![23, 24, 25, 26],
    });
    assert_eq!(spray.action_type, "spray");
    assert_eq!(spray.spray_duration, "200");
    assert_eq!(spray.sprayers, "23;24;25;26");
    let only = action_columns(&ActionTaken::LoggedOnly);
    assert_eq!(only.action_type, "log_only");
    assert_eq!(only.spray_duration, "");
    assert_eq!(only.sprayers, "");
    let manual = action_columns(&ActionTaken::Manual { description: "pulled by hand".to_string() });
    assert_eq!(manual.action_type, "manual:pulled by hand");
    assert_eq!(manual.spray_duration, "");
    assert_eq!(manual.sprayers, "");
}

#[test]
fn csv_header_has_twenty_columns() {
    assert!(CSV_HEADER.starts_with("id,timestamp,latitude"));
    assert_eq!(CSV_HEADER.split(',').count(), 20);
    assert!(CSV_HEADER.ends_with("action_type,spray_duration_ms,sprayers"));
}

fn config(enabled: bool, format: LogFormat, auto_flush: bool) -> LoggingConfig {
    LoggingConfig {
        enabled,
        output_file: "test_weed_detections".to_string(),
        format,
        buffer_size: 1024,
        auto_flush,
    }
}

#[test]
fn disabled_log_counts_nothing() {
    let mut book = LogBook::new(config(false, LogFormat::Both, true));
    assert!(!book.is_enabled());
    assert!(book.stamp("id".to_string(), "now".to_string()).is_none());
    assert!(book.begin_event().is_none());
    assert_eq!(book.event_count(), 0);
}

#[test]
fn stamp_counts_and_routes() {
    let mut book = LogBook::new(config(true, LogFormat::Csv, false));
    assert!(book.is_enabled());
    assert_eq!(book.config().output_file, "test_weed_detections");
    let stamp = book.stamp("abc".to_string(), "2024-01-01T00:00:00+00:00".to_string()).unwrap();
    assert_eq!(stamp.id, "abc");
    assert_eq!(stamp.timestamp, "2024-01-01T00:00:00+00:00");
    assert_eq!(stamp.number, 1);
    assert!(!stamp.write_json);
    assert!(stamp.write_csv);
    assert!(!stamp.flush);
    assert!(!stamp.report_progress);
    assert_eq!(book.event_count(), 1);
    for n in 2..=250u64 {
        let stamp = book.stamp(String::new(), String::new()).unwrap();
        assert_eq!(stamp.number, n);
        assert_eq!(stamp.report_progress, n % 100 == 0);
    }
    assert_eq!(book.event_count(), 250);
}

#[test]
fn begin_event_draws_uuid_and_time() {
    let mut book = LogBook::new(config(true, LogFormat::Both, true));
    let first = book.begin_event().unwrap();
    let second = book.begin_event().unwrap();
    assert_eq!(first.number, 1);
    assert_eq!(second.number, 2);
    assert!(first.write_json && first.write_csv && first.flush);
    assert_ne!(first.id, second.id);
    for id in [&first.id, &second.id] {
        let chars: Vec<char> = id.chars().collect();
        assert_eq!(chars.len(), 36);
        for (i, c) in chars.iter().enumerate() {
            if i == 8 || i == 13 || i == 18 || i == 23 {
                assert_eq!(*c, '-');
            } else {
                assert!(matches!(*c, '0'..='9' | 'a'..='f'));
            }
        }
        assert_eq!(chars[14], '4');
        assert!(matches!(chars[19], '8' | '9' | 'a' | 'b'));
        assert!(uuid::Uuid::parse_str(id).is_ok());
    }
    for stamp in [&first.timestamp, &second.timestamp] {
        let parsed = chrono::DateTime::parse_from_rfc3339(stamp).unwrap();
        assert!(parsed.timestamp() > 1_600_000_000);
    }
    assert!(first.timestamp <= second.timestamp || first.timestamp.len() != second.timestamp.len());
}

#[test]
fn log_format_names() {
    assert_eq!(LogFormat::parse("json"), Some(LogFormat::Json));
    assert_eq!(LogFormat::parse("csv"), Some(LogFormat::Csv));
    assert_eq!(LogFormat::parse("both"), Some(LogFormat::Both));
    assert_eq!(LogFormat::parse("Both"), None);
    assert_eq!(LogFormat::parse(""), None);
    assert_eq!(LogFormat::parse("xml"), None);
}

#[test]
fn same_text_compares_texts() {
    assert!(same_text("", ""));
    assert!(same_text("hsv", "hsv"));
    assert!(!same_text("hsv", "hsv "));
    assert!(!same_text("hsv", "exhsv"));
    assert!(!same_text("a", "b"));
}

#[test]
fn check_setup_rules() {
    assert_eq!(check_setup(640, 480, "hsv"), Ok(Algorithm::Hsv));
    assert_eq!(check_setup(1, 1, "exg"), Ok(Algorithm::Exg));
    assert_eq!(check_setup(0, 480, "hsv"), Err(SetupError::ZeroResolution));
    assert_eq!(check_setup(640, 0, "hsv"), Err(SetupError::ZeroResolution));
    assert_eq!(check_setup(640, 480, "invalid_algorithm"), Err(SetupError::UnsupportedAlgorithm));
    // the resolution is looked at first
    assert_eq!(check_setup(0, 0, "invalid_algorithm"), Err(SetupError::ZeroResolution));
}

fn spray_event() -> CsvFields {
    CsvFields {
        id: "f47ac10b-58cc-4372-a567-0e02b2c3d479".to_string(),
        timestamp: "2024-05-01T12:00:00+00:00".to_string(),
        latitude: String::new(),
        longitude: String::new(),
        altitude: String::new(),
        gps_accuracy: String::new(),
        is_mock_gps: true,
        algorithm: "exg".to_string(),
        center_x: 200,
        center_y: 250,
        bounding_box: [190, 240, 20, 20],
        area: "500".to_string(),
        confidence: String::new(),
        frame_number: 100,
        action: ActionTaken::SprayActivated { duration_ms: 200, sprayers: vec![23, 24, 25, 26] },
    }
}

#[test]
fn csv_record_of_spray_event() {
    let line = csv_record(&spray_event());
    assert_eq!(
        line,
        "f47ac10b-58cc-4372-a567-0e02b2c3d479,2024-05-01T12:00:00+00:00,,,,,true,exg,200,250,\
         190,240,20,20,500,,100,spray,200,23;24;25;26"
    );
    assert!(line.contains("exg"));
    assert!(line.contains("200,250"));
    assert!(line.contains("spray"));
    assert_eq!(line.split(',').count(), CSV_HEADER.split(',').count());
}

#[test]
fn csv_record_with_position_and_negative_numbers() {
    let fields = CsvFields {
        latitude: "42.00005".to_string(),
        longitude: "-93.49999".to_string(),
        altitude: "100.2".to_string(),
        gps_accuracy: "2.5".to_string(),
        is_mock_gps: false,
        algorithm: "hsv".to_string(),
        center_x: -5,
        center_y: 0,
        bounding_box: [-15, -10, 20, 20],
        area: "15.5".to_string(),
        confidence: "0.85".to_string(),
        frame_number: u64::MAX,
        action: ActionTaken::Manual { description: "hoed".to_string() },
        ..spray_event()
    };
    assert_eq!(
        csv_record(&fields),
        "f47ac10b-58cc-4372-a567-0e02b2c3d479,2024-05-01T12:00:00+00:00,42.00005,-93.49999,\
         100.2,2.5,false,hsv,-5,0,-15,-10,20,20,15.5,0.85,18446744073709551615,manual:hoed,,"
    );
    let only = CsvFields { action: ActionTaken::LoggedOnly, ..spray_event() };
    assert!(csv_record(&only).ends_with(",100,log_only,,"));
}
