use cluv::error::CluvError;
use cluv::ffprobe::FFprobe;
use cluv::input::Input;
use cluv::output::OutputBuilder;
use cluv::kvlist::KvList;
use cluv::strutil::{
    i32_to_string, milli_to_decimal_string, parse_fraction_milli, parse_seconds_millis,
    parse_u32, parse_u64, str_eq, u32_to_string, u64_to_string,
};

#[test]
fn test_decimal_rendering() {
    assert_eq!(u32_to_string(0), "0");
    assert_eq!(u32_to_string(42), "42");
    assert_eq!(u64_to_string(1234567890123), "1234567890123");
    assert_eq!(i32_to_string(-42), "-42");
    assert_eq!(i32_to_string(i32::MIN), "-2147483648");
}

#[test]
fn test_milli_decimal_rendering() {
    assert_eq!(milli_to_decimal_string(2500), "2.5");
    assert_eq!(milli_to_decimal_string(2000), "2");
    assert_eq!(milli_to_decimal_string(123), "0.123");
    assert_eq!(milli_to_decimal_string(120), "0.12");
    assert_eq!(milli_to_decimal_string(0), "0");
}

#[test]
fn test_parsing_numbers() {
    assert_eq!(parse_u32("123"), Some(123));
    assert_eq!(parse_u32(""), None);
    assert_eq!(parse_u32("12a"), None);
    assert_eq!(parse_u32("4294967295"), Some(u32::MAX));
    assert_eq!(parse_u32("4294967296"), None);
    assert_eq!(parse_u64("18446744073709551615"), Some(u64::MAX));
    assert_eq!(parse_u64("18446744073709551616"), None);
}

#[test]
fn test_parsing_seconds() {
    assert_eq!(parse_seconds_millis("120.5"), Some(120500));
    assert_eq!(parse_seconds_millis("2"), Some(2000));
    assert_eq!(parse_seconds_millis("0.1234"), Some(123));
    assert_eq!(parse_seconds_millis("0.1235"), Some(124));
    assert_eq!(parse_seconds_millis(".5"), None);
    assert_eq!(parse_seconds_millis("abc"), None);
}

#[test]
fn test_parsing_fractions() {
    assert_eq!(parse_fraction_milli("30/1"), Some(30000));
    assert_eq!(parse_fraction_milli("30000/1001"), Some(29970));
    assert_eq!(parse_fraction_milli("24/0"), None);
    assert_eq!(parse_fraction_milli("24"), None);
    assert_eq!(parse_fraction_milli("a/b"), None);
}

#[test]
fn test_str_eq() {
    assert!(str_eq("abc", "abc"));
    assert!(!str_eq("abc", "abd"));
    assert!(!str_eq("abc", "ab"));
}

#[test]
fn test_kvlist_insert_get() {
    let mut kv = KvList::new();
    assert!(kv.is_empty());
    kv.insert("a", "1");
    kv.insert("b", "2");
    kv.insert("a", "3");
    assert_eq!(kv.len(), 2);
    assert_eq!(kv.get("a"), Some(&"3".to_string()));
    assert_eq!(kv.get("b"), Some(&"2".to_string()));
    assert_eq!(kv.get("c"), None);
}

#[test]
fn test_error_constructors() {
    assert_eq!(CluvError::ffmpeg("boom").to_display_string(), "FFmpeg error: boom");
    assert_eq!(CluvError::ffprobe("boom").to_display_string(), "FFprobe error: boom");
    assert_eq!(
        CluvError::invalid_params("bad").to_display_string(),
        "Invalid parameters: bad"
    );
    assert_eq!(
        CluvError::missing_param("input file").to_display_string(),
        "Missing required parameter: input file"
    );
    assert_eq!(
        CluvError::file_not_found("a.mp4").to_display_string(),
        "File not found: a.mp4"
    );
    assert_eq!(
        CluvError::unsupported_format("webp").to_display_string(),
        "Unsupported format: webp"
    );
    assert_eq!(CluvError::custom("boom").to_display_string(), "boom");
}

#[test]
fn test_output_builder_missing_path() {
    let err = OutputBuilder::new().crf(20).build().unwrap_err();
    assert!(matches!(err, CluvError::MissingParam(_)));

    let ok = OutputBuilder::new()
        .path("test.mp4")
        .video_codec(cluv::codec::VideoCodec::H264)
        .crf(20)
        .metadata("title", "Test Video")
        .build()
        .unwrap();
    assert_eq!(ok.path, "test.mp4");
    assert_eq!(ok.video_codec, Some(cluv::codec::VideoCodec::H264));
    assert_eq!(ok.crf, Some(20));
    assert_eq!(ok.metadata.get("title"), Some(&"Test Video".to_string()));
}

#[test]
fn test_numeric_fraction_reduction() {
    assert_eq!(cluv::numeric::gcd(12, 8), 4);
    assert_eq!(cluv::util::reduce_fraction(12, 8), (3, 2));
    assert_eq!(cluv::util::fraction(24000, 1001), "24000/1001");
}

#[test]
fn test_probe_args() {
    let probe = FFprobe::new().input("clip.mp4");
    let args = probe.build_args();
    assert_eq!(
        args,
        vec![
            "-v",
            "quiet",
            "-print_format",
            "json",
            "-show_format",
            "-show_streams",
            "clip.mp4"
        ]
    );
}

#[test]
fn test_input_to_args() {
    let input = Input::with_simple("test.mp4");
    assert_eq!(input.to_args(), vec!["-i", "test.mp4"]);

    let timed = Input::with_time(10000, 30000, "test.mp4");
    let args = timed.to_args();
    assert_eq!(args, vec!["-ss", "10", "-t", "30", "-i", "test.mp4"]);

    let concat = Input::with_concat("filelist.txt");
    let args = concat.to_args();
    assert!(args.contains(&"-f".to_string()));
    assert!(args.contains(&"concat".to_string()));
    assert!(args.contains(&"-safe".to_string()));
    assert!(args.contains(&"0".to_string()));
}

#[test]
fn test_format_file_size() {
    assert_eq!(cluv::util::format_file_size(500), "500.00 B");
    assert_eq!(cluv::util::format_file_size(1536), "1.50 KB");
    assert_eq!(cluv::util::format_file_size(1048576), "1.00 MB");
}
