use cluv::stream::{parse_stream, Stream, StreamMapper, StreamType, Streamable};

#[test]
fn test_stream_creation() {
    let video_stream = Stream::video(0);
    assert_eq!(video_stream.input_index, 0);
    assert_eq!(video_stream.stream_type, StreamType::Video);
    assert_eq!(video_stream.stream_index, None);
}

#[test]
fn test_stream_specifier() {
    assert_eq!(Stream::video(0).specifier(), "0:v");
    assert_eq!(Stream::audio(1).specifier(), "1:a");
    assert_eq!(Stream::video_index(0, 2).specifier(), "0:v:2");
    assert_eq!(Stream::any(0).specifier(), "0");
}

#[test]
fn test_stream_display() {
    let stream = Stream::video(0);
    assert_eq!(stream.to_string(), "0:v");

    let indexed_stream = Stream::audio_index(1, 2);
    assert_eq!(indexed_stream.to_string(), "1:a:2");
}

#[test]
fn test_stream_mapper() {
    assert_eq!(StreamMapper::map_video(0), "0:v");
    assert_eq!(StreamMapper::map_audio(1), "1:a");
    assert_eq!(StreamMapper::map_stream(0, 2), "0:2");

    let video_audio = StreamMapper::map_video_audio(0);
    assert_eq!(video_audio, vec!["0:v", "0:a"]);
}

#[test]
fn test_streamable_trait() {
    let stream = Stream::video(0);
    assert_eq!(stream.to_stream(), stream);

    let from_int: Stream = 1i32.to_stream();
    assert_eq!(from_int.input_index, 1);
    assert_eq!(from_int.stream_type, StreamType::Any);

    let from_tuple: Stream = (0, StreamType::Video).to_stream();
    assert_eq!(from_tuple.input_index, 0);
    assert_eq!(from_tuple.stream_type, StreamType::Video);
}

#[test]
fn test_parse_stream_specifiers() {
    assert_eq!(parse_stream("0:v"), Stream::video(0));
    assert_eq!(parse_stream("1:a"), Stream::audio(1));
    assert_eq!(parse_stream("2:5"), Stream::any(2).with_index(5));
    assert_eq!(parse_stream("3"), Stream::any(3));
    assert_eq!(parse_stream("junk"), Stream::any(0));
}
