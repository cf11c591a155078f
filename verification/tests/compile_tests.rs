use cluv::editor::{Editor, ExportOptions};
use cluv::ffmpeg::FFmpeg;
use cluv::material::{AudioMaterial, Material, VideoMaterial};
use cluv::protocol::ExportType;
use cluv::segment::{Position, Segment, SegmentType, TimeRange};
use cluv::material::Dimension;
use cluv::track::{Track, TrackType};

fn count_nodes(g: &FFmpeg, name: &str) -> usize {
    g.filters.iter().filter(|f| f.name == name).count()
}

fn video_session_with_two_tracks() -> Editor {
    let mut editor = Editor::new();
    editor.add_material(Material::Video(VideoMaterial::new("m1", "a.mp4", 1920, 1080)));
    editor.add_material(Material::Video(VideoMaterial::new("m2", "b.mp4", 1920, 1080)));

    let mut track_a = Track::new("A", TrackType::Video);
    track_a.add_segment(
        Segment::new(
            "sa",
            SegmentType::Video,
            "m1",
            TimeRange::new(0, 1000),
            TimeRange::new(0, 1000),
        )
        .position(Position::new(11, 12)),
    );
    let mut track_b = Track::new("B", TrackType::Video);
    track_b.add_segment(
        Segment::new(
            "sb",
            SegmentType::Video,
            "m2",
            TimeRange::new(0, 1000),
            TimeRange::new(0, 1000),
        )
        .position(Position::new(21, 22)),
    );
    editor.add_track(track_a);
    editor.add_track(track_b);
    editor
}

#[test]
fn test_z_order_scenario() {
    // With tracks [A, B], B's chain is composited first and A's last, so
    // A's segments land visually on top.
    let editor = video_session_with_two_tracks();
    let g = editor
        .compile(&ExportOptions::new("out.mp4", ExportType::Video))
        .unwrap();

    let overlays: Vec<&cluv::filter::Filter> =
        g.filters.iter().filter(|f| f.name == "overlay").collect();
    assert_eq!(overlays.len(), 2);
    assert_eq!(overlays[0].params[0], "21:22");
    assert_eq!(overlays[1].params[0], "11:12");
}

fn audio_editor(segments: usize) -> Editor {
    let mut editor = Editor::new();
    editor.add_material(Material::Audio(AudioMaterial::new("m1", "a.wav")));
    let mut track = Track::new("t", TrackType::Audio);
    let mut k = 0;
    while k < segments {
        track.add_segment(Segment::new(
            format!("s{}", k).as_str(),
            SegmentType::Audio,
            "m1",
            TimeRange::new((k as u32) * 1000, 1000),
            TimeRange::new(0, 1000),
        ));
        k += 1;
    }
    editor.add_track(track);
    editor
}

#[test]
fn test_audio_mix_arity_zero() {
    let editor = audio_editor(0);
    let g = editor
        .compile(&ExportOptions::new("out.mp3", ExportType::Audio))
        .unwrap();
    assert_eq!(count_nodes(&g, "anullsrc"), 1);
    assert_eq!(count_nodes(&g, "amix"), 0);
}

#[test]
fn test_audio_mix_arity_one() {
    let editor = audio_editor(1);
    let g = editor
        .compile(&ExportOptions::new("out.mp3", ExportType::Audio))
        .unwrap();
    assert_eq!(count_nodes(&g, "anullsrc"), 0);
    assert_eq!(count_nodes(&g, "amix"), 0);
}

#[test]
fn test_audio_mix_arity_many() {
    let editor = audio_editor(3);
    let g = editor
        .compile(&ExportOptions::new("out.mp3", ExportType::Audio))
        .unwrap();
    assert_eq!(count_nodes(&g, "anullsrc"), 0);
    assert_eq!(count_nodes(&g, "amix"), 1);
    let amix = g.filters.iter().find(|f| f.name == "amix").unwrap();
    assert_eq!(amix.params[0], "inputs=3");
    assert_eq!(amix.inputs.len(), 3);
}

#[test]
fn test_end_to_end_example() {
    // Stage 960x540; one video material; one video track with one segment,
    // target [0,5000), source [0,5000), scale 1280x720, position (100,200);
    // video export yields one scale node, no speed node, one placement
    // node, one overlay, and one silence node.
    let mut editor = Editor::new();
    editor = editor.set_stage(cluv::stage::Stage::new(960, 540));
    editor.add_material(Material::Video(VideoMaterial::new("m1", "test.mp4", 1920, 1080)));
    let mut track = Track::new("t1", TrackType::Video);
    track.add_segment(
        Segment::new(
            "s1",
            SegmentType::Video,
            "m1",
            TimeRange::new(0, 5000),
            TimeRange::new(0, 5000),
        )
        .scale(Dimension::new(1280, 720))
        .position(Position::new(100, 200)),
    );
    editor.add_track(track);

    let g = editor
        .compile(&ExportOptions::new("out.mp4", ExportType::Video))
        .unwrap();

    assert_eq!(count_nodes(&g, "color"), 1);
    assert_eq!(g.filters[0].name, "color");
    assert_eq!(g.filters[0].params, vec!["c=black", "s=960x540", "d=5"]);
    assert_eq!(count_nodes(&g, "scale"), 1);
    assert_eq!(count_nodes(&g, "overlay"), 1);
    assert_eq!(count_nodes(&g, "anullsrc"), 1);
    assert_eq!(count_nodes(&g, "amix"), 0);

    let setpts: Vec<&cluv::filter::Filter> =
        g.filters.iter().filter(|f| f.name == "setpts").collect();
    assert_eq!(setpts.len(), 1);
    assert_eq!(setpts[0].params[0], "PTS+0/TB");

    let overlay = g.filters.iter().find(|f| f.name == "overlay").unwrap();
    assert_eq!(overlay.params[0], "100:200");
    assert_eq!(overlay.params[1], "enable='between(t,0,5)'");

    assert_eq!(g.inputs.len(), 1);
    assert_eq!(g.inputs[0].path, "test.mp4");
    assert_eq!(g.inputs[0].start_time, Some(0));
    assert_eq!(g.inputs[0].duration, Some(5000));

    assert_eq!(g.outputs.len(), 1);
    assert_eq!(g.outputs[0].path, "out.mp4");
    assert_eq!(g.outputs[0].mappings.len(), 2);
    assert_eq!(g.outputs[0].mov_flags, Some("faststart".to_string()));
}

#[test]
fn test_compile_speed_adjustment() {
    let mut editor = Editor::new();
    editor.add_material(Material::Video(VideoMaterial::new("m1", "test.mp4", 1920, 1080)));
    let mut track = Track::new("t1", TrackType::Video);
    track.add_segment(Segment::new(
        "s1",
        SegmentType::Video,
        "m1",
        TimeRange::new(0, 1000),
        TimeRange::new(0, 2000),
    ));
    editor.add_track(track);

    let g = editor
        .compile(&ExportOptions::new("out.mp4", ExportType::Video))
        .unwrap();

    let setpts: Vec<&cluv::filter::Filter> =
        g.filters.iter().filter(|f| f.name == "setpts").collect();
    assert_eq!(setpts.len(), 2);
    assert_eq!(setpts[0].params[0], "1/2*PTS");
}

#[test]
fn test_compile_requires_valid_session() {
    let mut editor = Editor::new();
    editor = editor.set_stage(cluv::stage::Stage::new(0, 540));
    let err = editor
        .compile(&ExportOptions::new("out.mp4", ExportType::Video))
        .unwrap_err();
    assert_eq!(err.message(), "Stage width must be positive");
}

#[test]
fn test_compile_image_export_unsupported() {
    let editor = Editor::new();
    let err = editor
        .compile(&ExportOptions::new("out.png", ExportType::Image))
        .unwrap_err();
    assert!(matches!(err, cluv::CluvError::UnsupportedFormat(_)));
}

#[test]
fn test_build_args_shape() {
    let editor = audio_editor(1);
    let g = editor
        .compile(&ExportOptions::new("out.mp3", ExportType::Audio))
        .unwrap();
    let args = g.build_args();
    assert_eq!(args[0], "-v");
    assert_eq!(args[1], "error");
    assert_eq!(args[2], "-y");
    assert!(args.contains(&"-filter_complex".to_string()));
    assert!(args.contains(&"-i".to_string()));
    assert_eq!(args.last().unwrap(), "out.mp3");
}

#[test]
fn test_output_maps_final_streams() {
    // The video export maps the final canvas and the final audio stream;
    // the audio export maps only the audio stream.
    let editor = video_session_with_two_tracks();
    let g = editor
        .compile(&ExportOptions::new("out.mp4", ExportType::Video))
        .unwrap();
    // Nodes: background, then two chains of two nodes each; the last
    // overlay is the canvas, and silence follows it.
    assert_eq!(g.outputs[0].mappings[0], "f4");
    assert_eq!(g.outputs[0].mappings[1], "f5");
    for (i, f) in g.filters.iter().enumerate() {
        assert_eq!(f.label.0, format!("f{}", i));
    }

    let one = audio_editor(1);
    let g1 = one
        .compile(&ExportOptions::new("out.mp3", ExportType::Audio))
        .unwrap();
    // A single plain audio segment at time zero has an empty chain, so
    // the bound input itself is mapped.
    assert_eq!(g1.outputs[0].mappings[0], "0:a");

    let many = audio_editor(3);
    let g3 = many
        .compile(&ExportOptions::new("out.mp3", ExportType::Audio))
        .unwrap();
    let amix = g3.filters.iter().find(|f| f.name == "amix").unwrap();
    assert_eq!(amix.inputs.len(), 3);
    assert_eq!(g3.outputs[0].mappings[0], format!("f{}", g3.filters.len() - 1));
}
