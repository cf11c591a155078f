use cluv::filter::{Filter, FilterChain};
use cluv::util;

#[test]
fn test_scale_filter() {
    let filter = Filter::scale(1920, 1080);
    assert_eq!(filter.build(), "scale=1920:1080");

    let filter_auto = Filter::scale(-1, 720);
    assert_eq!(filter_auto.build(), "scale=-2:720");
}

#[test]
fn test_overlay_filter() {
    let filter = Filter::overlay(10, 20);
    assert_eq!(filter.build(), "overlay=10:20");
}

#[test]
fn test_delogo_filter() {
    let filter = Filter::delogo(100, 50, 200, 100);
    assert_eq!(filter.build(), "delogo=x=100:y=50:w=200:h=100");
}

#[test]
fn test_filter_chain() {
    let chain = FilterChain::new()
        .add_filter(Filter::scale(1920, 1080))
        .add_filter(Filter::overlay(10, 20));

    assert_eq!(chain.build(), "scale=1920:1080;overlay=10:20");
}

#[test]
fn test_split_filter() {
    let filter = Filter::split(3);
    assert_eq!(filter.build(), "split=3");
}

#[test]
fn test_util_functions() {
    assert_eq!(util::fix_pixel_len(-1), "-2");
    assert_eq!(util::fix_pixel_len(1920), "1920");
    assert_eq!(util::fix_pixel_len(1921), "1922");

    let pos = util::logo_position(10, 20, "top-right");
    assert_eq!(pos, "W-w-10:20");

    let frame_expr = util::frame_expression(&vec![0, 5, 10]);
    assert_eq!(frame_expr, "eq(n,0)+eq(n,5)+eq(n,10)");
}

#[test]
fn test_labelled_filter_build() {
    let filter = Filter::color(960, 540, 2500).with_label("f0");
    assert_eq!(filter.build(), "color=c=black:s=960x540:d=2.5[f0]");
}

#[test]
fn test_audio_filters_build() {
    assert_eq!(Filter::atrim_millis(500, 1500).build(), "atrim=start=0.5:duration=1.5");
    assert_eq!(Filter::adelay_millis(2000).build(), "adelay=2000ms");
    assert_eq!(Filter::volume_milli(500).build(), "volume=0.5");
    assert_eq!(Filter::atempo_milli(2000).build(), "atempo=2");
    assert_eq!(Filter::amix(3).build(), "amix=inputs=3");
    assert_eq!(Filter::anullsrc(5000).build(), "anullsrc=d=5");
}
