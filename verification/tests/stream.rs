use ffmpeg_shim::{
    ffmpeg_shim_get_stream_avg_frame_rate, ffmpeg_shim_get_stream_codecpar,
    ffmpeg_shim_get_stream_duration, ffmpeg_shim_get_stream_time_base, Handle, Rational, Stream,
};

fn stream(time_base: Rational, avg_frame_rate: Rational) -> Stream {
    Stream { codecpar: Handle { addr: 0x5000 }, time_base, duration: 9000, avg_frame_rate }
}

#[test]
fn time_base_reads_back_exactly() {
    let s = stream(Rational { num: 1, den: 30 }, Rational { num: 30, den: 1 });
    let tb = ffmpeg_shim_get_stream_time_base(&s);
    assert_eq!(tb.num, 1);
    assert_eq!(tb.den, 30);
    assert_eq!(tb, Rational { num: 1, den: 30 });
}

#[test]
fn time_base_is_not_reduced() {
    let s = stream(Rational { num: 2, den: 60 }, Rational { num: 60, den: 2 });
    assert_eq!(ffmpeg_shim_get_stream_time_base(&s), Rational { num: 2, den: 60 });
    assert_ne!(ffmpeg_shim_get_stream_time_base(&s), Rational { num: 1, den: 30 });
    assert_eq!(ffmpeg_shim_get_stream_avg_frame_rate(&s), Rational { num: 60, den: 2 });
}

#[test]
fn zero_denominator_is_handed_on() {
    let s = stream(Rational { num: 1, den: 0 }, Rational { num: 0, den: 0 });
    assert_eq!(ffmpeg_shim_get_stream_time_base(&s), Rational { num: 1, den: 0 });
    assert_eq!(ffmpeg_shim_get_stream_avg_frame_rate(&s), Rational { num: 0, den: 0 });
}

#[test]
fn negative_and_extreme_fractions_are_handed_on() {
    let s = stream(
        Rational { num: -1, den: i32::MAX },
        Rational { num: i32::MIN, den: -1 },
    );
    assert_eq!(ffmpeg_shim_get_stream_time_base(&s), Rational { num: -1, den: i32::MAX });
    assert_eq!(ffmpeg_shim_get_stream_avg_frame_rate(&s), Rational { num: i32::MIN, den: -1 });
}

#[test]
fn avg_frame_rate_reads_back_exactly() {
    let s = stream(Rational { num: 1, den: 90000 }, Rational { num: 30000, den: 1001 });
    let fr = ffmpeg_shim_get_stream_avg_frame_rate(&s);
    assert_eq!(fr.num, 30000);
    assert_eq!(fr.den, 1001);
}

#[test]
fn time_base_and_frame_rate_are_not_mixed_up() {
    let s = stream(Rational { num: 1, den: 25 }, Rational { num: 25, den: 1 });
    assert_eq!(ffmpeg_shim_get_stream_time_base(&s), Rational { num: 1, den: 25 });
    assert_eq!(ffmpeg_shim_get_stream_avg_frame_rate(&s), Rational { num: 25, den: 1 });
}

#[test]
fn stream_duration_and_codecpar_read_back() {
    let s = stream(Rational { num: 1, den: 30 }, Rational { num: 30, den: 1 });
    assert_eq!(ffmpeg_shim_get_stream_duration(&s), 9000);
    assert_eq!(ffmpeg_shim_get_stream_codecpar(&s), Handle { addr: 0x5000 });

    let unset = Stream { codecpar: Handle::null(), duration: i64::MIN, ..s };
    assert_eq!(ffmpeg_shim_get_stream_duration(&unset), i64::MIN);
    assert!(ffmpeg_shim_get_stream_codecpar(&unset).is_null());
}
