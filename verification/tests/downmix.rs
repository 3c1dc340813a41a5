use mono_convert::downmix::{downmix_s16, mix_frame_s16, Normalization, SampleFormat, FULL_SCALE};

#[test]
fn table_of_rules() {
    let rule = |f: SampleFormat| f.normalization();
    assert_eq!(rule(SampleFormat::U8), Some(Normalization { divisor: 128, recentre: true, rescale: true }));
    assert_eq!(rule(SampleFormat::U16), Some(Normalization { divisor: 32768, recentre: true, rescale: true }));
    assert_eq!(rule(SampleFormat::U32), Some(Normalization { divisor: 2147483648, recentre: true, rescale: true }));
    assert_eq!(rule(SampleFormat::S8), Some(Normalization { divisor: 128, recentre: false, rescale: true }));
    assert_eq!(rule(SampleFormat::S16), Some(Normalization { divisor: 1, recentre: false, rescale: false }));
    assert_eq!(rule(SampleFormat::S32), Some(Normalization { divisor: 32768, recentre: false, rescale: false }));
    assert_eq!(rule(SampleFormat::F32), Some(Normalization { divisor: 1, recentre: false, rescale: true }));
    assert_eq!(rule(SampleFormat::F64), Some(Normalization { divisor: 1, recentre: false, rescale: true }));
    assert_eq!(FULL_SCALE, 32767);
}

#[test]
fn twenty_four_bit_buffers_give_no_samples() {
    for format in [SampleFormat::U24, SampleFormat::S24] {
        assert_eq!(format.normalization(), None);
        assert!(!format.is_supported());
        assert_eq!(format.samples_produced(0), 0);
        assert_eq!(format.samples_produced(1152), 0);
    }
}

#[test]
fn supported_buffers_give_one_sample_per_frame() {
    for format in [
        SampleFormat::U8, SampleFormat::U16, SampleFormat::U32, SampleFormat::S8,
        SampleFormat::S16, SampleFormat::S32, SampleFormat::F32, SampleFormat::F64,
    ] {
        assert!(format.is_supported());
        assert_eq!(format.samples_produced(0), 0);
        assert_eq!(format.samples_produced(1152), 1152);
    }
}

#[test]
fn identical_channels_give_their_value() {
    for n in 1..=8usize {
        for v in [i16::MIN, -32767, -12345, -1, 0, 1, 2, 999, i16::MAX] {
            let planes = vec![vec![v; 3]; n];
            assert_eq!(downmix_s16(&planes, 3), vec![v; 3]);
        }
    }
}

#[test]
fn stereo_frames_are_averaged_toward_zero() {
    let planes = vec![vec![100, 3, -3, 32767, -32768, 1, -1], vec![200, 4, -4, 32767, -32768, 0, 0]];
    assert_eq!(downmix_s16(&planes, 7), vec![150, 3, -3, 32767, -32768, 0, 0]);
}

#[test]
fn three_channels_are_averaged_toward_zero() {
    let planes = vec![vec![1, -1, 10], vec![1, -1, 20], vec![0, 0, 31]];
    assert_eq!(downmix_s16(&planes, 3), vec![0, 0, 20]);
}

#[test]
fn mono_input_is_copied() {
    let planes = vec![vec![5, -7, 0, 32767]];
    assert_eq!(downmix_s16(&planes, 4), vec![5, -7, 0, 32767]);
}

#[test]
fn only_the_requested_frames_are_mixed() {
    let planes = vec![vec![10, 20, 30], vec![30, 40, 50]];
    assert_eq!(downmix_s16(&planes, 2), vec![20, 30]);
    assert_eq!(downmix_s16(&planes, 0), Vec::<i16>::new());
}

#[test]
fn buffer_without_channels_gives_zeros() {
    let planes: Vec<Vec<i16>> = Vec::new();
    assert_eq!(downmix_s16(&planes, 4), vec![0, 0, 0, 0]);
}

#[test]
fn single_frame_matches_the_single_precision_mean() {
    let planes = vec![vec![7, -32768], vec![-2, 32767], vec![9, -5], vec![1, 11], vec![-30000, 1]];
    for frame in 0..2usize {
        let mut sum = 0.0f32;
        for plane in &planes {
            sum += plane[frame] as f32;
        }
        let expected = (sum / planes.len() as f32) as i16;
        assert_eq!(mix_frame_s16(&planes, frame), expected);
    }
}

/// The mono sample that the rule of `format` gives for `channels` channels
/// that all hold `value`, computed in single precision.
fn constant_input(format: SampleFormat, value: f32, channels: usize) -> i16 {
    let rule = format.normalization().unwrap();
    let mut sum = 0.0f32;
    for _ in 0..channels {
        let mut sample = value;
        if rule.divisor != 1 {
            sample = sample / rule.divisor as f32;
        }
        if rule.recentre {
            sample = sample - 1.0;
        }
        sum += sample;
    }
    let mean = sum / channels as f32;
    if rule.rescale {
        (mean * FULL_SCALE as f32) as i16
    } else {
        mean as i16
    }
}

#[test]
fn rules_give_the_tabled_output_for_unsigned_input() {
    for n in [1usize, 2, 4, 8] {
        assert_eq!(constant_input(SampleFormat::U8, 255.0, n), 32511);
        assert_eq!(constant_input(SampleFormat::U8, 128.0, n), 0);
        assert_eq!(constant_input(SampleFormat::U8, 0.0, n), -32767);
        assert_eq!(constant_input(SampleFormat::U16, 65535.0, n), 32766);
        assert_eq!(constant_input(SampleFormat::U16, 32768.0, n), 0);
        assert_eq!(constant_input(SampleFormat::U16, 0.0, n), -32767);
        assert_eq!(constant_input(SampleFormat::U32, u32::MAX as f32, n), 32767);
        assert_eq!(constant_input(SampleFormat::U32, 2147483648u32 as f32, n), 0);
        assert_eq!(constant_input(SampleFormat::U32, 0.0, n), -32767);
    }
}

#[test]
fn rules_give_the_tabled_output_for_signed_input() {
    for n in [1usize, 2, 4, 8] {
        assert_eq!(constant_input(SampleFormat::S8, 127.0, n), 32511);
        assert_eq!(constant_input(SampleFormat::S8, 64.0, n), 16383);
        assert_eq!(constant_input(SampleFormat::S8, -128.0, n), -32767);
        assert_eq!(constant_input(SampleFormat::S16, 12345.0, n), 12345);
        assert_eq!(constant_input(SampleFormat::S16, -32768.0, n), -32768);
        assert_eq!(constant_input(SampleFormat::S32, 3276800.0, n), 100);
        assert_eq!(constant_input(SampleFormat::S32, -65536.0, n), -2);
        assert_eq!(constant_input(SampleFormat::S32, i32::MAX as f32, n), 32767);
        assert_eq!(constant_input(SampleFormat::S32, i32::MIN as f32, n), -32768);
    }
}

#[test]
fn rules_give_the_tabled_output_for_float_input() {
    for format in [SampleFormat::F32, SampleFormat::F64] {
        for n in [1usize, 2, 4, 8] {
            assert_eq!(constant_input(format, 1.0, n), 32767);
            assert_eq!(constant_input(format, 0.5, n), 16383);
            assert_eq!(constant_input(format, 0.0, n), 0);
            assert_eq!(constant_input(format, -0.25, n), -8191);
            assert_eq!(constant_input(format, -1.0, n), -32767);
            assert_eq!(constant_input(format, 2.0, n), 32767);
        }
    }
}

#[test]
fn integer_mean_agrees_with_the_rule_for_signed_sixteen_bit() {
    for n in 1..=32usize {
        for v in [i16::MIN, -20001, -3, 0, 7, 20001, i16::MAX] {
            let planes = vec![vec![v]; n];
            assert_eq!(downmix_s16(&planes, 1)[0], constant_input(SampleFormat::S16, v as f32, n));
        }
    }
}
