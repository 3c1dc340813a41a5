use mono_convert::output::{output_path, output_spec, OutputSpec};

fn by_trimming(input: &str) -> String {
    format!(
        "{}_mono.wav",
        input.trim_end_matches(".wav").trim_end_matches(".mp3").trim_end_matches(".flac")
    )
}

#[test]
fn wav_extension_is_replaced() {
    assert_eq!(output_path("/music/song.wav"), "/music/song_mono.wav");
}

#[test]
fn mp3_and_flac_extensions_are_replaced() {
    assert_eq!(output_path("song.mp3"), "song_mono.wav");
    assert_eq!(output_path("song.flac"), "song_mono.wav");
}

#[test]
fn other_extensions_are_kept() {
    assert_eq!(output_path("song.ogg"), "song.ogg_mono.wav");
    assert_eq!(output_path("song"), "song_mono.wav");
    assert_eq!(output_path(""), "_mono.wav");
}

#[test]
fn repeated_extensions_are_all_dropped() {
    assert_eq!(output_path("a.wav.wav"), "a_mono.wav");
    assert_eq!(output_path("a.flac.mp3.wav"), "a_mono.wav");
    assert_eq!(output_path("a.flac.flac.mp3.mp3.wav"), "a_mono.wav");
}

#[test]
fn extensions_are_dropped_in_a_fixed_order() {
    assert_eq!(output_path("a.wav.mp3"), "a.wav_mono.wav");
    assert_eq!(output_path("a.mp3.flac"), "a.mp3_mono.wav");
    assert_eq!(output_path("a.wav.flac"), "a.wav_mono.wav");
}

#[test]
fn only_the_extension_remains_nothing() {
    assert_eq!(output_path(".wav"), "_mono.wav");
    assert_eq!(output_path(".flac.mp3.wav"), "_mono.wav");
}

#[test]
fn paths_outside_ascii() {
    assert_eq!(output_path("/músicä/日本語.wav"), "/músicä/日本語_mono.wav");
    assert_eq!(output_path("é.mp3"), "é_mono.wav");
}

#[test]
fn agrees_with_trimming_and_never_names_the_input() {
    let inputs = [
        "a.wav", "a.mp3", "a.flac", "a", "", ".wav", "wav", "a.wav.mp3.flac", "a.flac.wav",
        "x_mono.wav", "_mono.wav", "a.flac_mono.wav", "é.wav", "a.WAV", "a.wav ", "a..wav",
        "a.mp3.mp3.wav.wav", "dir.wav/file.flac",
    ];
    for input in inputs {
        let out = output_path(input);
        assert_eq!(out, by_trimming(input));
        assert_ne!(out, input);
        assert!(out.ends_with("_mono.wav"));
    }
}

#[test]
fn output_is_mono_sixteen_bit_integer() {
    assert_eq!(
        output_spec(8000),
        OutputSpec { channels: 1, sample_rate: 8000, bits_per_sample: 16, integer_samples: true }
    );
    assert_eq!(output_spec(44100).sample_rate, 44100);
}
