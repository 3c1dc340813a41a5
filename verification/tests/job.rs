use mono_convert::downmix::SampleFormat;
use mono_convert::error::ErrorKind;
use mono_convert::job::{
    cancel_conversion, convert_to_mono, Action, CancelFlag, ConversionJob, Event, Phase,
};
use mono_convert::track::TrackInfo;

fn track(id: u32, has_codec: bool, sample_rate: Option<u32>) -> TrackInfo {
    TrackInfo { id, has_codec, channels: Some(2), sample_rate, bits_per_sample: Some(16), n_frames: None }
}

fn detail(text: &str) -> String {
    text.to_string()
}

/// A job that has opened and probed `song.wav`, whose track 5 is selected.
fn probed() -> (ConversionJob, CancelFlag) {
    let mut flag = CancelFlag::new();
    let mut job = ConversionJob::new();
    assert_eq!(convert_to_mono(&mut job, &mut flag, "song.wav"), Action::OpenInput);
    assert_eq!(job.step(Event::Opened { total_bytes: 4000 }), Action::ProbeFormat);
    let tracks = vec![track(4, false, None), track(5, true, Some(8000)), track(6, true, Some(1))];
    assert_eq!(job.step(Event::Probed { tracks }), Action::MakeDecoder { track: 1 });
    (job, flag)
}

/// A job at the first poll of its decode loop.
fn decoding() -> (ConversionJob, CancelFlag) {
    let (mut job, flag) = probed();
    assert_eq!(job.step(Event::DecoderReady), Action::CreateOutput { sample_rate: 8000 });
    assert_eq!(job.step(Event::OutputCreated), Action::NotifyStarted);
    assert_eq!(job.step(Event::Notified), Action::PollCancel);
    (job, flag)
}

/// Decodes the pulled packet into a stereo-sized buffer and writes it.
fn decode_and_write(job: &mut ConversionJob) {
    let decoded = Event::Decoded { format: SampleFormat::S16, frames: 1152 };
    assert_eq!(job.step(decoded), Action::WriteSamples { format: SampleFormat::S16, samples: 1152 });
    assert_eq!(job.step(Event::PacketWritten), Action::PollCancel);
}

fn failure_text(job: &ConversionJob) -> String {
    let result = job.result().unwrap();
    assert!(!result.success);
    result.text
}

#[test]
fn new_job_is_idle() {
    let job = ConversionJob::new();
    assert_eq!(job.phase(), Phase::Idle);
    assert_eq!(job.pending(), Action::Nothing);
    assert!(job.result().is_none());
    assert!(!job.output_created());
}

#[test]
fn start_resets_the_flag_and_derives_the_output_path() {
    let mut flag = CancelFlag::new();
    cancel_conversion(&mut flag);
    assert!(flag.is_requested());
    let mut job = ConversionJob::new();
    assert_eq!(convert_to_mono(&mut job, &mut flag, "/a/song.mp3"), Action::OpenInput);
    assert!(!flag.is_requested());
    assert_eq!(job.phase(), Phase::Opening);
    assert_eq!(job.input_path(), "/a/song.mp3");
    assert_eq!(job.output_path(), "/a/song_mono.wav");
    assert_eq!(job.packets(), 0);
}

#[test]
fn start_is_rejected_while_a_job_runs() {
    let (mut job, mut flag) = decoding();
    cancel_conversion(&mut flag);
    assert_eq!(convert_to_mono(&mut job, &mut flag, "other.wav"), Action::Rejected);
    assert!(flag.is_requested());
    assert_eq!(job.input_path(), "song.wav");
    assert_eq!(job.phase(), Phase::Decoding);
    assert_eq!(job.pending(), Action::PollCancel);
}

#[test]
fn cancelling_is_idempotent() {
    let mut flag = CancelFlag::new();
    assert!(!flag.is_requested());
    cancel_conversion(&mut flag);
    cancel_conversion(&mut flag);
    assert!(flag.is_requested());
    flag.reset();
    assert!(!flag.is_requested());
}

#[test]
fn whole_conversion_of_three_packets() {
    let (mut job, _flag) = decoding();
    assert_eq!(job.total_bytes(), 4000);
    assert_eq!(job.track_id(), 5);
    assert_eq!(job.sample_rate(), 8000);
    assert!(job.output_created());
    for _ in 0..3 {
        assert_eq!(job.step(Event::CancelPolled { requested: false }), Action::PullPacket);
        assert_eq!(job.step(Event::PacketPulled { track_id: 5 }), Action::DecodePacket);
        decode_and_write(&mut job);
    }
    assert_eq!(job.step(Event::CancelPolled { requested: false }), Action::PullPacket);
    assert_eq!(job.step(Event::EndOfStream), Action::FinalizeOutput);
    assert_eq!(job.phase(), Phase::Finalizing);
    assert_eq!(job.step(Event::Finalized), Action::NotifyCompleted { packets: 3 });
    assert_eq!(job.phase(), Phase::Succeeded);
    assert_eq!(job.step(Event::Notified), Action::ReportResult);
    let result = job.result().unwrap();
    assert!(result.success);
    assert_eq!(result.text, "Converted to mono: song_mono.wav");
    assert_eq!(job.step(Event::Reported), Action::Nothing);
    assert_eq!(job.phase(), Phase::Idle);
    assert!(job.result().is_none());
    assert_eq!(job.input_path(), "");
}

#[test]
fn job_can_be_started_again_after_it_reported() {
    let (mut job, mut flag) = probed();
    assert_eq!(job.step(Event::DecoderFailed { detail: detail("x") }), Action::ReportResult);
    assert_eq!(job.step(Event::Reported), Action::Nothing);
    assert_eq!(convert_to_mono(&mut job, &mut flag, "next.flac"), Action::OpenInput);
    assert_eq!(job.output_path(), "next_mono.wav");
    assert_eq!(job.phase(), Phase::Opening);
}

#[test]
fn cancel_before_the_first_packet() {
    let (mut job, mut flag) = decoding();
    cancel_conversion(&mut flag);
    let requested = flag.is_requested();
    assert_eq!(job.step(Event::CancelPolled { requested }), Action::DeleteOutput);
    assert_eq!(job.phase(), Phase::Cancelled);
    assert_eq!(job.packets(), 0);
    assert_eq!(job.step(Event::OutputDeleted), Action::ReportResult);
    assert!(!job.output_created());
    assert_eq!(failure_text(&job), "Conversion cancelled");
    assert_eq!(job.step(Event::Reported), Action::Nothing);
    assert_eq!(job.phase(), Phase::Idle);
}

#[test]
fn cancel_in_the_middle_of_the_loop() {
    let (mut job, _flag) = decoding();
    for _ in 0..250 {
        assert_eq!(job.step(Event::CancelPolled { requested: false }), Action::PullPacket);
        let mut next = job.step(Event::PacketPulled { track_id: 5 });
        if next == Action::NotifyProgress {
            next = job.step(Event::Notified);
        }
        assert_eq!(next, Action::DecodePacket);
        decode_and_write(&mut job);
    }
    assert_eq!(job.step(Event::CancelPolled { requested: true }), Action::DeleteOutput);
    assert_eq!(job.packets(), 250);
    assert_eq!(job.step(Event::PacketPulled { track_id: 5 }), Action::Rejected);
    assert_eq!(job.step(Event::PacketWritten), Action::Rejected);
    assert_eq!(job.step(Event::OutputDeleted), Action::ReportResult);
    assert_eq!(job.phase(), Phase::Cancelled);
    assert!(!job.output_created());
    assert_eq!(failure_text(&job), "Conversion cancelled");
}

#[test]
fn flag_is_polled_before_every_pull() {
    let (mut job, _flag) = decoding();
    assert_eq!(job.step(Event::PacketPulled { track_id: 5 }), Action::Rejected);
    assert_eq!(job.step(Event::CancelPolled { requested: false }), Action::PullPacket);
    assert_eq!(job.step(Event::CancelPolled { requested: false }), Action::Rejected);
    assert_eq!(job.step(Event::PacketPulled { track_id: 4 }), Action::PollCancel);
    assert_eq!(job.step(Event::CancelPolled { requested: false }), Action::PullPacket);
    assert_eq!(job.step(Event::ResetRequired), Action::PollCancel);
    assert_eq!(job.step(Event::CancelPolled { requested: false }), Action::PullPacket);
    assert_eq!(job.step(Event::PacketPulled { track_id: 5 }), Action::DecodePacket);
    assert_eq!(job.step(Event::PacketWritten), Action::Rejected);
    decode_and_write(&mut job);
    assert_eq!(job.packets(), 1);
}

#[test]
fn progress_is_announced_every_hundred_packets() {
    let (mut job, _flag) = decoding();
    let mut announced = Vec::new();
    for n in 1..=350u64 {
        assert_eq!(job.step(Event::CancelPolled { requested: false }), Action::PullPacket);
        if n % 3 == 0 {
            assert_eq!(job.step(Event::PacketPulled { track_id: 6 }), Action::PollCancel);
            assert_eq!(job.step(Event::CancelPolled { requested: false }), Action::PullPacket);
        }
        let mut next = job.step(Event::PacketPulled { track_id: 5 });
        if next == Action::NotifyProgress {
            announced.push(job.packets());
            next = job.step(Event::Notified);
        }
        assert_eq!(next, Action::DecodePacket);
        decode_and_write(&mut job);
        assert_eq!(job.packets(), n);
    }
    assert_eq!(announced, vec![100, 200, 300]);
}

#[test]
fn open_failure() {
    let mut flag = CancelFlag::new();
    let mut job = ConversionJob::new();
    convert_to_mono(&mut job, &mut flag, "missing.wav");
    assert_eq!(job.step(Event::OpenFailed { detail: detail("not found") }), Action::ReportResult);
    assert_eq!(job.phase(), Phase::Failed);
    assert_eq!(failure_text(&job), "Failed to open file: not found");
    assert!(!job.output_created());
}

#[test]
fn metadata_failure() {
    let mut flag = CancelFlag::new();
    let mut job = ConversionJob::new();
    convert_to_mono(&mut job, &mut flag, "odd.wav");
    assert_eq!(job.step(Event::MetadataFailed { detail: detail("denied") }), Action::ReportResult);
    assert_eq!(failure_text(&job), "Failed to get file metadata: denied");
}

#[test]
fn unrecognised_format_creates_no_output() {
    let mut flag = CancelFlag::new();
    let mut job = ConversionJob::new();
    convert_to_mono(&mut job, &mut flag, "noise.bin");
    job.step(Event::Opened { total_bytes: 64 });
    assert_eq!(job.step(Event::ProbeFailed { detail: detail("no reader") }), Action::ReportResult);
    assert_eq!(job.phase(), Phase::Failed);
    assert!(!job.output_created());
    assert_eq!(failure_text(&job), "Unsupported format: no reader");
    assert_eq!(job.step(Event::OutputCreated), Action::Rejected);
    assert_eq!(job.step(Event::Reported), Action::Nothing);
}

#[test]
fn only_null_tracks_is_no_supported_track() {
    let mut flag = CancelFlag::new();
    let mut job = ConversionJob::new();
    convert_to_mono(&mut job, &mut flag, "empty.mkv");
    job.step(Event::Opened { total_bytes: 64 });
    let tracks = vec![track(0, false, Some(44100))];
    assert_eq!(job.step(Event::Probed { tracks }), Action::ReportResult);
    assert_eq!(failure_text(&job), "No supported audio tracks");
    assert!(!job.output_created());
}

#[test]
fn unknown_sample_rate_of_the_selected_track() {
    let mut flag = CancelFlag::new();
    let mut job = ConversionJob::new();
    convert_to_mono(&mut job, &mut flag, "odd.ogg");
    job.step(Event::Opened { total_bytes: 64 });
    let tracks = vec![track(0, false, Some(1)), track(1, true, None), track(2, true, Some(44100))];
    assert_eq!(job.step(Event::Probed { tracks }), Action::ReportResult);
    assert_eq!(failure_text(&job), "Unknown sample rate");
}

#[test]
fn unsupported_codec() {
    let (mut job, _flag) = probed();
    assert_eq!(job.step(Event::DecoderFailed { detail: detail("unsupported codec") }), Action::ReportResult);
    assert_eq!(failure_text(&job), "Unsupported codec: unsupported codec");
    assert!(!job.output_created());
}

#[test]
fn output_cannot_be_created() {
    let (mut job, _flag) = probed();
    job.step(Event::DecoderReady);
    assert_eq!(job.step(Event::OutputCreateFailed { detail: detail("read-only") }), Action::ReportResult);
    assert_eq!(failure_text(&job), "Failed to create WAV file: read-only");
    assert!(!job.output_created());
}

#[test]
fn decode_failure_ends_the_job_and_keeps_the_output() {
    let (mut job, _flag) = decoding();
    job.step(Event::CancelPolled { requested: false });
    job.step(Event::PacketPulled { track_id: 5 });
    assert_eq!(job.step(Event::DecodeFailed { detail: detail("bad frame") }), Action::ReportResult);
    assert_eq!(job.phase(), Phase::Failed);
    assert!(job.output_created());
    assert_eq!(failure_text(&job), "Decode error: bad frame");
}

#[test]
fn write_failure_ends_the_job() {
    let (mut job, _flag) = decoding();
    job.step(Event::CancelPolled { requested: false });
    job.step(Event::PacketPulled { track_id: 5 });
    assert_eq!(job.step(Event::WriteFailed), Action::Rejected);
    job.step(Event::Decoded { format: SampleFormat::F32, frames: 64 });
    assert_eq!(job.step(Event::WriteFailed), Action::ReportResult);
    assert_eq!(failure_text(&job), "Write error");
    assert!(job.output_created());
}

#[test]
fn finalize_failure_ends_the_job() {
    let (mut job, _flag) = decoding();
    job.step(Event::CancelPolled { requested: false });
    assert_eq!(job.step(Event::EndOfStream), Action::FinalizeOutput);
    assert_eq!(job.step(Event::FinalizeFailed), Action::ReportResult);
    assert_eq!(failure_text(&job), "Finalize error");
}

#[test]
fn input_without_packets_still_succeeds() {
    let (mut job, _flag) = decoding();
    assert_eq!(job.step(Event::CancelPolled { requested: false }), Action::PullPacket);
    assert_eq!(job.step(Event::EndOfStream), Action::FinalizeOutput);
    assert_eq!(job.step(Event::Finalized), Action::NotifyCompleted { packets: 0 });
    assert_eq!(job.step(Event::Notified), Action::ReportResult);
    assert!(job.result().unwrap().success);
}

#[test]
fn idle_job_rejects_every_event() {
    let mut job = ConversionJob::new();
    assert_eq!(job.step(Event::Opened { total_bytes: 1 }), Action::Rejected);
    assert_eq!(job.step(Event::Reported), Action::Rejected);
    assert_eq!(job.step(Event::CancelPolled { requested: true }), Action::Rejected);
    assert_eq!(job.phase(), Phase::Idle);
}

#[test]
fn failure_kinds_are_told_apart() {
    let (mut job, _flag) = probed();
    job.step(Event::DecoderFailed { detail: detail("") });
    assert_eq!(job.phase(), Phase::Failed);
    assert_ne!(ErrorKind::UnsupportedCodec, ErrorKind::Cancelled);
}

#[test]
fn twenty_four_bit_buffers_are_passed_over() {
    let (mut job, _flag) = decoding();
    for format in [SampleFormat::U24, SampleFormat::S24] {
        assert_eq!(job.step(Event::CancelPolled { requested: false }), Action::PullPacket);
        assert_eq!(job.step(Event::PacketPulled { track_id: 5 }), Action::DecodePacket);
        assert_eq!(job.step(Event::Decoded { format, frames: 1152 }), Action::PollCancel);
        assert_eq!(job.phase(), Phase::Decoding);
        assert!(job.result().is_none());
    }
    assert_eq!(job.packets(), 2);
    assert_eq!(job.step(Event::CancelPolled { requested: false }), Action::PullPacket);
    assert_eq!(job.step(Event::EndOfStream), Action::FinalizeOutput);
    assert_eq!(job.step(Event::Finalized), Action::NotifyCompleted { packets: 2 });
}

#[test]
fn every_converted_representation_is_written_frame_by_frame() {
    let (mut job, _flag) = decoding();
    for format in [
        SampleFormat::U8, SampleFormat::U16, SampleFormat::U32, SampleFormat::S8,
        SampleFormat::S16, SampleFormat::S32, SampleFormat::F32, SampleFormat::F64,
    ] {
        assert_eq!(job.step(Event::CancelPolled { requested: false }), Action::PullPacket);
        assert_eq!(job.step(Event::PacketPulled { track_id: 5 }), Action::DecodePacket);
        assert_eq!(
            job.step(Event::Decoded { format, frames: 7 }),
            Action::WriteSamples { format, samples: 7 }
        );
        assert_eq!(job.step(Event::PacketWritten), Action::PollCancel);
    }
}

#[test]
fn empty_buffer_is_written_as_nothing() {
    let (mut job, _flag) = decoding();
    job.step(Event::CancelPolled { requested: false });
    job.step(Event::PacketPulled { track_id: 5 });
    assert_eq!(
        job.step(Event::Decoded { format: SampleFormat::S16, frames: 0 }),
        Action::WriteSamples { format: SampleFormat::S16, samples: 0 }
    );
    assert_eq!(job.step(Event::PacketWritten), Action::PollCancel);
}
