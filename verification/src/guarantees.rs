//! What holds of every conversion job, proved from the transition relation.

use vstd::prelude::*;
use crate::downmix::SampleFormat;
use crate::error::ErrorKind;
use crate::job::{accepts, after, has_room, idle, outcome, reply, Action, Event, JobView, Phase};
use crate::track::{lemma_first_supported, TrackInfo};

verus! {

/// The number of outcomes that can still arrive before the cancellation flag
/// is polled again, for an action of the decode loop.
pub open spec fn steps_to_poll(action: Action) -> nat {
    match action {
        Action::PullPacket => 4,
        Action::NotifyProgress => 3,
        Action::DecodePacket => 2,
        Action::WriteSamples { .. } => 1,
        Action::NotifyStarted => 1,
        _ => 0,
    }
}

/// No event takes a job out of the states that a job can be in.
pub proof fn lemma_step_keeps_well_formed(v: JobView, e: Event)
    requires
        v.well_formed(),
    ensures
        after(v, e).well_formed(),
{
    if accepts(v, e) {
        if let Event::Probed { tracks } = e {
            lemma_first_supported(tracks@);
        }
    }
}

/// A request to cancel that is seen at a poll ends the job as cancelled: the
/// output is deleted, then the listener is told that the conversion was
/// cancelled, and the job is idle again. No packet is pulled or decoded after
/// the poll.
pub proof fn lemma_cancel_ends_job(v: JobView)
    requires
        v.well_formed(),
        v.pending == Action::PollCancel,
    ensures
        ({
            let seen = after(v, Event::CancelPolled { requested: true });
            let deleted = after(seen, Event::OutputDeleted);
            &&& reply(v, Event::CancelPolled { requested: true }) == Action::DeleteOutput
            &&& seen.phase == Phase::Cancelled
            &&& seen.packets == v.packets
            &&& reply(seen, Event::OutputDeleted) == Action::ReportResult
            &&& deleted.phase == Phase::Cancelled
            &&& !deleted.output_created
            &&& outcome(deleted) == Some((false, "Conversion cancelled"@))
            &&& after(deleted, Event::Reported) == idle()
        }),
{
}

/// The decode loop begins with a poll: once the output exists and the start
/// was announced, the flag is read before any packet is pulled.
pub proof fn lemma_poll_precedes_first_packet(v: JobView)
    requires
        v.well_formed(),
        v.pending is CreateOutput,
    ensures
        ({
            let created = after(v, Event::OutputCreated);
            let announced = after(created, Event::Notified);
            &&& created.phase == Phase::Decoding
            &&& created.pending == Action::NotifyStarted
            &&& announced.pending == Action::PollCancel
            &&& announced.packets == v.packets
        }),
{
}

/// In the decode loop the flag is polled once per packet: whatever the
/// outcome of a pending action other than the poll, the job leaves the loop
/// or comes closer to the next poll, which is at most four outcomes away:
/// those of the pull, of a progress notification, of the decoding and of the
/// writing of that one packet.
pub proof fn lemma_poll_is_near(v: JobView, e: Event)
    requires
        v.well_formed(),
        v.phase == Phase::Decoding,
        v.pending != Action::PollCancel,
        accepts(v, e),
    ensures
        steps_to_poll(v.pending) <= 4,
        after(v, e).phase != Phase::Decoding || steps_to_poll(after(v, e).pending)
            < steps_to_poll(v.pending),
        after(v, e).phase == Phase::Decoding && steps_to_poll(after(v, e).pending) == 0
            ==> after(v, e).pending == Action::PollCancel,
{
}

/// A poll that sees no request lets exactly one packet be pulled.
pub proof fn lemma_poll_allows_one_pull(v: JobView)
    requires
        v.well_formed(),
        v.pending == Action::PollCancel,
    ensures
        after(v, Event::CancelPolled { requested: false }) == (JobView {
            pending: Action::PullPacket,
            ..v
        }),
        v.phase == Phase::Decoding,
{
}

/// A decoded buffer of a representation that is not converted, the 24-bit
/// ones, is passed over: nothing is written for it, the job does not fail,
/// and the loop goes on with the next poll.
pub proof fn lemma_unconverted_buffer_is_skipped(v: JobView, format: SampleFormat, frames: usize)
    requires
        v.well_formed(),
        v.pending == Action::DecodePacket,
        format == SampleFormat::U24 || format == SampleFormat::S24,
    ensures
        format.produced(frames as nat) == 0,
        reply(v, Event::Decoded { format, frames }) == Action::PollCancel,
        after(v, Event::Decoded { format, frames }) == (JobView {
            pending: Action::PollCancel,
            ..v
        }),
        after(v, Event::Decoded { format, frames }).phase == Phase::Decoding,
        after(v, Event::Decoded { format, frames }).failure is None,
{
}

/// Of a decoded buffer of any other representation every frame is written
/// as one mono sample.
pub proof fn lemma_converted_buffer_is_written(v: JobView, format: SampleFormat, frames: usize)
    requires
        v.well_formed(),
        v.pending == Action::DecodePacket,
        format != SampleFormat::U24,
        format != SampleFormat::S24,
    ensures
        format.produced(frames as nat) == frames,
        reply(v, Event::Decoded { format, frames }) == (Action::WriteSamples {
            format,
            samples: frames,
        }),
        after(
            after(v, Event::Decoded { format, frames }),
            Event::PacketWritten,
        ).pending == Action::PollCancel,
{
}

/// A stream that no format recognises ends the job with `UnsupportedFormat`,
/// and no output has been created.
pub proof fn lemma_unrecognised_format(v: JobView, detail: String)
    requires
        v.well_formed(),
        v.pending == Action::ProbeFormat,
    ensures
        ({
            let end = after(v, Event::ProbeFailed { detail });
            &&& reply(v, Event::ProbeFailed { detail }) == Action::ReportResult
            &&& end.phase == Phase::Failed
            &&& end.failure == Some((ErrorKind::UnsupportedFormat, detail@))
            &&& !end.output_created
            &&& outcome(end) == Some((false, "Unsupported format: "@ + detail@))
        }),
{
}

/// A container in which every track carries the placeholder codec ends the
/// job with `NoSupportedTrack`, and no output has been created.
pub proof fn lemma_no_supported_track(v: JobView, tracks: Vec<TrackInfo>)
    requires
        v.well_formed(),
        v.pending == Action::ProbeFormat,
        forall|i: int| 0 <= i < tracks@.len() ==> !(#[trigger] tracks@[i]).has_codec,
    ensures
        ({
            let end = after(v, Event::Probed { tracks });
            &&& reply(v, Event::Probed { tracks }) == Action::ReportResult
            &&& end.phase == Phase::Failed
            &&& end.failure == Some((ErrorKind::NoSupportedTrack, Seq::<char>::empty()))
            &&& !end.output_created
            &&& outcome(end) == Some((false, "No supported audio tracks"@))
        }),
{
    lemma_first_supported(tracks@);
}

/// A selected track without a sample rate ends the job with
/// `UnknownSampleRate`: no rate is assumed in its place.
pub proof fn lemma_unknown_sample_rate(v: JobView, tracks: Vec<TrackInfo>, i: int)
    requires
        v.well_formed(),
        v.pending == Action::ProbeFormat,
        0 <= i < tracks@.len(),
        tracks@[i].has_codec,
        tracks@[i].sample_rate is None,
        forall|j: int| 0 <= j < i ==> !(#[trigger] tracks@[j]).has_codec,
    ensures
        ({
            let end = after(v, Event::Probed { tracks });
            &&& end.phase == Phase::Failed
            &&& end.failure == Some((ErrorKind::UnknownSampleRate, Seq::<char>::empty()))
            &&& !end.output_created
        }),
{
    lemma_first_supported(tracks@);
}

/// An input without packets is still finalized and succeeds: the output is
/// completed with nothing written to it.
pub proof fn lemma_empty_stream_succeeds(v: JobView)
    requires
        v.well_formed(),
        v.pending == Action::PullPacket,
    ensures
        ({
            let drained = after(v, Event::EndOfStream);
            let done = after(drained, Event::Finalized);
            &&& reply(v, Event::EndOfStream) == Action::FinalizeOutput
            &&& drained.phase == Phase::Finalizing
            &&& done.phase == Phase::Succeeded
            &&& done.pending == (Action::NotifyCompleted { packets: v.packets })
            &&& done.output_created
            &&& outcome(done) == Some((true, "Converted to mono: "@ + v.output_path))
        }),
{
}

/// Only cancellation deletes the output: a failure leaves what was written
/// and goes straight to the report.
pub proof fn lemma_failure_keeps_output(v: JobView, e: Event)
    requires
        v.well_formed(),
        accepts(v, e),
        after(v, e).phase == Phase::Failed,
    ensures
        after(v, e).pending == Action::ReportResult,
        after(v, e).output_created == v.output_created,
        after(v, e).packets == v.packets,
{
}

/// A job that has ended reports its result exactly once: the report is the
/// last action, only `Reported` answers it, and the job is idle afterwards.
pub proof fn lemma_report_is_last(v: JobView, e: Event)
    requires
        v.well_formed(),
        v.pending == Action::ReportResult,
    ensures
        outcome(v) is Some,
        accepts(v, e) <==> e is Reported,
        accepts(v, e) ==> after(v, e) == idle() && reply(v, e) == Action::Nothing,
{
}

/// Progress is announced on every hundredth packet of the selected track and
/// on no other.
pub proof fn lemma_progress_every_hundred(v: JobView, track_id: u32)
    requires
        v.well_formed(),
        v.pending == Action::PullPacket,
        v.packets < u64::MAX,
    ensures
        ({
            let a = reply(v, Event::PacketPulled { track_id });
            &&& a == Action::NotifyProgress <==> track_id == v.track_id && (v.packets + 1) % 100
                == 0
            &&& a == Action::DecodePacket <==> track_id == v.track_id && (v.packets + 1) % 100
                != 0
            &&& a == Action::PollCancel <==> track_id != v.track_id
        }),
{
}

/// A job that has ended does no more work: in `Succeeded`, `Failed` and
/// `Cancelled` it only notifies, deletes where it was cancelled, and reports,
/// and the phase it leaves for is `Idle`. Its count of packets stands, and so
/// does its failure.
pub proof fn lemma_ended_job_only_reports(v: JobView, e: Event)
    requires
        v.well_formed(),
        v.phase == Phase::Succeeded || v.phase == Phase::Failed || v.phase == Phase::Cancelled,
    ensures
        after(v, e) == idle() || {
            &&& after(v, e).phase == v.phase
            &&& after(v, e).packets == v.packets
            &&& after(v, e).failure == v.failure
            &&& after(v, e).pending == Action::ReportResult || after(v, e).pending == v.pending
        },
{
}

/// The state after a sequence of events, handed over in order.
pub open spec fn after_all(v: JobView, events: Seq<Event>) -> JobView
    decreases events.len(),
{
    if events.len() == 0 {
        v
    } else {
        after_all(after(v, events[0]), events.subrange(1, events.len() as int))
    }
}

/// Whatever events a job is handed, in whatever order, it stays in the
/// states that a job can be in.
pub proof fn lemma_every_run_is_well_formed(v: JobView, events: Seq<Event>)
    requires
        v.well_formed(),
    ensures
        after_all(v, events).well_formed(),
    decreases events.len(),
{
    if events.len() > 0 {
        lemma_step_keeps_well_formed(v, events[0]);
        lemma_every_run_is_well_formed(
            after(v, events[0]),
            events.subrange(1, events.len() as int),
        );
    }
}

/// The count of packets never falls while a job runs, and the size of the
/// input, once known, does not change.
pub proof fn lemma_counts_are_monotone(v: JobView, e: Event)
    requires
        v.well_formed(),
        has_room(v, e),
    ensures
        after(v, e) == idle() || after(v, e).packets >= v.packets,
        v.phase != Phase::Opening && after(v, e) != idle() ==> after(v, e).total_bytes
            == v.total_bytes,
        after(v, e) != idle() ==> after(v, e).input_path == v.input_path && after(
            v,
            e,
        ).output_path == v.output_path,
{
}

} // verus!
