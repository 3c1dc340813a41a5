//! The conversion job: a state machine that is told the outcome of every
//! outside step and answers with the next one.
//!
//! A job leaves `Idle` when it is started, opens and probes the input,
//! prepares a decoder and the output, and then runs the decode loop. Each
//! turn of the loop polls the cancellation flag, pulls one packet and, where
//! the packet belongs to the selected track, decodes it and has its frames
//! written as mono samples; a buffer of a representation that is not
//! converted is passed over. The job ends in `Succeeded`, `Failed` or
//! `Cancelled`, reports once, and is `Idle` again.

use vstd::prelude::*;
use vstd::string::*;
use crate::downmix::SampleFormat;
use crate::error::{ConvertError, ErrorKind};
use crate::output::{output_path, output_path_of};
use crate::track::{first_supported, lemma_first_supported, select_track, TrackInfo};

verus! {

/// The number of packets of the selected track between two progress
/// notifications.
pub const PROGRESS_INTERVAL: u64 = 100;

/// The stage of a job.
#[derive(Clone, Copy, Debug, PartialEq, Eq, Structural)]
pub enum Phase {
    Idle,
    Opening,
    Probing,
    Decoding,
    Finalizing,
    Succeeded,
    Failed,
    Cancelled,
}

/// What the caller is to do next. Every action but `Nothing` and `Rejected`
/// is answered by one event.
#[derive(Clone, Copy, Debug, PartialEq, Eq, Structural)]
pub enum Action {
    /// No job is running.
    Nothing,
    /// The event did not answer the pending action; nothing has changed.
    Rejected,
    /// Open the input and read its size.
    OpenInput,
    /// Detect the container format and list its tracks.
    ProbeFormat,
    /// Create a decoder for the track at this position in the list.
    MakeDecoder { track: usize },
    /// Create the output file as mono 16-bit PCM at this sample rate.
    CreateOutput { sample_rate: u32 },
    /// Tell the listener that the conversion starts.
    NotifyStarted,
    /// Read the cancellation flag.
    PollCancel,
    /// Pull the next packet from the demuxer.
    PullPacket,
    /// Tell the listener how much of the input has been read.
    NotifyProgress,
    /// Decode the packet just pulled.
    DecodePacket,
    /// Downmix the buffer just decoded and write its mono samples, of which
    /// there are this many.
    WriteSamples { format: SampleFormat, samples: usize },
    /// Complete the header of the output.
    FinalizeOutput,
    /// Tell the listener that all packets are converted.
    NotifyCompleted { packets: u64 },
    /// Delete the output file.
    DeleteOutput,
    /// Send the terminal result to the listener.
    ReportResult,
}

/// The outcome of the action that was pending.
#[derive(Debug)]
pub enum Event {
    Opened { total_bytes: u64 },
    OpenFailed { detail: String },
    MetadataFailed { detail: String },
    Probed { tracks: Vec<TrackInfo> },
    ProbeFailed { detail: String },
    DecoderReady,
    DecoderFailed { detail: String },
    OutputCreated,
    OutputCreateFailed { detail: String },
    /// A notification was handed to the listener, delivered or not.
    Notified,
    CancelPolled { requested: bool },
    PacketPulled { track_id: u32 },
    /// The demuxer asks for the pull to be repeated.
    ResetRequired,
    /// The demuxer has no more packets, or failed in any other way.
    EndOfStream,
    /// The packet was decoded into a buffer of this representation and
    /// length.
    Decoded { format: SampleFormat, frames: usize },
    DecodeFailed { detail: String },
    /// The mono samples of the buffer were written.
    PacketWritten,
    WriteFailed,
    Finalized,
    FinalizeFailed,
    /// The deletion of the output was attempted.
    OutputDeleted,
    /// The terminal result was handed to the listener.
    Reported,
}

/// The request to stop the running job, shared between the job's driver and
/// whoever may cancel it.
#[derive(Debug)]
pub struct CancelFlag {
    requested: bool,
}

impl CancelFlag {
    /// Whether cancellation has been requested since the last reset.
    pub closed spec fn requested(&self) -> bool {
        self.requested
    }

    /// A flag on which nothing has been requested.
    pub fn new() -> (flag: CancelFlag)
        ensures
            !flag.requested(),
    {
        CancelFlag { requested: false }
    }

    /// Withdraws any request.
    pub fn reset(&mut self)
        ensures
            !final(self).requested(),
    {
        self.requested = false;
    }

    /// Reads the flag.
    pub fn is_requested(&self) -> (b: bool)
        ensures
            b == self.requested(),
    {
        self.requested
    }
}

/// Requests that the running job stop. Asking again changes nothing.
pub fn cancel_conversion(flag: &mut CancelFlag)
    ensures
        final(flag).requested(),
{
    flag.requested = true;
}

/// The terminal result of a job as the listener receives it.
#[derive(Debug)]
pub struct ConversionResult {
    pub success: bool,
    /// On success the message that names the output, else the reason.
    pub text: String,
}

/// The state of a job as a mathematical value.
pub struct JobView {
    pub phase: Phase,
    pub pending: Action,
    pub input_path: Seq<char>,
    pub output_path: Seq<char>,
    pub total_bytes: u64,
    pub track_id: u32,
    pub sample_rate: u32,
    pub packets: u64,
    pub output_created: bool,
    pub failure: Option<(ErrorKind, Seq<char>)>,
}

/// The state of a job that is not running.
pub open spec fn idle() -> JobView {
    JobView {
        phase: Phase::Idle,
        pending: Action::Nothing,
        input_path: Seq::empty(),
        output_path: Seq::empty(),
        total_bytes: 0,
        track_id: 0,
        sample_rate: 0,
        packets: 0,
        output_created: false,
        failure: None,
    }
}

/// The state of a job right after it was started on `input_path`.
pub open spec fn started(input_path: Seq<char>) -> JobView {
    JobView {
        phase: Phase::Opening,
        pending: Action::OpenInput,
        input_path,
        output_path: output_path_of(input_path),
        ..idle()
    }
}

/// The state after a failure of the given kind.
pub open spec fn failed(v: JobView, kind: ErrorKind, detail: Seq<char>) -> JobView {
    JobView { phase: Phase::Failed, pending: Action::ReportResult, failure: Some((kind, detail)), ..v }
}

/// The state with another action pending.
pub open spec fn awaiting(v: JobView, pending: Action) -> JobView {
    JobView { pending, ..v }
}

/// Whether `e` is an outcome of the action that is pending in `v`.
pub open spec fn accepts(v: JobView, e: Event) -> bool {
    match v.pending {
        Action::Nothing | Action::Rejected => false,
        Action::OpenInput => e is Opened || e is OpenFailed || e is MetadataFailed,
        Action::ProbeFormat => e is Probed || e is ProbeFailed,
        Action::MakeDecoder { .. } => e is DecoderReady || e is DecoderFailed,
        Action::CreateOutput { .. } => e is OutputCreated || e is OutputCreateFailed,
        Action::NotifyStarted | Action::NotifyProgress | Action::NotifyCompleted { .. } => e
            is Notified,
        Action::PollCancel => e is CancelPolled,
        Action::PullPacket => e is PacketPulled || e is ResetRequired || e is EndOfStream,
        Action::DecodePacket => e is Decoded || e is DecodeFailed,
        Action::WriteSamples { .. } => e is PacketWritten || e is WriteFailed,
        Action::FinalizeOutput => e is Finalized || e is FinalizeFailed,
        Action::DeleteOutput => e is OutputDeleted,
        Action::ReportResult => e is Reported,
    }
}

/// The state that follows `v` on an accepted event.
pub open spec fn next(v: JobView, e: Event) -> JobView {
    match e {
        Event::Opened { total_bytes } => JobView {
            phase: Phase::Probing,
            pending: Action::ProbeFormat,
            total_bytes,
            ..v
        },
        Event::OpenFailed { detail } => failed(v, ErrorKind::IoOpenError, detail@),
        Event::MetadataFailed { detail } => failed(v, ErrorKind::IoMetadataError, detail@),
        Event::Probed { tracks } => match first_supported(tracks@) {
            None => failed(v, ErrorKind::NoSupportedTrack, Seq::empty()),
            Some(i) => match tracks@[i].sample_rate {
                None => failed(v, ErrorKind::UnknownSampleRate, Seq::empty()),
                Some(rate) => JobView {
                    pending: Action::MakeDecoder { track: i as usize },
                    track_id: tracks@[i].id,
                    sample_rate: rate,
                    ..v
                },
            },
        },
        Event::ProbeFailed { detail } => failed(v, ErrorKind::UnsupportedFormat, detail@),
        Event::DecoderReady => awaiting(v, Action::CreateOutput { sample_rate: v.sample_rate }),
        Event::DecoderFailed { detail } => failed(v, ErrorKind::UnsupportedCodec, detail@),
        Event::OutputCreated => JobView {
            phase: Phase::Decoding,
            pending: Action::NotifyStarted,
            output_created: true,
            ..v
        },
        Event::OutputCreateFailed { detail } => failed(v, ErrorKind::OutputCreateError, detail@),
        Event::Notified => match v.pending {
            Action::NotifyStarted => awaiting(v, Action::PollCancel),
            Action::NotifyProgress => awaiting(v, Action::DecodePacket),
            _ => awaiting(v, Action::ReportResult),
        },
        Event::CancelPolled { requested } => if requested {
            JobView {
                phase: Phase::Cancelled,
                pending: Action::DeleteOutput,
                failure: Some((ErrorKind::Cancelled, Seq::empty())),
                ..v
            }
        } else {
            awaiting(v, Action::PullPacket)
        },
        Event::PacketPulled { track_id } => if track_id != v.track_id {
            awaiting(v, Action::PollCancel)
        } else {
            JobView {
                packets: (v.packets + 1) as u64,
                pending: if (v.packets + 1) % (PROGRESS_INTERVAL as int) == 0 {
                    Action::NotifyProgress
                } else {
                    Action::DecodePacket
                },
                ..v
            }
        },
        Event::ResetRequired => awaiting(v, Action::PollCancel),
        Event::EndOfStream => JobView {
            phase: Phase::Finalizing,
            pending: Action::FinalizeOutput,
            ..v
        },
        Event::Decoded { format, frames } => if format.supported() {
            awaiting(v, Action::WriteSamples { format, samples: frames })
        } else {
            awaiting(v, Action::PollCancel)
        },
        Event::DecodeFailed { detail } => failed(v, ErrorKind::DecodeError, detail@),
        Event::PacketWritten => awaiting(v, Action::PollCancel),
        Event::WriteFailed => failed(v, ErrorKind::WriteError, Seq::empty()),
        Event::Finalized => JobView {
            phase: Phase::Succeeded,
            pending: Action::NotifyCompleted { packets: v.packets },
            ..v
        },
        Event::FinalizeFailed => failed(v, ErrorKind::FinalizeError, Seq::empty()),
        Event::OutputDeleted => JobView {
            pending: Action::ReportResult,
            output_created: false,
            ..v
        },
        Event::Reported => idle(),
    }
}

/// The state after `e` was handed to a job in state `v`: the event is
/// ignored unless it answers the pending action.
pub open spec fn after(v: JobView, e: Event) -> JobView {
    if accepts(v, e) {
        next(v, e)
    } else {
        v
    }
}

/// The action that a job in state `v` returns for `e`.
pub open spec fn reply(v: JobView, e: Event) -> Action {
    if accepts(v, e) {
        next(v, e).pending
    } else {
        Action::Rejected
    }
}

/// Whether the count of packets can take the packet that `e` brings.
pub open spec fn has_room(v: JobView, e: Event) -> bool {
    e matches Event::PacketPulled { track_id } && track_id == v.track_id ==> v.packets < u64::MAX
}

/// The terminal result of a job in state `v`: whether it succeeded, and the
/// text for the listener. There is none before the job has ended.
pub open spec fn outcome(v: JobView) -> Option<(bool, Seq<char>)> {
    match v.phase {
        Phase::Succeeded => Some((true, "Converted to mono: "@ + v.output_path)),
        Phase::Failed | Phase::Cancelled => match v.failure {
            Some((kind, detail)) => Some((false, kind.reason(detail))),
            None => None,
        },
        _ => None,
    }
}

impl JobView {
    /// The states that a job can be in.
    pub open spec fn well_formed(self) -> bool {
        &&& self.phase == Phase::Idle ==> self == idle()
        &&& self.phase != Phase::Idle ==> self.output_path == output_path_of(self.input_path)
        &&& match self.phase {
            Phase::Idle => true,
            Phase::Opening => self.pending == Action::OpenInput,
            Phase::Probing => self.pending == Action::ProbeFormat || self.pending
                is MakeDecoder || self.pending == (Action::CreateOutput {
                sample_rate: self.sample_rate,
            }),
            Phase::Decoding => self.pending == Action::NotifyStarted || self.pending
                == Action::PollCancel || self.pending == Action::PullPacket || self.pending
                == Action::NotifyProgress || self.pending == Action::DecodePacket || (self.pending
                matches Action::WriteSamples { format, .. } && format.supported()),
            Phase::Finalizing => self.pending == Action::FinalizeOutput,
            Phase::Succeeded => self.pending == (Action::NotifyCompleted {
                packets: self.packets,
            }) || self.pending == Action::ReportResult,
            Phase::Failed => self.pending == Action::ReportResult,
            Phase::Cancelled => self.pending == Action::DeleteOutput || self.pending
                == Action::ReportResult,
        }
        &&& match self.phase {
            Phase::Idle | Phase::Opening | Phase::Probing => !self.output_created,
            Phase::Decoding | Phase::Finalizing | Phase::Succeeded => self.output_created,
            Phase::Failed => true,
            Phase::Cancelled => self.output_created <==> self.pending == Action::DeleteOutput,
        }
        &&& match self.phase {
            Phase::Failed => self.failure matches Some((kind, _)) && kind != ErrorKind::Cancelled,
            Phase::Cancelled => self.failure == Some((ErrorKind::Cancelled, Seq::<char>::empty())),
            _ => self.failure is None,
        }
    }
}

/// A conversion job.
#[derive(Debug)]
pub struct ConversionJob {
    phase: Phase,
    pending: Action,
    input_path: String,
    output_path: String,
    total_bytes: u64,
    track_id: u32,
    sample_rate: u32,
    packets: u64,
    output_created: bool,
    failure: Option<ConvertError>,
}

impl View for ConversionJob {
    type V = JobView;

    closed spec fn view(&self) -> JobView {
        JobView {
            phase: self.phase,
            pending: self.pending,
            input_path: self.input_path@,
            output_path: self.output_path@,
            total_bytes: self.total_bytes,
            track_id: self.track_id,
            sample_rate: self.sample_rate,
            packets: self.packets,
            output_created: self.output_created,
            failure: match self.failure {
                Some(e) => Some((e.kind, e.detail@)),
                None => None,
            },
        }
    }
}

impl ConversionJob {
    /// A job that is not running.
    pub fn new() -> (job: ConversionJob)
        ensures
            job@ == idle(),
            job@.well_formed(),
    {
        ConversionJob {
            phase: Phase::Idle,
            pending: Action::Nothing,
            input_path: String::new(),
            output_path: String::new(),
            total_bytes: 0,
            track_id: 0,
            sample_rate: 0,
            packets: 0,
            output_created: false,
            failure: None,
        }
    }

    /// The stage of the job.
    pub fn phase(&self) -> (phase: Phase)
        ensures
            phase == self@.phase,
    {
        self.phase
    }

    /// The action whose outcome the job waits for.
    pub fn pending(&self) -> (action: Action)
        ensures
            action == self@.pending,
    {
        self.pending
    }

    /// The path of the input.
    pub fn input_path(&self) -> (path: &String)
        ensures
            path@ == self@.input_path,
    {
        &self.input_path
    }

    /// The path of the output.
    pub fn output_path(&self) -> (path: &String)
        ensures
            path@ == self@.output_path,
    {
        &self.output_path
    }

    /// The size of the input in bytes, once it was opened.
    pub fn total_bytes(&self) -> (n: u64)
        ensures
            n == self@.total_bytes,
    {
        self.total_bytes
    }

    /// The identifier of the selected track, once the input was probed.
    pub fn track_id(&self) -> (id: u32)
        ensures
            id == self@.track_id,
    {
        self.track_id
    }

    /// The sample rate of the selected track, once the input was probed.
    pub fn sample_rate(&self) -> (rate: u32)
        ensures
            rate == self@.sample_rate,
    {
        self.sample_rate
    }

    /// The number of packets of the selected track that were pulled.
    pub fn packets(&self) -> (n: u64)
        ensures
            n == self@.packets,
    {
        self.packets
    }

    /// Whether the output file exists as far as the job knows.
    pub fn output_created(&self) -> (b: bool)
        ensures
            b == self@.output_created,
    {
        self.output_created
    }

    /// The terminal result, once the job has ended and until it has reported.
    pub fn result(&self) -> (res: Option<ConversionResult>)
        requires
            self@.well_formed(),
        ensures
            match outcome(self@) {
                Some((success, text)) => res matches Some(r) && r.success == success && r.text@
                    == text,
                None => res is None,
            },
    {
        match self.phase {
            Phase::Succeeded => {
                let mut text = String::from_str("Converted to mono: ");
                text.append(self.output_path.as_str());
                Some(ConversionResult { success: true, text })
            },
            Phase::Failed | Phase::Cancelled => match &self.failure {
                Some(e) => Some(ConversionResult { success: false, text: e.message() }),
                None => None,
            },
            _ => None,
        }
    }

    /// Records a failure and asks for it to be reported.
    fn fail(&mut self, kind: ErrorKind, detail: String) -> (action: Action)
        ensures
            final(self)@ == failed(old(self)@, kind, detail@),
            action == Action::ReportResult,
    {
        self.phase = Phase::Failed;
        self.pending = Action::ReportResult;
        self.failure = Some(ConvertError::new(kind, detail));
        Action::ReportResult
    }

    /// Makes another action pending.
    fn await_outcome(&mut self, action: Action) -> (pending: Action)
        ensures
            final(self)@ == awaiting(old(self)@, action),
            pending == action,
    {
        self.pending = action;
        action
    }

    /// Takes the outcome of the pending action and returns the next one.
    ///
    /// An event that does not answer the pending action is rejected and
    /// leaves the job as it was.
    pub fn step(&mut self, event: Event) -> (action: Action)
        requires
            old(self)@.well_formed(),
            has_room(old(self)@, event),
        ensures
            final(self)@ == after(old(self)@, event),
            action == reply(old(self)@, event),
            final(self)@.well_formed(),
    {
        match (self.pending, event) {
            (Action::OpenInput, Event::Opened { total_bytes }) => {
                self.phase = Phase::Probing;
                self.total_bytes = total_bytes;
                self.await_outcome(Action::ProbeFormat)
            },
            (Action::OpenInput, Event::OpenFailed { detail }) => self.fail(
                ErrorKind::IoOpenError,
                detail,
            ),
            (Action::OpenInput, Event::MetadataFailed { detail }) => self.fail(
                ErrorKind::IoMetadataError,
                detail,
            ),
            (Action::ProbeFormat, Event::Probed { tracks }) => {
                proof {
                    lemma_first_supported(tracks@);
                }
                match select_track(&tracks) {
                    None => self.fail(ErrorKind::NoSupportedTrack, String::new()),
                    Some(i) => match tracks[i].sample_rate {
                        None => self.fail(ErrorKind::UnknownSampleRate, String::new()),
                        Some(rate) => {
                            self.track_id = tracks[i].id;
                            self.sample_rate = rate;
                            self.await_outcome(Action::MakeDecoder { track: i })
                        },
                    },
                }
            },
            (Action::ProbeFormat, Event::ProbeFailed { detail }) => self.fail(
                ErrorKind::UnsupportedFormat,
                detail,
            ),
            (Action::MakeDecoder { .. }, Event::DecoderReady) => {
                let sample_rate = self.sample_rate;
                self.await_outcome(Action::CreateOutput { sample_rate })
            },
            (Action::MakeDecoder { .. }, Event::DecoderFailed { detail }) => self.fail(
                ErrorKind::UnsupportedCodec,
                detail,
            ),
            (Action::CreateOutput { .. }, Event::OutputCreated) => {
                self.phase = Phase::Decoding;
                self.output_created = true;
                self.await_outcome(Action::NotifyStarted)
            },
            (Action::CreateOutput { .. }, Event::OutputCreateFailed { detail }) => self.fail(
                ErrorKind::OutputCreateError,
                detail,
            ),
            (Action::NotifyStarted, Event::Notified) => self.await_outcome(Action::PollCancel),
            (Action::NotifyProgress, Event::Notified) => self.await_outcome(Action::DecodePacket),
            (Action::NotifyCompleted { .. }, Event::Notified) => self.await_outcome(
                Action::ReportResult,
            ),
            (Action::PollCancel, Event::CancelPolled { requested }) => {
                if requested {
                    self.phase = Phase::Cancelled;
                    self.failure = Some(ConvertError::bare(ErrorKind::Cancelled));
                    self.await_outcome(Action::DeleteOutput)
                } else {
                    self.await_outcome(Action::PullPacket)
                }
            },
            (Action::PullPacket, Event::PacketPulled { track_id }) => {
                if track_id != self.track_id {
                    self.await_outcome(Action::PollCancel)
                } else {
                    self.packets = self.packets + 1;
                    if self.packets % PROGRESS_INTERVAL == 0 {
                        self.await_outcome(Action::NotifyProgress)
                    } else {
                        self.await_outcome(Action::DecodePacket)
                    }
                }
            },
            (Action::PullPacket, Event::ResetRequired) => self.await_outcome(Action::PollCancel),
            (Action::PullPacket, Event::EndOfStream) => {
                self.phase = Phase::Finalizing;
                self.await_outcome(Action::FinalizeOutput)
            },
            (Action::DecodePacket, Event::Decoded { format, frames }) => {
                if format.is_supported() {
                    self.await_outcome(Action::WriteSamples { format, samples: frames })
                } else {
                    self.await_outcome(Action::PollCancel)
                }
            },
            (Action::DecodePacket, Event::DecodeFailed { detail }) => self.fail(
                ErrorKind::DecodeError,
                detail,
            ),
            (Action::WriteSamples { .. }, Event::PacketWritten) => self.await_outcome(
                Action::PollCancel,
            ),
            (Action::WriteSamples { .. }, Event::WriteFailed) => self.fail(
                ErrorKind::WriteError,
                String::new(),
            ),
            (Action::FinalizeOutput, Event::Finalized) => {
                self.phase = Phase::Succeeded;
                let packets = self.packets;
                self.await_outcome(Action::NotifyCompleted { packets })
            },
            (Action::FinalizeOutput, Event::FinalizeFailed) => self.fail(
                ErrorKind::FinalizeError,
                String::new(),
            ),
            (Action::DeleteOutput, Event::OutputDeleted) => {
                self.output_created = false;
                self.await_outcome(Action::ReportResult)
            },
            (Action::ReportResult, Event::Reported) => {
                *self = ConversionJob::new();
                Action::Nothing
            },
            _ => Action::Rejected,
        }
    }
}

/// Starts a conversion of the file at `file_path`.
///
/// An idle job accepts: the cancellation flag is reset, the output path is
/// derived, and the job asks for the input to be opened. A job that is
/// running rejects the request, and neither it nor the flag changes.
pub fn convert_to_mono(job: &mut ConversionJob, flag: &mut CancelFlag, file_path: &str) -> (action:
    Action)
    requires
        old(job)@.well_formed(),
    ensures
        final(job)@.well_formed(),
        old(job)@.phase == Phase::Idle ==> {
            &&& action == Action::OpenInput
            &&& final(job)@ == started(file_path@)
            &&& !final(flag).requested()
        },
        old(job)@.phase != Phase::Idle ==> {
            &&& action == Action::Rejected
            &&& final(job)@ == old(job)@
            &&& final(flag).requested() == old(flag).requested()
        },
{
    match job.phase {
        Phase::Idle => {
            flag.reset();
            job.phase = Phase::Opening;
            job.pending = Action::OpenInput;
            job.input_path = String::from_str(file_path);
            job.output_path = output_path(file_path);
            Action::OpenInput
        },
        _ => Action::Rejected,
    }
}

} // verus!
