//! What probing reports of a container's tracks, the choice of the track to
//! convert, and the description of a file that an inspection returns.

use vstd::prelude::*;
use crate::error::{ConvertError, ErrorKind};

verus! {

/// The bit depth assumed for a track that does not declare one.
pub const DEFAULT_BITS_PER_SAMPLE: u32 = 16;

/// One track of a probed container, as plain values.
#[derive(Clone, Copy, Debug, PartialEq, Eq)]
pub struct TrackInfo {
    /// The identifier that tags the packets of this track.
    pub id: u32,
    /// False where the track carries the placeholder codec.
    pub has_codec: bool,
    /// The number of channels, where the container declares them.
    pub channels: Option<u32>,
    /// The sample rate in Hz, where known.
    pub sample_rate: Option<u32>,
    /// The bit depth, where known.
    pub bits_per_sample: Option<u32>,
    /// The number of frames in the track, where known.
    pub n_frames: Option<u64>,
}

/// The description of an audio file: the properties of its selected track.
#[derive(Clone, Copy, Debug, PartialEq, Eq)]
pub struct AudioInfo {
    pub channels: u32,
    pub sample_rate: u32,
    pub bits_per_sample: u32,
    /// The length in frames; the duration in seconds is this over
    /// `sample_rate`.
    pub total_frames: Option<u64>,
}

/// The position of the first track from `start` on that has a real codec.
pub open spec fn first_supported_from(tracks: Seq<TrackInfo>, start: int) -> Option<int>
    decreases tracks.len() - start,
{
    if start < 0 || start >= tracks.len() {
        None
    } else if tracks[start].has_codec {
        Some(start)
    } else {
        first_supported_from(tracks, start + 1)
    }
}

/// The position of the track that is converted: the first with a real codec.
pub open spec fn first_supported(tracks: Seq<TrackInfo>) -> Option<int> {
    first_supported_from(tracks, 0)
}

/// The description that an inspection gives of the selected track.
pub open spec fn describe(track: TrackInfo) -> AudioInfo {
    AudioInfo {
        channels: match track.channels {
            Some(n) => n,
            None => 0,
        },
        sample_rate: track.sample_rate.unwrap(),
        bits_per_sample: match track.bits_per_sample {
            Some(b) => b,
            None => DEFAULT_BITS_PER_SAMPLE,
        },
        total_frames: track.n_frames,
    }
}

/// `first_supported_from` finds a track exactly where one with a codec
/// exists at or after `start`, and then finds the earliest.
pub proof fn lemma_first_supported_from(tracks: Seq<TrackInfo>, start: int)
    requires
        0 <= start <= tracks.len(),
    ensures
        match first_supported_from(tracks, start) {
            Some(i) => start <= i < tracks.len() && tracks[i].has_codec && forall|j: int|
                start <= j < i ==> !(#[trigger] tracks[j]).has_codec,
            None => forall|j: int| start <= j < tracks.len() ==> !(#[trigger] tracks[j]).has_codec,
        },
    decreases tracks.len() - start,
{
    if start < tracks.len() && !tracks[start].has_codec {
        lemma_first_supported_from(tracks, start + 1);
    }
}

/// The selected track is the earliest one with a real codec; none is selected
/// exactly when every track carries the placeholder codec.
pub proof fn lemma_first_supported(tracks: Seq<TrackInfo>)
    ensures
        match first_supported(tracks) {
            Some(i) => 0 <= i < tracks.len() && tracks[i].has_codec && forall|j: int|
                0 <= j < i ==> !(#[trigger] tracks[j]).has_codec,
            None => forall|j: int| 0 <= j < tracks.len() ==> !(#[trigger] tracks[j]).has_codec,
        },
{
    lemma_first_supported_from(tracks, 0);
}

/// Selects the track to convert: the first whose codec is not the placeholder.
pub fn select_track(tracks: &Vec<TrackInfo>) -> (found: Option<usize>)
    ensures
        match found {
            Some(i) => first_supported(tracks@) == Some(i as int),
            None => first_supported(tracks@) is None,
        },
{
    let mut i: usize = 0;
    while i < tracks.len()
        invariant
            i <= tracks.len(),
            first_supported(tracks@) == first_supported_from(tracks@, i as int),
        decreases tracks.len() - i,
    {
        if tracks[i].has_codec {
            return Some(i);
        }
        i = i + 1;
    }
    None
}

/// What an inspection of a container with these tracks gives: the
/// description of the selected track, or the kind of the failure.
pub open spec fn inspection(tracks: Seq<TrackInfo>) -> Result<AudioInfo, ErrorKind> {
    match first_supported(tracks) {
        None => Err(ErrorKind::NoSupportedTrack),
        Some(i) => if tracks[i].sample_rate is None {
            Err(ErrorKind::UnknownSampleRate)
        } else {
            Ok(describe(tracks[i]))
        },
    }
}

/// Describes the file whose container holds `tracks`.
///
/// Fails with `NoSupportedTrack` where no track has a real codec, and with
/// `UnknownSampleRate` where the selected track declares no sample rate: a
/// rate is never guessed. A missing channel layout reads as zero channels, a
/// missing bit depth as 16.
pub fn inspect_tracks(tracks: &Vec<TrackInfo>) -> (res: Result<AudioInfo, ConvertError>)
    ensures
        match inspection(tracks@) {
            Ok(info) => res == Ok::<AudioInfo, ConvertError>(info),
            Err(kind) => res matches Err(e) && e.kind == kind && e.detail@ == Seq::<char>::empty(),
        },
{
    proof {
        lemma_first_supported(tracks@);
    }
    let index = match select_track(tracks) {
        Some(i) => i,
        None => {
            return Err(ConvertError::bare(ErrorKind::NoSupportedTrack));
        },
    };
    let track = tracks[index];
    let sample_rate = match track.sample_rate {
        Some(rate) => rate,
        None => {
            return Err(ConvertError::bare(ErrorKind::UnknownSampleRate));
        },
    };
    let channels = match track.channels {
        Some(n) => n,
        None => 0,
    };
    let bits_per_sample = match track.bits_per_sample {
        Some(b) => b,
        None => DEFAULT_BITS_PER_SAMPLE,
    };
    Ok(AudioInfo { channels, sample_rate, bits_per_sample, total_frames: track.n_frames })
}

/// The answer to an inspection: the description, or the reason why there is
/// none.
#[derive(Debug)]
pub struct GetAudioInfoResponse {
    pub success: bool,
    pub data: Option<AudioInfo>,
    pub error: Option<String>,
}

/// Answers an inspection from the outcome of opening and probing the file.
///
/// A failure to open or to probe is reported with its reason. Of a probed
/// file the selected track is described; where there is none, or its sample
/// rate is unknown, the answer carries that reason.
pub fn get_audio_info(probe: Result<Vec<TrackInfo>, ConvertError>) -> (response:
    GetAudioInfoResponse)
    ensures
        match probe {
            Err(e) => {
                &&& !response.success
                &&& response.data is None
                &&& response.error matches Some(text) && text@ == e.reason()
            },
            Ok(tracks) => match inspection(tracks@) {
                Ok(info) => {
                    &&& response.success
                    &&& response.data == Some(info)
                    &&& response.error is None
                },
                Err(kind) => {
                    &&& !response.success
                    &&& response.data is None
                    &&& response.error matches Some(text) && text@ == kind.reason(Seq::empty())
                },
            },
        },
{
    let inspected = match probe {
        Ok(tracks) => inspect_tracks(&tracks),
        Err(e) => Err(e),
    };
    match inspected {
        Ok(info) => GetAudioInfoResponse { success: true, data: Some(info), error: None },
        Err(e) => GetAudioInfoResponse { success: false, data: None, error: Some(e.message()) },
    }
}

} // verus!
