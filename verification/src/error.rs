//! The failures that end a conversion or an inspection, and their wording.

use vstd::prelude::*;
use vstd::string::*;

verus! {

/// The class of a terminal failure.
#[derive(Clone, Copy, Debug, PartialEq, Eq, Structural)]
pub enum ErrorKind {
    /// The input file could not be opened.
    IoOpenError,
    /// The size of the input file could not be read.
    IoMetadataError,
    /// No registered container format recognised the stream.
    UnsupportedFormat,
    /// Every track of the container carries the placeholder codec.
    NoSupportedTrack,
    /// The selected track does not declare a sample rate.
    UnknownSampleRate,
    /// No decoder exists for the codec of the selected track.
    UnsupportedCodec,
    /// The output file could not be created.
    OutputCreateError,
    /// A packet of the selected track could not be decoded.
    DecodeError,
    /// A sample could not be written to the output.
    WriteError,
    /// The header of the output could not be completed.
    FinalizeError,
    /// The caller asked for the conversion to stop.
    Cancelled,
}

impl ErrorKind {
    /// The fixed part of the reason that is reported for this kind.
    pub open spec fn label(self) -> Seq<char> {
        match self {
            ErrorKind::IoOpenError => "Failed to open file: "@,
            ErrorKind::IoMetadataError => "Failed to get file metadata: "@,
            ErrorKind::UnsupportedFormat => "Unsupported format: "@,
            ErrorKind::NoSupportedTrack => "No supported audio tracks"@,
            ErrorKind::UnknownSampleRate => "Unknown sample rate"@,
            ErrorKind::UnsupportedCodec => "Unsupported codec: "@,
            ErrorKind::OutputCreateError => "Failed to create WAV file: "@,
            ErrorKind::DecodeError => "Decode error: "@,
            ErrorKind::WriteError => "Write error"@,
            ErrorKind::FinalizeError => "Finalize error"@,
            ErrorKind::Cancelled => "Conversion cancelled"@,
        }
    }

    /// Whether the reason ends with the text of the underlying failure.
    pub open spec fn carries_detail(self) -> bool {
        match self {
            ErrorKind::IoOpenError
            | ErrorKind::IoMetadataError
            | ErrorKind::UnsupportedFormat
            | ErrorKind::UnsupportedCodec
            | ErrorKind::OutputCreateError
            | ErrorKind::DecodeError => true,
            _ => false,
        }
    }

    /// The reason reported for a failure of this kind with the given detail.
    pub open spec fn reason(self, detail: Seq<char>) -> Seq<char> {
        if self.carries_detail() {
            self.label() + detail
        } else {
            self.label()
        }
    }

    /// Returns the fixed part of the reason.
    pub fn label_text(self) -> (text: &'static str)
        ensures
            text@ == self.label(),
    {
        match self {
            ErrorKind::IoOpenError => "Failed to open file: ",
            ErrorKind::IoMetadataError => "Failed to get file metadata: ",
            ErrorKind::UnsupportedFormat => "Unsupported format: ",
            ErrorKind::NoSupportedTrack => "No supported audio tracks",
            ErrorKind::UnknownSampleRate => "Unknown sample rate",
            ErrorKind::UnsupportedCodec => "Unsupported codec: ",
            ErrorKind::OutputCreateError => "Failed to create WAV file: ",
            ErrorKind::DecodeError => "Decode error: ",
            ErrorKind::WriteError => "Write error",
            ErrorKind::FinalizeError => "Finalize error",
            ErrorKind::Cancelled => "Conversion cancelled",
        }
    }

    /// Tells whether the reason ends with the text of the underlying failure.
    pub fn has_detail(self) -> (b: bool)
        ensures
            b == self.carries_detail(),
    {
        match self {
            ErrorKind::IoOpenError
            | ErrorKind::IoMetadataError
            | ErrorKind::UnsupportedFormat
            | ErrorKind::UnsupportedCodec
            | ErrorKind::OutputCreateError
            | ErrorKind::DecodeError => true,
            _ => false,
        }
    }
}

/// A terminal failure: its kind, and the text of the underlying failure where
/// there is one.
#[derive(Debug)]
pub struct ConvertError {
    pub kind: ErrorKind,
    pub detail: String,
}

impl ConvertError {
    /// A failure of the given kind. The detail is kept as given; it shows in
    /// the reason only for the kinds that carry one.
    pub fn new(kind: ErrorKind, detail: String) -> (e: ConvertError)
        ensures
            e.kind == kind,
            e.detail@ == detail@,
    {
        ConvertError { kind, detail }
    }

    /// A failure of the given kind with an empty detail.
    pub fn bare(kind: ErrorKind) -> (e: ConvertError)
        ensures
            e.kind == kind,
            e.detail@ == Seq::<char>::empty(),
    {
        ConvertError { kind, detail: String::new() }
    }

    /// The reason as reported to the listener.
    pub open spec fn reason(&self) -> Seq<char> {
        self.kind.reason(self.detail@)
    }

    /// Builds the reason as reported to the listener.
    pub fn message(&self) -> (text: String)
        ensures
            text@ == self.reason(),
    {
        let mut text = String::from_str(self.kind.label_text());
        if self.kind.has_detail() {
            text.append(self.detail.as_str());
        }
        text
    }
}

} // verus!
