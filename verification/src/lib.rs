//! Streaming conversion of audio into mono 16-bit PCM: the decisions, rules
//! and bookkeeping of the pipeline, stated over plain values and proved.
//!
//! The crate performs no input or output and no floating-point arithmetic. A
//! caller opens the files, drives the demuxer, the decoder and the waveform
//! writer, and reports every outcome to a [`job::ConversionJob`], which
//! answers with the next thing to do.
//!
//! - [`job`]: the conversion job, its cancellation flag and its result.
//! - [`guarantees`]: what holds of every job.
//! - [`track`]: the choice of the track to convert, and the inspection of a
//!   file.
//! - [`downmix`]: the rule for each sample representation, and the averaging
//!   of signed 16-bit frames.
//! - [`source`]: the byte-counting source that progress is measured by.
//! - [`output`]: the path and the layout of the output.
//! - [`error`]: the failures and their wording.

pub mod downmix;
pub mod error;
pub mod guarantees;
pub mod job;
pub mod output;
pub mod source;
pub mod track;
