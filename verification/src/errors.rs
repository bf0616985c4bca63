//! Error taxonomy of the recording pipeline.
//!
//! Each failure a caller can observe is a distinct variant, so the
//! presenting layer can choose distinct messaging for "no microphone",
//! "no audio captured" and internal resample or encode failures.

use vstd::prelude::*;

verus! {

/// The step of artifact writing that failed.
#[derive(Clone, Copy, Debug, PartialEq, Eq, Structural)]
pub enum EncodeStage {
    /// Creating the cache directory failed.
    Directory,
    /// Creating the artifact file failed.
    File,
    /// Writing a sample failed.
    Write,
    /// Finalizing (closing) the container failed.
    Finalize,
}

/// Every failure the recording pipeline can report.
#[derive(Clone, Copy, Debug, PartialEq, Eq, Structural)]
pub enum RecordError {
    /// `start` was called while a recording session is already active.
    AlreadyRecording,
    /// `stop` was called while no recording session is active.
    NotRecording,
    /// No default input device is available.
    NoInputDevice,
    /// The input device refused to report a usable configuration.
    DeviceConfigError,
    /// The device delivers samples in a format the pipeline cannot decode.
    UnsupportedSampleFormat,
    /// The hardware stream could not be started.
    StreamStartFailure,
    /// The session buffer was empty when the recording was drained.
    NoAudioCaptured,
    /// The rate converter could not be constructed.
    ResamplerConstructionFailure,
    /// The rate converter failed while processing a block.
    ResampleProcessingFailure,
    /// Writing the artifact failed at the given step.
    EncodeFailure(EncodeStage),
    /// A prior panic left the shared session buffer in an inconsistent state.
    LockPoisoned,
    /// The artifact path is not valid UTF-8.
    ArtifactPathNotUtf8,
}

impl RecordError {
    /// The descriptive message shown to callers for this failure.
    pub open spec fn spec_message(self) -> Seq<char> {
        match self {
            RecordError::AlreadyRecording => "Already recording"@,
            RecordError::NotRecording => "Not recording"@,
            RecordError::NoInputDevice => "No input device available"@,
            RecordError::DeviceConfigError => "Failed to get input config"@,
            RecordError::UnsupportedSampleFormat => "Unsupported sample format"@,
            RecordError::StreamStartFailure => "Failed to start stream"@,
            RecordError::NoAudioCaptured => "No audio data captured"@,
            RecordError::ResamplerConstructionFailure => "Failed to create resampler"@,
            RecordError::ResampleProcessingFailure => "Resample error"@,
            RecordError::EncodeFailure(EncodeStage::Directory) => "Failed to create cache dir"@,
            RecordError::EncodeFailure(EncodeStage::File) => "Failed to create WAV"@,
            RecordError::EncodeFailure(EncodeStage::Write) => "Failed to write sample"@,
            RecordError::EncodeFailure(EncodeStage::Finalize) => "Failed to finalize WAV"@,
            RecordError::LockPoisoned => "Lock poisoned"@,
            RecordError::ArtifactPathNotUtf8 => "Path is not valid UTF-8"@,
        }
    }

    /// Renders the descriptive message for this failure.
    pub fn message(&self) -> (r: String)
        ensures
            r@ == self.spec_message(),
    {
        match self {
            RecordError::AlreadyRecording => String::from_str("Already recording"),
            RecordError::NotRecording => String::from_str("Not recording"),
            RecordError::NoInputDevice => String::from_str("No input device available"),
            RecordError::DeviceConfigError => String::from_str("Failed to get input config"),
            RecordError::UnsupportedSampleFormat => String::from_str("Unsupported sample format"),
            RecordError::StreamStartFailure => String::from_str("Failed to start stream"),
            RecordError::NoAudioCaptured => String::from_str("No audio data captured"),
            RecordError::ResamplerConstructionFailure => {
                String::from_str("Failed to create resampler")
            },
            RecordError::ResampleProcessingFailure => String::from_str("Resample error"),
            RecordError::EncodeFailure(EncodeStage::Directory) => {
                String::from_str("Failed to create cache dir")
            },
            RecordError::EncodeFailure(EncodeStage::File) => String::from_str("Failed to create WAV"),
            RecordError::EncodeFailure(EncodeStage::Write) => {
                String::from_str("Failed to write sample")
            },
            RecordError::EncodeFailure(EncodeStage::Finalize) => {
                String::from_str("Failed to finalize WAV")
            },
            RecordError::LockPoisoned => String::from_str("Lock poisoned"),
            RecordError::ArtifactPathNotUtf8 => String::from_str("Path is not valid UTF-8"),
        }
    }
}

} // verus!
