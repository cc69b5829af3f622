//! The error type shared by every fallible function of the library.

use crate::types::FrameFormat;
use vstd::prelude::*;

verus! {

/// What a camera operation or a frame conversion can fail with.
#[derive(Debug, Clone)]
pub enum BevyGstError {
    InitializeError(String),
    GeneralError(String),
    StructureError { structure: String, error: String },
    OpenDeviceError(String, String),
    ReadFrameError(String),
    ProcessFrameError { src: FrameFormat, destination: String, error: String },
    OpenStreamError(String),
    StreamShutdownError(String),
    GetPropertyError { property: String, error: String },
    NotImplementedError(String),
}

/// The mathematical value of a [`BevyGstError`]: the same variants, with each
/// string as its sequence of characters.
pub enum ErrorView {
    InitializeError(Seq<char>),
    GeneralError(Seq<char>),
    StructureError { structure: Seq<char>, error: Seq<char> },
    OpenDeviceError(Seq<char>, Seq<char>),
    ReadFrameError(Seq<char>),
    ProcessFrameError { src: FrameFormat, destination: Seq<char>, error: Seq<char> },
    OpenStreamError(Seq<char>),
    StreamShutdownError(Seq<char>),
    GetPropertyError { property: Seq<char>, error: Seq<char> },
    NotImplementedError(Seq<char>),
}

impl View for BevyGstError {
    type V = ErrorView;

    open spec fn view(&self) -> ErrorView {
        match self {
            BevyGstError::InitializeError(why) => ErrorView::InitializeError(why@),
            BevyGstError::GeneralError(why) => ErrorView::GeneralError(why@),
            BevyGstError::StructureError { structure, error } => ErrorView::StructureError {
                structure: structure@,
                error: error@,
            },
            BevyGstError::OpenDeviceError(device, why) => ErrorView::OpenDeviceError(
                device@,
                why@,
            ),
            BevyGstError::ReadFrameError(why) => ErrorView::ReadFrameError(why@),
            BevyGstError::ProcessFrameError { src, destination, error } => {
                ErrorView::ProcessFrameError {
                    src: *src,
                    destination: destination@,
                    error: error@,
                }
            },
            BevyGstError::OpenStreamError(why) => ErrorView::OpenStreamError(why@),
            BevyGstError::StreamShutdownError(why) => ErrorView::StreamShutdownError(why@),
            BevyGstError::GetPropertyError { property, error } => ErrorView::GetPropertyError {
                property: property@,
                error: error@,
            },
            BevyGstError::NotImplementedError(what) => ErrorView::NotImplementedError(what@),
        }
    }
}

impl ErrorView {
    /// The sentence that describes the error to a reader.
    pub open spec fn message(self) -> Seq<char> {
        match self {
            ErrorView::InitializeError(why) => "Could not initialize gstreamer: "@ + why,
            ErrorView::GeneralError(why) => "Error: "@ + why,
            ErrorView::StructureError { structure, error } => {
                "Could not generate required structure "@ + structure + ": "@ + error
            },
            ErrorView::OpenDeviceError(device, why) => {
                "Could not open device "@ + device + ": "@ + why
            },
            ErrorView::ReadFrameError(why) => "Could not capture frame: "@ + why,
            ErrorView::ProcessFrameError { src, destination, error } => {
                "Could not process frame "@ + src.name() + " to "@ + destination + ": "@ + error
            },
            ErrorView::OpenStreamError(why) => "Could not open device stream: "@ + why,
            ErrorView::StreamShutdownError(why) => "Could not stop device stream: "@ + why,
            ErrorView::GetPropertyError { property, error } => {
                "Could not get device property "@ + property + ": "@ + error
            },
            ErrorView::NotImplementedError(what) => {
                "This operation is not implemented yet: "@ + what
            },
        }
    }
}

/// `head` followed by `tail`.
fn joined(head: &str, tail: &str) -> (text: String)
    ensures
        text@ == head@ + tail@,
{
    let mut text = head.to_owned();
    text.append(tail);
    text
}

/// `head`, `first`, `middle` and `second`, one after the other.
fn joined_pair(head: &str, first: &str, middle: &str, second: &str) -> (text: String)
    ensures
        text@ == head@ + first@ + middle@ + second@,
{
    let mut text = head.to_owned();
    text.append(first);
    text.append(middle);
    text.append(second);
    text
}

impl BevyGstError {
    /// Describes the error in one sentence.
    pub fn to_string(&self) -> (text: String)
        ensures
            text@ == self@.message(),
    {
        match self {
            BevyGstError::InitializeError(why) => joined(
                "Could not initialize gstreamer: ",
                why.as_str(),
            ),
            BevyGstError::GeneralError(why) => joined("Error: ", why.as_str()),
            BevyGstError::StructureError { structure, error } => joined_pair(
                "Could not generate required structure ",
                structure.as_str(),
                ": ",
                error.as_str(),
            ),
            BevyGstError::OpenDeviceError(device, why) => joined_pair(
                "Could not open device ",
                device.as_str(),
                ": ",
                why.as_str(),
            ),
            BevyGstError::ReadFrameError(why) => joined("Could not capture frame: ", why.as_str()),
            BevyGstError::ProcessFrameError { src, destination, error } => {
                let mut text = joined("Could not process frame ", src.to_string().as_str());
                text.append(" to ");
                text.append(destination.as_str());
                text.append(": ");
                text.append(error.as_str());
                text
            },
            BevyGstError::OpenStreamError(why) => joined(
                "Could not open device stream: ",
                why.as_str(),
            ),
            BevyGstError::StreamShutdownError(why) => joined(
                "Could not stop device stream: ",
                why.as_str(),
            ),
            BevyGstError::GetPropertyError { property, error } => joined_pair(
                "Could not get device property ",
                property.as_str(),
                ": ",
                error.as_str(),
            ),
            BevyGstError::NotImplementedError(what) => joined(
                "This operation is not implemented yet: ",
                what.as_str(),
            ),
        }
    }
}

} // verus!
