//! Value types that describe a frame: its geometry, how its bytes are packed,
//! its rate, and the device it comes from.

use crate::error::{BevyGstError, ErrorView};
use crate::text::same_text;
use vstd::prelude::*;

pub use crate::mjpeg::mjpeg_to_rgb24;
pub use crate::yuyv::{buf_yuyv422_to_rgb, yuyv422_to_rgb, yuyv444_to_rgb, yuyv444_to_rgba};

verus! {

/// Width and height of a frame, in pixels.
#[derive(Copy, Clone, Debug, Hash, Ord, PartialOrd, Eq, PartialEq, Structural)]
pub struct Resolution {
    pub width_x: u32,
    pub height_y: u32,
}

impl Resolution {
    pub fn new(x: u32, y: u32) -> (res: Self)
        ensures
            res.width_x == x,
            res.height_y == y,
    {
        Self { width_x: x, height_y: y }
    }
}

/// How the bytes of a frame are packed.
#[derive(Copy, Clone, Debug, Hash, Ord, PartialOrd, Eq, PartialEq, Structural)]
pub enum FrameFormat {
    MJPEG,
    YUYV,
    NV12,
    GRAY,
    RAWRGB,
}

/// The error for a text that names no frame format.
pub open spec fn no_such_format(text: Seq<char>) -> ErrorView {
    ErrorView::StructureError { structure: "FrameFormat"@, error: "No match for "@ + text }
}

impl FrameFormat {
    /// The canonical short name of the format.
    pub open spec fn name(self) -> Seq<char> {
        match self {
            FrameFormat::MJPEG => "MJPG"@,
            FrameFormat::YUYV => "YUYV"@,
            FrameFormat::NV12 => "NV12"@,
            FrameFormat::GRAY => "GRAY"@,
            FrameFormat::RAWRGB => "RAWRGB"@,
        }
    }

    /// The format that `text` names, if it is the canonical name of one.
    pub open spec fn named(text: Seq<char>) -> Option<FrameFormat> {
        if text == "MJPG"@ {
            Some(FrameFormat::MJPEG)
        } else if text == "YUYV"@ {
            Some(FrameFormat::YUYV)
        } else if text == "NV12"@ {
            Some(FrameFormat::NV12)
        } else if text == "GRAY"@ {
            Some(FrameFormat::GRAY)
        } else if text == "RAWRGB"@ {
            Some(FrameFormat::RAWRGB)
        } else {
            None
        }
    }

    /// Writes the canonical short name of the format.
    pub fn to_string(&self) -> (text: String)
        ensures
            text@ == self.name(),
    {
        match self {
            FrameFormat::MJPEG => "MJPG".to_owned(),
            FrameFormat::YUYV => "YUYV".to_owned(),
            FrameFormat::NV12 => "NV12".to_owned(),
            FrameFormat::GRAY => "GRAY".to_owned(),
            FrameFormat::RAWRGB => "RAWRGB".to_owned(),
        }
    }

    /// Reads a format from its canonical short name. Any other text is
    /// refused with a structure error that quotes it.
    pub fn from_str(s: &str) -> (res: Result<FrameFormat, BevyGstError>)
        ensures
            match FrameFormat::named(s@) {
                Some(format) => res matches Ok(found) && found == format,
                None => res matches Err(e) && e@ == no_such_format(s@),
            },
    {
        if same_text(s, "MJPG") {
            Ok(FrameFormat::MJPEG)
        } else if same_text(s, "YUYV") {
            Ok(FrameFormat::YUYV)
        } else if same_text(s, "NV12") {
            Ok(FrameFormat::NV12)
        } else if same_text(s, "GRAY") {
            Ok(FrameFormat::GRAY)
        } else if same_text(s, "RAWRGB") {
            Ok(FrameFormat::RAWRGB)
        } else {
            let mut error = "No match for ".to_owned();
            error.append(s);
            Err(BevyGstError::StructureError { structure: "FrameFormat".to_owned(), error })
        }
    }

    /// Reading the name of a format gives that format back.
    pub proof fn lemma_name_round_trip(format: FrameFormat)
        ensures
            FrameFormat::named(format.name()) == Some(format),
    {
        reveal_strlit("MJPG");
        reveal_strlit("YUYV");
        reveal_strlit("NV12");
        reveal_strlit("GRAY");
        reveal_strlit("RAWRGB");
        assert("MJPG"@[0] != "YUYV"@[0]);
        assert("MJPG"@[0] != "NV12"@[0]);
        assert("MJPG"@[0] != "GRAY"@[0]);
        assert("YUYV"@[0] != "NV12"@[0]);
        assert("YUYV"@[0] != "GRAY"@[0]);
        assert("NV12"@[0] != "GRAY"@[0]);
    }

    /// A text is read as a format exactly when it is that format's name.
    pub proof fn lemma_named_is_name(text: Seq<char>, format: FrameFormat)
        ensures
            FrameFormat::named(text) == Some(format) <==> text == format.name(),
    {
        FrameFormat::lemma_name_round_trip(format);
    }

    /// A text that is the name of no format is read as none.
    pub proof fn lemma_other_text_unread(text: Seq<char>)
        requires
            forall|format: FrameFormat| text != #[trigger] format.name(),
        ensures
            FrameFormat::named(text) is None,
    {
        assert(text != FrameFormat::MJPEG.name());
        assert(text != FrameFormat::YUYV.name());
        assert(text != FrameFormat::NV12.name());
        assert(text != FrameFormat::GRAY.name());
        assert(text != FrameFormat::RAWRGB.name());
    }
}

impl std::str::FromStr for FrameFormat {
    type Err = BevyGstError;

    /// Reads a format as the inherent [`FrameFormat::from_str`] does, which
    /// carries the contract.
    fn from_str(s: &str) -> (res: Result<Self, Self::Err>)
        ensures
            match FrameFormat::named(s@) {
                Some(format) => res matches Ok(found) && found == format,
                None => res matches Err(e) && e@ == no_such_format(s@),
            },
    {
        FrameFormat::from_str(s)
    }
}

/// Geometry, packing and rate of a camera stream.
#[derive(Copy, Clone, Debug, Hash, Ord, PartialOrd, Eq, PartialEq, Structural)]
pub struct CameraFormat {
    resolution: Resolution,
    format: FrameFormat,
    frame_rate: u32,
}

impl Default for CameraFormat {
    /// 640 by 480 pixels, MJPEG, 30 frames per second.
    fn default() -> (res: Self)
        ensures
            res == CameraFormat::of(
                Resolution { width_x: 640, height_y: 480 },
                FrameFormat::MJPEG,
                30,
            ),
            res.resolution() == (Resolution { width_x: 640, height_y: 480 }),
            res.format() == FrameFormat::MJPEG,
            res.frame_rate() == 30,
    {
        Self {
            resolution: Resolution::new(640, 480),
            format: FrameFormat::MJPEG,
            frame_rate: 30,
        }
    }
}

impl CameraFormat {
    /// The format of the given resolution, packing and rate.
    pub closed spec fn of(resolution: Resolution, format: FrameFormat, frame_rate: u32) -> Self {
        CameraFormat { resolution, format, frame_rate }
    }

    pub closed spec fn spec_resolution(&self) -> Resolution {
        self.resolution
    }

    pub closed spec fn spec_format(&self) -> FrameFormat {
        self.format
    }

    pub closed spec fn spec_frame_rate(&self) -> u32 {
        self.frame_rate
    }

    pub open spec fn spec_width(&self) -> u32 {
        self.spec_resolution().width_x
    }

    pub open spec fn spec_height(&self) -> u32 {
        self.spec_resolution().height_y
    }

    /// A format is its resolution, packing and rate, and nothing more: two
    /// formats that agree in the three are the same.
    pub proof fn lemma_determined(a: CameraFormat, b: CameraFormat)
        requires
            a.resolution() == b.resolution(),
            a.format() == b.format(),
            a.frame_rate() == b.frame_rate(),
        ensures
            a == b,
    {
    }

    /// Every format is [`CameraFormat::of`] what its accessors give.
    pub proof fn lemma_of_parts(a: CameraFormat)
        ensures
            a == CameraFormat::of(a.resolution(), a.format(), a.frame_rate()),
    {
    }

    /// A format of the given resolution, packing and rate.
    pub fn new(resolution: Resolution, format: FrameFormat, frame_rate: u32) -> (res: Self)
        ensures
            res == CameraFormat::of(resolution, format, frame_rate),
            res.resolution() == resolution,
            res.format() == format,
            res.frame_rate() == frame_rate,
    {
        Self { resolution, format, frame_rate }
    }

    /// A format from width, height, packing and rate.
    pub fn new_from(res_x: u32, res_y: u32, format: FrameFormat, fps: u32) -> (res: Self)
        ensures
            res == CameraFormat::of(Resolution { width_x: res_x, height_y: res_y }, format, fps),
            res.resolution() == (Resolution { width_x: res_x, height_y: res_y }),
            res.format() == format,
            res.frame_rate() == fps,
    {
        CameraFormat {
            resolution: Resolution { width_x: res_x, height_y: res_y },
            format,
            frame_rate: fps,
        }
    }

    /// Width in pixels.
    #[verifier::when_used_as_spec(spec_width)]
    pub fn width(&self) -> (w: u32)
        ensures
            w == self.spec_width(),
    {
        self.resolution.width_x
    }

    /// Height in pixels.
    #[verifier::when_used_as_spec(spec_height)]
    pub fn height(&self) -> (h: u32)
        ensures
            h == self.spec_height(),
    {
        self.resolution.height_y
    }

    /// Width and height.
    #[verifier::when_used_as_spec(spec_resolution)]
    pub fn resolution(&self) -> (r: Resolution)
        ensures
            r == self.spec_resolution(),
    {
        self.resolution
    }

    /// Frames per second.
    #[verifier::when_used_as_spec(spec_frame_rate)]
    pub fn frame_rate(&self) -> (rate: u32)
        ensures
            rate == self.spec_frame_rate(),
    {
        self.frame_rate
    }

    /// How the bytes are packed.
    #[verifier::when_used_as_spec(spec_format)]
    pub fn format(&self) -> (f: FrameFormat)
        ensures
            f == self.spec_format(),
    {
        self.format
    }
}

/// The mathematical value of a [`CameraInfo`].
pub struct CameraInfoView {
    pub human_name: Seq<char>,
    pub description: Seq<char>,
    pub misc: Seq<char>,
    pub index: usize,
}

/// What is known of a capture device: its name, a description, a free-form
/// note and its index.
#[derive(Clone, Debug, Hash, PartialEq, Eq, PartialOrd)]
pub struct CameraInfo {
    human_name: String,
    description: String,
    misc: String,
    index: usize,
}

impl View for CameraInfo {
    type V = CameraInfoView;

    closed spec fn view(&self) -> CameraInfoView {
        CameraInfoView {
            human_name: self.human_name@,
            description: self.description@,
            misc: self.misc@,
            index: self.index,
        }
    }
}

impl CameraInfo {
    pub fn new(human_name: &str, description: &str, misc: &str, index: usize) -> (res: Self)
        ensures
            res@ == (CameraInfoView {
                human_name: human_name@,
                description: description@,
                misc: misc@,
                index,
            }),
    {
        CameraInfo {
            human_name: human_name.to_owned(),
            description: description.to_owned(),
            misc: misc.to_owned(),
            index,
        }
    }

    pub fn index(&self) -> (i: usize)
        ensures
            i == self@.index,
    {
        self.index
    }
}

/// A capture device, by number or by name.
#[derive(Clone, Debug, Hash, Ord, PartialOrd, Eq, PartialEq)]
pub enum CameraIndex {
    Index(u32),
    String(String),
}

} // verus!
