//! What the capture device is asked to produce.

use vstd::prelude::*;

verus! {

/// The format of the image, which also determines the size of the image.
#[derive(Debug, Clone, Copy, PartialEq, Eq)]
pub enum ImageFormat {
    /// In `YUYV`, the colors are in the following order:
    ///
    /// `Luminance0, U01, Luminance1, V01, ...`
    ///
    /// This means, that for every two pixels there is only one color information (the ratios
    /// U and V). But every pixel has luminance information.
    YUYV,
    /// Three byte `RGB`-format.
    RGB,
    /// Compressed MJPG format, can be used to save `jpg`-images directly.
    MJPG,
}

impl ImageFormat {
    /// The four-character code by which a device knows this format.
    pub open spec fn fourcc_spec(self) -> Seq<u8> {
        match self {
            ImageFormat::YUYV => seq![0x59u8, 0x55u8, 0x59u8, 0x56u8],
            ImageFormat::RGB => seq![0x52u8, 0x47u8, 0x42u8, 0x33u8],
            ImageFormat::MJPG => seq![0x4du8, 0x4au8, 0x50u8, 0x47u8],
        }
    }

    /// The four-character code of the format: `YUYV`, `RGB3` or `MJPG` in ASCII.
    pub fn fourcc(&self) -> (code: [u8; 4])
        ensures
            code@ == self.fourcc_spec(),
    {
        match self {
            ImageFormat::YUYV => [0x59, 0x55, 0x59, 0x56],
            ImageFormat::RGB => [0x52, 0x47, 0x42, 0x33],
            ImageFormat::MJPG => [0x4d, 0x4a, 0x50, 0x47],
        }
    }
}

/// The configuration of the camera.
#[derive(Debug, Clone, Copy, PartialEq, Eq)]
pub struct Config {
    /// The resolution (width, height), e.g. (640, 480). The default resolution is said value.
    pub resolution: (u32, u32),
    /// The frames per second, common values include 30, 25, 24 or 15. The default frame rate is
    /// 30 fps.
    pub frames_per_second: u32,
    /// The image format the camera should produce. The default one is YUYV.
    pub image_format: ImageFormat,
}

impl Default for Config {
    /// 640 by 480 pixels, 30 frames per second, `YUYV`.
    fn default() -> (config: Config)
        ensures
            config.resolution == (640u32, 480u32),
            config.frames_per_second == 30,
            config.image_format == ImageFormat::YUYV,
    {
        Config { resolution: (640, 480), frames_per_second: 30, image_format: ImageFormat::YUYV }
    }
}

/// The values handed to the device when streaming starts.
#[derive(Debug, Clone, Copy, PartialEq, Eq)]
pub struct DeviceSettings {
    /// Time between two frames as a fraction of a second: numerator, denominator.
    pub interval: (u32, u32),
    /// Width and height of a frame.
    pub resolution: (u32, u32),
    /// Four-character code of the pixel format.
    pub format: [u8; 4],
}

impl Config {
    /// The settings that ask a device for this configuration: one frame every
    /// `1 / frames_per_second` seconds, the resolution as given, and the
    /// format by its four-character code.
    pub fn device_settings(&self) -> (settings: DeviceSettings)
        ensures
            settings.interval == (1u32, self.frames_per_second),
            settings.resolution == self.resolution,
            settings.format@ == self.image_format.fourcc_spec(),
    {
        DeviceSettings {
            interval: (1, self.frames_per_second),
            resolution: self.resolution,
            format: self.image_format.fourcc(),
        }
    }
}

} // verus!
