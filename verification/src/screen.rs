//! Screen capture: displays, windows and frames as values, the checks on a
//! capture's configuration, and the running state of a capture.

use crate::config::ScreenCaptureConfig;
use crate::error::{CaptureError, CaptureResult, ScreenError};
use crate::platform::Platform;
use crate::text::{decimal, push_decimal};
use vstd::prelude::*;
use vstd::string::*;

verus! {

/// Display information.
#[derive(Debug, PartialEq, Eq)]
pub struct Display {
    /// Display ID
    pub id: u32,
    /// Display name
    pub name: String,
    /// Display resolution
    pub resolution: (u32, u32),
    /// Display width (for easier access)
    pub width: u32,
    /// Display height (for easier access)
    pub height: u32,
    /// Display position
    pub position: (i32, i32),
    /// Is primary display
    pub is_primary: bool,
    /// Display scale factor, in thousandths
    pub scale_factor_milli: u32,
}

/// Window information.
#[derive(Debug, PartialEq, Eq)]
pub struct Window {
    /// Window ID
    pub id: i64,
    /// Window title
    pub title: String,
    /// Application name
    pub app_name: String,
    /// Window bounds: x, y, width, height
    pub bounds: (i32, i32, u32, u32),
    /// Is window minimized
    pub is_minimized: bool,
    /// Is window visible
    pub is_visible: bool,
}

/// Screen frame data.
#[derive(Debug, PartialEq, Eq)]
pub struct ScreenFrame {
    /// Raw frame data (RGBA)
    pub data: Vec<u8>,
    /// Frame width
    pub width: u32,
    /// Frame height
    pub height: u32,
    /// Timestamp in milliseconds
    pub timestamp: u64,
    /// Frame number
    pub frame_number: u64,
}

/// What the system reports of one display, in whole pixels.
#[derive(Debug, Clone, Copy, PartialEq, Eq)]
pub struct DisplayProbe {
    /// Display ID
    pub id: u32,
    /// Width of the display's bounds
    pub width: u32,
    /// Height of the display's bounds
    pub height: u32,
    /// Horizontal position of the display's bounds
    pub x: i32,
    /// Vertical position of the display's bounds
    pub y: i32,
    /// Scale factor, in thousandths
    pub scale_factor_milli: u32,
}

/// What a [`Display`] says, with its name as a character sequence.
pub struct DisplayView {
    pub id: u32,
    pub name: Seq<char>,
    pub resolution: (u32, u32),
    pub width: u32,
    pub height: u32,
    pub position: (i32, i32),
    pub is_primary: bool,
    pub scale_factor_milli: u32,
}

impl View for Display {
    type V = DisplayView;

    open spec fn view(&self) -> DisplayView {
        DisplayView {
            id: self.id,
            name: self.name@,
            resolution: self.resolution,
            width: self.width,
            height: self.height,
            position: self.position,
            is_primary: self.is_primary,
            scale_factor_milli: self.scale_factor_milli,
        }
    }
}

/// The views of a list of displays.
pub open spec fn display_views(displays: Seq<Display>) -> Seq<DisplayView> {
    displays.map_values(|d: Display| d@)
}

/// Width of the placeholder frames.
pub const PLACEHOLDER_WIDTH: u32 = 1920;

/// Height of the placeholder frames.
pub const PLACEHOLDER_HEIGHT: u32 = 1080;

/// The one display that is reported where displays are not enumerated.
pub open spec fn primary_display() -> DisplayView {
    DisplayView {
        id: 0,
        name: "Primary Display"@,
        resolution: (1920, 1080),
        width: 1920,
        height: 1080,
        position: (0, 0),
        is_primary: true,
        scale_factor_milli: 1000,
    }
}

/// The name under which a display is reported: the main display as the
/// built-in one, every other display by its number; with a note where the
/// displays were enumerated through ScreenCaptureKit.
pub open spec fn display_name(id: u32, main_id: u32, via_screencapturekit: bool) -> Seq<char> {
    let base = if id == main_id {
        "Built-in Display"@
    } else {
        "External Display "@ + decimal(id as nat)
    };
    if via_screencapturekit {
        base + " (ScreenCaptureKit)"@
    } else {
        base
    }
}

/// The display that is reported for what the system says of it.
pub open spec fn display_of(probe: DisplayProbe, main_id: u32, via_screencapturekit: bool) -> DisplayView {
    DisplayView {
        id: probe.id,
        name: display_name(probe.id, main_id, via_screencapturekit),
        resolution: (probe.width, probe.height),
        width: probe.width,
        height: probe.height,
        position: (probe.x, probe.y),
        is_primary: probe.id == main_id,
        scale_factor_milli: probe.scale_factor_milli,
    }
}

/// Builds the list of displays from what the system reports of each of
/// them and of which one is the main display. Fails where the system
/// reports no display at all.
pub fn displays_from_probe(probes: &Vec<DisplayProbe>, main_id: u32, via_screencapturekit: bool) -> (res:
    CaptureResult<Vec<Display>>)
    ensures
        res is Ok <==> probes@.len() > 0,
        res matches Ok(displays) ==> display_views(displays@) == probes@.map_values(
            |p: DisplayProbe| display_of(p, main_id, via_screencapturekit),
        ),
        res matches Err(e) ==> e matches CaptureError::Screen(ScreenError::DisplayNotFound(m))
            && m@ == if via_screencapturekit {
            "No displays found via ScreenCaptureKit"@
        } else {
            "No active displays found"@
        },
{
    if probes.len() == 0 {
        let message = if via_screencapturekit {
            String::from_str("No displays found via ScreenCaptureKit")
        } else {
            String::from_str("No active displays found")
        };
        return Err(CaptureError::Screen(ScreenError::DisplayNotFound(message)));
    }
    let ghost wanted = probes@.map_values(
        |p: DisplayProbe| display_of(p, main_id, via_screencapturekit),
    );
    let mut displays: Vec<Display> = Vec::new();
    let mut i: usize = 0;
    while i < probes.len()
        invariant
            i <= probes@.len(),
            wanted == probes@.map_values(
                |p: DisplayProbe| display_of(p, main_id, via_screencapturekit),
            ),
            display_views(displays@) == wanted.take(i as int),
        decreases probes@.len() - i,
    {
        let probe = probes[i];
        let mut name = if probe.id == main_id {
            String::from_str("Built-in Display")
        } else {
            let mut external = String::from_str("External Display ");
            push_decimal(&mut external, probe.id as u64);
            external
        };
        if via_screencapturekit {
            name.append(" (ScreenCaptureKit)");
        }
        let display = Display {
            id: probe.id,
            name,
            resolution: (probe.width, probe.height),
            width: probe.width,
            height: probe.height,
            position: (probe.x, probe.y),
            is_primary: probe.id == main_id,
            scale_factor_milli: probe.scale_factor_milli,
        };
        let ghost before = displays@;
        displays.push(display);
        i += 1;
        proof {
            assert(display_views(displays@) =~= display_views(before).push(display@));
            assert(display_views(displays@) =~= wanted.take(i as int));
        }
    }
    assert(wanted.take(probes@.len() as int) =~= wanted);
    Ok(displays)
}

/// Get available displays for screen capture where the system is not
/// asked: one primary display of 1920 by 1080 on Windows and Linux, none
/// on other platforms.
pub fn get_available_displays(platform: Platform) -> (res: CaptureResult<Vec<Display>>)
    ensures
        res matches Ok(displays) && display_views(displays@) == if platform is Windows || platform
            is Linux {
            seq![primary_display()]
        } else {
            Seq::empty()
        },
{
    let mut displays: Vec<Display> = Vec::new();
    match platform {
        Platform::Windows | Platform::Linux => {
            let display = Display {
                id: 0,
                name: String::from_str("Primary Display"),
                resolution: (1920, 1080),
                width: 1920,
                height: 1080,
                position: (0, 0),
                is_primary: true,
                scale_factor_milli: 1000,
            };
            displays.push(display);
            assert(display_views(displays@) =~= seq![primary_display()]);
        },
        _ => {
            assert(display_views(displays@) =~= Seq::<DisplayView>::empty());
        },
    }
    Ok(displays)
}

/// Get available windows for window capture: none, on every platform.
pub fn get_available_windows(platform: Platform) -> (res: CaptureResult<Vec<Window>>)
    ensures
        res matches Ok(windows) && windows@.len() == 0,
{
    Ok(Vec::new())
}

/// Screen capture: the configuration and the running state of a capture.
#[derive(Debug)]
pub struct ScreenCapture {
    config: ScreenCaptureConfig,
    is_running: bool,
    frame_counter: u64,
}

/// Whether a capture can be made with this configuration.
pub open spec fn is_valid_capture(config: ScreenCaptureConfig) -> bool {
    config.fps > 0 && config.quality <= 100
}

impl ScreenCapture {
    /// The configuration of the capture.
    pub closed spec fn config(&self) -> ScreenCaptureConfig {
        self.config
    }

    /// Whether the capture is running.
    pub closed spec fn running(&self) -> bool {
        self.is_running
    }

    /// The number of frames captured so far.
    pub closed spec fn frames(&self) -> u64 {
        self.frame_counter
    }

    /// The configuration is one a capture can be made with.
    pub open spec fn wf(&self) -> bool {
        is_valid_capture(self.config())
    }

    /// Create a new screen capture instance. Fails for a frame rate of 0
    /// and for a quality above 100.
    pub fn new(config: ScreenCaptureConfig) -> (res: CaptureResult<Self>)
        ensures
            res is Ok <==> is_valid_capture(config),
            res matches Ok(capture) ==> capture.wf() && capture.config() == config
                && !capture.running() && capture.frames() == 0,
            res matches Err(e) ==> e matches CaptureError::Screen(ScreenError::FormatError(m))
                && m@ == if config.fps == 0 {
                "FPS must be greater than 0"@
            } else {
                "Quality must be between 0 and 100"@
            },
    {
        if config.fps == 0 {
            return Err(
                CaptureError::Screen(
                    ScreenError::FormatError(String::from_str("FPS must be greater than 0")),
                ),
            );
        }
        if config.quality > 100 {
            return Err(
                CaptureError::Screen(
                    ScreenError::FormatError(String::from_str("Quality must be between 0 and 100")),
                ),
            );
        }
        Ok(ScreenCapture { config, is_running: false, frame_counter: 0 })
    }

    /// Whether the capture is running.
    pub fn is_running(&self) -> (res: bool)
        ensures
            res == self.running(),
    {
        self.is_running
    }

    /// The number of frames captured so far.
    pub fn frame_count(&self) -> (res: u64)
        ensures
            res == self.frames(),
    {
        self.frame_counter
    }

    /// Start screen capture. Refused while the capture is running and on
    /// platforms without screen capture; the capture is running
    /// afterwards otherwise.
    pub fn start(&mut self, platform: Platform) -> (res: CaptureResult<()>)
        ensures
            final(self).config() == old(self).config(),
            final(self).frames() == old(self).frames(),
            res is Ok <==> !old(self).running() && platform.is_known(),
            res is Ok ==> final(self).running(),
            res matches Err(e) ==> {
                &&& final(self).running() == old(self).running()
                &&& if old(self).running() {
                    e matches CaptureError::Screen(ScreenError::InitializationFailed(m)) && m@
                        == "Screen capture is already running"@
                } else {
                    e matches CaptureError::Platform(m) && m@
                        == "Screen capture not supported on this platform"@
                }
            },
    {
        if self.is_running {
            return Err(
                CaptureError::Screen(
                    ScreenError::InitializationFailed(
                        String::from_str("Screen capture is already running"),
                    ),
                ),
            );
        }
        match platform {
            Platform::Unknown => {
                return Err(
                    CaptureError::Platform(
                        String::from_str("Screen capture not supported on this platform"),
                    ),
                );
            },
            _ => {},
        }
        self.is_running = true;
        Ok(())
    }

    /// Stop screen capture: the capture is not running afterwards.
    pub fn stop(&mut self) -> (res: CaptureResult<()>)
        ensures
            final(self).config() == old(self).config(),
            final(self).frames() == old(self).frames(),
            !final(self).running(),
            res is Ok,
    {
        self.is_running = false;
        Ok(())
    }

    /// The time between two frames, in whole milliseconds.
    pub fn frame_interval_ms(&self) -> (res: u64)
        requires
            self.wf(),
        ensures
            res == 1000int / (self.config().fps as int),
    {
        1000 / (self.config.fps as u64)
    }

    /// The next frame of a running capture at time `now_ms`: a
    /// placeholder picture of 1920 by 1080 pixels, all zero, numbered one
    /// above the frame before. A capture that is not running gives no
    /// frame.
    pub fn next_frame(&mut self, now_ms: u64) -> (res: Option<ScreenFrame>)
        requires
            old(self).frames() < u64::MAX,
        ensures
            final(self).config() == old(self).config(),
            final(self).running() == old(self).running(),
            res is Some <==> old(self).running(),
            final(self).frames() == if old(self).running() {
                (old(self).frames() + 1) as u64
            } else {
                old(self).frames()
            },
            res matches Some(frame) ==> {
                &&& frame.data@ == Seq::new(
                    (PLACEHOLDER_WIDTH * PLACEHOLDER_HEIGHT * 4) as nat,
                    |i: int| 0u8,
                )
                &&& frame.width == PLACEHOLDER_WIDTH
                &&& frame.height == PLACEHOLDER_HEIGHT
                &&& frame.timestamp == now_ms
                &&& frame.frame_number == old(self).frames() + 1
            },
    {
        if !self.is_running {
            return None;
        }
        self.frame_counter = self.frame_counter + 1;
        let size: usize = 1920 * 1080 * 4;
        let data: Vec<u8> = vec![0u8; size];
        assert(data@ =~= Seq::new((PLACEHOLDER_WIDTH * PLACEHOLDER_HEIGHT * 4) as nat, |i: int| 0u8));
        Some(
            ScreenFrame {
                data,
                width: PLACEHOLDER_WIDTH,
                height: PLACEHOLDER_HEIGHT,
                timestamp: now_ms,
                frame_number: self.frame_counter,
            },
        )
    }
}

} // verus!
