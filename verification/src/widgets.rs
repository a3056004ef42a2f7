//! Animation state for the interactive session's widgets: frame
//! counters advanced against the wall clock. Rendering lives outside
//! the crate; these types only decide which frame is current.

use vstd::prelude::*;
use vstd::string::StringExecFns;

use crate::clock::now_unix_millis;

verus! {

/// A looping loading animation.
#[derive(Debug, Clone)]
pub struct Spinner {
    pub frames: Vec<String>,
    pub current_frame: usize,
    pub last_update_ms: u64,
    pub frame_duration_ms: u64,
}

impl Spinner {
    /// There is at least one frame and the cursor stays inside them.
    pub open spec fn wf(&self) -> bool {
        self.current_frame < self.frames@.len()
    }

    fn from_frames(frames: Vec<String>, frame_duration_ms: u64) -> (r: Spinner)
        requires
            frames@.len() > 0,
        ensures
            r.wf(),
            r.frames@ == frames@,
            r.current_frame == 0,
            r.frame_duration_ms == frame_duration_ms,
    {
        Spinner { frames, current_frame: 0, last_update_ms: now_unix_millis(), frame_duration_ms }
    }

    /// The default braille spinner: ten frames, one every 80 ms.
    pub fn new() -> (r: Spinner)
        ensures
            r.wf(),
            r.frames@.len() == 10,
            r.current_frame == 0,
            r.frame_duration_ms == 80,
    {
        let mut frames: Vec<String> = Vec::new();
        frames.push("⠋".to_owned());
        frames.push("⠙".to_owned());
        frames.push("⠹".to_owned());
        frames.push("⠸".to_owned());
        frames.push("⠼".to_owned());
        frames.push("⠴".to_owned());
        frames.push("⠦".to_owned());
        frames.push("⠧".to_owned());
        frames.push("⠇".to_owned());
        frames.push("⠏".to_owned());
        Spinner::from_frames(frames, 80)
    }

    /// The same braille frames as `new`.
    pub fn dots() -> (r: Spinner)
        ensures
            r.wf(),
            r.frames@.len() == 10,
            r.current_frame == 0,
            r.frame_duration_ms == 80,
    {
        Spinner::new()
    }

    /// A four-frame line spinner, one frame every 100 ms.
    pub fn line() -> (r: Spinner)
        ensures
            r.wf(),
            r.frames@.len() == 4,
            r.current_frame == 0,
            r.frame_duration_ms == 100,
    {
        let mut frames: Vec<String> = Vec::new();
        frames.push("-".to_owned());
        frames.push("\\".to_owned());
        frames.push("|".to_owned());
        frames.push("/".to_owned());
        Spinner::from_frames(frames, 100)
    }

    /// Advances to the next frame once the frame duration has passed
    /// on the wall clock; reports whether the frame changed.
    pub fn tick(&mut self) -> (r: bool)
        requires
            old(self).wf(),
        ensures
            final(self).wf(),
            final(self).frames@ == old(self).frames@,
            final(self).frame_duration_ms == old(self).frame_duration_ms,
            r ==> final(self).current_frame as int == (old(self).current_frame + 1) as int % (
            old(self).frames@.len() as int),
            !r ==> final(self).current_frame == old(self).current_frame,
    {
        let now = now_unix_millis();
        let len = self.frames.len();
        if now >= self.last_update_ms && now - self.last_update_ms >= self.frame_duration_ms {
            self.current_frame = (self.current_frame + 1) % len;
            self.last_update_ms = now;
            true
        } else {
            false
        }
    }

    /// The current frame's text.
    pub fn frame(&self) -> (r: &str)
        requires
            self.wf(),
        ensures
            r@ == self.frames@[self.current_frame as int]@,
    {
        self.frames[self.current_frame].as_str()
    }

    /// Back to the first frame.
    pub fn reset(&mut self)
        requires
            old(self).wf(),
        ensures
            final(self).wf(),
            final(self).frames@ == old(self).frames@,
            final(self).frame_duration_ms == old(self).frame_duration_ms,
            final(self).current_frame == 0,
    {
        self.current_frame = 0;
        self.last_update_ms = now_unix_millis();
    }
}

/// The blinking text cursor of the input field.
#[derive(Debug, Clone)]
pub struct BlinkingCursor {
    pub visible: bool,
    pub last_blink_ms: u64,
    pub blink_interval_ms: u64,
}

impl BlinkingCursor {
    /// A visible cursor that blinks every 530 ms.
    pub fn new() -> (r: BlinkingCursor)
        ensures
            r.visible,
            r.blink_interval_ms == 530,
    {
        BlinkingCursor { visible: true, last_blink_ms: now_unix_millis(), blink_interval_ms: 530 }
    }

    /// Toggles visibility once the blink interval has passed on the
    /// wall clock; reports whether it toggled.
    pub fn tick(&mut self) -> (r: bool)
        ensures
            final(self).blink_interval_ms == old(self).blink_interval_ms,
            r ==> final(self).visible == !old(self).visible,
            !r ==> final(self).visible == old(self).visible,
    {
        let now = now_unix_millis();
        if now >= self.last_blink_ms && now - self.last_blink_ms >= self.blink_interval_ms {
            self.visible = !self.visible;
            self.last_blink_ms = now;
            true
        } else {
            false
        }
    }

    /// Whether the cursor shows this frame.
    pub fn is_visible(&self) -> (r: bool)
        ensures
            r == self.visible,
    {
        self.visible
    }

    /// Shows the cursor and restarts the blink interval.
    pub fn show(&mut self)
        ensures
            final(self).visible,
            final(self).blink_interval_ms == old(self).blink_interval_ms,
    {
        self.visible = true;
        self.last_blink_ms = now_unix_millis();
    }

    /// Shows the cursor and restarts the blink interval.
    pub fn reset(&mut self)
        ensures
            final(self).visible,
            final(self).blink_interval_ms == old(self).blink_interval_ms,
    {
        self.visible = true;
        self.last_blink_ms = now_unix_millis();
    }
}

/// The one-shot checkmark shown on success.
#[derive(Debug, Clone)]
pub struct CheckmarkAnimation {
    pub frames: Vec<String>,
    pub current_frame: usize,
    pub completed: bool,
    pub last_update_ms: u64,
    pub frame_duration_ms: u64,
}

impl CheckmarkAnimation {
    /// The cursor stays inside the frames.
    pub open spec fn wf(&self) -> bool {
        self.current_frame < self.frames@.len()
    }

    /// A four-frame checkmark, one frame every 100 ms.
    pub fn new() -> (r: CheckmarkAnimation)
        ensures
            r.wf(),
            r.frames@.len() == 4,
            r.current_frame == 0,
            !r.completed,
            r.frame_duration_ms == 100,
    {
        let mut frames: Vec<String> = Vec::new();
        frames.push("".to_owned());
        frames.push("✓".to_owned());
        frames.push("✓".to_owned());
        frames.push("✓".to_owned());
        CheckmarkAnimation {
            frames,
            current_frame: 0,
            completed: false,
            last_update_ms: now_unix_millis(),
            frame_duration_ms: 100,
        }
    }

    /// Restarts the animation from its first frame.
    pub fn start(&mut self)
        requires
            old(self).wf(),
        ensures
            final(self).wf(),
            final(self).frames@ == old(self).frames@,
            final(self).frame_duration_ms == old(self).frame_duration_ms,
            final(self).current_frame == 0,
            !final(self).completed,
    {
        self.current_frame = 0;
        self.completed = false;
        self.last_update_ms = now_unix_millis();
    }

    /// Advances one frame once the frame duration has passed; on the
    /// last frame the animation completes instead. Reports whether
    /// the frame changed.
    pub fn tick(&mut self) -> (r: bool)
        requires
            old(self).wf(),
        ensures
            final(self).wf(),
            final(self).frames@ == old(self).frames@,
            final(self).frame_duration_ms == old(self).frame_duration_ms,
            old(self).completed ==> !r && *final(self) == *old(self),
            r ==> final(self).current_frame == old(self).current_frame + 1,
            !r ==> final(self).current_frame == old(self).current_frame,
    {
        if self.completed {
            return false;
        }
        let now = now_unix_millis();
        if now >= self.last_update_ms && now - self.last_update_ms >= self.frame_duration_ms {
            let len = self.frames.len();
            if self.current_frame < len - 1 {
                self.current_frame = self.current_frame + 1;
                self.last_update_ms = now;
                true
            } else {
                self.completed = true;
                false
            }
        } else {
            false
        }
    }

    /// The current frame's text.
    pub fn frame(&self) -> (r: &str)
        requires
            self.wf(),
        ensures
            r@ == self.frames@[self.current_frame as int]@,
    {
        self.frames[self.current_frame].as_str()
    }

    /// Whether the animation has run to its end.
    pub fn is_completed(&self) -> (r: bool)
        ensures
            r == self.completed,
    {
        self.completed
    }
}

/// The pulsing highlight of the selected row.
#[derive(Debug, Clone, Copy, PartialEq, Eq, Structural)]
pub struct PulsingSelection {
    pub frame: usize,
    pub max_frames: usize,
}

/// Which frames of the pulse show the highlight: two of three in the
/// first half of the cycle, every other one in the second.
pub open spec fn spec_pulse_highlighted(frame: int, max_frames: int) -> bool {
    if frame < max_frames / 2 {
        frame % 3 != 0
    } else {
        frame % 2 == 0
    }
}

impl PulsingSelection {
    /// The pulse stays inside its cycle.
    pub open spec fn wf(&self) -> bool {
        self.frame < self.max_frames
    }

    /// A twenty-frame pulse cycle.
    pub fn new() -> (r: PulsingSelection)
        ensures
            r.wf(),
            r.frame == 0,
            r.max_frames == 20,
    {
        PulsingSelection { frame: 0, max_frames: 20 }
    }

    /// Advances the pulse one frame, wrapping at the cycle's end.
    pub fn tick(&mut self)
        requires
            old(self).wf(),
        ensures
            final(self).wf(),
            final(self).max_frames == old(self).max_frames,
            final(self).frame as int == (old(self).frame + 1) as int % old(self).max_frames as int,
    {
        self.frame = (self.frame + 1) % self.max_frames;
    }

    /// Whether the selection is highlighted this frame.
    pub fn is_highlighted(&self) -> (r: bool)
        ensures
            r == spec_pulse_highlighted(self.frame as int, self.max_frames as int),
    {
        let half = self.max_frames / 2;
        if self.frame < half {
            self.frame % 3 != 0
        } else {
            self.frame % 2 == 0
        }
    }

    /// Back to the cycle's start.
    pub fn reset(&mut self)
        ensures
            final(self).wf() == (final(self).max_frames > 0),
            final(self).max_frames == old(self).max_frames,
            final(self).frame == 0,
    {
        self.frame = 0;
    }
}

/// The color rotation of the banner: an index into a palette whose
/// colors the renderer owns.
#[derive(Debug, Clone, Copy, PartialEq, Eq, Structural)]
pub struct ColorCycle {
    pub frame: usize,
    pub color_count: usize,
}

impl ColorCycle {
    /// The rotation stays inside its cycle.
    pub open spec fn wf(&self) -> bool {
        0 < self.color_count && self.color_count * 4 <= usize::MAX && self.frame
            < self.color_count * 4
    }

    /// A seven-color palette.
    pub fn new() -> (r: ColorCycle)
        ensures
            r.wf(),
            r.frame == 0,
            r.color_count == 7,
    {
        ColorCycle { frame: 0, color_count: 7 }
    }

    /// Advances the rotation; each color holds for four frames.
    pub fn tick(&mut self)
        requires
            old(self).wf(),
        ensures
            final(self).wf(),
            final(self).color_count == old(self).color_count,
            final(self).frame as int == (old(self).frame + 1) as int % (old(self).color_count
                * 4) as int,
    {
        self.frame = (self.frame + 1) % (self.color_count * 4);
    }

    /// The palette index of the current color.
    pub fn current_color_index(&self) -> (r: usize)
        requires
            self.color_count > 0,
        ensures
            r as int == vstd::math::min(self.frame as int / 4, self.color_count as int - 1),
    {
        let index = self.frame / 4;
        if index < self.color_count - 1 {
            index
        } else {
            self.color_count - 1
        }
    }

    /// Back to the first color.
    pub fn reset(&mut self)
        ensures
            final(self).color_count == old(self).color_count,
            final(self).frame == 0,
    {
        self.frame = 0;
    }
}

} // verus!
