use vstd::prelude::*;

verus! {

/// How a key press moves through the frames of the current output.
#[derive(Clone, Copy, Debug, PartialEq, Eq)]
pub enum SeekKey {
    /// `ArrowLeft` or `H`: one frame back.
    PreviousFrame,
    /// `ArrowRight` or `L`: one frame forward.
    NextFrame,
    /// `ArrowUp` or `K`: back by the output's framerate (one second).
    BackOneSecond,
    /// `ArrowDown` or `J`: forward by the output's framerate (one second).
    ForwardOneSecond,
    /// None of the seek keys.
    NoSeek,
}

/// The keys that the previewer reacts to, as pressed during one frame of the UI.
#[derive(Clone, Copy, Debug)]
pub struct KeyInput {
    /// No modifier key (shift, ctrl, alt, ...) is held.
    pub no_modifiers: bool,
    pub arrow_left: bool,
    pub arrow_right: bool,
    pub arrow_up: bool,
    pub arrow_down: bool,
    pub h: bool,
    pub j: bool,
    pub k: bool,
    pub l: bool,
    pub q: bool,
    pub r: bool,
    pub escape: bool,
    /// The number row in keyboard order: `1`, `2`, ..., `9`, `0`.
    /// The key at index `i` selects output `i`.
    pub number_row: [bool; 10],
}

/// The seek that a key press asks for; the first matching row wins.
pub open spec fn seek_key_of(input: KeyInput) -> SeekKey {
    if input.arrow_left || input.h {
        SeekKey::PreviousFrame
    } else if input.arrow_right || input.l {
        SeekKey::NextFrame
    } else if input.arrow_up || input.k {
        SeekKey::BackOneSecond
    } else if input.arrow_down || input.j {
        SeekKey::ForwardOneSecond
    } else {
        SeekKey::NoSeek
    }
}

/// Index of the first `true` in `keys` at or after `from`, or -1 when there is none.
pub open spec fn first_pressed(keys: Seq<bool>, from: int) -> int
    decreases keys.len() - from,
{
    if from < 0 || from >= keys.len() {
        -1
    } else if keys[from] {
        from
    } else {
        first_pressed(keys, from + 1)
    }
}

/// The output that the number row asks for, or -1 when no number key is pressed.
pub open spec fn requested_output_of(input: KeyInput) -> int {
    first_pressed(input.number_row@, 0)
}

/// The frame a seek aims at, before it is clamped to the output's frames.
pub open spec fn seek_target(key: SeekKey, current: u32, num_frames: u32, framerate: u32) -> int {
    match key {
        SeekKey::PreviousFrame => if current > 0 { current - 1 } else { 0 },
        SeekKey::NextFrame => if current < num_frames - 1 { current + 1 } else { current as int },
        SeekKey::BackOneSecond => if current >= framerate { current - framerate } else { 0 },
        SeekKey::ForwardOneSecond => current + framerate,
        SeekKey::NoSeek => current as int,
    }
}

/// The frame a seek lands on: its target clamped to `0..num_frames`.
pub open spec fn seek_result(key: SeekKey, current: u32, num_frames: u32, framerate: u32) -> int {
    clamp_frame(seek_target(key, current, num_frames, framerate), num_frames)
}

/// A frame number clamped to the frames of an output.
pub open spec fn clamp_frame(target: int, num_frames: u32) -> int {
    if target > num_frames - 1 {
        num_frames - 1
    } else if target < 0 {
        0
    } else {
        target
    }
}

/// The seek can be computed in `u32`: a jump forward does not pass `u32::MAX`.
pub open spec fn seek_fits(key: SeekKey, current: u32, framerate: u32) -> bool {
    key == SeekKey::ForwardOneSecond ==> current + framerate <= u32::MAX
}

impl KeyInput {
    /// The seek asked for by this input.
    pub fn seek_key(&self) -> (key: SeekKey)
        ensures
            key == seek_key_of(*self),
    {
        if self.arrow_left || self.h {
            SeekKey::PreviousFrame
        } else if self.arrow_right || self.l {
            SeekKey::NextFrame
        } else if self.arrow_up || self.k {
            SeekKey::BackOneSecond
        } else if self.arrow_down || self.j {
            SeekKey::ForwardOneSecond
        } else {
            SeekKey::NoSeek
        }
    }

    /// The output selected by the number row: `1` selects output 0, ..., `9`
    /// selects output 8 and `0` selects output 9; -1 when no number key is pressed.
    pub fn requested_output(&self) -> (n: i32)
        ensures
            n == requested_output_of(*self),
            -1 <= n < 10,
    {
        let mut i: usize = 0;
        while i < 10
            invariant
                0 <= i <= 10,
                self.number_row@.len() == 10,
                first_pressed(self.number_row@, 0) == first_pressed(self.number_row@, i as int),
            decreases 10 - i,
        {
            if self.number_row[i] {
                return i as i32;
            }
            i = i + 1;
        }
        -1
    }

    /// `Q` or `Escape` closes the previewer.
    pub fn quit_requested(&self) -> (b: bool)
        ensures
            b == (self.q || self.escape),
    {
        self.q || self.escape
    }

    /// `R` reloads the script.
    pub fn reload_requested(&self) -> (b: bool)
        ensures
            b == self.r,
    {
        self.r
    }
}

/// The frame a seek lands on, clamped to `0..num_frames`, and whether to
/// rerender: exactly when the frame changed.
pub fn seek_frame(key: SeekKey, current: u32, num_frames: u32, framerate: u32) -> (res: (u32, bool))
    requires
        num_frames >= 1,
        seek_fits(key, current, framerate),
    ensures
        res.0 == seek_result(key, current, num_frames, framerate),
        res.1 == (res.0 != current),
        res.0 < num_frames,
{
    let last: u32 = num_frames - 1;
    let target: u32 = match key {
        SeekKey::PreviousFrame => if current > 0 {
            current - 1
        } else {
            0
        },
        SeekKey::NextFrame => if current < last {
            current + 1
        } else {
            current
        },
        SeekKey::BackOneSecond => if current >= framerate {
            current - framerate
        } else {
            0
        },
        SeekKey::ForwardOneSecond => current + framerate,
        SeekKey::NoSeek => current,
    };
    let frame_no: u32 = if target > last {
        last
    } else {
        target
    };
    (frame_no, frame_no != current)
}

} // verus!
