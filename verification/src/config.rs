//! The options that shape the rain.
use crate::colors::Fraction;
use crate::colors::RGBColor;
use crate::direction::Direction;
use crate::symbols::Symbols;
use vstd::prelude::*;

verus! {

/// The options that the streams are built and rendered with.
#[derive(Clone, Debug)]
pub struct Config {
    /// The set of symbols to draw from.
    pub mode: Symbols,
    /// The color at the head of a stream's gradient.
    pub stream_color: RGBColor,
    /// The factor by which the stream color is scaled to give the color at
    /// the tail of the gradient.
    pub stream_color_gradient_factor: Fraction,
    /// The color of the leading entity of each stream.
    pub leading_entity_color: RGBColor,
    /// Whether a stream leaves its trail on the screen.
    pub leave_trail: bool,
    /// Frames per second.
    pub fps: u16,
    /// The least number of entities in a stream.
    pub stream_min_count: u16,
    /// The number of entities that a stream stays below.
    pub stream_max_count: u16,
    /// Every how many lanes a stream is placed.
    pub stream_spacing: u16,
    /// The number of seconds within which an entity switches its symbol.
    pub switch_interval: u16,
    /// The direction of travel.
    pub direction: Direction,
}

impl Config {
    /// The number of frames that every switch interval stays below: the
    /// seconds to switch times the frames per second.
    pub open spec fn switch_bound(self) -> int {
        self.switch_interval * self.fps
    }

    /// The number of frames that every switch interval stays below.
    pub fn switch_interval_bound(&self) -> (b: u32)
        ensures
            b == self.switch_bound(),
    {
        assert(self.switch_interval * self.fps <= 0xFFFF * 0xFFFF) by (nonlinear_arith)
            requires
                self.switch_interval <= 0xFFFF,
                self.fps <= 0xFFFF,
        ;
        self.switch_interval as u32 * self.fps as u32
    }

    /// The gradient of a stream: from the stream color to that color scaled
    /// by the gradient factor.
    pub open spec fn gradient_end(self) -> RGBColor {
        self.stream_color.scaled(
            self.stream_color_gradient_factor.num(),
            self.stream_color_gradient_factor.den(),
        )
    }
}

} // verus!
