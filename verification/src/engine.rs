//! What the coordination protocol reads of the render engine.
//!
//! The engine that draws to the terminal lives in the program around this
//! library. The protocol needs three things of it: whether it is running, that
//! it is asked for exactly one frame per UI step, and its frame rate.

use vstd::prelude::*;

verus! {

/// The frame rate the dashboard asks of its engine.
pub const DASHBOARD_FPS: u32 = 4;

/// The state of a render engine as the protocol sees it.
pub struct EngineModel {
    /// Whether the engine is running. Once false it stays false.
    pub running: bool,
    /// Frames asked for so far; the count stops at `u64::MAX`.
    pub frames: u64,
    /// Frames per second; 0 where the engine redraws on input only.
    pub fps: u32,
}

impl EngineModel {
    /// A running engine that has drawn nothing and refreshes on input only.
    pub open spec fn fresh() -> Self {
        EngineModel { running: true, frames: 0, fps: 0 }
    }

    /// The engine at another frame rate.
    pub open spec fn at_fps(self, fps: u32) -> Self {
        EngineModel { fps, ..self }
    }

    /// The engine after one render step.
    pub open spec fn stepped(self) -> Self {
        EngineModel {
            frames: if self.frames < u64::MAX {
                (self.frames + 1) as u64
            } else {
                self.frames
            },
            ..self
        }
    }

    /// The engine after a request to quit.
    pub open spec fn halted(self) -> Self {
        EngineModel { running: false, ..self }
    }
}

/// The library's stand-in for the render engine.
pub struct RenderEngine {
    running: bool,
    frames: u64,
    fps: u32,
}

impl View for RenderEngine {
    type V = EngineModel;

    closed spec fn view(&self) -> EngineModel {
        EngineModel { running: self.running, frames: self.frames, fps: self.fps }
    }
}

impl RenderEngine {
    /// A running engine that has drawn nothing yet.
    pub fn new() -> (e: Self)
        ensures
            e@ == EngineModel::fresh(),
    {
        RenderEngine { running: true, frames: 0, fps: 0 }
    }

    /// Whether the engine is running.
    pub fn is_running(&self) -> (b: bool)
        ensures
            b == self@.running,
    {
        self.running
    }

    /// Counts one frame.
    pub fn step(&mut self)
        ensures
            final(self)@ == old(self)@.stepped(),
    {
        if self.frames < u64::MAX {
            self.frames = self.frames + 1;
        }
    }

    /// Tells the engine to halt. Quitting twice is quitting once.
    pub fn quit(&mut self)
        ensures
            final(self)@ == old(self)@.halted(),
    {
        self.running = false;
    }

    /// Sets the frame rate.
    pub fn set_fps(&mut self, fps: u32)
        ensures
            final(self)@ == old(self)@.at_fps(fps),
    {
        self.fps = fps;
    }

    /// Frames asked for so far.
    pub fn frames(&self) -> (n: u64)
        ensures
            n == self@.frames,
    {
        self.frames
    }

    /// Frames per second.
    pub fn fps(&self) -> (n: u32)
        ensures
            n == self@.fps,
    {
        self.fps
    }
}

} // verus!
