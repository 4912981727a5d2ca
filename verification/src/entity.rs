//! The message contract between the engine and the surrounding
//! application: transport requests coming in, render and status events
//! going out.

use vstd::prelude::*;

use crate::decoder::{AudioFrame, SubtitleFrame, VideoFrame};

verus! {

/// Where a window is placed along one axis; the engine's stand-in for the
/// windowing system's positioning value.
#[derive(Debug, Clone, Copy, PartialEq, Eq, Structural)]
pub enum WindowPlacement {
    /// Leave the placement to the windowing system.
    Undefined,
    /// Center on the screen.
    Centered,
    /// An exact coordinate.
    Positioned(i32),
}

/// Message types for application related events.
#[derive(Debug, Clone, PartialEq)]
pub enum EventMessage {
    /// Exit application
    Quit,
    /// Exit video window and return back to the start window
    ExitVideoWindow,
    /// Show error dialog
    ShowError(String),
    /// Start playing the media at a path
    Play(String),
    Pause,
    Resume,
    Stop,
    Forward,
    Rewind,
    /// Indicate that forward or rewind operation has been completed
    SeekFinished,
    FileOpened(String),
    DirOpened(Vec<String>),
    /// Render one decoded video frame
    RenderVideo(VideoFrame),
    /// Render one decoded audio frame
    RenderAudio(AudioFrame),
    /// Render one subtitle frame
    RenderSubtitle(SubtitleFrame),
    /// The video window should take a new size
    Resize(u32, u32),
    /// The video window should move
    SetPosition { x: WindowPlacement, y: WindowPlacement },
    UpVolume,
    DownVolume,
}

/// A media item was selected in the interface.
#[derive(Debug, Clone, PartialEq)]
pub struct MediaSelectedData {
    pub path: String,
}

/// A media item was double-clicked in the interface.
#[derive(Debug, Clone, PartialEq)]
pub struct MediaItemDoubleClickedData {
    pub path: String,
}

} // verus!
