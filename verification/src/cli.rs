//! The commands of the command line, as plain values.

use vstd::prelude::*;

verus! {

/// A parsed command line.
pub struct Cli {
    pub command: Option<Commands>,
}

#[allow(inconsistent_fields)]
pub enum Commands {
    /// Read the sensors and report.
    Status,
    Feed { action: FeedCommands },
    Run { action: RunCommands },
    Serve { action: ServeCommands },
}

pub enum FeedCommands {
    /// Feed at once.
    Now,
}

pub enum RunCommands {
    /// Classify a picture file, or frames of a camera where no file is given.
    AiVision { image: Option<String>, camera_index: u32, frames: u32 },
}

pub enum ServeCommands {
    /// Receive actuator commands.
    Actuators,
}

/// Where the pictures of a vision run come from.
pub enum VisionSource {
    File(String),
    Camera { index: u32, frames: u32 },
}

impl RunCommands {
    /// The source of pictures that the command names: the file where one is
    /// given, else the camera.
    pub fn source(&self) -> (source: VisionSource)
        ensures
            match self {
                RunCommands::AiVision { image: Some(path), .. } => source matches VisionSource::File(
                    file,
                ) && file@ == path@,
                RunCommands::AiVision { image: None, camera_index, frames } => source
                    == (VisionSource::Camera { index: *camera_index, frames: *frames }),
            },
    {
        match self {
            RunCommands::AiVision { image: Some(path), .. } => VisionSource::File(path.clone()),
            RunCommands::AiVision { image: None, camera_index, frames } => VisionSource::Camera {
                index: *camera_index,
                frames: *frames,
            },
        }
    }
}

} // verus!
