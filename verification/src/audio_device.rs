use vstd::prelude::*;

verus! {

/// The kind of audio device that a voice setting applies to.
#[derive(Debug, Clone, Copy, PartialEq, Eq, Structural)]
pub enum AudioDeviceType {
    Input,
    Output,
}

/// The highest volume, in percent, that Discord accepts for a device of this kind.
pub open spec fn max_volume_percent(device: AudioDeviceType) -> int {
    match device {
        AudioDeviceType::Input => 100,
        AudioDeviceType::Output => 200,
    }
}

impl AudioDeviceType {
    /// The highest volume, in percent, for this kind of device: 100 for an input
    /// device, 200 for an output device.
    pub fn max_volume(&self) -> (max: u16)
        ensures
            max as int == max_volume_percent(*self),
    {
        match self {
            AudioDeviceType::Input => 100,
            AudioDeviceType::Output => 200,
        }
    }
}

} // verus!
