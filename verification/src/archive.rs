//! The images of a firmware package, as the update consumes them.

use vstd::prelude::*;

verus! {

/// One image: the init packet that announces it and the image itself.
pub struct FirmwareData {
    /// The image.
    pub bin: Vec<u8>,
    /// The init packet.
    pub dat: Vec<u8>,
}

/// The images of a package, each under its role.
pub struct FirmwareArchive {
    pub bootloader: Option<FirmwareData>,
    pub softdevice_bootloader: Option<FirmwareData>,
    pub application: Option<FirmwareData>,
}

/// An image as plain bytes.
pub struct FirmwareImage {
    /// The init packet, sent as the command object.
    pub init: Seq<u8>,
    /// The image, sent as the data object.
    pub payload: Seq<u8>,
}

/// The images of a package as plain bytes.
pub struct FirmwareBundle {
    pub bootloader: Option<FirmwareImage>,
    pub softdevice_bootloader: Option<FirmwareImage>,
    pub application: Option<FirmwareImage>,
}

/// The two steps of an update: first what replaces the bootloader, then the
/// application.
#[derive(Debug, Clone, Copy, PartialEq, Eq, Structural)]
pub enum Stage {
    Boot,
    Application,
}

impl View for FirmwareData {
    type V = FirmwareImage;

    open spec fn view(&self) -> FirmwareImage {
        FirmwareImage { init: self.dat@, payload: self.bin@ }
    }
}

/// An image that may be missing, as plain bytes.
pub open spec fn image_view(image: Option<FirmwareData>) -> Option<FirmwareImage> {
    match image {
        Some(data) => Some(data@),
        None => None,
    }
}

impl View for FirmwareArchive {
    type V = FirmwareBundle;

    open spec fn view(&self) -> FirmwareBundle {
        FirmwareBundle {
            bootloader: image_view(self.bootloader),
            softdevice_bootloader: image_view(self.softdevice_bootloader),
            application: image_view(self.application),
        }
    }
}

impl FirmwareBundle {
    /// The image that replaces the bootloader: the softdevice with its
    /// bootloader where the package has one, else the bootloader alone.
    pub open spec fn boot(self) -> Option<FirmwareImage> {
        if self.softdevice_bootloader is Some {
            self.softdevice_bootloader
        } else {
            self.bootloader
        }
    }

    /// The image that a stage transfers, if the package has one for it.
    pub open spec fn image(self, stage: Stage) -> Option<FirmwareImage> {
        match stage {
            Stage::Boot => self.boot(),
            Stage::Application => self.application,
        }
    }

    /// How long the device is left alone after the image of a stage has been
    /// transferred, in milliseconds.
    pub open spec fn settle_millis(self, stage: Stage) -> u64 {
        if stage == Stage::Boot && self.softdevice_bootloader is Some {
            1000
        } else {
            500
        }
    }
}

impl FirmwareArchive {
    /// The image that a stage transfers, if the package has one for it. For
    /// the first stage this is the softdevice with its bootloader where the
    /// package has one, and only else the bootloader alone.
    pub fn image(&self, stage: Stage) -> (r: Option<&FirmwareData>)
        ensures
            match r {
                Some(data) => self@.image(stage) == Some(data@),
                None => self@.image(stage) is None,
            },
    {
        match stage {
            Stage::Boot => {
                if self.softdevice_bootloader.is_some() {
                    self.softdevice_bootloader.as_ref()
                } else {
                    self.bootloader.as_ref()
                }
            },
            Stage::Application => self.application.as_ref(),
        }
    }

    /// How long the device is left alone after the image of a stage has been
    /// transferred, in milliseconds: a second after a softdevice with its
    /// bootloader, half a second after any other image.
    pub fn settle_millis(&self, stage: Stage) -> (r: u64)
        ensures
            r == self@.settle_millis(stage),
    {
        match stage {
            Stage::Boot => {
                if self.softdevice_bootloader.is_some() {
                    1000
                } else {
                    500
                }
            },
            Stage::Application => 500,
        }
    }
}

} // verus!
