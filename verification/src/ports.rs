//! The I/O ports used by the kernel.
use vstd::prelude::*;

verus! {

/// An I/O port which can be written to or read from.
#[derive(Debug, Clone, Copy, PartialEq, Eq, Structural)]
pub enum Port {
    /// The main PIC command port, write only.
    MainPicCmd,
    /// The main PIC data port, read & write.
    MainPicData,
    /// The secondary PIC command port, write only.
    SecondaryPicCmd,
    /// The secondary PIC data port, read & write.
    SecondaryPicData,
    /// Selects which VGA register `VGARegisterC` is connected to, write only.
    VGASelectorC,
    /// The VGA register selected by `VGASelectorC`, read & write.
    VGARegisterC,
    /// Channel 0 of the PIT, read & write.
    PITChannel0,
    /// Channel 2 of the PIT, read & write.
    PITChannel2,
    /// Sends commands to the PIT, write only.
    PITCmd,
    /// Selects which CMOS register `CMOSRegister` is connected to, write only.
    CMOSSelector,
    /// The CMOS register selected by `CMOSSelector`, read & write.
    CMOSRegister,
    /// Causes QEMU to exit when written to.
    QemuExit,
    /// Serial port 1, used to send data to QEMU.
    SerialPort1,
    /// The PS/2 data port, read & write.
    PS2Data,
    /// The PC speaker port, read & write.
    PCSpeaker,
    /// An unused port used for dummy waits, read & write.
    Unused,
}

/// The number of a port.
pub open spec fn port_number(p: Port) -> u16 {
    match p {
        Port::MainPicCmd => 0x20,
        Port::MainPicData => 0x21,
        Port::SecondaryPicCmd => 0xA0,
        Port::SecondaryPicData => 0xA1,
        Port::VGASelectorC => 0x3D4,
        Port::VGARegisterC => 0x3D5,
        Port::PITChannel0 => 0x40,
        Port::PITChannel2 => 0x42,
        Port::PITCmd => 0x43,
        Port::CMOSSelector => 0x70,
        Port::CMOSRegister => 0x71,
        Port::QemuExit => 0xF4,
        Port::SerialPort1 => 0x3F8,
        Port::PS2Data => 0x60,
        Port::PCSpeaker => 0x61,
        Port::Unused => 0x80,
    }
}

impl Port {
    /// Returns the number of the port.
    pub fn number(self) -> (r: u16)
        ensures
            r == port_number(self),
    {
        match self {
            Port::MainPicCmd => 0x20,
            Port::MainPicData => 0x21,
            Port::SecondaryPicCmd => 0xA0,
            Port::SecondaryPicData => 0xA1,
            Port::VGASelectorC => 0x3D4,
            Port::VGARegisterC => 0x3D5,
            Port::PITChannel0 => 0x40,
            Port::PITChannel2 => 0x42,
            Port::PITCmd => 0x43,
            Port::CMOSSelector => 0x70,
            Port::CMOSRegister => 0x71,
            Port::QemuExit => 0xF4,
            Port::SerialPort1 => 0x3F8,
            Port::PS2Data => 0x60,
            Port::PCSpeaker => 0x61,
            Port::Unused => 0x80,
        }
    }
}

impl From<Port> for u16 {
    fn from(val: Port) -> (r: u16) {
        val.number()
    }
}

impl vstd::std_specs::convert::FromSpecImpl<Port> for u16 {
    open spec fn obeys_from_spec() -> bool {
        true
    }

    open spec fn from_spec(v: Port) -> u16 {
        port_number(v)
    }
}

} // verus!
