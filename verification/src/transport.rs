//! CoreAudio transport classification of output devices.
use vstd::prelude::*;

verus! {

/// How an output device is attached to the Mac.
#[derive(Debug, Clone, Copy, PartialEq, Eq, Structural)]
pub enum TransportKind {
    BuiltIn,
    Hdmi,
    DisplayPort,
    Usb,
    Bluetooth,
    BluetoothLe,
    Thunderbolt,
    Virtual,
    Aggregate,
    AirPlay,
    Pci,
    FireWire,
    Avb,
    Unknown,
}

/// Four-character code as a big-endian integer.
pub open spec fn fourcc(a: char, b: char, c: char, d: char) -> u32 {
    ((a as u32) * 0x1000000 + (b as u32) * 0x10000 + (c as u32) * 0x100 + (d as u32)) as u32
}

impl TransportKind {
    pub open spec fn spec_from_code(code: u32) -> TransportKind {
        if code == 0x626c746e {
            TransportKind::BuiltIn
        } else if code == 0x68646d69 {
            TransportKind::Hdmi
        } else if code == 0x64707274 {
            TransportKind::DisplayPort
        } else if code == 0x75736220 {
            TransportKind::Usb
        } else if code == 0x626c7565 {
            TransportKind::Bluetooth
        } else if code == 0x626c6561 {
            TransportKind::BluetoothLe
        } else if code == 0x7468756e {
            TransportKind::Thunderbolt
        } else if code == 0x76697274 {
            TransportKind::Virtual
        } else if code == 0x67727570 {
            TransportKind::Aggregate
        } else if code == 0x61697270 {
            TransportKind::AirPlay
        } else if code == 0x70636920 {
            TransportKind::Pci
        } else if code == 0x31333934 {
            TransportKind::FireWire
        } else if code == 0x65617662 {
            TransportKind::Avb
        } else {
            TransportKind::Unknown
        }
    }

    /// Classify a CoreAudio `kAudioDevicePropertyTransportType` code
    /// (`'bltn'`, `'hdmi'`, `'dprt'`, `'usb '`, `'blue'`, `'blea'`, `'thun'`,
    /// `'virt'`, `'grup'`, `'airp'`, `'pci '`, `'1394'`, `'eavb'`).
    pub fn from_fourcc(code: u32) -> (r: TransportKind)
        ensures
            r == Self::spec_from_code(code),
    {
        if code == 0x626c746e {
            TransportKind::BuiltIn
        } else if code == 0x68646d69 {
            TransportKind::Hdmi
        } else if code == 0x64707274 {
            TransportKind::DisplayPort
        } else if code == 0x75736220 {
            TransportKind::Usb
        } else if code == 0x626c7565 {
            TransportKind::Bluetooth
        } else if code == 0x626c6561 {
            TransportKind::BluetoothLe
        } else if code == 0x7468756e {
            TransportKind::Thunderbolt
        } else if code == 0x76697274 {
            TransportKind::Virtual
        } else if code == 0x67727570 {
            TransportKind::Aggregate
        } else if code == 0x61697270 {
            TransportKind::AirPlay
        } else if code == 0x70636920 {
            TransportKind::Pci
        } else if code == 0x31333934 {
            TransportKind::FireWire
        } else if code == 0x65617662 {
            TransportKind::Avb
        } else {
            TransportKind::Unknown
        }
    }

    pub open spec fn spec_is_hdmi_class(self) -> bool {
        self == TransportKind::Hdmi || self == TransportKind::DisplayPort || self
            == TransportKind::Thunderbolt || self == TransportKind::Usb
    }

    /// HDMI, DisplayPort, Thunderbolt and USB dock outputs (the `list --hdmi` class).
    pub fn is_hdmi_class(&self) -> (r: bool)
        ensures
            r == self.spec_is_hdmi_class(),
    {
        match self {
            TransportKind::Hdmi | TransportKind::DisplayPort | TransportKind::Thunderbolt
            | TransportKind::Usb => true,
            _ => false,
        }
    }

    pub open spec fn spec_label(self) -> Seq<char> {
        match self {
            TransportKind::BuiltIn => "built-in"@,
            TransportKind::Hdmi => "hdmi"@,
            TransportKind::DisplayPort => "displayport"@,
            TransportKind::Usb => "usb"@,
            TransportKind::Bluetooth => "bluetooth"@,
            TransportKind::BluetoothLe => "bluetooth-le"@,
            TransportKind::Thunderbolt => "thunderbolt"@,
            TransportKind::Virtual => "virtual"@,
            TransportKind::Aggregate => "aggregate"@,
            TransportKind::AirPlay => "airplay"@,
            TransportKind::Pci => "pci"@,
            TransportKind::FireWire => "firewire"@,
            TransportKind::Avb => "avb"@,
            TransportKind::Unknown => "unknown"@,
        }
    }

    /// Short lowercase label shown in tables and picker rows.
    pub fn label(&self) -> (r: &'static str)
        ensures
            r@ == self.spec_label(),
    {
        match self {
            TransportKind::BuiltIn => "built-in",
            TransportKind::Hdmi => "hdmi",
            TransportKind::DisplayPort => "displayport",
            TransportKind::Usb => "usb",
            TransportKind::Bluetooth => "bluetooth",
            TransportKind::BluetoothLe => "bluetooth-le",
            TransportKind::Thunderbolt => "thunderbolt",
            TransportKind::Virtual => "virtual",
            TransportKind::Aggregate => "aggregate",
            TransportKind::AirPlay => "airplay",
            TransportKind::Pci => "pci",
            TransportKind::FireWire => "firewire",
            TransportKind::Avb => "avb",
            TransportKind::Unknown => "unknown",
        }
    }
}

} // verus!
