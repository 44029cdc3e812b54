//! The nodes that describe the charger, and what was last read from them.

use vstd::prelude::*;

verus! {

/// A node that the monitor reads.
#[derive(Clone, Copy, PartialEq, Eq, Structural, Debug)]
pub enum Node {
    /// What is attached to the Type-C port.
    TypecMode,
    /// Whether the battery charges.
    BatteryStatus,
    /// Whether the USB power supply is online.
    UsbOnline,
    /// Whether the port is verified.
    PdVerified,
    /// The negotiated USB type.
    UsbRealType,
    /// The SVID that the adapter reports.
    AdapterSvid,
}

impl Node {
    /// Whether the monitor cannot go on without the node. A node that it can do
    /// without counts as empty where it cannot be read.
    pub open spec fn required_spec(self) -> bool {
        self is TypecMode || self is PdVerified || self is UsbRealType
    }

    /// Whether the monitor cannot go on without the node.
    #[verifier::when_used_as_spec(required_spec)]
    pub fn required(self) -> (required: bool)
        ensures
            required == self.required_spec(),
    {
        match self {
            Node::TypecMode | Node::PdVerified | Node::UsbRealType => true,
            Node::BatteryStatus | Node::UsbOnline | Node::AdapterSvid => false,
        }
    }
}

/// The contents that were last read from the nodes of the charger.
#[derive(Debug)]
pub struct Readings {
    pub verified: String,
    pub usb_type: String,
    pub battery_status: String,
    pub usb_online: String,
    pub adapter_svid: String,
}

/// [`Readings`] as character sequences.
pub struct ReadingsView {
    pub verified: Seq<char>,
    pub usb_type: Seq<char>,
    pub battery_status: Seq<char>,
    pub usb_online: Seq<char>,
    pub adapter_svid: Seq<char>,
}

impl View for Readings {
    type V = ReadingsView;

    open spec fn view(&self) -> ReadingsView {
        ReadingsView {
            verified: self.verified@,
            usb_type: self.usb_type@,
            battery_status: self.battery_status@,
            usb_online: self.usb_online@,
            adapter_svid: self.adapter_svid@,
        }
    }
}

impl Readings {
    /// Nothing has been read yet.
    pub fn new() -> (readings: Readings)
        ensures
            readings@ == ReadingsView::none(),
    {
        Readings {
            verified: String::new(),
            usb_type: String::new(),
            battery_status: String::new(),
            usb_online: String::new(),
            adapter_svid: String::new(),
        }
    }
}

impl ReadingsView {
    /// Nothing has been read yet.
    pub open spec fn none() -> ReadingsView {
        ReadingsView {
            verified: Seq::empty(),
            usb_type: Seq::empty(),
            battery_status: Seq::empty(),
            usb_online: Seq::empty(),
            adapter_svid: Seq::empty(),
        }
    }

    /// The port is verified.
    pub open spec fn is_verified(self) -> bool {
        self.verified == "1"@
    }

    /// PPS is negotiated on a port that is not verified.
    pub open spec fn is_unverified_pps(self) -> bool {
        self.verified != "1"@ && self.usb_type == "PD_PPS"@
    }

    /// Public PPS is active.
    pub open spec fn is_verified_pps(self) -> bool {
        self.verified == "1"@ && self.usb_type == "PD_PPS"@
    }

    /// The battery charges from an online charger.
    pub open spec fn is_charging(self) -> bool {
        self.battery_status == "Charging"@ && self.usb_online == "1"@
    }

    /// Every node shows that no charger is there.
    pub open spec fn is_offline(self) -> bool {
        &&& self.verified == "0"@
        &&& self.usb_type == "Unknown"@
        &&& self.battery_status == "Discharging"@
        &&& self.usb_online == "0"@
    }

    /// A battery that charges is not one that no charger feeds.
    pub proof fn charging_is_not_offline(self)
        ensures
            !(self.is_charging() && self.is_offline()),
    {
        reveal_strlit("Charging");
        reveal_strlit("Discharging");
        assert("Charging"@.len() != "Discharging"@.len());
    }

    /// The adapter reports the SVID of a vendor.
    pub open spec fn has_vendor_svid(self) -> bool {
        self.adapter_svid.len() != 0 && self.adapter_svid != "0000"@
    }

    /// The adapter reports that it has no vendor's SVID.
    pub open spec fn has_public_svid(self) -> bool {
        self.adapter_svid == "0000"@
    }
}

} // verus!
