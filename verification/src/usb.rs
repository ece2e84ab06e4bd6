//! How the device presents itself on USB.

use vstd::prelude::*;

verus! {

/// The description of a USB device.
#[derive(Debug, Copy, Clone, PartialEq, Eq)]
pub struct UsbConfig {
    /// The id of the vendor.
    pub vid: u16,
    /// The id of the product.
    pub pid: u16,
    /// The name of the manufacturer.
    pub manufacturer: Option<&'static str>,
    /// The name of the product.
    pub product: Option<&'static str>,
    /// The serial number.
    pub serial_number: Option<&'static str>,
    /// The largest current that the device draws, in milliamperes.
    pub max_power: u16,
    /// The largest packet of the control endpoint, in bytes.
    pub max_packet_size_0: u8,
    /// Whether the device groups its interfaces by function.
    pub composite_with_iads: bool,
    /// The class of the device.
    pub device_class: u8,
    /// The subclass of the device.
    pub device_sub_class: u8,
    /// The protocol of the device.
    pub device_protocol: u8,
}

impl UsbConfig {
    /// Returns the description of a device of vendor `vid` and product
    /// `pid` that says nothing else of itself: it draws up to 100
    /// milliamperes and takes packets of 64 bytes on its control endpoint.
    pub fn new(vid: u16, pid: u16) -> (c: UsbConfig)
        ensures
            c.vid == vid,
            c.pid == pid,
            c.manufacturer.is_none(),
            c.product.is_none(),
            c.serial_number.is_none(),
            c.max_power == 100,
            c.max_packet_size_0 == 64,
            !c.composite_with_iads,
            c.device_class == 0,
            c.device_sub_class == 0,
            c.device_protocol == 0,
    {
        UsbConfig {
            vid,
            pid,
            manufacturer: None,
            product: None,
            serial_number: None,
            max_power: 100,
            max_packet_size_0: 64,
            composite_with_iads: false,
            device_class: 0,
            device_sub_class: 0,
            device_protocol: 0,
        }
    }

    /// Marks the device as one that groups its interfaces by function, as
    /// Windows asks for.
    pub fn composite(self) -> (c: UsbConfig)
        ensures
            c.composite_with_iads,
            c.device_class == 0xEF,
            c.device_sub_class == 0x02,
            c.device_protocol == 0x01,
            c.vid == self.vid,
            c.pid == self.pid,
            c.manufacturer == self.manufacturer,
            c.product == self.product,
            c.serial_number == self.serial_number,
            c.max_power == self.max_power,
            c.max_packet_size_0 == self.max_packet_size_0,
    {
        UsbConfig {
            composite_with_iads: true,
            device_class: 0xEF,
            device_sub_class: 0x02,
            device_protocol: 0x01,
            ..self
        }
    }
}

/// Returns the description of the device when it serves as a network
/// adapter.
pub fn usb_config() -> (c: UsbConfig)
    ensures
        c.vid == 0xc0de,
        c.pid == 0xcafe,
        c.manufacturer matches Some(m) && m@ == "Embassy"@,
        c.product matches Some(p) && p@ == "USB-Ethernet example"@,
        c.serial_number matches Some(n) && n@ == "12345678"@,
        c.max_power == 100,
        c.max_packet_size_0 == 64,
        c.composite_with_iads,
        c.device_class == 0xEF,
        c.device_sub_class == 0x02,
        c.device_protocol == 0x01,
{
    let mut config = UsbConfig::new(0xc0de, 0xcafe);
    config.manufacturer = Some("Embassy");
    config.product = Some("USB-Ethernet example");
    config.serial_number = Some("12345678");
    config.max_power = 100;
    config.max_packet_size_0 = 64;
    config.composite()
}

/// Returns the description of the device when it serves CoAP over a serial
/// line. `os_name` is given as the manufacturer.
pub fn slipmux_usb_config(os_name: &'static str) -> (c: UsbConfig)
    ensures
        c.vid == 0x1209,
        c.pid == 0x0009,
        c.manufacturer == Some(os_name),
        c.product matches Some(p) && p@ == "Generic Slipmux board"@,
        c.serial_number.is_none(),
        c.max_power == 100,
        c.max_packet_size_0 == 64,
        c.composite_with_iads,
        c.device_class == 0xEF,
        c.device_sub_class == 0x02,
        c.device_protocol == 0x01,
{
    let mut config = UsbConfig::new(0x1209, 0x0009);
    config.manufacturer = Some(os_name);
    config.product = Some("Generic Slipmux board");
    config.max_power = 100;
    config.max_packet_size_0 = 64;
    config.composite()
}

} // verus!
