//! Names that the broker and BlueZ give to their interfaces.

use vstd::prelude::*;

verus! {

/// Interface through which any object hands out and takes its properties.
pub const DBUS_PROPERTIES_IFACE: &'static str = "org.freedesktop.DBus.Properties";

/// Interface through which the broker's root object lists what it manages.
pub const DBUS_OBJECTMANAGER_IFACE: &'static str = "org.freedesktop.DBus.ObjectManager";

/// Interface of a Bluetooth adapter.
pub const ADAPTER_IFACE: &'static str = "org.bluez.Adapter1";

/// Interface of an object that can broadcast Low Energy advertisements.
pub const LE_ADVERTISING_MANAGER_IFACE: &'static str = "org.bluez.LEAdvertisingManager1";

} // verus!
