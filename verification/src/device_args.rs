//! Arguments that select a device.

use crate::text::{format_key_value, join, join_strings, key_value, strings_view};
use vstd::prelude::*;

verus! {

/// What a [`DeviceArgs`] holds: each selector that was given, as text.
pub struct DeviceArgsView {
    pub addr: Option<Seq<char>>,
    pub serial: Option<Seq<char>>,
    pub resource: Option<Seq<char>>,
    pub name: Option<Seq<char>>,
    pub type_: Option<Seq<char>>,
    pub vid_pid: Option<(Seq<char>, Seq<char>)>,
}

/// The argument for one selector: `key=value` if it was given, nothing
/// otherwise.
pub open spec fn optional_item(key: Seq<char>, value: Option<Seq<char>>) -> Seq<Seq<char>> {
    match value {
        Some(v) => seq![key_value(key, v)],
        None => Seq::empty(),
    }
}

impl DeviceArgsView {
    /// The arguments in the order in which they are handed to the driver.
    pub open spec fn items(self) -> Seq<Seq<char>> {
        optional_item("args"@, self.addr) + optional_item("serial"@, self.serial) + optional_item(
            "resource"@,
            self.resource,
        ) + optional_item("name"@, self.name) + optional_item("type"@, self.type_) + (
        match self.vid_pid {
            Some((vid, pid)) => seq![key_value("vid"@, vid), key_value("pid"@, pid)],
            None => Seq::empty(),
        })
    }

    /// The argument string: the arguments joined by commas.
    pub open spec fn text(self) -> Seq<char> {
        join(self.items(), ","@)
    }
}

/// Arguments for selecting a device that is attached to the system.
///
/// The following selectors can be combined:
/// - IP address (e.g. `192.168.10.4`)
/// - serial number
/// - resource name (e.g. `RIO0`)
/// - user-set name
/// - type (e.g. `x300`)
/// - VID and PID
#[derive(Clone, Debug)]
pub struct DeviceArgs {
    addr: Option<String>,
    serial: Option<String>,
    resource: Option<String>,
    name: Option<String>,
    type_: Option<String>,
    vid_pid: Option<(String, String)>,
}

/// The text of an optional string.
pub open spec fn optional_view(value: Option<String>) -> Option<Seq<char>> {
    match value {
        Some(s) => Some(s@),
        None => None,
    }
}

impl View for DeviceArgs {
    type V = DeviceArgsView;

    closed spec fn view(&self) -> DeviceArgsView {
        DeviceArgsView {
            addr: optional_view(self.addr),
            serial: optional_view(self.serial),
            resource: optional_view(self.resource),
            name: optional_view(self.name),
            type_: optional_view(self.type_),
            vid_pid: match self.vid_pid {
                Some((vid, pid)) => Some((vid@, pid@)),
                None => None,
            },
        }
    }
}

impl DeviceArgs {
    /// Arguments that select any device.
    pub fn new() -> (args: Self)
        ensures
            args@ == (DeviceArgsView {
                addr: None,
                serial: None,
                resource: None,
                name: None,
                type_: None,
                vid_pid: None,
            }),
    {
        DeviceArgs {
            addr: None,
            serial: None,
            resource: None,
            name: None,
            type_: None,
            vid_pid: None,
        }
    }

    /// Selects by IP address (e.g. `"192.168.10.4"`).
    pub fn addr(self, ip: &str) -> (args: Self)
        ensures
            args@ == (DeviceArgsView { addr: Some(ip@), ..self@ }),
    {
        let mut args = self;
        args.addr = Some(ip.to_owned());
        args
    }

    /// Selects by serial number.
    pub fn serial(self, serial: &str) -> (args: Self)
        ensures
            args@ == (DeviceArgsView { serial: Some(serial@), ..self@ }),
    {
        let mut args = self;
        args.serial = Some(serial.to_owned());
        args
    }

    /// Selects by resource name (e.g. `"RIO0"`).
    pub fn resource(self, resource: &str) -> (args: Self)
        ensures
            args@ == (DeviceArgsView { resource: Some(resource@), ..self@ }),
    {
        let mut args = self;
        args.resource = Some(resource.to_owned());
        args
    }

    /// Selects by the name that the user gave the device.
    pub fn name(self, name: &str) -> (args: Self)
        ensures
            args@ == (DeviceArgsView { name: Some(name@), ..self@ }),
    {
        let mut args = self;
        args.name = Some(name.to_owned());
        args
    }

    /// Selects by device type (e.g. `"x300"`).
    pub fn type_(self, type_: &str) -> (args: Self)
        ensures
            args@ == (DeviceArgsView { type_: Some(type_@), ..self@ }),
    {
        let mut args = self;
        args.type_ = Some(type_.to_owned());
        args
    }

    /// Selects by USB vendor and product identifier.
    pub fn vid_pid(self, vid: &str, pid: &str) -> (args: Self)
        ensures
            args@ == (DeviceArgsView { vid_pid: Some((vid@, pid@)), ..self@ }),
    {
        let mut args = self;
        args.vid_pid = Some((vid.to_owned(), pid.to_owned()));
        args
    }

    /// The arguments that were given, each as `key=value`, in a fixed order.
    ///
    /// The list is empty if no selector was given.
    pub fn iter(&self) -> (items: Vec<String>)
        ensures
            strings_view(items@) == self@.items(),
    {
        let mut items: Vec<String> = Vec::new();
        let ghost v = self@;
        assert(strings_view(items@) =~= Seq::<Seq<char>>::empty());
        if let Some(addr) = &self.addr {
            items.push(format_key_value("args", addr.as_str()));
        }
        assert(strings_view(items@) =~= optional_item("args"@, v.addr));
        let ghost so_far = strings_view(items@);
        if let Some(serial) = &self.serial {
            items.push(format_key_value("serial", serial.as_str()));
        }
        assert(strings_view(items@) =~= so_far + optional_item("serial"@, v.serial));
        let ghost so_far = strings_view(items@);
        if let Some(resource) = &self.resource {
            items.push(format_key_value("resource", resource.as_str()));
        }
        assert(strings_view(items@) =~= so_far + optional_item("resource"@, v.resource));
        let ghost so_far = strings_view(items@);
        if let Some(name) = &self.name {
            items.push(format_key_value("name", name.as_str()));
        }
        assert(strings_view(items@) =~= so_far + optional_item("name"@, v.name));
        let ghost so_far = strings_view(items@);
        if let Some(type_) = &self.type_ {
            items.push(format_key_value("type", type_.as_str()));
        }
        assert(strings_view(items@) =~= so_far + optional_item("type"@, v.type_));
        let ghost so_far = strings_view(items@);
        if let Some((vid, pid)) = &self.vid_pid {
            items.push(format_key_value("vid", vid.as_str()));
            items.push(format_key_value("pid", pid.as_str()));
            assert(strings_view(items@) =~= so_far + seq![
                key_value("vid"@, vid@),
                key_value("pid"@, pid@),
            ]);
        } else {
            assert(strings_view(items@) =~= so_far + Seq::<Seq<char>>::empty());
        }
        items
    }

    /// The argument string that the driver takes: the given arguments,
    /// joined by commas.
    pub fn to_string(&self) -> (text: String)
        ensures
            text@ == self@.text(),
    {
        let items = self.iter();
        join_strings(&items, ",")
    }
}

impl Default for DeviceArgs {
    fn default() -> (args: Self)
        ensures
            args@ == (DeviceArgsView {
                addr: None,
                serial: None,
                resource: None,
                name: None,
                type_: None,
                vid_pid: None,
            }),
    {
        DeviceArgs::new()
    }
}

} // verus!
