//! The settings registry: credentials, the device list and the chosen
//! interface, as one value that is replaced as a whole.

use vstd::prelude::*;
use crate::error::Error;
use crate::interface::{has_name, position_by_name, NetworkInterface};

verus! {

/// The one pair of credentials.
#[derive(Clone, Debug)]
pub struct Auth {
    pub username: String,
    pub password: String,
}

/// A device of the registry: a name, and its hardware and IPv4 addresses
/// as the operator wrote them.
#[derive(Clone, Debug)]
pub struct Device {
    pub name: String,
    pub mac: String,
    pub ip: String,
}

/// Everything that is persisted.
#[derive(Clone, Debug)]
pub struct Settings {
    pub auth: Option<Auth>,
    pub devices: Vec<Device>,
    pub chosen_interface: Option<String>,
}

impl Settings {
    /// The settings made of what the persisted document yielded for each
    /// of its three keys. A document without a usable device list stands
    /// for an empty one; credentials and the chosen interface stay absent
    /// where the document has none.
    pub fn init(
        auth: Option<Auth>,
        devices: Option<Vec<Device>>,
        chosen_interface: Option<String>,
    ) -> (settings: Settings)
        ensures
            settings.auth == auth,
            settings.chosen_interface == chosen_interface,
            devices is Some ==> settings.devices == devices->Some_0,
            devices is None ==> settings.devices@ == Seq::<Device>::empty(),
    {
        let devices = match devices {
            Some(list) => list,
            None => Vec::new(),
        };
        Settings { auth, devices, chosen_interface }
    }

    /// Replaces the device list and hands back the one replaced.
    pub fn replace_devices(&mut self, devices: Vec<Device>) -> (previous: Vec<Device>)
        ensures
            final(self).devices == devices,
            final(self).auth == old(self).auth,
            final(self).chosen_interface == old(self).chosen_interface,
            previous == old(self).devices,
    {
        let mut devices = devices;
        core::mem::swap(&mut self.devices, &mut devices);
        devices
    }

    /// Replaces the credentials.
    pub fn replace_auth(&mut self, auth: Auth)
        ensures
            final(self).auth == Some(auth),
            final(self).devices == old(self).devices,
            final(self).chosen_interface == old(self).chosen_interface,
    {
        self.auth = Some(auth);
    }

    /// Makes `name` the chosen interface if one of the interfaces in `all`
    /// bears it. If none does, the call fails with
    /// `Error::InterfaceNotFound` and the settings stay as they were.
    pub fn choose_interface(&mut self, all: &Vec<NetworkInterface>, name: String) -> (r: Result<
        (),
        Error,
    >)
        ensures
            has_name(all@, name@) ==> r == Ok::<(), Error>(()),
            has_name(all@, name@) ==> final(self).chosen_interface == Some(name),
            !has_name(all@, name@) ==> r == Err::<(), Error>(Error::InterfaceNotFound),
            !has_name(all@, name@) ==> final(self).chosen_interface == old(self).chosen_interface,
            final(self).auth == old(self).auth,
            final(self).devices == old(self).devices,
    {
        match position_by_name(all, &name) {
            Some(_) => {
                self.chosen_interface = Some(name);
                Ok(())
            },
            None => Err(Error::InterfaceNotFound),
        }
    }
}

} // verus!
