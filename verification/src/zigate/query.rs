//! What a client can ask of the device model and tell a device to do.

use crate::cluster::{C0300, Cluster, ClusterView, ColorCapabilities};
use crate::command::{Command, MessageType};
use crate::commands::{
    action_move_color_temp, action_move_onoff, action_move_to_color, action_move_to_hue,
    action_move_to_hue_and_saturation, action_move_to_saturation, action_onoff, addressed,
    frame_of, permit_join_request, read_attribute_payload, simple_read_attribute_request,
};
use crate::device::{Device, endpoint_ids, position};
use crate::error::ZigateError;
use crate::wire::be16_bytes;
use crate::zigate::{Zigate, ZigateState};
use std::collections::HashMap;
use vstd::prelude::*;

verus! {

broadcast use vstd::std_specs::hash::group_hash_axioms;

/// The attributes that a client can ask a device for.
#[derive(Clone, Copy, Debug, PartialEq, Eq, Structural)]
pub enum Attribute {
    OnOff,
    Level,
    ColorHue,
    ColorSaturation,
    ColorX,
    ColorY,
    ColorTemperature,
    ColorCapabilities,
}

impl Attribute {
    /// The cluster that holds the attribute.
    pub open spec fn cluster(self) -> u16 {
        match self {
            Attribute::OnOff => 0x0006,
            Attribute::Level => 0x0008,
            _ => 0x0300,
        }
    }

    /// The id of the attribute within its cluster.
    pub open spec fn id(self) -> u16 {
        match self {
            Attribute::OnOff => 0x0000,
            Attribute::Level => 0x0000,
            Attribute::ColorHue => 0x0000,
            Attribute::ColorSaturation => 0x0001,
            Attribute::ColorX => 0x0003,
            Attribute::ColorY => 0x0004,
            Attribute::ColorTemperature => 0x0007,
            Attribute::ColorCapabilities => 0x400a,
        }
    }

    /// The command that asks an endpoint of a device for the attribute.
    pub fn request(&self, address: u16, endpoint: u8) -> (cmd: Command)
        ensures
            cmd@ == frame_of(
                MessageType::ReadAttributeRequest,
                read_attribute_payload(address, 1, endpoint, self.cluster(), 0, 0, seq![self.id()]),
            ),
    {
        match self {
            Attribute::OnOff => simple_read_attribute_request(address, endpoint, 0x0006, 0x0000),
            Attribute::Level => simple_read_attribute_request(address, endpoint, 0x0008, 0x0000),
            Attribute::ColorHue => simple_read_attribute_request(address, endpoint, 0x0300, 0x0000),
            Attribute::ColorSaturation => simple_read_attribute_request(
                address,
                endpoint,
                0x0300,
                0x0001,
            ),
            Attribute::ColorX => simple_read_attribute_request(address, endpoint, 0x0300, 0x0003),
            Attribute::ColorY => simple_read_attribute_request(address, endpoint, 0x0300, 0x0004),
            Attribute::ColorTemperature => simple_read_attribute_request(
                address,
                endpoint,
                0x0300,
                0x0007,
            ),
            Attribute::ColorCapabilities => simple_read_attribute_request(
                address,
                endpoint,
                0x0300,
                0x400a,
            ),
        }
    }
}

/// The first cluster of a list that is of a known kind and has the given id.
pub open spec fn first_of_kind(clusters: Seq<ClusterView>, id: u16) -> Option<ClusterView>
    decreases clusters.len(),
{
    if clusters.len() == 0 {
        None
    } else if !(clusters[0] is Unk) && clusters[0].id() == id {
        Some(clusters[0])
    } else {
        first_of_kind(clusters.drop_first(), id)
    }
}

/// The byte that stands for a flag in a command: 1 for `true`, 0 for `false`.
pub open spec fn flag(on: bool) -> u8 {
    if on {
        1
    } else {
        0
    }
}

impl ZigateState {
    /// The first cluster of a known kind with the given id among the input clusters
    /// of an endpoint of a device, where the device and the endpoint are
    /// known and there is such a cluster.
    pub open spec fn cluster_of_kind(self, address: u16, endpoint: u8, id: u16) -> Option<ClusterView> {
        if self.devices.contains_key(address) {
            let endpoints = self.devices[address].endpoints;
            match position(endpoint_ids(endpoints), endpoint as int) {
                Some(i) => first_of_kind(endpoints[i].in_clusters, id),
                None => None,
            }
        } else {
            None
        }
    }

    /// What is known of the colour of an endpoint.
    pub open spec fn color(self, address: u16, endpoint: u8) -> Option<C0300> {
        match self.cluster_of_kind(address, endpoint, 0x0300) {
            Some(ClusterView::LightingColorControl(c)) => Some(c),
            _ => None,
        }
    }

    /// Whether an endpoint is switched on, as far as known.
    pub open spec fn onoff(self, address: u16, endpoint: u8) -> Option<bool> {
        match self.cluster_of_kind(address, endpoint, 0x0006) {
            Some(ClusterView::GeneralOnOff(c)) => Some(c.onoff),
            _ => None,
        }
    }

    /// The level of an endpoint, as far as known.
    pub open spec fn level(self, address: u16, endpoint: u8) -> Option<u8> {
        match self.cluster_of_kind(address, endpoint, 0x0008) {
            Some(ClusterView::GeneralLevelControl(c)) => Some(c.current_level),
            _ => None,
        }
    }
}

/// A value where it is known; where it is not, the failure that says so.
pub open spec fn available<T>(value: Option<T>) -> Result<T, ZigateError> {
    match value {
        Some(v) => Ok(v),
        None => Err(ZigateError::NotAvailable),
    }
}

/// The first cluster of a known kind with the given id in a list.
fn find_of_kind(clusters: &Vec<Cluster>, id: u16) -> (found: Option<&Cluster>)
    ensures
        match first_of_kind(crate::device::cluster_views(clusters@), id) {
            Some(c) => found is Some && found->Some_0@ == c,
            None => found is None,
        },
{
    let ghost all = crate::device::cluster_views(clusters@);
    let mut i: usize = 0;
    assert(all.skip(0) == all);
    while i < clusters.len()
        invariant
            i <= clusters.len(),
            all == crate::device::cluster_views(clusters@),
            first_of_kind(all, id) == first_of_kind(all.skip(i as int), id),
        decreases clusters.len() - i,
    {
        let of_kind = match &clusters[i] {
            Cluster::Unk(_) => false,
            _ => true,
        };
        if of_kind && clusters[i].id() == id {
            return Some(&clusters[i]);
        }
        proof {
            assert(all.skip(i as int).drop_first() == all.skip(i + 1));
        }
        i += 1;
    }
    None
}

impl Zigate {
    /// A copy of the devices known so far, by short address.
    pub fn get_devices(&self) -> (devices: HashMap<u16, Device>)
        ensures
            devices@ == self.devices@,
    {
        self.devices.clone()
    }

    /// The first cluster of a known kind with the given id among the input clusters
    /// of an endpoint of a device.
    fn find(&self, address: u16, endpoint: u8, id: u16) -> (found: Option<&Cluster>)
        ensures
            match self@.cluster_of_kind(address, endpoint, id) {
                Some(c) => found is Some && found->Some_0@ == c,
                None => found is None,
            },
    {
        match self.devices.get(&address) {
            Some(device) => {
                proof {
                    crate::device::lemma_position(endpoint_ids(device@.endpoints), endpoint as int);
                }
                match device.get_endpoint(endpoint) {
                    Some(found) => {
                        find_of_kind(found.get_in_clusters(), id)
                    },
                    None => None,
                }
            },
            None => None,
        }
    }

    /// What is known of the colour of an endpoint.
    fn find_color(&self, address: u16, endpoint: u8) -> (r: Result<C0300, ZigateError>)
        ensures
            r == available(self@.color(address, endpoint)),
    {
        match self.find(address, endpoint, 0x0300) {
            Some(Cluster::LightingColorControl(cluster)) => Ok(*cluster),
            _ => Err(ZigateError::NotAvailable),
        }
    }

    /// Whether an endpoint is switched on, as its on/off cluster was last
    /// reported; not available where the endpoint has no such cluster.
    pub fn get_onoff(&self, address: u16, endpoint: u8) -> (r: Result<bool, ZigateError>)
        ensures
            r == available(self@.onoff(address, endpoint)),
    {
        match self.find(address, endpoint, 0x0006) {
            Some(Cluster::GeneralOnOff(cluster)) => Ok(cluster.onoff),
            _ => Err(ZigateError::NotAvailable),
        }
    }

    /// The level of an endpoint, as its level-control cluster was last
    /// reported; not available where the endpoint has no such cluster.
    pub fn get_level(&self, address: u16, endpoint: u8) -> (r: Result<u8, ZigateError>)
        ensures
            r == available(self@.level(address, endpoint)),
    {
        match self.find(address, endpoint, 0x0008) {
            Some(Cluster::GeneralLevelControl(cluster)) => Ok(cluster.current_level),
            _ => Err(ZigateError::NotAvailable),
        }
    }

    /// The colour features of an endpoint; not available where the endpoint
    /// has no colour-control cluster or the features were never reported.
    pub fn get_color_capabilities(&self, address: u16, endpoint: u8) -> (r: Result<
        ColorCapabilities,
        ZigateError,
    >)
        ensures
            r == match self@.color(address, endpoint) {
                Some(c) => available(c.color_capabilities),
                None => Err(ZigateError::NotAvailable),
            },
    {
        let color = self.find_color(address, endpoint)?;
        match color.color_capabilities {
            Some(capabilities) => Ok(capabilities),
            None => Err(ZigateError::NotAvailable),
        }
    }

    /// The hue of an endpoint; not available where the endpoint has no
    /// colour-control cluster or the hue was never reported.
    pub fn get_color_hue(&self, address: u16, endpoint: u8) -> (r: Result<u8, ZigateError>)
        ensures
            r == match self@.color(address, endpoint) {
                Some(c) => available(c.current_hue),
                None => Err(ZigateError::NotAvailable),
            },
    {
        let color = self.find_color(address, endpoint)?;
        match color.current_hue {
            Some(hue) => Ok(hue),
            None => Err(ZigateError::NotAvailable),
        }
    }

    /// The saturation of an endpoint; not available where the endpoint has
    /// no colour-control cluster or the saturation was never reported.
    pub fn get_color_saturation(&self, address: u16, endpoint: u8) -> (r: Result<u8, ZigateError>)
        ensures
            r == match self@.color(address, endpoint) {
                Some(c) => available(c.current_saturation),
                None => Err(ZigateError::NotAvailable),
            },
    {
        let color = self.find_color(address, endpoint)?;
        match color.current_saturation {
            Some(saturation) => Ok(saturation),
            None => Err(ZigateError::NotAvailable),
        }
    }

    /// The colour of an endpoint in the XY plane; not available where the
    /// endpoint has no colour-control cluster or either coordinate was never
    /// reported.
    pub fn get_color(&self, address: u16, endpoint: u8) -> (r: Result<(u16, u16), ZigateError>)
        ensures
            r == match self@.color(address, endpoint) {
                Some(c) => if c.current_x is Some && c.current_y is Some {
                    Ok((c.current_x->Some_0, c.current_y->Some_0))
                } else {
                    Err(ZigateError::NotAvailable)
                },
                None => Err(ZigateError::NotAvailable),
            },
    {
        let color = self.find_color(address, endpoint)?;
        match (color.current_x, color.current_y) {
            (Some(x), Some(y)) => Ok((x, y)),
            _ => Err(ZigateError::NotAvailable),
        }
    }

    /// The colour temperature of an endpoint; not available where the
    /// endpoint has no colour-control cluster or the temperature was never
    /// reported.
    pub fn get_color_temp(&self, address: u16, endpoint: u8) -> (r: Result<u16, ZigateError>)
        ensures
            r == match self@.color(address, endpoint) {
                Some(c) => available(c.color_temperature),
                None => Err(ZigateError::NotAvailable),
            },
    {
        let color = self.find_color(address, endpoint)?;
        match color.color_temperature {
            Some(temperature) => Ok(temperature),
            None => Err(ZigateError::NotAvailable),
        }
    }

    /// The command that lets devices join for `interval` seconds: it goes to
    /// all routers and the coordinator (0xfffc).
    pub fn permit_join(interval: u8) -> (cmd: Command)
        ensures
            cmd@ == frame_of(
                MessageType::PermitJoinRequest,
                be16_bytes(0xfffc) + seq![interval, 0u8],
            ),
    {
        permit_join_request(0xfffc, interval, 0)
    }

    /// The command that switches an endpoint on or off.
    pub fn onoff(address: u16, endpoint: u8, onoff: bool) -> (cmd: Command)
        ensures
            cmd@ == frame_of(
                MessageType::ActionOnOff,
                addressed(address, 1, endpoint) + seq![flag(onoff)],
            ),
    {
        action_onoff(address, 1, endpoint, if onoff { 1 } else { 0 })
    }

    /// The command that moves an endpoint to a level within a transition
    /// time, switching it on or off with it.
    pub fn move_to_level(address: u16, endpoint: u8, on: bool, level: u8, transition_time: u16) -> (cmd:
        Command)
        ensures
            cmd@ == frame_of(
                MessageType::ActionMoveOnOff,
                addressed(address, 1, endpoint) + seq![flag(on), level] + be16_bytes(
                    transition_time,
                ),
            ),
    {
        action_move_onoff(address, 1, endpoint, if on { 1 } else { 0 }, level, transition_time)
    }

    /// The command that moves an endpoint to a hue.
    pub fn move_to_hue(address: u16, endpoint: u8, hue: u8, direction: u8, transition_time: u16) -> (cmd:
        Command)
        ensures
            cmd@ == frame_of(
                MessageType::ActionMoveToHue,
                addressed(address, 1, endpoint) + seq![hue, direction] + be16_bytes(
                    transition_time,
                ),
            ),
    {
        action_move_to_hue(address, 1, endpoint, hue, direction, transition_time)
    }

    /// The command that moves an endpoint to a saturation.
    pub fn move_to_saturation(address: u16, endpoint: u8, saturation: u8, transition_time: u16) -> (cmd:
        Command)
        ensures
            cmd@ == frame_of(
                MessageType::ActionMoveToHue,
                addressed(address, 1, endpoint) + seq![saturation] + be16_bytes(transition_time),
            ),
    {
        action_move_to_saturation(address, 1, endpoint, saturation, transition_time)
    }

    /// The command that moves an endpoint to a hue and a saturation.
    pub fn move_to_hue_and_saturation(
        address: u16,
        endpoint: u8,
        hue: u8,
        saturation: u8,
        transition_time: u16,
    ) -> (cmd: Command)
        ensures
            cmd@ == frame_of(
                MessageType::ActionMoveToHueAndSaturation,
                addressed(address, 1, endpoint) + seq![hue, saturation] + be16_bytes(
                    transition_time,
                ),
            ),
    {
        action_move_to_hue_and_saturation(address, 1, endpoint, hue, saturation, transition_time)
    }

    /// The command that moves an endpoint to a colour in the XY plane.
    pub fn move_to_color(address: u16, endpoint: u8, x: u16, y: u16, transition_time: u16) -> (cmd:
        Command)
        ensures
            cmd@ == frame_of(
                MessageType::ActionMoveToColor,
                addressed(address, 1, endpoint) + be16_bytes(x) + be16_bytes(y) + be16_bytes(
                    transition_time,
                ),
            ),
    {
        action_move_to_color(address, 1, endpoint, x, y, transition_time)
    }

    /// The command that moves an endpoint to a colour temperature.
    pub fn move_to_color_temp(address: u16, endpoint: u8, color_temp: u16, transition_time: u16) -> (cmd:
        Command)
        ensures
            cmd@ == frame_of(
                MessageType::ActionMoveToColorTemp,
                addressed(address, 1, endpoint) + be16_bytes(color_temp) + be16_bytes(
                    transition_time,
                ),
            ),
    {
        action_move_color_temp(address, 1, endpoint, color_temp, transition_time)
    }
}

} // verus!
