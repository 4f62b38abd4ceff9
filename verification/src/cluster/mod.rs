//! The clusters that an endpoint can carry, and how a reported attribute
//! value changes what is known of a cluster.
//!
//! A report whose value is too short or invalid leaves an optional field as
//! it was and resets a plain field to its default. A report of an attribute
//! that a cluster does not track changes nothing.

use crate::responses::read_attribute::{value_as_bool, value_as_u16, value_as_u8};
use crate::responses::ReadAttributeResponse;
use vstd::prelude::*;

pub mod basic;

pub use basic::{C0000View, C0000};

verus! {

/// What every tracked cluster offers: a fresh state, and the change that a
/// reported attribute value makes to it.
pub trait ClusterTrait: Sized + View {
    /// The state of the cluster before anything was reported.
    spec fn spec_new() -> Self::V;

    /// The state after attribute `attr` was reported with value `data`.
    spec fn spec_update(v: Self::V, attr: u16, data: Seq<u8>) -> Self::V;

    /// A cluster of which nothing is known yet.
    fn new() -> (c: Self)
        ensures
            c@ == Self::spec_new(),
    ;

    /// Takes over what a report says of one attribute.
    fn update(&mut self, msg: &ReadAttributeResponse)
        ensures
            final(self)@ == Self::spec_update(old(self)@, msg.attr_enum, msg.data@),
    ;
}

/// The on/off cluster (0x0006).
#[derive(Clone, Copy, Debug, PartialEq, Eq, Structural)]
pub struct C0006 {
    pub onoff: bool,
}

impl View for C0006 {
    type V = C0006;

    open spec fn view(&self) -> C0006 {
        *self
    }
}

impl ClusterTrait for C0006 {
    open spec fn spec_new() -> C0006 {
        C0006 { onoff: false }
    }

    open spec fn spec_update(v: C0006, attr: u16, data: Seq<u8>) -> C0006 {
        if attr == 0 {
            C0006 {
                onoff: match value_as_bool(data) {
                    Some(on) => on,
                    None => false,
                },
            }
        } else {
            v
        }
    }

    fn new() -> (c: Self) {
        Self { onoff: false }
    }

    fn update(&mut self, msg: &ReadAttributeResponse) {
        match msg.attr_enum {
            0 => {
                self.onoff = match msg.data_as_bool() {
                    Ok(on) => on,
                    Err(_) => false,
                };
            },
            _ => {},
        }
    }
}

/// The level-control cluster (0x0008).
#[derive(Clone, Copy, Debug, PartialEq, Eq, Structural)]
pub struct C0008 {
    pub current_level: u8,
}

impl View for C0008 {
    type V = C0008;

    open spec fn view(&self) -> C0008 {
        *self
    }
}

impl ClusterTrait for C0008 {
    open spec fn spec_new() -> C0008 {
        C0008 { current_level: 0 }
    }

    open spec fn spec_update(v: C0008, attr: u16, data: Seq<u8>) -> C0008 {
        if attr == 0 {
            C0008 {
                current_level: match value_as_u8(data) {
                    Some(level) => level,
                    None => 0,
                },
            }
        } else {
            v
        }
    }

    fn new() -> (c: Self) {
        Self { current_level: 0 }
    }

    fn update(&mut self, msg: &ReadAttributeResponse) {
        match msg.attr_enum {
            0 => {
                self.current_level = match msg.data_as_u8() {
                    Ok(level) => level,
                    Err(_) => 0,
                };
            },
            _ => {},
        }
    }
}

/// The colour representation that a light currently uses.
#[derive(Clone, Copy, Debug, PartialEq, Eq, Structural)]
pub enum ColorMode {
    HueSat,
    XY,
    Temp,
}

impl ColorMode {
    /// The mode that a reported byte names: 0, 1 and 2 name one each, any
    /// other byte names none.
    pub open spec fn of(byte: u8) -> Option<ColorMode> {
        match byte {
            0 => Some(ColorMode::HueSat),
            1 => Some(ColorMode::XY),
            2 => Some(ColorMode::Temp),
            _ => None,
        }
    }
}

/// The colour features that a light supports.
#[derive(Clone, Copy, Debug, PartialEq, Eq, Structural)]
pub struct ColorCapabilities {
    pub hue_sat: bool,
    pub enhanced_hue: bool,
    pub color_loop: bool,
    pub xy: bool,
    pub temp: bool,
}

impl ColorCapabilities {
    /// The features that a reported bit mask names: bit 0 hue and
    /// saturation, bit 1 enhanced hue, bit 2 colour loop, bit 3 XY, bit 4
    /// colour temperature.
    pub open spec fn of(mask: u16) -> ColorCapabilities {
        ColorCapabilities {
            hue_sat: mask as int % 2 == 1,
            enhanced_hue: mask as int / 2 % 2 == 1,
            color_loop: mask as int / 4 % 2 == 1,
            xy: mask as int / 8 % 2 == 1,
            temp: mask as int / 16 % 2 == 1,
        }
    }

    /// Reads the features out of a bit mask.
    pub fn from_mask(mask: u16) -> (caps: ColorCapabilities)
        ensures
            caps == Self::of(mask),
    {
        assert(((mask & 0x1) != 0) == (mask % 2 == 1) && ((mask & 0x2) != 0) == (mask / 2 % 2 == 1)
            && ((mask & 0x4) != 0) == (mask / 4 % 2 == 1) && ((mask & 0x8) != 0) == (mask / 8 % 2
            == 1) && ((mask & 0x10) != 0) == (mask / 16 % 2 == 1)) by (bit_vector);
        ColorCapabilities {
            hue_sat: (mask & 0x1) != 0,
            enhanced_hue: (mask & 0x2) != 0,
            color_loop: (mask & 0x4) != 0,
            xy: (mask & 0x8) != 0,
            temp: (mask & 0x10) != 0,
        }
    }
}

/// The colour-control cluster (0x0300). A field is `None` until a report
/// gives it a value.
#[derive(Clone, Copy, Debug, PartialEq, Eq, Structural)]
pub struct C0300 {
    pub current_hue: Option<u8>,
    pub current_saturation: Option<u8>,
    pub current_x: Option<u16>,
    pub current_y: Option<u16>,
    pub color_temperature: Option<u16>,
    pub color_mode: Option<ColorMode>,
    pub color_capabilities: Option<ColorCapabilities>,
    pub color_temp_min: Option<u16>,
    pub color_temp_max: Option<u16>,
}

/// The reported value where there is one, the value known before otherwise.
pub open spec fn or_kept<T>(reported: Option<T>, known: Option<T>) -> Option<T> {
    if reported is Some {
        reported
    } else {
        known
    }
}

impl View for C0300 {
    type V = C0300;

    open spec fn view(&self) -> C0300 {
        *self
    }
}

impl ClusterTrait for C0300 {
    open spec fn spec_new() -> C0300 {
        C0300 {
            current_hue: None,
            current_saturation: None,
            current_x: None,
            current_y: None,
            color_temperature: None,
            color_mode: None,
            color_capabilities: None,
            color_temp_min: None,
            color_temp_max: None,
        }
    }

    open spec fn spec_update(v: C0300, attr: u16, data: Seq<u8>) -> C0300 {
        match attr {
            0x0000 => C0300 { current_hue: or_kept(value_as_u8(data), v.current_hue), ..v },
            0x0001 => C0300 {
                current_saturation: or_kept(value_as_u8(data), v.current_saturation),
                ..v
            },
            0x0003 => C0300 { current_x: or_kept(value_as_u16(data), v.current_x), ..v },
            0x0004 => C0300 { current_y: or_kept(value_as_u16(data), v.current_y), ..v },
            0x0007 => C0300 {
                color_temperature: or_kept(value_as_u16(data), v.color_temperature),
                ..v
            },
            0x0008 => match value_as_u8(data) {
                Some(byte) => C0300 { color_mode: ColorMode::of(byte), ..v },
                None => v,
            },
            0x400a => match value_as_u16(data) {
                Some(mask) => C0300 { color_capabilities: Some(ColorCapabilities::of(mask)), ..v },
                None => v,
            },
            0x400b => C0300 { color_temp_min: or_kept(value_as_u16(data), v.color_temp_min), ..v },
            0x400c => C0300 { color_temp_max: or_kept(value_as_u16(data), v.color_temp_max), ..v },
            _ => v,
        }
    }

    fn new() -> (c: Self) {
        C0300 {
            current_hue: None,
            current_saturation: None,
            current_x: None,
            current_y: None,
            color_temperature: None,
            color_mode: None,
            color_capabilities: None,
            color_temp_min: None,
            color_temp_max: None,
        }
    }

    fn update(&mut self, msg: &ReadAttributeResponse) {
        match msg.attr_enum {
            0x0000 => {
                if let Ok(hue) = msg.data_as_u8() {
                    self.current_hue = Some(hue);
                }
            },
            0x0001 => {
                if let Ok(saturation) = msg.data_as_u8() {
                    self.current_saturation = Some(saturation);
                }
            },
            0x0003 => {
                if let Ok(x) = msg.data_as_u16() {
                    self.current_x = Some(x);
                }
            },
            0x0004 => {
                if let Ok(y) = msg.data_as_u16() {
                    self.current_y = Some(y);
                }
            },
            0x0007 => {
                if let Ok(temperature) = msg.data_as_u16() {
                    self.color_temperature = Some(temperature);
                }
            },
            0x0008 => match msg.data_as_u8() {
                Ok(0) => self.color_mode = Some(ColorMode::HueSat),
                Ok(1) => self.color_mode = Some(ColorMode::XY),
                Ok(2) => self.color_mode = Some(ColorMode::Temp),
                Ok(_) => self.color_mode = None,
                Err(_) => {},
            },
            0x400a => {
                if let Ok(mask) = msg.data_as_u16() {
                    self.color_capabilities = Some(ColorCapabilities::from_mask(mask));
                }
            },
            0x400b => {
                if let Ok(min) = msg.data_as_u16() {
                    self.color_temp_min = Some(min);
                }
            },
            0x400c => {
                if let Ok(max) = msg.data_as_u16() {
                    self.color_temp_max = Some(max);
                }
            },
            _ => {},
        }
    }
}

/// A cluster on an endpoint: one of the tracked kinds with its state, or
/// only the id of a kind that is not tracked.
#[derive(Clone, Debug)]
pub enum Cluster {
    Basic(C0000),
    GeneralOnOff(C0006),
    GeneralLevelControl(C0008),
    LightingColorControl(C0300),
    Unk(u16),
}

/// A cluster as a mathematical value.
pub enum ClusterView {
    Basic(C0000View),
    GeneralOnOff(C0006),
    GeneralLevelControl(C0008),
    LightingColorControl(C0300),
    Unk(u16),
}

impl ClusterView {
    /// The cluster that an id names, with nothing known of it yet.
    pub open spec fn fresh(id: u16) -> ClusterView {
        match id {
            0x0000 => ClusterView::Basic(C0000::spec_new()),
            0x0006 => ClusterView::GeneralOnOff(C0006::spec_new()),
            0x0008 => ClusterView::GeneralLevelControl(C0008::spec_new()),
            0x0300 => ClusterView::LightingColorControl(C0300::spec_new()),
            _ => ClusterView::Unk(id),
        }
    }

    /// The id of the cluster.
    pub open spec fn id(self) -> u16 {
        match self {
            ClusterView::Basic(_) => 0x0000,
            ClusterView::GeneralOnOff(_) => 0x0006,
            ClusterView::GeneralLevelControl(_) => 0x0008,
            ClusterView::LightingColorControl(_) => 0x0300,
            ClusterView::Unk(id) => id,
        }
    }

    /// The name of a tracked cluster.
    pub open spec fn name(self) -> Option<Seq<char>> {
        match self {
            ClusterView::Basic(_) => Some("Basic"@),
            ClusterView::GeneralOnOff(_) => Some("GeneralOnOff"@),
            ClusterView::GeneralLevelControl(_) => Some("GeneralLevelControl"@),
            ClusterView::LightingColorControl(_) => Some("LightingColorControl"@),
            ClusterView::Unk(_) => None,
        }
    }

    /// The cluster after attribute `attr` was reported with value `data`.
    pub open spec fn updated(self, attr: u16, data: Seq<u8>) -> ClusterView {
        match self {
            ClusterView::Basic(c) => ClusterView::Basic(C0000::spec_update(c, attr, data)),
            ClusterView::GeneralOnOff(c) => ClusterView::GeneralOnOff(
                C0006::spec_update(c, attr, data),
            ),
            ClusterView::GeneralLevelControl(c) => ClusterView::GeneralLevelControl(
                C0008::spec_update(c, attr, data),
            ),
            ClusterView::LightingColorControl(c) => ClusterView::LightingColorControl(
                C0300::spec_update(c, attr, data),
            ),
            ClusterView::Unk(id) => ClusterView::Unk(id),
        }
    }
}

impl View for Cluster {
    type V = ClusterView;

    open spec fn view(&self) -> ClusterView {
        match self {
            Cluster::Basic(c) => ClusterView::Basic(c@),
            Cluster::GeneralOnOff(c) => ClusterView::GeneralOnOff(c@),
            Cluster::GeneralLevelControl(c) => ClusterView::GeneralLevelControl(c@),
            Cluster::LightingColorControl(c) => ClusterView::LightingColorControl(c@),
            Cluster::Unk(id) => ClusterView::Unk(*id),
        }
    }
}

impl Cluster {
    /// The cluster that an id names, with nothing known of it yet.
    pub fn new(id: u16) -> (c: Self)
        ensures
            c@ == ClusterView::fresh(id),
            c@.id() == id,
    {
        match id {
            0x0000 => Self::Basic(C0000::new()),
            0x0006 => Self::GeneralOnOff(C0006::new()),
            0x0008 => Self::GeneralLevelControl(C0008::new()),
            0x0300 => Self::LightingColorControl(C0300::new()),
            _ => Self::Unk(id),
        }
    }

    /// The id of the cluster.
    pub fn id(&self) -> (id: u16)
        ensures
            id == self@.id(),
    {
        match self {
            Self::Basic(_) => 0x0000,
            Self::GeneralOnOff(_) => 0x0006,
            Self::GeneralLevelControl(_) => 0x0008,
            Self::LightingColorControl(_) => 0x0300,
            Self::Unk(id) => *id,
        }
    }

    /// The name of a tracked cluster; none for one that is not tracked.
    pub fn name(&self) -> (name: Option<String>)
        ensures
            match self@.name() {
                Some(text) => name is Some && name->Some_0@ == text,
                None => name is None,
            },
    {
        match self {
            Self::Basic(_) => Some("Basic".to_owned()),
            Self::GeneralOnOff(_) => Some("GeneralOnOff".to_owned()),
            Self::GeneralLevelControl(_) => Some("GeneralLevelControl".to_owned()),
            Self::LightingColorControl(_) => Some("LightingColorControl".to_owned()),
            Self::Unk(_) => None,
        }
    }

    /// Takes over what a report says of one attribute. The id of the cluster
    /// stays what it is.
    pub fn update(&mut self, msg: &ReadAttributeResponse)
        ensures
            final(self)@ == old(self)@.updated(msg.attr_enum, msg.data@),
            final(self)@.id() == old(self)@.id(),
    {
        match self {
            Self::Basic(cluster) => cluster.update(msg),
            Self::GeneralOnOff(cluster) => cluster.update(msg),
            Self::GeneralLevelControl(cluster) => cluster.update(msg),
            Self::LightingColorControl(cluster) => cluster.update(msg),
            Self::Unk(_) => {},
        }
    }
}

} // verus!
