//! The basic cluster (0x0000): what a device says of its own make and state.

use crate::cluster::ClusterTrait;
use crate::responses::read_attribute::{value_as_bool, value_as_str, value_as_u8};
use crate::responses::ReadAttributeResponse;
use vstd::prelude::*;

verus! {

/// The basic cluster. Numbers start at 0, texts empty, the enabled flag unset.
#[derive(Clone, Debug)]
pub struct C0000 {
    pub zcl_version: u8,
    pub application_version: u8,
    pub stack_version: u8,
    pub hw_version: u8,
    pub manufacturer_name: String,
    pub model_identifier: String,
    pub date_code: String,
    pub power_source: u8,
    pub location_description: String,
    pub physical_environment: u8,
    pub device_enabled: bool,
    pub alarm_mask: u8,
    pub disable_local_config: u8,
    pub sw_build_id: String,
}

/// The basic cluster as a mathematical value.
pub struct C0000View {
    pub zcl_version: u8,
    pub application_version: u8,
    pub stack_version: u8,
    pub hw_version: u8,
    pub manufacturer_name: Seq<char>,
    pub model_identifier: Seq<char>,
    pub date_code: Seq<char>,
    pub power_source: u8,
    pub location_description: Seq<char>,
    pub physical_environment: u8,
    pub device_enabled: bool,
    pub alarm_mask: u8,
    pub disable_local_config: u8,
    pub sw_build_id: Seq<char>,
}

impl View for C0000 {
    type V = C0000View;

    open spec fn view(&self) -> C0000View {
        C0000View {
            zcl_version: self.zcl_version,
            application_version: self.application_version,
            stack_version: self.stack_version,
            hw_version: self.hw_version,
            manufacturer_name: self.manufacturer_name@,
            model_identifier: self.model_identifier@,
            date_code: self.date_code@,
            power_source: self.power_source,
            location_description: self.location_description@,
            physical_environment: self.physical_environment,
            device_enabled: self.device_enabled,
            alarm_mask: self.alarm_mask,
            disable_local_config: self.disable_local_config,
            sw_build_id: self.sw_build_id@,
        }
    }
}

/// A reported number, or 0 where the value is too short.
pub open spec fn number_or_zero(data: Seq<u8>) -> u8 {
    match value_as_u8(data) {
        Some(n) => n,
        None => 0,
    }
}

/// A reported text, or the empty text where the value is not valid UTF-8.
pub open spec fn text_or_empty(data: Seq<u8>) -> Seq<char> {
    match value_as_str(data) {
        Some(text) => text,
        None => Seq::empty(),
    }
}

/// A reported number, or 0 where the value is too short.
fn number(msg: &ReadAttributeResponse) -> (n: u8)
    ensures
        n == number_or_zero(msg.data@),
{
    match msg.data_as_u8() {
        Ok(n) => n,
        Err(_) => 0,
    }
}

/// A reported text, or the empty text where the value is not valid UTF-8.
fn text(msg: &ReadAttributeResponse) -> (s: String)
    ensures
        s@ == text_or_empty(msg.data@),
{
    match msg.data_as_str() {
        Ok(text) => text.to_owned(),
        Err(_) => String::new(),
    }
}

impl ClusterTrait for C0000 {
    open spec fn spec_new() -> C0000View {
        C0000View {
            zcl_version: 0,
            application_version: 0,
            stack_version: 0,
            hw_version: 0,
            manufacturer_name: Seq::empty(),
            model_identifier: Seq::empty(),
            date_code: Seq::empty(),
            power_source: 0,
            location_description: Seq::empty(),
            physical_environment: 0,
            device_enabled: false,
            alarm_mask: 0,
            disable_local_config: 0,
            sw_build_id: Seq::empty(),
        }
    }

    open spec fn spec_update(v: C0000View, attr: u16, data: Seq<u8>) -> C0000View {
        match attr {
            0x0 => C0000View { zcl_version: number_or_zero(data), ..v },
            0x1 => C0000View { application_version: number_or_zero(data), ..v },
            0x2 => C0000View { stack_version: number_or_zero(data), ..v },
            0x3 => C0000View { hw_version: number_or_zero(data), ..v },
            0x4 => C0000View { manufacturer_name: text_or_empty(data), ..v },
            0x5 => C0000View { model_identifier: text_or_empty(data), ..v },
            0x6 => C0000View { date_code: text_or_empty(data), ..v },
            0x7 => C0000View { power_source: number_or_zero(data), ..v },
            0x10 => C0000View { location_description: text_or_empty(data), ..v },
            0x11 => C0000View { physical_environment: number_or_zero(data), ..v },
            0x12 => C0000View {
                device_enabled: match value_as_bool(data) {
                    Some(enabled) => enabled,
                    None => true,
                },
                ..v
            },
            0x13 => C0000View { alarm_mask: number_or_zero(data), ..v },
            0x14 => C0000View { disable_local_config: number_or_zero(data), ..v },
            0x16 => C0000View { sw_build_id: text_or_empty(data), ..v },
            _ => v,
        }
    }

    fn new() -> (c: Self) {
        C0000 {
            zcl_version: 0,
            application_version: 0,
            stack_version: 0,
            hw_version: 0,
            manufacturer_name: String::new(),
            model_identifier: String::new(),
            date_code: String::new(),
            power_source: 0,
            location_description: String::new(),
            physical_environment: 0,
            device_enabled: false,
            alarm_mask: 0,
            disable_local_config: 0,
            sw_build_id: String::new(),
        }
    }

    fn update(&mut self, msg: &ReadAttributeResponse) {
        match msg.attr_enum {
            0x0 => self.zcl_version = number(msg),
            0x1 => self.application_version = number(msg),
            0x2 => self.stack_version = number(msg),
            0x3 => self.hw_version = number(msg),
            0x4 => self.manufacturer_name = text(msg),
            0x5 => self.model_identifier = text(msg),
            0x6 => self.date_code = text(msg),
            0x7 => self.power_source = number(msg),
            0x10 => self.location_description = text(msg),
            0x11 => self.physical_environment = number(msg),
            0x12 => {
                self.device_enabled = match msg.data_as_bool() {
                    Ok(enabled) => enabled,
                    Err(_) => true,
                };
            },
            0x13 => self.alarm_mask = number(msg),
            0x14 => self.disable_local_config = number(msg),
            0x16 => self.sw_build_id = text(msg),
            _ => {},
        }
    }
}

} // verus!
