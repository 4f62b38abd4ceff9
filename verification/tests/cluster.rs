use zigate::cluster::{C0000, C0006, C0008, C0300, Cluster, ClusterTrait, ColorCapabilities, ColorMode};
use zigate::responses::ReadAttributeResponse;

fn report(cluster_id: u16, attr_enum: u16, data: &[u8]) -> ReadAttributeResponse {
    ReadAttributeResponse {
        seq_num: 1,
        src_addr: 0x1234,
        endpoint: 1,
        cluster_id,
        attr_enum,
        attr_status: 0,
        attr_data_type: 0x20,
        attr_size: data.len() as u16,
        data: data.to_vec(),
    }
}

fn basic(cluster: &Cluster) -> &C0000 {
    match cluster {
        Cluster::Basic(c) => c,
        _ => panic!("not a basic cluster"),
    }
}

fn color(cluster: &Cluster) -> C0300 {
    match cluster {
        Cluster::LightingColorControl(c) => *c,
        _ => panic!("not a colour cluster"),
    }
}

#[test]
fn clusters_by_id() {
    assert!(matches!(Cluster::new(0x0000), Cluster::Basic(_)));
    assert!(matches!(Cluster::new(0x0006), Cluster::GeneralOnOff(C0006 { onoff: false })));
    assert!(matches!(
        Cluster::new(0x0008),
        Cluster::GeneralLevelControl(C0008 { current_level: 0 })
    ));
    assert!(matches!(Cluster::new(0x0300), Cluster::LightingColorControl(_)));
    assert!(matches!(Cluster::new(0x0019), Cluster::Unk(0x0019)));
    for id in [0x0000u16, 0x0006, 0x0008, 0x0300, 0x0019, 0xFFFF] {
        assert_eq!(Cluster::new(id).id(), id);
    }
    assert_eq!(Cluster::new(0x0000).name(), Some("Basic".to_string()));
    assert_eq!(Cluster::new(0x0006).name(), Some("GeneralOnOff".to_string()));
    assert_eq!(Cluster::new(0x0008).name(), Some("GeneralLevelControl".to_string()));
    assert_eq!(Cluster::new(0x0300).name(), Some("LightingColorControl".to_string()));
    assert_eq!(Cluster::new(0x0019).name(), None);
}

#[test]
fn fresh_clusters_know_nothing() {
    let c = color(&Cluster::new(0x0300));
    assert_eq!(c, C0300::new());
    assert_eq!(c.current_hue, None);
    assert_eq!(c.color_mode, None);
    assert_eq!(c.color_capabilities, None);
    assert_eq!(c.color_temp_max, None);
    let fresh = Cluster::new(0x0000);
    let b = basic(&fresh);
    assert_eq!(b.zcl_version, 0);
    assert_eq!(b.manufacturer_name, "");
    assert!(!b.device_enabled);
}

#[test]
fn onoff_rows() {
    let mut c = Cluster::new(0x0006);
    c.update(&report(6, 0, &[0x01]));
    assert!(matches!(c, Cluster::GeneralOnOff(C0006 { onoff: true })));
    c.update(&report(6, 1, &[0x00]));
    assert!(matches!(c, Cluster::GeneralOnOff(C0006 { onoff: true })));
    c.update(&report(6, 0, &[0x00]));
    assert!(matches!(c, Cluster::GeneralOnOff(C0006 { onoff: false })));
    c.update(&report(6, 0, &[0x02]));
    assert!(matches!(c, Cluster::GeneralOnOff(C0006 { onoff: true })));
    c.update(&report(6, 0, &[]));
    assert!(matches!(c, Cluster::GeneralOnOff(C0006 { onoff: false })));
}

#[test]
fn level_rows() {
    let mut c = Cluster::new(0x0008);
    c.update(&report(8, 0, &[0xFE]));
    assert!(matches!(c, Cluster::GeneralLevelControl(C0008 { current_level: 0xFE })));
    c.update(&report(8, 0x11, &[0x01]));
    assert!(matches!(c, Cluster::GeneralLevelControl(C0008 { current_level: 0xFE })));
    c.update(&report(8, 0, &[]));
    assert!(matches!(c, Cluster::GeneralLevelControl(C0008 { current_level: 0 })));
}

#[test]
fn color_rows() {
    let mut c = Cluster::new(0x0300);
    c.update(&report(0x0300, 0x0000, &[0x21]));
    assert_eq!(color(&c).current_hue, Some(0x21));
    c.update(&report(0x0300, 0x0001, &[0x42]));
    assert_eq!(color(&c).current_saturation, Some(0x42));
    c.update(&report(0x0300, 0x0003, &[0x12, 0x34]));
    assert_eq!(color(&c).current_x, Some(0x1234));
    c.update(&report(0x0300, 0x0004, &[0xAB, 0xCD]));
    assert_eq!(color(&c).current_y, Some(0xABCD));
    c.update(&report(0x0300, 0x0007, &[0x01, 0x72]));
    assert_eq!(color(&c).color_temperature, Some(370));
    c.update(&report(0x0300, 0x400B, &[0x00, 0x99]));
    assert_eq!(color(&c).color_temp_min, Some(153));
    c.update(&report(0x0300, 0x400C, &[0x01, 0xF4]));
    assert_eq!(color(&c).color_temp_max, Some(500));
    assert_eq!(
        color(&c),
        C0300 {
            current_hue: Some(0x21),
            current_saturation: Some(0x42),
            current_x: Some(0x1234),
            current_y: Some(0xABCD),
            color_temperature: Some(370),
            color_mode: None,
            color_capabilities: None,
            color_temp_min: Some(153),
            color_temp_max: Some(500),
        }
    );
}

#[test]
fn color_mode_row() {
    let mut c = Cluster::new(0x0300);
    c.update(&report(0x0300, 0x0008, &[0]));
    assert_eq!(color(&c).color_mode, Some(ColorMode::HueSat));
    c.update(&report(0x0300, 0x0008, &[1]));
    assert_eq!(color(&c).color_mode, Some(ColorMode::XY));
    c.update(&report(0x0300, 0x0008, &[2]));
    assert_eq!(color(&c).color_mode, Some(ColorMode::Temp));
    c.update(&report(0x0300, 0x0008, &[]));
    assert_eq!(color(&c).color_mode, Some(ColorMode::Temp));
    c.update(&report(0x0300, 0x0008, &[3]));
    assert_eq!(color(&c).color_mode, None);
}

#[test]
fn color_capabilities_row() {
    let mut c = Cluster::new(0x0300);
    c.update(&report(0x0300, 0x400A, &[0x00, 0x19]));
    assert_eq!(
        color(&c).color_capabilities,
        Some(ColorCapabilities {
            hue_sat: true,
            enhanced_hue: false,
            color_loop: false,
            xy: true,
            temp: true,
        })
    );
    c.update(&report(0x0300, 0x400A, &[0xFF, 0x06]));
    assert_eq!(
        color(&c).color_capabilities,
        Some(ColorCapabilities {
            hue_sat: false,
            enhanced_hue: true,
            color_loop: true,
            xy: false,
            temp: false,
        })
    );
    c.update(&report(0x0300, 0x400A, &[0x1F]));
    assert_eq!(color(&c).color_capabilities, Some(ColorCapabilities::from_mask(0xFF06)));
    assert_eq!(
        ColorCapabilities::from_mask(0x001F),
        ColorCapabilities { hue_sat: true, enhanced_hue: true, color_loop: true, xy: true, temp: true }
    );
}

#[test]
fn short_color_values_keep_what_was_known() {
    let mut c = Cluster::new(0x0300);
    for (attr, data) in [
        (0x0000u16, vec![7u8]),
        (0x0001, vec![8]),
        (0x0003, vec![0, 9]),
        (0x0004, vec![0, 10]),
        (0x0007, vec![0, 11]),
        (0x400B, vec![0, 12]),
        (0x400C, vec![0, 13]),
    ] {
        c.update(&report(0x0300, attr, &data));
    }
    let before = color(&c);
    for attr in [0x0000u16, 0x0001] {
        c.update(&report(0x0300, attr, &[]));
    }
    for attr in [0x0003u16, 0x0004, 0x0007, 0x400A, 0x400B, 0x400C] {
        c.update(&report(0x0300, attr, &[1]));
    }
    c.update(&report(0x0300, 0x0002, &[1, 2]));
    c.update(&report(0x0300, 0x4000, &[1, 2]));
    assert_eq!(color(&c), before);
    assert_eq!(before.current_hue, Some(7));
    assert_eq!(before.color_temp_max, Some(13));
}

#[test]
fn basic_rows() {
    let mut c = Cluster::new(0x0000);
    c.update(&report(0, 0x00, &[3]));
    c.update(&report(0, 0x01, &[17]));
    c.update(&report(0, 0x02, &[98]));
    c.update(&report(0, 0x03, &[1]));
    c.update(&report(0, 0x04, b"IKEA of Sweden"));
    c.update(&report(0, 0x05, b"TRADFRI bulb E27"));
    c.update(&report(0, 0x06, b"20190308"));
    c.update(&report(0, 0x07, &[1]));
    c.update(&report(0, 0x10, "Küche".as_bytes()));
    c.update(&report(0, 0x11, &[0x2A]));
    c.update(&report(0, 0x12, &[1]));
    c.update(&report(0, 0x13, &[2]));
    c.update(&report(0, 0x14, &[3]));
    c.update(&report(0, 0x16, b"2.3.050"));
    let b = basic(&c);
    assert_eq!(b.zcl_version, 3);
    assert_eq!(b.application_version, 17);
    assert_eq!(b.stack_version, 98);
    assert_eq!(b.hw_version, 1);
    assert_eq!(b.manufacturer_name, "IKEA of Sweden");
    assert_eq!(b.model_identifier, "TRADFRI bulb E27");
    assert_eq!(b.date_code, "20190308");
    assert_eq!(b.power_source, 1);
    assert_eq!(b.location_description, "Küche");
    assert_eq!(b.physical_environment, 0x2A);
    assert!(b.device_enabled);
    assert_eq!(b.alarm_mask, 2);
    assert_eq!(b.disable_local_config, 3);
    assert_eq!(b.sw_build_id, "2.3.050");
}

#[test]
fn basic_defaults_on_bad_values() {
    let mut c = Cluster::new(0x0000);
    c.update(&report(0, 0x00, &[3]));
    c.update(&report(0, 0x04, b"IKEA"));
    c.update(&report(0, 0x12, &[0]));
    assert!(!basic(&c).device_enabled);
    c.update(&report(0, 0x00, &[]));
    c.update(&report(0, 0x04, &[0xFF, 0xFE]));
    c.update(&report(0, 0x12, &[]));
    c.update(&report(0, 0x15, &[9]));
    c.update(&report(0, 0x08, &[9]));
    let b = basic(&c);
    assert_eq!(b.zcl_version, 0);
    assert_eq!(b.manufacturer_name, "");
    assert!(b.device_enabled);
    assert_eq!(b.application_version, 0);
}

#[test]
fn untracked_cluster_ignores_reports() {
    let mut c = Cluster::new(0x0019);
    c.update(&report(0x0019, 0, &[1]));
    assert!(matches!(c, Cluster::Unk(0x0019)));
}
