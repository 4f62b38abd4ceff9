use zigate::cluster::{C0006, Cluster};
use zigate::device::{Device, Endpoint};
use zigate::responses::{DeviceAnnounce, ReadAttributeResponse, SimpleDescriptorResponse};

fn descriptor(ins: Vec<u16>, outs: Vec<u16>) -> SimpleDescriptorResponse {
    SimpleDescriptorResponse {
        seq_num: 0,
        status: 0,
        address: 0x1234,
        len: 0,
        endpoint: 1,
        profile: 0x0104,
        device_id: 0x0100,
        version: 0,
        reserved: 0,
        in_cluster_count: ins.len() as u8,
        in_cluster_list: ins,
        out_cluster_count: outs.len() as u8,
        out_cluster_list: outs,
    }
}

fn report(endpoint: u8, cluster_id: u16, attr_enum: u16, data: &[u8]) -> ReadAttributeResponse {
    ReadAttributeResponse {
        seq_num: 1,
        src_addr: 0x1234,
        endpoint,
        cluster_id,
        attr_enum,
        attr_status: 0,
        attr_data_type: 0x10,
        attr_size: data.len() as u16,
        data: data.to_vec(),
    }
}

fn ids(clusters: &[Cluster]) -> Vec<u16> {
    clusters.iter().map(|c| c.id()).collect()
}

#[test]
fn devices_from_sightings() {
    let d = Device::new(0x1234, 0x0011_2233_4455_66FF);
    assert_eq!(d.short_address, 0x1234);
    assert_eq!(d.ieee_address, 0x0011_2233_4455_66FF);
    assert_eq!((d.id, d.power_source, d.link_quality), (None, None, None));
    assert!(d.endpoints.is_empty());
    let d = Device::from_device_announce(&DeviceAnnounce {
        short_address: 0xBEEF,
        ieee_address: 42,
        mac_capability: 0x8E,
        flags: 0,
        rejoin_info: 0,
    });
    assert_eq!((d.short_address, d.ieee_address), (0xBEEF, 42));
    assert_eq!((d.id, d.power_source, d.link_quality), (None, None, None));
    let d = Device::from_devices_list_elem(zigate::responses::Device {
        id: 3,
        short_address: 0xCAFE,
        ieee_address: 43,
        power_source: false,
        link_quality: 200,
    });
    assert_eq!((d.short_address, d.ieee_address), (0xCAFE, 43));
    assert_eq!((d.id, d.power_source, d.link_quality), (Some(3), Some(false), Some(200)));
    assert!(d.endpoints.is_empty());
}

#[test]
fn endpoints_are_added_once() {
    let mut d = Device::new(1, 2);
    d.add_endpoints(&vec![1, 3, 1]);
    assert_eq!(d.endpoints.iter().map(|e| e.id).collect::<Vec<u8>>(), vec![1, 3]);
    d.add_endpoints(&vec![3, 2]);
    assert_eq!(d.endpoints.iter().map(|e| e.id).collect::<Vec<u8>>(), vec![1, 3, 2]);
    d.add_endpoints(&vec![]);
    assert_eq!(d.endpoints.len(), 3);
    assert_eq!(d.get_endpoint(3).unwrap().id, 3);
    assert!(d.get_endpoint(4).is_none());
    assert!(d.get_endpoint(1).unwrap().get_in_clusters().is_empty());
}

#[test]
fn clusters_are_set_on_every_endpoint() {
    let mut d = Device::new(1, 2);
    d.add_endpoints(&vec![1, 3]);
    d.set_endpoints_clusters(&descriptor(vec![0x0000, 0x0006, 0x0008, 0x0006, 0x0019], vec![0x0019, 0x0019]));
    for endpoint in &d.endpoints {
        assert_eq!(ids(endpoint.get_in_clusters()), vec![0x0000, 0x0006, 0x0008, 0x0019]);
        assert_eq!(ids(&endpoint.out_clusters), vec![0x0019]);
        assert!(matches!(endpoint.in_clusters[1], Cluster::GeneralOnOff(C0006 { onoff: false })));
        assert!(matches!(endpoint.in_clusters[3], Cluster::Unk(0x0019)));
    }
    assert_eq!(d.endpoints.iter().map(|e| e.id).collect::<Vec<u8>>(), vec![1, 3]);
    d.set_endpoints_clusters(&descriptor(vec![0x0300], vec![]));
    for endpoint in &d.endpoints {
        assert_eq!(ids(endpoint.get_in_clusters()), vec![0x0300]);
        assert!(endpoint.out_clusters.is_empty());
    }
}

#[test]
fn reports_reach_the_named_input_cluster() {
    let mut d = Device::new(1, 2);
    d.add_endpoints(&vec![1, 3]);
    d.set_endpoints_clusters(&descriptor(vec![0x0006, 0x0008], vec![0x0006]));
    d.update_cluster(&report(3, 0x0006, 0, &[1]));
    assert!(matches!(d.endpoints[0].in_clusters[0], Cluster::GeneralOnOff(C0006 { onoff: false })));
    assert!(matches!(d.endpoints[1].in_clusters[0], Cluster::GeneralOnOff(C0006 { onoff: true })));
    assert!(matches!(d.endpoints[1].out_clusters[0], Cluster::GeneralOnOff(C0006 { onoff: false })));
    d.update_cluster(&report(3, 0x0008, 0, &[77]));
    match &d.endpoints[1].in_clusters[1] {
        Cluster::GeneralLevelControl(c) => assert_eq!(c.current_level, 77),
        _ => panic!("not a level cluster"),
    }
    // no such endpoint, no such cluster: nothing changes
    d.update_cluster(&report(2, 0x0006, 0, &[1]));
    d.update_cluster(&report(1, 0x0300, 0, &[1]));
    assert!(matches!(d.endpoints[0].in_clusters[0], Cluster::GeneralOnOff(C0006 { onoff: false })));
    assert_eq!(d.endpoints[0].in_clusters.len(), 2);
}

#[test]
fn endpoint_cluster_lists() {
    let mut e = Endpoint::new(9);
    assert_eq!(e.id, 9);
    assert!(e.get_in_clusters().is_empty());
    assert!(e.out_clusters.is_empty());
    e.set_in_clusters(vec![Cluster::new(6), Cluster::new(8)]);
    e.set_out_clusters(vec![Cluster::new(0x19)]);
    assert_eq!(ids(e.get_in_clusters()), vec![6, 8]);
    assert_eq!(ids(&e.out_clusters), vec![0x19]);
    e.update_cluster(&report(9, 8, 0, &[5]));
    match &e.in_clusters[1] {
        Cluster::GeneralLevelControl(c) => assert_eq!(c.current_level, 5),
        _ => panic!("not a level cluster"),
    }
    e.update_cluster(&report(9, 0x19, 0, &[5]));
    assert_eq!(ids(e.get_in_clusters()), vec![6, 8]);
}
