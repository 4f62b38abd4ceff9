//! The devices on the network, their endpoints, and the clusters on each
//! endpoint.
//!
//! Within a device no two endpoints have the same id, and within a cluster
//! list of an endpoint no two clusters have the same id. Every operation here
//! that adds endpoints or clusters keeps the first of several with one id.

use crate::cluster::{Cluster, ClusterView};
use crate::responses::{
    AttributeReport, DeviceAnnounce, ReadAttributeResponse, SimpleDescriptorResponse,
};
use vstd::prelude::*;

verus! {

/// The index of the first occurrence of `key` in `keys`, if it occurs.
pub open spec fn position(keys: Seq<int>, key: int) -> Option<int>
    decreases keys.len(),
{
    if keys.len() == 0 {
        None
    } else {
        match position(keys.drop_last(), key) {
            Some(i) => Some(i),
            None => if keys.last() == key {
                Some(keys.len() - 1)
            } else {
                None
            },
        }
    }
}

/// Whether no value occurs twice in `keys`.
pub open spec fn distinct(keys: Seq<int>) -> bool {
    forall|i: int, j: int| 0 <= i < j < keys.len() ==> keys[i] != keys[j]
}

/// `position` finds an occurrence before which there is none, and finds
/// none only where there is none.
pub proof fn lemma_position(keys: Seq<int>, key: int)
    ensures
        match position(keys, key) {
            Some(i) => 0 <= i < keys.len() && keys[i] == key && forall|j: int|
                0 <= j < i ==> keys[j] != key,
            None => forall|j: int| 0 <= j < keys.len() ==> keys[j] != key,
        },
    decreases keys.len(),
{
    if keys.len() > 0 {
        let init = keys.drop_last();
        lemma_position(init, key);
        assert(forall|j: int| 0 <= j < init.len() ==> init[j] == keys[j]);
    }
}

/// An occurrence before which there is none is the one that `position` finds.
pub proof fn lemma_position_is(keys: Seq<int>, key: int, i: int)
    requires
        0 <= i < keys.len(),
        keys[i] == key,
        forall|j: int| 0 <= j < i ==> keys[j] != key,
    ensures
        position(keys, key) == Some(i),
{
    lemma_position(keys, key);
}

/// The ids of the clusters of a list, in order.
pub open spec fn cluster_ids(clusters: Seq<ClusterView>) -> Seq<int> {
    Seq::new(clusters.len(), |i: int| clusters[i].id() as int)
}

/// The clusters of a list as mathematical values, in order.
pub open spec fn cluster_views(clusters: Seq<Cluster>) -> Seq<ClusterView> {
    Seq::new(clusters.len(), |i: int| clusters[i]@)
}

/// The cluster list that a list of ids describes: a fresh cluster for each
/// id, in order, but only for the first occurrence of an id.
pub open spec fn fresh_clusters(ids: Seq<u16>) -> Seq<ClusterView>
    decreases ids.len(),
{
    if ids.len() == 0 {
        Seq::empty()
    } else {
        let init = fresh_clusters(ids.drop_last());
        if position(cluster_ids(init), ids.last() as int) is Some {
            init
        } else {
            init.push(ClusterView::fresh(ids.last()))
        }
    }
}

/// No id occurs twice in a list made by [`fresh_clusters`].
pub proof fn lemma_fresh_clusters_distinct(ids: Seq<u16>)
    ensures
        distinct(cluster_ids(fresh_clusters(ids))),
    decreases ids.len(),
{
    if ids.len() > 0 {
        let init = fresh_clusters(ids.drop_last());
        lemma_fresh_clusters_distinct(ids.drop_last());
        lemma_position(cluster_ids(init), ids.last() as int);
        assert(cluster_ids(init.push(ClusterView::fresh(ids.last()))) =~= cluster_ids(init).push(
            ids.last() as int,
        ));
    }
}

/// An addressable unit of a device, with the clusters it takes input for and
/// those it sends output for.
#[derive(Clone, Debug)]
pub struct Endpoint {
    pub id: u8,
    pub in_clusters: Vec<Cluster>,
    pub out_clusters: Vec<Cluster>,
}

/// An endpoint as a mathematical value.
pub struct EndpointView {
    pub id: u8,
    pub in_clusters: Seq<ClusterView>,
    pub out_clusters: Seq<ClusterView>,
}

impl EndpointView {
    /// An endpoint of which only the id is known.
    pub open spec fn fresh(id: u8) -> EndpointView {
        EndpointView { id, in_clusters: Seq::empty(), out_clusters: Seq::empty() }
    }

    /// Whether no cluster id occurs twice in either list.
    pub open spec fn wf(self) -> bool {
        distinct(cluster_ids(self.in_clusters)) && distinct(cluster_ids(self.out_clusters))
    }

    /// The endpoint after a report: the first input cluster with the
    /// reported cluster id takes the value over; without such a cluster
    /// nothing changes.
    pub open spec fn updated(self, report: AttributeReport) -> EndpointView {
        match position(cluster_ids(self.in_clusters), report.cluster_id as int) {
            Some(i) => EndpointView {
                in_clusters: self.in_clusters.update(
                    i,
                    self.in_clusters[i].updated(report.attr_enum, report.data),
                ),
                ..self
            },
            None => self,
        }
    }
}

impl View for Endpoint {
    type V = EndpointView;

    open spec fn view(&self) -> EndpointView {
        EndpointView {
            id: self.id,
            in_clusters: cluster_views(self.in_clusters@),
            out_clusters: cluster_views(self.out_clusters@),
        }
    }
}

/// The first position in `clusters` of a cluster with the given id.
fn find_cluster(clusters: &Vec<Cluster>, id: u16) -> (found: Option<usize>)
    ensures
        match found {
            Some(i) => i < clusters@.len() && position(
                cluster_ids(cluster_views(clusters@)),
                id as int,
            ) == Some(i as int),
            None => position(cluster_ids(cluster_views(clusters@)), id as int) is None,
        },
{
    let ghost keys = cluster_ids(cluster_views(clusters@));
    let mut i: usize = 0;
    while i < clusters.len()
        invariant
            i <= clusters.len(),
            keys == cluster_ids(cluster_views(clusters@)),
            forall|j: int| 0 <= j < i ==> keys[j] != id,
        decreases clusters.len() - i,
    {
        if clusters[i].id() == id {
            proof {
                lemma_position_is(keys, id as int, i as int);
            }
            return Some(i);
        }
        i += 1;
    }
    proof {
        lemma_position(keys, id as int);
    }
    None
}

/// A fresh cluster for each id of a list, in order, the first occurrence of
/// an id only.
fn make_clusters(ids: &Vec<u16>) -> (clusters: Vec<Cluster>)
    ensures
        cluster_views(clusters@) == fresh_clusters(ids@),
{
    let mut clusters: Vec<Cluster> = Vec::new();
    let mut i: usize = 0;
    while i < ids.len()
        invariant
            i <= ids.len(),
            cluster_views(clusters@) == fresh_clusters(ids@.take(i as int)),
        decreases ids.len() - i,
    {
        let id = ids[i];
        proof {
            assert(ids@.take(i + 1).drop_last() == ids@.take(i as int));
        }
        if find_cluster(&clusters, id).is_none() {
            clusters.push(Cluster::new(id));
        }
        i += 1;
    }
    proof {
        assert(ids@.take(ids.len() as int) == ids@);
    }
    clusters
}

impl Endpoint {
    /// An endpoint of which only the id is known.
    pub fn new(id: u8) -> (e: Self)
        ensures
            e@ == EndpointView::fresh(id),
    {
        let e = Self { id, in_clusters: Vec::new(), out_clusters: Vec::new() };
        assert(e@.in_clusters =~= Seq::empty() && e@.out_clusters =~= Seq::empty());
        e
    }

    /// Replaces the input clusters.
    pub fn set_in_clusters(&mut self, clusters: Vec<Cluster>)
        ensures
            final(self).id == old(self).id,
            final(self).in_clusters == clusters,
            final(self).out_clusters == old(self).out_clusters,
    {
        self.in_clusters = clusters;
    }

    /// Replaces the output clusters.
    pub fn set_out_clusters(&mut self, clusters: Vec<Cluster>)
        ensures
            final(self).id == old(self).id,
            final(self).in_clusters == old(self).in_clusters,
            final(self).out_clusters == clusters,
    {
        self.out_clusters = clusters;
    }

    /// The input clusters.
    pub fn get_in_clusters(&self) -> (clusters: &Vec<Cluster>)
        ensures
            *clusters == self.in_clusters,
    {
        &self.in_clusters
    }

    /// Takes a reported attribute value over into the input cluster that the
    /// report names.
    pub fn update_cluster(&mut self, msg: &ReadAttributeResponse)
        ensures
            final(self)@ == old(self)@.updated(msg@),
    {
        match find_cluster(&self.in_clusters, msg.cluster_id) {
            Some(i) => {
                let ghost before = cluster_views(self.in_clusters@);
                self.in_clusters[i].update(msg);
                assert(cluster_views(self.in_clusters@) =~= before.update(
                    i as int,
                    before[i as int].updated(msg.attr_enum, msg.data@),
                ));
            },
            None => {},
        }
    }
}

/// The ids of the endpoints of a list, in order.
pub open spec fn endpoint_ids(endpoints: Seq<EndpointView>) -> Seq<int> {
    Seq::new(endpoints.len(), |i: int| endpoints[i].id as int)
}

/// The endpoints of a list as mathematical values, in order.
pub open spec fn endpoint_views(endpoints: Seq<Endpoint>) -> Seq<EndpointView> {
    Seq::new(endpoints.len(), |i: int| endpoints[i]@)
}

/// The endpoint list after the ids of `ids` were reported: a fresh endpoint
/// is added, in order, for each id that the list does not hold yet.
pub open spec fn with_endpoints(endpoints: Seq<EndpointView>, ids: Seq<u8>) -> Seq<EndpointView>
    decreases ids.len(),
{
    if ids.len() == 0 {
        endpoints
    } else {
        let init = with_endpoints(endpoints, ids.drop_last());
        if position(endpoint_ids(init), ids.last() as int) is Some {
            init
        } else {
            init.push(EndpointView::fresh(ids.last()))
        }
    }
}

/// A device on the network. Its identity is its short address.
#[derive(Clone, Debug)]
pub struct Device {
    pub id: Option<u8>,
    pub short_address: u16,
    pub ieee_address: u64,
    /// `true` for mains power, `false` for a battery.
    pub power_source: Option<bool>,
    pub link_quality: Option<u8>,
    pub endpoints: Vec<Endpoint>,
}

/// A device as a mathematical value.
pub struct DeviceView {
    pub id: Option<u8>,
    pub short_address: u16,
    pub ieee_address: u64,
    pub power_source: Option<bool>,
    pub link_quality: Option<u8>,
    pub endpoints: Seq<EndpointView>,
}

impl DeviceView {
    /// A device of which only the addresses are known.
    pub open spec fn fresh(short_address: u16, ieee_address: u64) -> DeviceView {
        DeviceView {
            id: None,
            short_address,
            ieee_address,
            power_source: None,
            link_quality: None,
            endpoints: Seq::empty(),
        }
    }

    /// The device that a record of a devices list describes.
    pub open spec fn listed(record: crate::responses::Device) -> DeviceView {
        DeviceView {
            id: Some(record.id),
            short_address: record.short_address,
            ieee_address: record.ieee_address,
            power_source: Some(record.power_source),
            link_quality: Some(record.link_quality),
            endpoints: Seq::empty(),
        }
    }

    /// Whether no endpoint id occurs twice, and in no cluster list of an
    /// endpoint a cluster id.
    pub open spec fn wf(self) -> bool {
        &&& distinct(endpoint_ids(self.endpoints))
        &&& forall|i: int| 0 <= i < self.endpoints.len() ==> (#[trigger] self.endpoints[i]).wf()
    }

    /// The device after its active endpoints were reported.
    pub open spec fn with_endpoints(self, ids: Seq<u8>) -> DeviceView {
        DeviceView { endpoints: with_endpoints(self.endpoints, ids), ..self }
    }

    /// The device after a simple descriptor was reported: every endpoint it
    /// has gets fresh cluster lists made from the reported ids.
    pub open spec fn with_clusters(self, ins: Seq<u16>, outs: Seq<u16>) -> DeviceView {
        DeviceView {
            endpoints: Seq::new(
                self.endpoints.len(),
                |i: int|
                    EndpointView {
                        id: self.endpoints[i].id,
                        in_clusters: fresh_clusters(ins),
                        out_clusters: fresh_clusters(outs),
                    },
            ),
            ..self
        }
    }

    /// The device after an attribute report: the first endpoint with the
    /// reported id takes it; without such an endpoint nothing changes.
    pub open spec fn updated(self, report: AttributeReport) -> DeviceView {
        match position(endpoint_ids(self.endpoints), report.endpoint as int) {
            Some(i) => DeviceView {
                endpoints: self.endpoints.update(i, self.endpoints[i].updated(report)),
                ..self
            },
            None => self,
        }
    }
}

impl View for Device {
    type V = DeviceView;

    open spec fn view(&self) -> DeviceView {
        DeviceView {
            id: self.id,
            short_address: self.short_address,
            ieee_address: self.ieee_address,
            power_source: self.power_source,
            link_quality: self.link_quality,
            endpoints: endpoint_views(self.endpoints@),
        }
    }
}

impl Device {
    /// A device of which only the addresses are known.
    pub fn new(short_address: u16, ieee_address: u64) -> (d: Self)
        ensures
            d@ == DeviceView::fresh(short_address, ieee_address),
            d@.wf(),
    {
        let d = Self {
            short_address,
            ieee_address,
            id: None,
            power_source: None,
            link_quality: None,
            endpoints: Vec::new(),
        };
        assert(d@.endpoints =~= Seq::empty());
        d
    }

    /// The device that a record of a devices list describes.
    pub fn from_devices_list_elem(device: crate::responses::Device) -> (d: Self)
        ensures
            d@ == DeviceView::listed(device),
            d@.wf(),
    {
        let d = Self {
            short_address: device.short_address,
            ieee_address: device.ieee_address,
            id: Some(device.id),
            power_source: Some(device.power_source),
            link_quality: Some(device.link_quality),
            endpoints: Vec::new(),
        };
        assert(d@.endpoints =~= Seq::empty());
        d
    }

    /// The device that announced itself.
    pub fn from_device_announce(msg: &DeviceAnnounce) -> (d: Self)
        ensures
            d@ == DeviceView::fresh(msg.short_address, msg.ieee_address),
            d@.wf(),
    {
        Device::new(msg.short_address, msg.ieee_address)
    }

    /// The first position in the endpoint list of an endpoint with the given id.
    fn find_endpoint(&self, id: u8) -> (found: Option<usize>)
        ensures
            match found {
                Some(i) => i < self.endpoints@.len() && position(
                    endpoint_ids(self@.endpoints),
                    id as int,
                ) == Some(i as int),
                None => position(endpoint_ids(self@.endpoints), id as int) is None,
            },
    {
        let ghost keys = endpoint_ids(self@.endpoints);
        let mut i: usize = 0;
        while i < self.endpoints.len()
            invariant
                i <= self.endpoints.len(),
                keys == endpoint_ids(self@.endpoints),
                forall|j: int| 0 <= j < i ==> keys[j] != id,
            decreases self.endpoints.len() - i,
        {
            if self.endpoints[i].id == id {
                proof {
                    lemma_position_is(keys, id as int, i as int);
                }
                return Some(i);
            }
            i += 1;
        }
        proof {
            lemma_position(keys, id as int);
        }
        None
    }

    /// Adds a fresh endpoint for each reported id that the device does not
    /// have yet.
    pub fn add_endpoints(&mut self, endpoints: &Vec<u8>)
        ensures
            final(self)@ == old(self)@.with_endpoints(endpoints@),
            old(self)@.wf() ==> final(self)@.wf(),
    {
        let mut i: usize = 0;
        while i < endpoints.len()
            invariant
                i <= endpoints.len(),
                self@ == old(self)@.with_endpoints(endpoints@.take(i as int)),
                old(self)@.wf() ==> self@.wf(),
            decreases endpoints.len() - i,
        {
            let id = endpoints[i];
            proof {
                assert(endpoints@.take(i + 1).drop_last() == endpoints@.take(i as int));
                lemma_position(endpoint_ids(self@.endpoints), id as int);
            }
            if self.find_endpoint(id).is_none() {
                let ghost before = self@.endpoints;
                self.endpoints.push(Endpoint::new(id));
                assert(self@.endpoints =~= before.push(EndpointView::fresh(id)));
                assert(endpoint_ids(self@.endpoints) =~= endpoint_ids(before).push(id as int));
            }
            i += 1;
        }
        proof {
            assert(endpoints@.take(endpoints.len() as int) == endpoints@);
        }
    }

    /// Gives every endpoint of the device fresh cluster lists made from the
    /// ids that a simple descriptor reports.
    pub fn set_endpoints_clusters(&mut self, msg: &SimpleDescriptorResponse)
        ensures
            final(self)@ == old(self)@.with_clusters(msg.in_cluster_list@, msg.out_cluster_list@),
            old(self)@.wf() ==> final(self)@.wf(),
    {
        let ghost before = self@;
        let mut i: usize = 0;
        while i < self.endpoints.len()
            invariant
                i <= self.endpoints.len(),
                self.endpoints.len() == before.endpoints.len(),
                self.id == before.id,
                self.short_address == before.short_address,
                self.ieee_address == before.ieee_address,
                self.power_source == before.power_source,
                self.link_quality == before.link_quality,
                forall|j: int|
                    0 <= j < self.endpoints.len() ==> (#[trigger] self.endpoints@[j]).id
                        == before.endpoints[j].id,
                forall|j: int|
                    0 <= j < i ==> (#[trigger] self.endpoints@[j])@ == (EndpointView {
                        id: before.endpoints[j].id,
                        in_clusters: fresh_clusters(msg.in_cluster_list@),
                        out_clusters: fresh_clusters(msg.out_cluster_list@),
                    }),
            decreases self.endpoints.len() - i,
        {
            let in_clusters = make_clusters(&msg.in_cluster_list);
            let out_clusters = make_clusters(&msg.out_cluster_list);
            self.endpoints[i].set_in_clusters(in_clusters);
            self.endpoints[i].set_out_clusters(out_clusters);
            i += 1;
        }
        proof {
            lemma_fresh_clusters_distinct(msg.in_cluster_list@);
            lemma_fresh_clusters_distinct(msg.out_cluster_list@);
            assert(self@.endpoints =~= before.with_clusters(
                msg.in_cluster_list@,
                msg.out_cluster_list@,
            ).endpoints);
            assert(endpoint_ids(self@.endpoints) =~= endpoint_ids(before.endpoints));
        }
    }

    /// The first endpoint with the given id.
    pub fn get_endpoint(&self, id: u8) -> (found: Option<&Endpoint>)
        ensures
            match position(endpoint_ids(self@.endpoints), id as int) {
                Some(i) => found == Some(&self.endpoints[i]),
                None => found is None,
            },
    {
        match self.find_endpoint(id) {
            Some(i) => Some(&self.endpoints[i]),
            None => None,
        }
    }

    /// Takes a reported attribute value over into the endpoint and the input
    /// cluster that the report names.
    pub fn update_cluster(&mut self, msg: &ReadAttributeResponse)
        ensures
            final(self)@ == old(self)@.updated(msg@),
            old(self)@.wf() ==> final(self)@.wf(),
    {
        match self.find_endpoint(msg.endpoint) {
            Some(i) => {
                let ghost before = self@.endpoints;
                self.endpoints[i].update_cluster(msg);
                assert(self@.endpoints =~= before.update(i as int, before[i as int].updated(msg@)));
                proof {
                    lemma_updated_keeps_ids(before[i as int], msg@);
                    assert(endpoint_ids(self@.endpoints) =~= endpoint_ids(before));
                }
            },
            None => {},
        }
    }
}

/// A report changes no id: the endpoint keeps its id and each of its
/// clusters keeps its own, so a well-formed endpoint stays well-formed.
pub proof fn lemma_updated_keeps_ids(e: EndpointView, report: AttributeReport)
    ensures
        e.updated(report).id == e.id,
        cluster_ids(e.updated(report).in_clusters) == cluster_ids(e.in_clusters),
        e.updated(report).out_clusters == e.out_clusters,
        e.wf() ==> e.updated(report).wf(),
{
    lemma_position(cluster_ids(e.in_clusters), report.cluster_id as int);
}

/// Reporting endpoints keeps a list of endpoints free of repeated ids and
/// its endpoints well-formed.
pub proof fn lemma_with_endpoints_wf(endpoints: Seq<EndpointView>, ids: Seq<u8>)
    requires
        distinct(endpoint_ids(endpoints)),
        forall|i: int| 0 <= i < endpoints.len() ==> (#[trigger] endpoints[i]).wf(),
    ensures
        distinct(endpoint_ids(with_endpoints(endpoints, ids))),
        forall|i: int|
            0 <= i < with_endpoints(endpoints, ids).len() ==> (#[trigger] with_endpoints(
                endpoints,
                ids,
            )[i]).wf(),
    decreases ids.len(),
{
    if ids.len() > 0 {
        let init = with_endpoints(endpoints, ids.drop_last());
        lemma_with_endpoints_wf(endpoints, ids.drop_last());
        lemma_position(endpoint_ids(init), ids.last() as int);
        assert(endpoint_ids(init.push(EndpointView::fresh(ids.last()))) =~= endpoint_ids(init).push(
            ids.last() as int,
        ));
    }
}

/// A well-formed device stays well-formed, under the same short address,
/// whatever is reported of it: endpoints, clusters, or an attribute value.
pub proof fn lemma_device_stays_wf(
    d: DeviceView,
    ids: Seq<u8>,
    ins: Seq<u16>,
    outs: Seq<u16>,
    report: AttributeReport,
)
    requires
        d.wf(),
    ensures
        d.with_endpoints(ids).wf(),
        d.with_endpoints(ids).short_address == d.short_address,
        d.with_clusters(ins, outs).wf(),
        d.with_clusters(ins, outs).short_address == d.short_address,
        d.updated(report).wf(),
        d.updated(report).short_address == d.short_address,
{
    lemma_with_endpoints_wf(d.endpoints, ids);
    lemma_fresh_clusters_distinct(ins);
    lemma_fresh_clusters_distinct(outs);
    assert(endpoint_ids(d.with_clusters(ins, outs).endpoints) =~= endpoint_ids(d.endpoints));
    lemma_position(endpoint_ids(d.endpoints), report.endpoint as int);
    match position(endpoint_ids(d.endpoints), report.endpoint as int) {
        Some(i) => {
            lemma_updated_keeps_ids(d.endpoints[i], report);
            assert(endpoint_ids(d.updated(report).endpoints) =~= endpoint_ids(d.endpoints));
        },
        None => {},
    }
}

} // verus!
