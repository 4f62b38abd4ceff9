//! The coordinator: what the driver knows, how a received frame changes it,
//! and which frames the driver sends in turn.
//!
//! Discovery runs in three steps. A device that is seen for the first time,
//! in an announcement or in a devices list, is recorded and asked for its
//! active endpoints. When these arrive, the endpoints are recorded and each
//! is asked for its simple descriptor. When a simple descriptor arrives, the
//! endpoints of the device get their clusters. A counter tells how many
//! answers are still awaited; it never drops below 0.
//!
//! The coordinator performs no I/O: a caller hands it the frames that came
//! in and sends the frames that it hands back.

use crate::command::{Command, Frame, MessageType};
use crate::commands::{active_endpoint_request, frame_of, simple_descriptor_request};
use crate::device::{Device, DeviceView};
use crate::error::ZigateError;
use crate::responses::{
    ActiveEndpoints, ActiveEndpointsView, AttributeReport, DevicesList, ReadAttributeResponse,
    Response, ResponseBox, ResponseView, SimpleDescriptorResponse, SimpleDescriptorView, Status,
    parse_frame,
};
use crate::wire::be16_bytes;
use crate::zigate::invariants::lemma_received;
use std::collections::HashMap;
use vstd::prelude::*;

pub mod invariants;
pub mod query;
pub mod wait;

pub use query::Attribute;
pub use wait::{VersionStep, Wait, POLLS};

verus! {

broadcast use vstd::std_specs::hash::group_hash_axioms;

/// What the driver knows.
pub struct Zigate {
    /// The latest frame of each message type, until a client takes it.
    pub last_resp: HashMap<u16, Command>,
    /// The latest acknowledgement of each command type.
    pub last_status: HashMap<u16, Command>,
    /// How many answers the discovery still awaits.
    pub exp_resp: u16,
    /// The devices seen so far, by short address.
    pub devices: HashMap<u16, Device>,
    /// The firmware version, once the module has told it.
    pub version: Option<String>,
}

/// What the driver knows, as a mathematical value.
pub struct ZigateState {
    pub last_resp: Map<u16, Frame>,
    pub last_status: Map<u16, Frame>,
    pub exp_resp: u16,
    pub devices: Map<u16, DeviceView>,
    pub version: Option<Seq<char>>,
}

/// The frames that a map of commands holds.
pub open spec fn frames_of(m: Map<u16, Command>) -> Map<u16, Frame> {
    Map::new(|k: u16| m.contains_key(k), |k: u16| m[k]@)
}

/// The devices that a map holds, as mathematical values.
pub open spec fn devices_of(m: Map<u16, Device>) -> Map<u16, DeviceView> {
    Map::new(|k: u16| m.contains_key(k), |k: u16| m[k]@)
}

/// The frames of a list of commands, in order.
pub open spec fn frames(cmds: Seq<Command>) -> Seq<Frame> {
    Seq::new(cmds.len(), |i: int| cmds[i]@)
}

impl View for Zigate {
    type V = ZigateState;

    open spec fn view(&self) -> ZigateState {
        ZigateState {
            last_resp: frames_of(self.last_resp@),
            last_status: frames_of(self.last_status@),
            exp_resp: self.exp_resp,
            devices: devices_of(self.devices@),
            version: match self.version {
                Some(text) => Some(text@),
                None => None,
            },
        }
    }
}

/// The counter after `n` more answers are awaited. It stops at the largest
/// value it can hold.
pub open spec fn counted_up(count: u16, n: nat) -> u16 {
    if count + n <= u16::MAX {
        (count + n) as u16
    } else {
        u16::MAX
    }
}

/// The counter after one awaited answer arrived. It stops at 0.
pub open spec fn counted_down(count: u16) -> u16 {
    if count > 0 {
        (count - 1) as u16
    } else {
        0
    }
}

/// The request for the active endpoints of a device.
pub open spec fn endpoints_request(addr: u16) -> Frame {
    frame_of(MessageType::ActiveEndpoint, be16_bytes(addr))
}

/// The request for the simple descriptor of an endpoint.
pub open spec fn descriptor_request(addr: u16, endpoint: u8) -> Frame {
    frame_of(MessageType::SimpleDescriptorRequest, be16_bytes(addr) + seq![endpoint])
}

impl ZigateState {
    /// The state before any frame came in.
    pub open spec fn empty() -> ZigateState {
        ZigateState {
            last_resp: Map::empty(),
            last_status: Map::empty(),
            exp_resp: 0,
            devices: Map::empty(),
            version: None,
        }
    }

    /// Whether every device stands under its own short address and is
    /// well-formed, every kept frame stands under its own message type, and
    /// every kept acknowledgement stands under the command type it names.
    pub open spec fn wf(self) -> bool {
        &&& forall|k: u16| #[trigger]
            self.devices.contains_key(k) ==> self.devices[k].short_address == k
                && self.devices[k].wf()
        &&& forall|k: u16| #[trigger]
            self.last_resp.contains_key(k) ==> self.last_resp[k].msg_type == k
        &&& forall|k: u16| #[trigger]
            self.last_status.contains_key(k) ==> Status::parse(self.last_status[k]) is Some
                && Status::parse(self.last_status[k])->Some_0.packet_type == k
    }

    /// The state after `f` was kept as the latest frame of its type.
    pub open spec fn recorded(self, f: Frame) -> ZigateState {
        ZigateState { last_resp: self.last_resp.insert(f.msg_type, f), ..self }
    }

    /// The state after a device was seen: a device that is not known yet is
    /// recorded and one more answer is awaited; a known one changes nothing.
    pub open spec fn seen(self, device: DeviceView) -> ZigateState {
        if self.devices.contains_key(device.short_address) {
            self
        } else {
            ZigateState {
                devices: self.devices.insert(device.short_address, device),
                exp_resp: counted_up(self.exp_resp, 1),
                ..self
            }
        }
    }

    /// What is sent after a device was seen: a request for its active
    /// endpoints if it is not known yet, nothing otherwise.
    pub open spec fn seen_requests(self, device: DeviceView) -> Seq<Frame> {
        if self.devices.contains_key(device.short_address) {
            Seq::empty()
        } else {
            seq![endpoints_request(device.short_address)]
        }
    }

    /// The state after the records of a devices list were seen, one after
    /// the other.
    pub open spec fn listed(self, records: Seq<crate::responses::Device>) -> ZigateState
        decreases records.len(),
    {
        if records.len() == 0 {
            self
        } else {
            self.listed(records.drop_last()).seen(DeviceView::listed(records.last()))
        }
    }

    /// What is sent after the records of a devices list were seen, one after
    /// the other.
    pub open spec fn listed_requests(self, records: Seq<crate::responses::Device>) -> Seq<Frame>
        decreases records.len(),
    {
        if records.len() == 0 {
            Seq::empty()
        } else {
            self.listed_requests(records.drop_last()) + self.listed(
                records.drop_last(),
            ).seen_requests(DeviceView::listed(records.last()))
        }
    }

    /// The state after the active endpoints of a device were reported: a
    /// known device gets the endpoints, one more answer is awaited for each
    /// reported endpoint, and one awaited answer has arrived. A report on an
    /// unknown device changes nothing.
    pub open spec fn endpoints_reported(self, report: ActiveEndpointsView) -> ZigateState {
        if self.devices.contains_key(report.address) {
            ZigateState {
                devices: self.devices.insert(
                    report.address,
                    self.devices[report.address].with_endpoints(report.endpoint_list),
                ),
                exp_resp: counted_down(counted_up(self.exp_resp, report.endpoint_list.len())),
                ..self
            }
        } else {
            self
        }
    }

    /// What is sent after the active endpoints of a device were reported: a
    /// request for the simple descriptor of each reported endpoint, in
    /// order, if the device is known; nothing otherwise.
    pub open spec fn endpoints_requests(self, report: ActiveEndpointsView) -> Seq<Frame> {
        if self.devices.contains_key(report.address) {
            Seq::new(
                report.endpoint_list.len(),
                |i: int| descriptor_request(report.address, report.endpoint_list[i]),
            )
        } else {
            Seq::empty()
        }
    }

    /// The state after a simple descriptor was reported: the endpoints of a
    /// known device get their clusters and one awaited answer has arrived. A
    /// report on an unknown device changes nothing.
    pub open spec fn descriptor_reported(self, report: SimpleDescriptorView) -> ZigateState {
        if self.devices.contains_key(report.address) {
            ZigateState {
                devices: self.devices.insert(
                    report.address,
                    self.devices[report.address].with_clusters(
                        report.in_cluster_list,
                        report.out_cluster_list,
                    ),
                ),
                exp_resp: counted_down(self.exp_resp),
                ..self
            }
        } else {
            self
        }
    }

    /// The state after an attribute value was reported: a known device takes
    /// it over. A report on an unknown device changes nothing.
    pub open spec fn attribute_reported(self, report: AttributeReport) -> ZigateState {
        if self.devices.contains_key(report.src_addr) {
            ZigateState {
                devices: self.devices.insert(
                    report.src_addr,
                    self.devices[report.src_addr].updated(report),
                ),
                ..self
            }
        } else {
            self
        }
    }

    /// The state after a frame came in. A frame whose payload cannot be
    /// decoded changes nothing. Any other frame is kept as the latest of its
    /// type, an acknowledgement also as the latest for the command it
    /// names, and the discovery goes on as the kind of the frame requires.
    pub open spec fn received(self, f: Frame) -> ZigateState {
        match parse_frame(f) {
            None => self,
            Some(ResponseView::Status(status)) => ZigateState {
                last_status: self.last_status.insert(status.packet_type, f),
                ..self.recorded(f)
            },
            Some(ResponseView::DeviceAnnounce(msg)) => self.recorded(f).seen(
                DeviceView::fresh(msg.short_address, msg.ieee_address),
            ),
            Some(ResponseView::DevicesList(records)) => self.recorded(f).listed(records),
            Some(ResponseView::ActiveEndpoints(report)) => self.recorded(f).endpoints_reported(
                report,
            ),
            Some(ResponseView::SimpleDescriptor(report)) => self.recorded(f).descriptor_reported(
                report,
            ),
            Some(ResponseView::ReadAttribute(report)) => self.recorded(f).attribute_reported(
                report,
            ),
            Some(ResponseView::ReportAttribute(report)) => self.recorded(f).attribute_reported(
                report,
            ),
            Some(_) => self.recorded(f),
        }
    }

    /// The frames that the driver sends after a frame came in, in order.
    pub open spec fn replies(self, f: Frame) -> Seq<Frame> {
        match parse_frame(f) {
            Some(ResponseView::DeviceAnnounce(msg)) => self.seen_requests(
                DeviceView::fresh(msg.short_address, msg.ieee_address),
            ),
            Some(ResponseView::DevicesList(records)) => self.listed_requests(records),
            Some(ResponseView::ActiveEndpoints(report)) => self.endpoints_requests(report),
            _ => Seq::empty(),
        }
    }
}

/// Keeping a frame and seeing the records of a devices list do not touch
/// the same part of the state: either order gives the same state, and the
/// same requests are sent whether or not a frame was kept before.
pub proof fn lemma_recorded_then_listed(
    s: ZigateState,
    f: Frame,
    records: Seq<crate::responses::Device>,
)
    ensures
        s.recorded(f).listed(records) == s.listed(records).recorded(f),
        s.recorded(f).listed_requests(records) == s.listed_requests(records),
    decreases records.len(),
{
    if records.len() > 0 {
        lemma_recorded_then_listed(s, f, records.drop_last());
    }
}

impl Zigate {
    /// A coordinator that knows nothing yet.
    pub fn new() -> (z: Zigate)
        ensures
            z@ == ZigateState::empty(),
            z@.wf(),
    {
        let z = Zigate {
            last_resp: HashMap::new(),
            last_status: HashMap::new(),
            exp_resp: 0,
            devices: HashMap::new(),
            version: None,
        };
        assert(z@.last_resp =~= Map::empty());
        assert(z@.last_status =~= Map::empty());
        assert(z@.devices =~= Map::empty());
        z
    }

    /// Awaits `n` more answers.
    fn count_up(&mut self, n: usize)
        ensures
            final(self).exp_resp == counted_up(old(self).exp_resp, n as nat),
            final(self).last_resp == old(self).last_resp,
            final(self).last_status == old(self).last_status,
            final(self).devices == old(self).devices,
            final(self).version == old(self).version,
    {
        let room: u16 = u16::MAX - self.exp_resp;
        if n <= room as usize {
            self.exp_resp = self.exp_resp + n as u16;
        } else {
            self.exp_resp = u16::MAX;
        }
    }

    /// Notes that one awaited answer arrived.
    fn count_down(&mut self)
        ensures
            final(self).exp_resp == counted_down(old(self).exp_resp),
            final(self).last_resp == old(self).last_resp,
            final(self).last_status == old(self).last_status,
            final(self).devices == old(self).devices,
            final(self).version == old(self).version,
    {
        if self.exp_resp > 0 {
            self.exp_resp = self.exp_resp - 1;
        }
    }

    /// Keeps a frame as the latest of its type.
    fn record(&mut self, cmd: &Command)
        ensures
            final(self)@ == old(self)@.recorded(cmd@),
    {
        self.last_resp.insert(cmd.msg_type, cmd.clone());
        assert(self@.last_resp =~= old(self)@.last_resp.insert(cmd.msg_type, cmd@));
    }

    /// Records a device that is not known yet and asks for its endpoints.
    fn see(&mut self, device: Device, replies: &mut Vec<Command>)
        ensures
            final(self)@ == old(self)@.seen(device@),
            frames(final(replies)@) == frames(old(replies)@) + old(self)@.seen_requests(device@),
    {
        let addr = device.short_address;
        if !self.devices.contains_key(&addr) {
            self.devices.insert(addr, device);
            replies.push(active_endpoint_request(addr));
            self.count_up(1);
            assert(self@.devices =~= old(self)@.devices.insert(addr, device@));
        }
    }

    /// Sees the records of a devices list, one after the other.
    fn list(&mut self, msg: &DevicesList, replies: &mut Vec<Command>)
        requires
            old(replies)@.len() == 0,
        ensures
            final(self)@ == old(self)@.listed(msg@),
            frames(final(replies)@) == old(self)@.listed_requests(msg@),
    {
        let mut i: usize = 0;
        while i < msg.devices.len()
            invariant
                i <= msg.devices.len(),
                self@ == old(self)@.listed(msg@.take(i as int)),
                frames(replies@) == old(self)@.listed_requests(msg@.take(i as int)),
            decreases msg.devices.len() - i,
        {
            proof {
                assert(msg@.take(i + 1).drop_last() == msg@.take(i as int));
            }
            let device = Device::from_devices_list_elem(msg.devices[i]);
            self.see(device, replies);
            i += 1;
        }
        proof {
            assert(msg@.take(msg.devices.len() as int) == msg@);
        }
    }

    /// Records the active endpoints of a known device and asks for the
    /// simple descriptor of each.
    fn endpoints(&mut self, msg: &ActiveEndpoints, replies: &mut Vec<Command>)
        requires
            old(replies)@.len() == 0,
        ensures
            final(self)@ == old(self)@.endpoints_reported(msg@),
            frames(final(replies)@) == old(self)@.endpoints_requests(msg@),
    {
        match self.devices.remove(&msg.address) {
            Some(device) => {
                let mut device = device;
                device.add_endpoints(&msg.endpoint_list);
                self.devices.insert(msg.address, device);
                let mut i: usize = 0;
                while i < msg.endpoint_list.len()
                    invariant
                        i <= msg.endpoint_list.len(),
                        replies@.len() == i,
                        forall|j: int|
                            0 <= j < i ==> (#[trigger] replies@[j])@ == descriptor_request(
                                msg.address,
                                msg.endpoint_list@[j],
                            ),
                    decreases msg.endpoint_list.len() - i,
                {
                    replies.push(simple_descriptor_request(msg.address, msg.endpoint_list[i]));
                    i += 1;
                }
                self.count_up(msg.endpoint_list.len());
                self.count_down();
                assert(self@.devices =~= old(self)@.devices.insert(
                    msg.address,
                    old(self)@.devices[msg.address].with_endpoints(msg.endpoint_list@),
                ));
            },
            None => {
                assert(self@.devices =~= old(self)@.devices);
            },
        }
    }

    /// Gives the endpoints of a known device the clusters that a simple
    /// descriptor reports.
    fn descriptor(&mut self, msg: &SimpleDescriptorResponse)
        ensures
            final(self)@ == old(self)@.descriptor_reported(msg@),
    {
        match self.devices.remove(&msg.address) {
            Some(device) => {
                let mut device = device;
                device.set_endpoints_clusters(msg);
                self.devices.insert(msg.address, device);
                self.count_down();
                assert(self@.devices =~= old(self)@.devices.insert(
                    msg.address,
                    old(self)@.devices[msg.address].with_clusters(
                        msg.in_cluster_list@,
                        msg.out_cluster_list@,
                    ),
                ));
            },
            None => {
                assert(self@.devices =~= old(self)@.devices);
            },
        }
    }

    /// Takes a reported attribute value over into a known device.
    fn attribute(&mut self, msg: &ReadAttributeResponse)
        ensures
            final(self)@ == old(self)@.attribute_reported(msg@),
    {
        match self.devices.remove(&msg.src_addr) {
            Some(device) => {
                let mut device = device;
                device.update_cluster(msg);
                self.devices.insert(msg.src_addr, device);
                assert(self@.devices =~= old(self)@.devices.insert(
                    msg.src_addr,
                    old(self)@.devices[msg.src_addr].updated(msg@),
                ));
            },
            None => {
                assert(self@.devices =~= old(self)@.devices);
            },
        }
    }

    /// Takes in a frame that the module sent and says which frames to send
    /// in turn. A frame whose payload cannot be decoded is a decode failure
    /// and changes nothing.
    pub fn receive(&mut self, cmd: &Command) -> (r: Result<Vec<Command>, ZigateError>)
        ensures
            final(self)@ == old(self)@.received(cmd@),
            old(self)@.wf() ==> final(self)@.wf(),
            match r {
                Ok(replies) => parse_frame(cmd@) is Some && frames(replies@) == old(self)@.replies(
                    cmd@,
                ),
                Err(e) => parse_frame(cmd@) is None && e == ZigateError::DecodeFailure,
            },
    {
        proof {
            lemma_received(old(self)@, cmd@);
        }
        let response = ResponseBox::from_command(cmd)?;
        self.record(cmd);
        proof {
            if let Some(ResponseView::DevicesList(records)) = parse_frame(cmd@) {
                lemma_recorded_then_listed(old(self)@, cmd@, records);
            }
        }
        let mut replies: Vec<Command> = Vec::new();
        match response {
            ResponseBox::StatusBox(status) => {
                self.last_status.insert(status.packet_type, cmd.clone());
                assert(self@.last_status =~= old(self)@.last_status.insert(
                    status.packet_type,
                    cmd@,
                ));
            },
            ResponseBox::DeviceAnnounceBox(msg) => {
                self.see(Device::from_device_announce(&msg), &mut replies);
            },
            ResponseBox::DevicesListBox(msg) => {
                self.list(&msg, &mut replies);
            },
            ResponseBox::ActiveEndpointsBox(msg) => {
                self.endpoints(&msg, &mut replies);
            },
            ResponseBox::SimpleDescriptorResponseBox(msg) => {
                self.descriptor(&msg);
            },
            ResponseBox::ReadAttributeResponseBox(msg) => {
                self.attribute(&msg);
            },
            ResponseBox::ReportIndividualAttributeResponseBox(msg) => {
                self.attribute(&msg);
            },
            _ => {},
        }
        Ok(replies)
    }
}

} // verus!
