//! What holds of the coordinator whatever frames come in.

use crate::command::{Frame, MessageType};
use crate::device::DeviceView;
use crate::responses::{ResponseView, parse_frame};
use crate::zigate::{ZigateState, endpoints_request};
use vstd::prelude::*;

verus! {

/// The short addresses that occur in the records of a devices list.
pub open spec fn listed_addresses(records: Seq<crate::responses::Device>) -> Set<u16> {
    Set::new(
        |k: u16| exists|i: int| 0 <= i < records.len() && (#[trigger] records[i]).short_address == k,
    )
}

/// The short addresses of the devices that a frame makes known: that of an
/// announcement, those of the records of a devices list, none for any other
/// frame or for one that cannot be decoded.
pub open spec fn announced_by(f: Frame) -> Set<u16> {
    match parse_frame(f) {
        Some(ResponseView::DeviceAnnounce(msg)) => set![msg.short_address],
        Some(ResponseView::DevicesList(records)) => listed_addresses(records),
        _ => Set::empty(),
    }
}

/// The short addresses of the devices that the frames of a sequence make known.
pub open spec fn announced(received: Seq<Frame>) -> Set<u16>
    decreases received.len(),
{
    if received.len() == 0 {
        Set::empty()
    } else {
        announced(received.drop_last()).union(announced_by(received.last()))
    }
}

/// The state after the frames of a sequence came in, one after the other.
pub open spec fn run(s: ZigateState, received: Seq<Frame>) -> ZigateState
    decreases received.len(),
{
    if received.len() == 0 {
        s
    } else {
        run(s, received.drop_last()).received(received.last())
    }
}

/// Seeing the records of a devices list keeps a well-formed state
/// well-formed and makes exactly their short addresses known in addition.
proof fn lemma_listed(s: ZigateState, records: Seq<crate::responses::Device>)
    ensures
        s.wf() ==> s.listed(records).wf(),
        s.listed(records).devices.dom() == s.devices.dom().union(listed_addresses(records)),
    decreases records.len(),
{
    if records.len() > 0 {
        let init = records.drop_last();
        lemma_listed(s, init);
        let last = records.last();
        assert forall|k: u16| #[trigger]
            listed_addresses(records).contains(k) <==> listed_addresses(init).contains(k) || k
                == last.short_address by {
            if listed_addresses(records).contains(k) {
                let i = choose|i: int|
                    0 <= i < records.len() && (#[trigger] records[i]).short_address == k;
                if i < init.len() {
                    assert(init[i].short_address == k);
                }
            }
        }
    }
}

/// A frame that comes in keeps a well-formed state well-formed, and the
/// devices known afterwards are those known before and those that the
/// frame makes known.
pub proof fn lemma_received(s: ZigateState, f: Frame)
    ensures
        s.wf() ==> s.received(f).wf(),
        s.received(f).devices.dom() == s.devices.dom().union(announced_by(f)),
{
    let t = s.recorded(f);
    match parse_frame(f) {
        Some(ResponseView::DevicesList(records)) => {
            lemma_listed(t, records);
        },
        Some(ResponseView::ActiveEndpoints(report)) => {
            if s.wf() && s.devices.contains_key(report.address) {
                crate::device::lemma_device_stays_wf(
                    s.devices[report.address],
                    report.endpoint_list,
                    Seq::empty(),
                    Seq::empty(),
                    arbitrary(),
                );
            }
        },
        Some(ResponseView::SimpleDescriptor(report)) => {
            if s.wf() && s.devices.contains_key(report.address) {
                crate::device::lemma_device_stays_wf(
                    s.devices[report.address],
                    Seq::empty(),
                    report.in_cluster_list,
                    report.out_cluster_list,
                    arbitrary(),
                );
            }
        },
        Some(ResponseView::ReadAttribute(report)) => {
            if s.wf() && s.devices.contains_key(report.src_addr) {
                crate::device::lemma_device_stays_wf(
                    s.devices[report.src_addr],
                    Seq::empty(),
                    Seq::empty(),
                    Seq::empty(),
                    report,
                );
            }
        },
        Some(ResponseView::ReportAttribute(report)) => {
            if s.wf() && s.devices.contains_key(report.src_addr) {
                crate::device::lemma_device_stays_wf(
                    s.devices[report.src_addr],
                    Seq::empty(),
                    Seq::empty(),
                    Seq::empty(),
                    report,
                );
            }
        },
        _ => {},
    }
}

/// Discovery is idempotent. After an announcement came in, its device is
/// known; the same announcement coming in again adds no device, awaits no
/// further answer and sends nothing. Where the device was not known before,
/// the first announcement records exactly this one device and sends exactly
/// one request, for its active endpoints.
pub proof fn lemma_announcement_twice(s: ZigateState, f: Frame)
    requires
        parse_frame(f) is Some,
        parse_frame(f)->Some_0 is DeviceAnnounce,
    ensures
        ({
            let msg = parse_frame(f)->Some_0->DeviceAnnounce_0;
            let once = s.received(f);
            let twice = once.received(f);
            &&& once.devices.contains_key(msg.short_address)
            &&& twice == once
            &&& once.replies(f) == Seq::<Frame>::empty()
            &&& !s.devices.contains_key(msg.short_address) ==> {
                &&& once.devices == s.devices.insert(
                    msg.short_address,
                    DeviceView::fresh(msg.short_address, msg.ieee_address),
                )
                &&& s.replies(f) == seq![endpoints_request(msg.short_address)]
            }
        }),
{
    let once = s.received(f);
    assert(once.recorded(f).last_resp =~= once.last_resp);
}

/// The state holds under any sequence of frames. Starting from a
/// coordinator that knows nothing, whatever frames come in and in whatever
/// order: the counter of awaited answers is not negative, the state is
/// well-formed, and the known devices are exactly the devices that the
/// frames made known, one for each distinct short address.
pub proof fn lemma_state_under_churn(received: Seq<Frame>)
    ensures
        run(ZigateState::empty(), received).exp_resp >= 0,
        run(ZigateState::empty(), received).wf(),
        run(ZigateState::empty(), received).devices.dom() == announced(received),
        run(ZigateState::empty(), received).devices.dom().len() == announced(received).len(),
    decreases received.len(),
{
    if received.len() > 0 {
        lemma_state_under_churn(received.drop_last());
        lemma_received(run(ZigateState::empty(), received.drop_last()), received.last());
    }
}

} // verus!
