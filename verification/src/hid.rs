//! What the HID driver hands reports to, and the errors its handlers report.
use vstd::prelude::*;

verus! {

/// Why a handler could not take a device or a request.
#[derive(Debug, Clone, Copy, PartialEq, Eq, Structural)]
pub enum HidError {
    /// The device is not in a state the handler can work with.
    DeviceError,
    /// The device describes nothing the handler supports.
    Unsupported,
}

/// Something that receives the input reports of a HID device.
pub trait HidReportReciever {
    /// The receiver is ready to receive reports.
    spec fn well_formed(&self) -> bool;

    /// The reports handed to the receiver so far, oldest first.
    spec fn received_reports(&self) -> Seq<Seq<u8>>;

    /// Processes one input report, which joins the reports received.
    fn receive_report(&mut self, report: &[u8])
        requires
            old(self).well_formed(),
        ensures
            final(self).well_formed(),
            final(self).received_reports() == old(self).received_reports().push(report@),
    ;
}

/// A factory that makes the receivers of a device's reports; this one makes none.
pub struct DefaultReceiverFactory {}

impl DefaultReceiverFactory {
    /// The receivers for the device on the given controller: none.
    pub fn new_hid_receiver_list(&self, _controller: usize) -> (r: Result<Vec<Box<dyn HidReportReciever>>, HidError>)
        ensures
            r matches Ok(v) && v@.len() == 0,
    {
        Ok(Vec::new())
    }
}

/// Hands each report to every receiver of a device, in order.
pub struct HidSplitter {
    pub receivers: Vec<Box<dyn HidReportReciever>>,
    pub received: Ghost<Seq<Seq<u8>>>,
}

/// The receivers among `candidates` that took the device, in order.
pub open spec fn initialized_receivers<T>(candidates: Seq<(T, bool)>) -> Seq<T>
    decreases candidates.len(),
{
    if candidates.len() == 0 {
        Seq::empty()
    } else {
        let rest = initialized_receivers(candidates.drop_last());
        if candidates.last().1 {
            rest.push(candidates.last().0)
        } else {
            rest
        }
    }
}

/// The receivers that took a device, given with whether they did, in order; fails as unsupported
/// where none did.
pub fn select_initialized<T>(candidates: Vec<(T, bool)>) -> (r: Result<Vec<T>, HidError>)
    ensures
        r is Err <==> initialized_receivers(candidates@).len() == 0,
        r matches Err(e) ==> e == HidError::Unsupported,
        r matches Ok(v) ==> v@ == initialized_receivers(candidates@),
{
    let mut candidates = candidates;
    let ghost all = candidates@;
    assert(all.len() == candidates.len());
    let mut receivers: Vec<T> = Vec::new();
    let mut k: usize = 0;
    while candidates.len() > 0
        invariant
            0 <= k <= all.len(),
            all.len() <= usize::MAX,
            candidates@ == all.skip(k as int),
            receivers@ == initialized_receivers(all.take(k as int)),
        decreases candidates@.len(),
    {
        proof {
            assert(all.take(k + 1).drop_last() =~= all.take(k as int));
            assert(all.skip(k as int)[0] == all[k as int]);
        }
        let (receiver, initialized) = candidates.remove(0);
        if initialized {
            receivers.push(receiver);
        }
        proof {
            assert(candidates@ =~= all.skip(k + 1));
        }
        k = k + 1;
    }
    assert(all.take(k as int) =~= all);
    if receivers.len() == 0 {
        return Err(HidError::Unsupported);
    }
    Ok(receivers)
}

impl HidSplitter {
    /// The splitter over the receivers that took the device, given with whether they did, in
    /// order; fails as unsupported where none did.
    pub fn from_initialized(candidates: Vec<(Box<dyn HidReportReciever>, bool)>) -> (r: Result<HidSplitter, HidError>)
        ensures
            r is Err <==> initialized_receivers(candidates@).len() == 0,
            r matches Err(e) ==> e == HidError::Unsupported,
            r matches Ok(s) ==> s.receivers@ == initialized_receivers(candidates@) && s.received_reports()
                == Seq::<Seq<u8>>::empty(),
    {
        match select_initialized(candidates) {
            Ok(receivers) => Ok(HidSplitter { receivers, received: Ghost(Seq::empty()) }),
            Err(e) => Err(e),
        }
    }
}

impl HidReportReciever for HidSplitter {
    open spec fn well_formed(&self) -> bool {
        forall|i: int| 0 <= i < self.receivers@.len() ==> (#[trigger] self.receivers@[i]).well_formed()
    }

    closed spec fn received_reports(&self) -> Seq<Seq<u8>> {
        self.received@
    }

    /// Hands the report to every receiver, in order; the receivers stay, each having received it.
    fn receive_report(&mut self, report: &[u8])
        ensures
            final(self).receivers@.len() == old(self).receivers@.len(),
            forall|i: int|
                0 <= i < old(self).receivers@.len() ==> (#[trigger] final(self).receivers@[i]).received_reports()
                    == old(self).receivers@[i].received_reports().push(report@),
    {
        let ghost history = self.received@;
        let ghost before = self.receivers@;
        let mut i: usize = 0;
        while i < self.receivers.len()
            invariant
                0 <= i <= self.receivers@.len(),
                self.receivers@.len() == before.len(),
                self.well_formed(),
                forall|j: int|
                    0 <= j < i ==> (#[trigger] self.receivers@[j]).received_reports() == before[j].received_reports().push(
                        report@,
                    ),
                forall|j: int| i <= j < before.len() ==> #[trigger] self.receivers@[j] == before[j],
            decreases self.receivers@.len() - i,
        {
            self.receivers[i].receive_report(report);
            i = i + 1;
        }
        self.received = Ghost(history.push(report@));
    }
}

} // verus!
