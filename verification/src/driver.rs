//! The generic driver: the sole owner of the collection of active flows,
//! keyed by flow identity. It receives the datapath's callbacks, routes each
//! one to the right flow state machine, and hands the resulting window back.
//! A callback for one flow touches that flow's entry and nothing else.

use vstd::prelude::*;
use crate::config::Config;
use crate::flow::AlgKind;
use crate::flow::DatapathInfo;
use crate::flow::FlowState;
use crate::flow::spec_new_flow;
use crate::flow::spec_on_measurement;
use crate::measurement::MeasurementSnapshot;
use crate::spec_clamp_floor;

verus! {

/// Identity of one active flow: the 4-tuple plus the opaque handle the
/// datapath assigned. Unique per active flow; the driver's lookup key.
#[derive(Clone, Copy, PartialEq, Eq, Structural)]
pub struct FlowIdentity {
    /// Opaque handle the datapath assigned to the flow.
    pub sock_id: u32,
    /// Source address.
    pub src_ip: u32,
    /// Source port.
    pub src_port: u32,
    /// Destination address.
    pub dst_ip: u32,
    /// Destination port.
    pub dst_port: u32,
}

/// The identity carried inside a flow-open's datapath facts.
pub open spec fn spec_identity_of(info: DatapathInfo) -> FlowIdentity {
    FlowIdentity {
        sock_id: info.sock_id,
        src_ip: info.src_ip,
        src_port: info.src_port,
        dst_ip: info.dst_ip,
        dst_port: info.dst_port,
    }
}

impl FlowIdentity {
    /// Read the identity out of the datapath's flow-open facts.
    pub fn from_info(info: &DatapathInfo) -> (id: FlowIdentity)
        ensures
            id == spec_identity_of(*info),
    {
        FlowIdentity {
            sock_id: info.sock_id,
            src_ip: info.src_ip,
            src_port: info.src_port,
            dst_ip: info.dst_ip,
            dst_port: info.dst_port,
        }
    }
}

/// Identity-mapping faults surfaced to the driver's caller.
#[derive(Clone, Copy, PartialEq, Eq, Structural, Debug)]
pub enum DriverError {
    /// Flow-open for an identity already tracked; the tracked flow is kept.
    DuplicateFlow,
    /// Report, override or close for an identity not tracked; benign, the
    /// caller drops the event and goes on.
    UnknownFlow,
}

/// One tracked flow: its identity and its state machine.
#[derive(Clone, Copy)]
pub struct FlowEntry {
    /// The lookup key.
    pub id: FlowIdentity,
    /// The flow's control-law state.
    pub state: FlowState,
}

/// The driver. It owns every flow's state exclusively: callbacks pass an
/// identity, never a reference into the collection.
pub struct Driver {
    /// The control law every new flow is bound to.
    pub kind: AlgKind,
    /// Startup parameters handed to each new flow.
    pub config: Config,
    /// The active flows; identities are pairwise distinct.
    pub flows: Vec<FlowEntry>,
}

impl Driver {
    /// Well-formedness: no identity is tracked twice, and every tracked
    /// flow state is itself well-formed.
    pub open spec fn wf(self) -> bool {
        &&& forall|i: int, j: int|
            0 <= i < self.flows@.len() && 0 <= j < self.flows@.len() && i != j
                ==> self.flows@[i].id != self.flows@[j].id
        &&& forall|i: int|
            0 <= i < self.flows@.len() ==> (#[trigger] self.flows@[i]).state.wf()
    }

    /// Whether `id` is currently tracked.
    pub open spec fn has_flow(self, id: FlowIdentity) -> bool {
        exists|i: int| 0 <= i < self.flows@.len() && (#[trigger] self.flows@[i]).id == id
    }

    /// The position of `id` in the collection; meaningful only when the
    /// identity is tracked, and then unique by well-formedness.
    pub open spec fn flow_index(self, id: FlowIdentity) -> int {
        choose|i: int| 0 <= i < self.flows@.len() && (#[trigger] self.flows@[i]).id == id
    }

    /// The tracked state of `id`, when the identity is tracked.
    pub open spec fn flow_state(self, id: FlowIdentity) -> FlowState {
        self.flows@[self.flow_index(id)].state
    }

    /// A driver with no flows, binding every future flow to `kind` with the
    /// parameters in `config`.
    pub fn new(kind: AlgKind, config: Config) -> (d: Driver)
        ensures
            d.wf(),
            d.flows@.len() == 0,
            d.kind == kind,
            d.config == config,
    {
        Driver { kind, config, flows: Vec::new() }
    }

    /// How many flows are tracked right now.
    pub fn active_flows(&self) -> (n: usize)
        ensures
            n == self.flows@.len(),
    {
        self.flows.len()
    }

    /// Linear search for `id`; the driver is small and the search settles
    /// whether the identity is tracked, and where.
    fn find_flow(&self, id: FlowIdentity) -> (r: Option<usize>)
        requires
            self.wf(),
        ensures
            match r {
                Some(i) => self.has_flow(id) && i as int == self.flow_index(id) && i
                    < self.flows@.len() && self.flows@[i as int].id == id,
                None => !self.has_flow(id),
            },
    {
        let n: usize = self.flows.len();
        let mut i: usize = 0;
        while i < n
            invariant
                i <= n,
                n == self.flows@.len(),
                self.wf(),
                forall|j: int| 0 <= j < i ==> self.flows@[j].id != id,
            decreases n - i,
        {
            if self.flows[i].id == id {
                proof {
                    assert(self.flows@[i as int].id == id);
                    let w = self.flow_index(id);
                    assert(0 <= w < self.flows@.len() && self.flows@[w].id == id);
                }
                return Some(i);
            }
            i = i + 1;
        }
        None
    }

    /// Flow-open callback: start tracking `id` with a fresh flow bound to
    /// this driver's control law. An identity already tracked is refused
    /// with `DuplicateFlow` and the tracked flow is left exactly as it was.
    pub fn on_flow_open(&mut self, id: FlowIdentity, info: &DatapathInfo) -> (r: Result<
        (),
        DriverError,
    >)
        requires
            old(self).wf(),
        ensures
            final(self).wf(),
            final(self).kind == old(self).kind,
            final(self).config == old(self).config,
            old(self).has_flow(id) ==> r == Err::<(), DriverError>(DriverError::DuplicateFlow)
                && *final(self) == *old(self),
            !old(self).has_flow(id) ==> r == Ok::<(), DriverError>(()) && final(self).flows@
                == old(self).flows@.push(
                FlowEntry { id, state: spec_new_flow(old(self).kind, *info, old(self).config) },
            ),
            final(self).has_flow(id),
    {
        match self.find_flow(id) {
            Some(_) => Err(DriverError::DuplicateFlow),
            None => {
                let state = FlowState::new_flow(self.kind, info, &self.config);
                self.flows.push(FlowEntry { id, state });
                proof {
                    assert(self.flows@[self.flows@.len() - 1].id == id);
                }
                Ok(())
            },
        }
    }

    /// Report callback: route one measurement snapshot to the flow tracked
    /// under `id` and hand back the window the datapath should now enforce.
    /// An identity not tracked is refused with `UnknownFlow` and the
    /// collection is left exactly as it was; no other flow's entry moves
    /// either way.
    pub fn on_report(&mut self, id: FlowIdentity, m: &MeasurementSnapshot, now_ms: u64) -> (r:
        Result<u32, DriverError>)
        requires
            old(self).wf(),
        ensures
            final(self).wf(),
            final(self).kind == old(self).kind,
            final(self).config == old(self).config,
            !old(self).has_flow(id) ==> r == Err::<u32, DriverError>(DriverError::UnknownFlow)
                && *final(self) == *old(self),
            old(self).has_flow(id) ==> ({
                let ns = spec_on_measurement(old(self).flow_state(id), *m, now_ms);
                &&& final(self).flows@ == old(self).flows@.update(
                    old(self).flow_index(id),
                    FlowEntry { id, state: ns },
                )
                &&& r == Ok::<u32, DriverError>(ns.cwnd as u32)
            }),
    {
        match self.find_flow(id) {
            None => Err(DriverError::UnknownFlow),
            Some(i) => {
                let entry = &mut self.flows[i];
                let cwnd = entry.state.on_measurement(m, now_ms);
                Ok(cwnd)
            },
        }
    }

    /// Close callback: stop tracking `id`; later reports for it are
    /// `UnknownFlow`. An identity not tracked is itself `UnknownFlow`, and
    /// the collection is left exactly as it was.
    pub fn on_flow_close(&mut self, id: FlowIdentity) -> (r: Result<(), DriverError>)
        requires
            old(self).wf(),
        ensures
            final(self).wf(),
            final(self).kind == old(self).kind,
            final(self).config == old(self).config,
            !old(self).has_flow(id) ==> r == Err::<(), DriverError>(DriverError::UnknownFlow)
                && *final(self) == *old(self),
            old(self).has_flow(id) ==> r == Ok::<(), DriverError>(()) && final(self).flows@
                == old(self).flows@.remove(old(self).flow_index(id)),
            !final(self).has_flow(id),
    {
        match self.find_flow(id) {
            None => Err(DriverError::UnknownFlow),
            Some(i) => {
                let ghost pre = self.flows@;
                self.flows.remove(i);
                proof {
                    assert forall|j: int| 0 <= j < self.flows@.len() implies self.flows@[j].id
                        != id by {
                        if j < i as int {
                            assert(self.flows@[j] == pre[j]);
                        } else {
                            assert(self.flows@[j] == pre[j + 1]);
                        }
                    }
                }
                Ok(())
            },
        }
    }

    /// Poll callback: the window currently enforced for `id`, without
    /// touching any state.
    pub fn curr_cwnd(&self, id: FlowIdentity) -> (r: Result<u32, DriverError>)
        requires
            self.wf(),
        ensures
            !self.has_flow(id) ==> r == Err::<u32, DriverError>(DriverError::UnknownFlow),
            self.has_flow(id) ==> r == Ok::<u32, DriverError>(self.flow_state(id).cwnd as u32),
    {
        match self.find_flow(id) {
            None => Err(DriverError::UnknownFlow),
            Some(i) => Ok(self.flows[i].state.curr_cwnd()),
        }
    }

    /// Override callback: the datapath reports a window reset for `id`,
    /// bypassing the laws' arithmetic; only the flow's floor clamp applies.
    pub fn set_cwnd(&mut self, id: FlowIdentity, cwnd: u32) -> (r: Result<(), DriverError>)
        requires
            old(self).wf(),
        ensures
            final(self).wf(),
            final(self).kind == old(self).kind,
            final(self).config == old(self).config,
            !old(self).has_flow(id) ==> r == Err::<(), DriverError>(DriverError::UnknownFlow)
                && *final(self) == *old(self),
            old(self).has_flow(id) ==> r == Ok::<(), DriverError>(()) && final(self).flows@
                == old(self).flows@.update(
                old(self).flow_index(id),
                FlowEntry {
                    id,
                    state: (FlowState {
                        cwnd: spec_clamp_floor(
                            cwnd as int,
                            old(self).flow_state(id).init_cwnd as int,
                        ) as u64,
                        ..old(self).flow_state(id)
                    }),
                },
            ),
    {
        match self.find_flow(id) {
            None => Err(DriverError::UnknownFlow),
            Some(i) => {
                let entry = &mut self.flows[i];
                entry.state.set_cwnd(cwnd);
                Ok(())
            },
        }
    }
}

} // verus!
