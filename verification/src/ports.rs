use vstd::prelude::*;

use crate::errors::RunError;

verus! {

/// Port the dashboard UI listens on.
pub const UI_PORT: u16 = 3000;
/// Port the metrics store listens on.
pub const METRICS_STORE_PORT: u16 = 9090;
/// Port the metrics exporter listens on.
pub const EXPORTER_PORT: u16 = 8080;

/// The fixed set of local ports the stack needs, in probe order.
pub open spec fn spec_required_ports() -> Seq<u16> {
    seq![UI_PORT, METRICS_STORE_PORT, EXPORTER_PORT]
}

/// The required ports as a vector, for the caller that probes them.
pub fn required_ports() -> (r: Vec<u16>)
    ensures
        r@ == spec_required_ports(),
{
    let mut v: Vec<u16> = Vec::new();
    v.push(UI_PORT);
    v.push(METRICS_STORE_PORT);
    v.push(EXPORTER_PORT);
    proof {
        assert(v@ =~= spec_required_ports());
    }
    v
}

/// The ports among the first `n` that probed as occupied, in probe order.
pub open spec fn spec_occupied_prefix(ports: Seq<u16>, free: Seq<bool>, n: int) -> Seq<u16>
    decreases n,
{
    if n <= 0 {
        Seq::empty()
    } else {
        let rest = spec_occupied_prefix(ports, free, n - 1);
        if free[n - 1] {
            rest
        } else {
            rest.push(ports[n - 1])
        }
    }
}

/// All ports that probed as occupied, in probe order.
pub open spec fn spec_occupied(ports: Seq<u16>, free: Seq<bool>) -> Seq<u16> {
    spec_occupied_prefix(ports, free, ports.len() as int)
}

/// Decide whether provisioning may go ahead, from one bind-probe outcome per
/// required port (`true` meaning the port was free). Succeeds exactly when
/// every required port is free; otherwise reports the occupied ports.
pub fn check_ports_available(free: &Vec<bool>) -> (r: Result<(), RunError>)
    requires
        free@.len() == spec_required_ports().len(),
    ensures
        r is Ok <==> (forall|i: int| 0 <= i < free@.len() ==> free@[i]),
        r matches Err(e) ==> (e matches RunError::PortConflict(ps)
            && ps@ == spec_occupied(spec_required_ports(), free@)),
{
    let ports = required_ports();
    let mut occupied: Vec<u16> = Vec::new();
    let mut i: usize = 0;
    while i < ports.len()
        invariant
            ports@ == spec_required_ports(),
            free@.len() == ports@.len(),
            0 <= i <= ports@.len(),
            occupied@ == spec_occupied_prefix(ports@, free@, i as int),
            occupied@.len() == 0 <==> (forall|j: int| 0 <= j < i ==> free@[j]),
        decreases ports@.len() - i,
    {
        if !free[i] {
            occupied.push(ports[i]);
        }
        i += 1;
    }
    if occupied.len() == 0 {
        Ok(())
    } else {
        Err(RunError::PortConflict(occupied))
    }
}

} // verus!
