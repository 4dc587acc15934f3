//! The lifecycle bridge's wiring: the runtime that the host's single
//! initialization call builds, and the client identification it sends.
use vstd::prelude::*;
use vstd::string::StringExecFns;
use crate::modules::{declared_order, declared_order_spec};
use crate::ops::{print_op_decl, print_op_name};
use crate::permissions::PermissionGate;
use crate::runtime::{Phase, ScriptRuntime, SchedulerView};

verus! {

/// The product name in the client identification.
pub open spec fn product_name() -> Seq<char> {
    seq!['f', 'l', 'u', 'b', 'b', 'e', 'r']
}

/// The client identification that fetch requests carry: the product name,
/// a slash, and the version.
pub fn user_agent(version: &str) -> (r: String)
    ensures
        r@ == product_name() + seq!['/'] + version@,
{
    proof {
        reveal_strlit("flubber/");
    }
    let mut r = String::from_str("flubber/");
    assert(r@ =~= product_name() + seq!['/']);
    r.append(version);
    r
}

/// Builds the runtime with the built-in modules in their declared order and
/// the print op; with a fixed, correctly ordered set this always succeeds.
pub fn build_runtime<P: PermissionGate>(gate: P) -> (r: ScriptRuntime<P>)
    ensures
        r@ == (SchedulerView {
            phase: Phase::Constructed,
            now: 0,
            ready: seq![],
            timers: seq![],
            in_flight: seq![],
        }),
        r.gate_spec() == gate,
        r.modules_spec() == declared_order_spec(),
        r.ops_spec() == seq![print_op_name()],
{
    let order = declared_order();
    let ops = vec![print_op_decl()];
    proof {
        crate::modules::lemma_declared_order_installs();
        assert(crate::ops::decl_names(ops@) =~= seq![print_op_name()]);
    }
    match ScriptRuntime::new(gate, &order, ops) {
        Ok(rt) => rt,
        Err(_) => unreached(),
    }
}

} // verus!
