//! Single-stepping for a debugging front end.

use vstd::prelude::*;
use crate::interpreter::Em;
use crate::report::report_text;

verus! {

/// Runs one cycle and renders the debug report on the state it leaves
/// behind. Returns the instruction word that the cycle executed and the
/// report, which names that word. A random-mask instruction draws its byte
/// as in [`Em::cycle`].
pub fn cycle_once(em: &mut Em) -> (done: (u16, String))
    requires
        old(em)@.pending_fault() is None,
    ensures
        exists|random: u8| final(em)@ == #[trigger] old(em)@.step(random),
        !(old(em)@.next_opcode() is Random) ==> final(em)@ == old(em)@.step(0),
        done.0 == old(em)@.next_word(),
        done.1@ == report_text(final(em)@, done.0),
        final(em)@.wf(),
{
    let raw_op = em.cycle();
    let report = em.print_debug_info(raw_op);
    (raw_op, report)
}

} // verus!
