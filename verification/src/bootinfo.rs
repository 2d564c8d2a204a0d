//! What the loader reads from the boot information block.

use vstd::prelude::*;

verus! {

/// A module that the bootstrap loaded: the physical address of its first byte
/// and the one after its last. A module that is not empty starts below its
/// end; the loader takes both addresses as they are given.
#[derive(Clone, Copy, Debug, PartialEq, Eq, Structural)]
pub struct Module {
    pub start_address: usize,
    pub end_address: usize,
}

/// The kernel command line that the bootstrap passed on: where it lies and how
/// many bytes it has.
#[derive(Clone, Copy, Debug, PartialEq, Eq, Structural)]
pub struct CommandLine {
    pub address: usize,
    pub size: usize,
}

/// The highest end address among `modules`, zero when there are none.
pub open spec fn highest_end(modules: Seq<Module>) -> int
    decreases modules.len(),
{
    if modules.len() == 0 {
        0
    } else {
        let before = highest_end(modules.drop_last());
        if modules.last().end_address > before {
            modules.last().end_address as int
        } else {
            before
        }
    }
}

/// `highest_end` is the maximum of the end addresses: no module ends above
/// it, and some module ends exactly there.
pub proof fn lemma_highest_end_is_maximum(modules: Seq<Module>)
    ensures
        forall|i: int| 0 <= i < modules.len() ==> (#[trigger] modules[i]).end_address
            <= highest_end(modules),
        modules.len() > 0 ==> exists|i: int|
            0 <= i < modules.len() && (#[trigger] modules[i]).end_address == highest_end(modules),
        0 <= highest_end(modules) <= usize::MAX,
    decreases modules.len(),
{
    if modules.len() > 0 {
        let front = modules.drop_last();
        lemma_highest_end_is_maximum(front);
        assert forall|i: int| 0 <= i < modules.len() implies (#[trigger] modules[i]).end_address
            <= highest_end(modules) by {
            if i < front.len() {
                assert(front[i] == modules[i]);
            }
        }
        if modules.last().end_address > highest_end(front) || front.len() == 0 {
            assert(modules[modules.len() - 1].end_address == highest_end(modules));
        } else {
            let i = choose|i: int|
                0 <= i < front.len() && (#[trigger] front[i]).end_address == highest_end(front);
            assert(modules[i] == front[i]);
        }
    }
}

} // verus!
