//! The computing step of the store's exclusive transaction: from the bytes
//! read under the lock to the bytes to write back.
use crate::codec::{bytes_view, decode_registry, encode_registry, encodes, snapshot_of};
use crate::room::Roomlist;
use vstd::prelude::*;

verus! {

/// Decodes `current`, hands the registry to `f` and encodes the registry
/// that `f` returns. `None` where `current` holds no registry (and `f` is
/// not called) or where encoding fails.
pub fn transact<F: FnOnce(Roomlist) -> Roomlist>(current: &Vec<u8>, f: F) -> (r: Option<Vec<u8>>)
    requires
        forall|l: Roomlist| l.wf() ==> #[trigger] f.requires((l,)),
        forall|l: Roomlist, n: Roomlist| l.wf() && #[trigger] f.ensures((l,), n) ==> n.wf(),
    ensures
        match snapshot_of(current@) {
            None => r is None,
            Some(before) => exists|l: Roomlist, n: Roomlist|
                l.wf() && l@ == before && #[trigger] f.ensures((l,), n) && encodes(n@, bytes_view(r)),
        },
{
    let before = match decode_registry(current) {
        Some(l) => l,
        None => return None,
    };
    let ghost old_list = before;
    let after = f(before);
    let r = encode_registry(&after);
    proof {
        assert(f.ensures((old_list,), after));
    }
    r
}

} // verus!
