//! The finalizer: a sentinel token in a resource's finalizer list that
//! blocks the resource's deletion until the dependent set is cleaned up.
//!
//! Both operations are merge patches. Their observable result depends only
//! on the patch, never on the list the resource had before — which makes
//! them idempotent. The library defines the patch documents and their
//! effect on the finalizer list; the process boundary submits them.

use vstd::prelude::*;

verus! {

/// The sentinel token this operator stores in the finalizer list.
pub const FINALIZER: &'static str = "restic.anshulg.com/finalizer";

/// The sentinel token as a character sequence.
pub open spec fn spec_finalizer() -> Seq<char> {
    "restic.anshulg.com/finalizer"@
}

/// Whether a sequence of finalizer tokens contains the sentinel.
pub open spec fn seq_has_finalizer(s: Seq<String>) -> bool {
    exists|i: int| 0 <= i < s.len() && #[trigger] s[i]@ == spec_finalizer()
}

/// Whether a finalizer list contains the sentinel token.
pub open spec fn spec_finalizer_present(fins: Option<Vec<String>>) -> bool {
    match fins {
        Option::None => false,
        Option::Some(v) => seq_has_finalizer(v@),
    }
}

/// Tests a finalizer list for the sentinel token.
pub fn has_finalizer(fins: &Option<Vec<String>>) -> (r: bool)
    ensures
        r == spec_finalizer_present(*fins),
{
    match fins {
        Option::None => false,
        Option::Some(v) => {
            let marker = String::from_str(FINALIZER);
            let mut i: usize = 0;
            while i < v.len()
                invariant
                    0 <= i <= v@.len(),
                    *fins matches Option::Some(w) && w@ == v@,
                    marker@ == spec_finalizer(),
                    forall|j: int| 0 <= j < i ==> v@[j]@ != spec_finalizer(),
                decreases v@.len() - i,
            {
                if marker.eq(&v[i]) {
                    proof {
                        assert(v@[i as int]@ == spec_finalizer());
                        assert(seq_has_finalizer(v@));
                        assert(spec_finalizer_present(*fins));
                    }
                    return true;
                }
                i = i + 1;
            }
            false
        },
    }
}

/// The merge-patch document that adds the finalizer: it sets the list to
/// exactly the sentinel token.
pub open spec fn spec_add_patch() -> Seq<char> {
    "{\"metadata\":{\"finalizers\":[\"restic.anshulg.com/finalizer\"]}}"@
}

/// The merge-patch document that removes all finalizers: it sets the list
/// to null.
pub open spec fn spec_remove_patch() -> Seq<char> {
    "{\"metadata\":{\"finalizers\":null}}"@
}

/// The patch submitted to add the finalizer.
pub fn add_patch() -> (r: String)
    ensures
        r@ == spec_add_patch(),
{
    String::from_str("{\"metadata\":{\"finalizers\":[\"restic.anshulg.com/finalizer\"]}}")
}

/// The patch submitted to remove all finalizers.
pub fn remove_patch() -> (r: String)
    ensures
        r@ == spec_remove_patch(),
{
    String::from_str("{\"metadata\":{\"finalizers\":null}}")
}

/// The finalizer list after the add patch is applied: exactly the sentinel
/// token, whatever the list held before — re-adding a present finalizer
/// changes nothing.
pub fn apply_add(fins: Option<Vec<String>>) -> (r: Option<Vec<String>>)
    ensures
        r matches Option::Some(v) && v@.len() == 1 && v@[0]@ == spec_finalizer(),
        spec_finalizer_present(r),
{
    let _ = fins;
    let mut v: Vec<String> = Vec::new();
    v.push(String::from_str(FINALIZER));
    proof {
        assert(v@[0]@ == spec_finalizer());
    }
    Some(v)
}

/// The finalizer list after the remove patch is applied: cleared, whatever
/// the list held before — removing an absent finalizer changes nothing.
pub fn apply_remove(fins: Option<Vec<String>>) -> (r: Option<Vec<String>>)
    ensures
        r is None,
        !spec_finalizer_present(r),
{
    let _ = fins;
    None
}

} // verus!
