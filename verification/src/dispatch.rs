//! Dispatch decisions: which virtual method an engine-supplied name refers to.

use vstd::prelude::*;

verus! {

/// The virtual methods that the extension class overrides. The engine asks
/// for each by name; the answer decides which trampoline is handed back.
#[derive(Clone, Copy, PartialEq, Eq, Structural, Debug)]
pub enum VirtualMethod {
    Ready,
    Process,
}

/// The dispatch decision as a mathematical function of the queried name.
pub open spec fn spec_virtual_call(name: Seq<char>) -> Option<VirtualMethod> {
    if name == "_ready"@ {
        Some(VirtualMethod::Ready)
    } else if name == "_process"@ {
        Some(VirtualMethod::Process)
    } else {
        None
    }
}

/// Character-for-character string equality, proved to decide view equality.
pub fn str_eq(a: &str, b: &str) -> (r: bool)
    ensures
        r == (a@ == b@),
{
    let alen = a.unicode_len();
    let blen = b.unicode_len();
    if alen != blen {
        return false;
    }
    let mut i: usize = 0;
    while i < alen
        invariant
            alen == a@.len(),
            blen == b@.len(),
            alen == blen,
            i <= alen,
            forall|j: int| 0 <= j < i ==> a@[j] == b@[j],
        decreases alen - i,
    {
        if a.get_char(i) != b.get_char(i) {
            return false;
        }
        i = i + 1;
    }
    proof {
        assert(a@ =~= b@);
    }
    true
}

/// Maps the name the engine queries to the virtual method it denotes, or
/// `None` for a name this class does not override.
pub fn virtual_call(name: &str) -> (r: Option<VirtualMethod>)
    ensures
        r == spec_virtual_call(name@),
{
    if str_eq(name, "_ready") {
        Some(VirtualMethod::Ready)
    } else if str_eq(name, "_process") {
        Some(VirtualMethod::Process)
    } else {
        None
    }
}

} // verus!
