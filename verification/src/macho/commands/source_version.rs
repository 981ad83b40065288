//! The load command that records the version of the sources a binary was
//! built from.

use cxx::CxxVector;
use vstd::prelude::*;

verus! {

/// `cxx::CxxVector`, a vector that lives on the C++ side of the bridge.
/// Nothing inside it is visible here; what it holds is `components_of`.
#[verifier::external_type_specification]
#[verifier::external_body]
#[verifier::reject_recursive_types(T)]
pub struct ExCxxVector<T>(CxxVector<T>);

/// The elements of a C++ vector of version components, first to last.
pub uninterp spec fn components_of(vector: CxxVector<u64>) -> Seq<u64>;

/// Copies the elements out of a C++ vector, with `cxx::CxxVector::as_slice`.
///
/// `as_slice` returns the contiguous array of elements of the vector. That
/// the copy holds those elements, in their order, is taken on trust.
#[verifier::external_body]
fn copy_components(vector: &CxxVector<u64>) -> (components: Vec<u64>)
    ensures
        components@ == components_of(*vector),
{
    Vec::from(vector.as_slice())
}

/// The source version command of a binary.
///
/// The view borrows the components from the decoded binary, which owns them,
/// and cannot outlive it.
pub struct SourceVersion<'a> {
    components: &'a CxxVector<u64>,
}

impl<'a> SourceVersion<'a> {
    /// The view of a source version whose components are `components`.
    pub fn new(components: &'a CxxVector<u64>) -> (command: SourceVersion<'a>)
        ensures
            command.components() == components_of(*components),
    {
        SourceVersion { components }
    }

    /// The components that the command holds, most significant first.
    pub closed spec fn components(&self) -> Seq<u64> {
        components_of(*self.components)
    }

    /// The version of the sources, one number for each component: for
    /// `A.B.C.D.E` these are `A`, `B`, `C`, `D` and `E`, in this order.
    pub fn version(&self) -> (version: Vec<u64>)
        ensures
            version@ == self.components(),
    {
        copy_components(self.components)
    }
}

} // verus!
