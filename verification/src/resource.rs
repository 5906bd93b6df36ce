//! The native resources that a pack owns, and the order in which they are taken.
use vstd::prelude::*;

verus! {

/// One of the five native resources behind a pack.
///
/// The variants are listed in acquisition order: a subsystem is a loaded native
/// module, and a service is an instance created from a subsystem.
#[derive(Clone, Copy, Debug, PartialEq, Eq, Structural)]
pub enum Resource {
    /// The loaded compiler module.
    CompilerSubsystem,
    /// The compiler instance, created from the compiler subsystem.
    Compiler,
    /// The blob library, created from the compiler subsystem.
    Library,
    /// The loaded validator module.
    ValidatorSubsystem,
    /// The validator instance, created from the validator subsystem.
    Validator,
}

/// How many resources a ready pack holds.
pub const RESOURCE_COUNT: usize = 5;

/// The fixed order in which the resources are acquired.
pub open spec fn acquisition_order() -> Seq<Resource> {
    seq![
        Resource::CompilerSubsystem,
        Resource::Compiler,
        Resource::Library,
        Resource::ValidatorSubsystem,
        Resource::Validator,
    ]
}

impl Resource {
    /// The position of the resource in the acquisition order.
    pub open spec fn rank(self) -> nat {
        match self {
            Resource::CompilerSubsystem => 0,
            Resource::Compiler => 1,
            Resource::Library => 2,
            Resource::ValidatorSubsystem => 3,
            Resource::Validator => 4,
        }
    }

    /// Whether the resource is a loaded module rather than a service made from one.
    pub open spec fn is_subsystem(self) -> bool {
        self == Resource::CompilerSubsystem || self == Resource::ValidatorSubsystem
    }

    /// The subsystem that a service is created from; a subsystem has none.
    pub open spec fn parent(self) -> Option<Resource> {
        match self {
            Resource::CompilerSubsystem => None,
            Resource::Compiler => Some(Resource::CompilerSubsystem),
            Resource::Library => Some(Resource::CompilerSubsystem),
            Resource::ValidatorSubsystem => None,
            Resource::Validator => Some(Resource::ValidatorSubsystem),
        }
    }

    /// The position of the resource in the acquisition order.
    pub fn position(self) -> (i: usize)
        ensures
            i == self.rank(),
            i < RESOURCE_COUNT,
            acquisition_order()[i as int] == self,
    {
        match self {
            Resource::CompilerSubsystem => 0,
            Resource::Compiler => 1,
            Resource::Library => 2,
            Resource::ValidatorSubsystem => 3,
            Resource::Validator => 4,
        }
    }

    /// The resource at position `i` of the acquisition order, if there is one.
    pub fn at(i: usize) -> (r: Option<Resource>)
        ensures
            i < RESOURCE_COUNT ==> r == Some(acquisition_order()[i as int]),
            i >= RESOURCE_COUNT ==> r is None,
    {
        if i == 0 {
            Some(Resource::CompilerSubsystem)
        } else if i == 1 {
            Some(Resource::Compiler)
        } else if i == 2 {
            Some(Resource::Library)
        } else if i == 3 {
            Some(Resource::ValidatorSubsystem)
        } else if i == 4 {
            Some(Resource::Validator)
        } else {
            None
        }
    }

    /// Whether the resource is a loaded module rather than a service made from one.
    pub fn loads_module(self) -> (b: bool)
        ensures
            b == self.is_subsystem(),
    {
        match self {
            Resource::CompilerSubsystem => true,
            Resource::ValidatorSubsystem => true,
            _ => false,
        }
    }
}

/// The acquisition order has one entry per resource, each at its rank.
pub proof fn lemma_acquisition_order()
    ensures
        acquisition_order().len() == RESOURCE_COUNT,
        forall|r: Resource| #[trigger] acquisition_order()[r.rank() as int] == r,
        forall|i: int|
            0 <= i < RESOURCE_COUNT ==> (#[trigger] acquisition_order()[i]).rank() == i,
{
}

/// A service comes after the subsystem it is created from.
pub proof fn lemma_parent_comes_first(r: Resource)
    ensures
        r.parent() matches Some(p) ==> p.rank() < r.rank() && p.is_subsystem(),
        r.parent() is None <==> r.is_subsystem(),
{
}

} // verus!
