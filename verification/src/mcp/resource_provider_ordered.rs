//! Resource providers, ordered by the class of resources they provide.

use vstd::prelude::*;

use crate::mcp::name_index::compare_names;
use crate::mcp::name_index::name_lt;
use crate::mcp::name_index::NameOrder;
use crate::text::chars_of;

verus! {

/// A resource provider, with the class of the resources it provides: two are
/// the same where their classes are, and they are ordered by class.
pub struct ResourceProviderOrdered<P> {
    pub provider: P,
    pub resource_class: String,
}

impl<P> ResourceProviderOrdered<P> {
    /// The class of the resources of the provider.
    pub open spec fn class(&self) -> Seq<char> {
        self.resource_class@
    }

    /// `provider`, which provides resources of the class `resource_class`.
    pub fn new(provider: P, resource_class: String) -> (r: Self)
        ensures
            r.provider == provider,
            r.class() == resource_class@,
    {
        ResourceProviderOrdered { provider, resource_class }
    }

    /// Whether `other` provides resources of the same class.
    pub fn same_class(&self, other: &Self) -> (b: bool)
        ensures
            b == (self.class() == other.class()),
    {
        crate::text::str_equal(self.resource_class.as_str(), other.resource_class.as_str())
    }

    /// How this provider's class is ordered against `other`'s.
    pub fn order(&self, other: &Self) -> (r: NameOrder)
        ensures
            r is Less <==> name_lt(self.class(), other.class()),
            r is Equal <==> self.class() == other.class(),
            r is Greater <==> name_lt(other.class(), self.class()),
    {
        let a = chars_of(self.resource_class.as_str());
        let b = chars_of(other.resource_class.as_str());
        compare_names(&a, &b)
    }
}

} // verus!
