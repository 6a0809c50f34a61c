use vstd::prelude::*;

verus! {

/// The service tier a download link is requested for; it partitions the
/// link cache and plays no part in choosing a provider.
#[derive(Debug, Clone, Copy, PartialEq, Eq, Structural, Hash)]
pub enum ClientGroup {
    Normal,
    Fast,
}

/// The tier a provider account is configured for.
#[derive(Debug, Clone, Copy, PartialEq, Eq, Structural, Hash)]
pub enum ProviderGroup {
    Normal,
    Fast,
}

pub open spec fn group_index(g: ClientGroup) -> nat {
    match g {
        ClientGroup::Normal => 0,
        ClientGroup::Fast => 1,
    }
}

impl ClientGroup {
    pub fn to_index(&self) -> (r: usize)
        ensures
            r == group_index(*self),
    {
        match self {
            ClientGroup::Normal => 0,
            ClientGroup::Fast => 1,
        }
    }

    /// The tier's name as it appears on the wire.
    pub fn name(&self) -> (r: String)
        ensures
            r@ == (match *self {
                ClientGroup::Normal => "normal"@,
                ClientGroup::Fast => "fast"@,
            }),
    {
        match self {
            ClientGroup::Normal => String::from_str("normal"),
            ClientGroup::Fast => String::from_str("fast"),
        }
    }
}

impl ProviderGroup {
    pub fn to_int2(&self) -> (r: usize)
        ensures
            r == (match *self {
                ProviderGroup::Normal => 0usize,
                ProviderGroup::Fast => 1usize,
            }),
    {
        match self {
            ProviderGroup::Normal => 0,
            ProviderGroup::Fast => 1,
        }
    }

    /// The tier's name as it appears on the wire.
    pub fn name(&self) -> (r: String)
        ensures
            r@ == (match *self {
                ProviderGroup::Normal => "normal"@,
                ProviderGroup::Fast => "fast"@,
            }),
    {
        match self {
            ProviderGroup::Normal => String::from_str("normal"),
            ProviderGroup::Fast => String::from_str("fast"),
        }
    }
}

} // verus!
