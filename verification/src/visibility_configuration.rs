//! Address visibility: which instruction-pointer values enter the trace.
//!
//! A configuration holds a denylist pair ("hidden") and an allowlist pair
//! ("visible"), each an address and a mask. An address is recorded when it
//! does not match the hidden pair and does match the visible pair, where a
//! pair that is absent never rejects anything.

use vstd::prelude::*;

verus! {

/// The mask that applies when an address is given without one.
pub const DEFAULT_MASK: u64 = 0xFFFF_FFFF_FFFF_0000;

/// Where the harness loads the code it is given.
pub const HARNESS_ADDRESS: u64 = 0x1337_0000;

/// The mask under which harness code is recognised.
pub const HARNESS_MASK: u64 = 0xFFFF_0000;

/// The mask of a pair, with the default in place of an absent one.
pub open spec fn effective_mask(mask: Option<u64>) -> u64 {
    match mask {
        Some(m) => m,
        None => DEFAULT_MASK,
    }
}

/// Whether `address`, under the mask of the pair, is the pair's address.
/// An absent address matches nothing.
pub open spec fn pair_matches(pair_address: Option<u64>, mask: Option<u64>, address: u64) -> bool {
    match pair_address {
        Some(a) => (address & effective_mask(mask)) == a,
        None => false,
    }
}

#[derive(Clone, Copy, Debug, PartialEq, Eq, Structural)]
pub struct VisibilityConfiguration {
    pub hidden_address: Option<u64>,
    pub hidden_mask: Option<u64>,
    pub visible_address: Option<u64>,
    pub visible_mask: Option<u64>,
}

impl VisibilityConfiguration {
    /// The filter as a predicate on addresses: not hidden, and visible
    /// wherever an allowlist is set.
    pub open spec fn accepts(&self, address: u64) -> bool {
        &&& !pair_matches(self.hidden_address, self.hidden_mask, address)
        &&& (self.visible_address is Some ==> pair_matches(
            self.visible_address,
            self.visible_mask,
            address,
        ))
    }

    /// A configuration from its four optional parts.
    pub fn new(
        hidden_address: Option<u64>,
        hidden_mask: Option<u64>,
        visible_address: Option<u64>,
        visible_mask: Option<u64>,
    ) -> (config: Self)
        ensures
            config == (VisibilityConfiguration {
                hidden_address,
                hidden_mask,
                visible_address,
                visible_mask,
            }),
    {
        VisibilityConfiguration { hidden_address, hidden_mask, visible_address, visible_mask }
    }

    /// Everything is recorded.
    pub fn full_visibility() -> (config: Self)
        ensures
            config == (VisibilityConfiguration {
                hidden_address: None,
                hidden_mask: None,
                visible_address: None,
                visible_mask: None,
            }),
            forall|address: u64| config.accepts(address),
    {
        VisibilityConfiguration {
            hidden_address: None,
            hidden_mask: None,
            visible_address: None,
            visible_mask: None,
        }
    }

    /// Only the 64 KiB window at which the harness loads code is recorded.
    pub fn harness_visibility() -> (config: Self)
        ensures
            config == (VisibilityConfiguration {
                hidden_address: None,
                hidden_mask: None,
                visible_address: Some(HARNESS_ADDRESS),
                visible_mask: Some(HARNESS_MASK),
            }),
            forall|address: u64|
                config.accepts(address) <==> (address & HARNESS_MASK) == HARNESS_ADDRESS,
    {
        VisibilityConfiguration {
            hidden_address: None,
            hidden_mask: None,
            visible_address: Some(HARNESS_ADDRESS),
            visible_mask: Some(HARNESS_MASK),
        }
    }

    /// Whether an instruction at `address` is recorded.
    pub fn is_visible(&self, address: u64) -> (visible: bool)
        ensures
            visible == self.accepts(address),
    {
        if let Some(hidden_address) = self.hidden_address {
            let mask = match self.hidden_mask {
                Some(m) => m,
                None => DEFAULT_MASK,
            };
            if (address & mask) == hidden_address {
                return false;
            }
        }
        if let Some(visible_address) = self.visible_address {
            let mask = match self.visible_mask {
                Some(m) => m,
                None => DEFAULT_MASK,
            };
            if (address & mask) != visible_address {
                return false;
            }
        }
        true
    }
}

/// The configuration with the hidden pair set.
pub open spec fn with_hidden(
    config: VisibilityConfiguration,
    address: u64,
    mask: Option<u64>,
) -> VisibilityConfiguration {
    VisibilityConfiguration { hidden_address: Some(address), hidden_mask: mask, ..config }
}

/// The configuration with the visible pair set.
pub open spec fn with_visible(
    config: VisibilityConfiguration,
    address: u64,
    mask: Option<u64>,
) -> VisibilityConfiguration {
    VisibilityConfiguration { visible_address: Some(address), visible_mask: mask, ..config }
}

/// Setting the hidden pair of a configuration that has none accepts no
/// address that was not accepted before.
pub proof fn lemma_hidden_pair_only_narrows(
    config: VisibilityConfiguration,
    address: u64,
    mask: Option<u64>,
    probe: u64,
)
    requires
        config.hidden_address is None,
    ensures
        with_hidden(config, address, mask).accepts(probe) ==> config.accepts(probe),
{
}

/// Setting the visible pair of a configuration that has none accepts no
/// address that was not accepted before.
pub proof fn lemma_visible_pair_only_narrows(
    config: VisibilityConfiguration,
    address: u64,
    mask: Option<u64>,
    probe: u64,
)
    requires
        config.visible_address is None,
    ensures
        with_visible(config, address, mask).accepts(probe) ==> config.accepts(probe),
{
}

/// A visible pair with address zero and the default mask accepts the
/// addresses of the lowest 64 KiB and no others.
pub proof fn lemma_window_at_zero(address: u64)
    ensures
        (VisibilityConfiguration {
            hidden_address: None,
            hidden_mask: None,
            visible_address: Some(0),
            visible_mask: Some(DEFAULT_MASK),
        }).accepts(address) <==> address < 0x1_0000,
{
    assert((address & 0xFFFF_FFFF_FFFF_0000) == 0 <==> address < 0x1_0000) by (bit_vector);
}

} // verus!
