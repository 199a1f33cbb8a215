use mandrake::visibility_configuration::{
    VisibilityConfiguration, DEFAULT_MASK, HARNESS_ADDRESS, HARNESS_MASK,
};

#[test]
fn full_visibility_accepts_every_address() {
    let filter = VisibilityConfiguration::full_visibility();
    assert_eq!(filter, VisibilityConfiguration::new(None, None, None, None));
    assert!(filter.is_visible(0));
    assert!(filter.is_visible(0x1337_0000));
    assert!(filter.is_visible(0x7fff_ffff_f000));
    assert!(filter.is_visible(u64::MAX));
}

#[test]
fn harness_visibility_is_the_harness_window() {
    let filter = VisibilityConfiguration::harness_visibility();
    assert_eq!(filter.hidden_address, None);
    assert_eq!(filter.hidden_mask, None);
    assert_eq!(filter.visible_address, Some(0x1337_0000));
    assert_eq!(filter.visible_mask, Some(0xFFFF_0000));
    assert_eq!(HARNESS_ADDRESS, 0x1337_0000);
    assert_eq!(HARNESS_MASK, 0xFFFF_0000);
    assert!(filter.is_visible(0x1337_0000));
    assert!(filter.is_visible(0x1337_0001));
    assert!(filter.is_visible(0x1337_ffff));
    assert!(!filter.is_visible(0x1336_ffff));
    assert!(!filter.is_visible(0x1338_0000));
    assert!(!filter.is_visible(0));
    // The mask drops the upper half, so the window repeats every 4 GiB.
    assert!(filter.is_visible(0x7fff_1337_0010));
}

#[test]
fn an_address_without_a_mask_gets_the_default_mask() {
    assert_eq!(DEFAULT_MASK, 0xFFFF_FFFF_FFFF_0000);
    let visible = VisibilityConfiguration::new(None, None, Some(0x40_0000), None);
    assert!(visible.is_visible(0x40_0000));
    assert!(visible.is_visible(0x40_ffff));
    assert!(!visible.is_visible(0x41_0000));
    assert!(!visible.is_visible(0x1_0040_0000));
    let hidden = VisibilityConfiguration::new(Some(0x7fff_0000_0000), None, None, None);
    assert!(!hidden.is_visible(0x7fff_0000_0000));
    assert!(!hidden.is_visible(0x7fff_0000_ffff));
    assert!(hidden.is_visible(0x7fff_0001_0000));
    assert!(hidden.is_visible(0x40_0000));
}

#[test]
fn a_mask_without_an_address_rejects_nothing() {
    let filter = VisibilityConfiguration::new(None, Some(0), None, Some(0));
    assert!(filter.is_visible(0));
    assert!(filter.is_visible(0x1234_5678));
}

#[test]
fn the_hidden_pair_is_looked_at_first() {
    let filter = VisibilityConfiguration::new(
        Some(0x1337_0000),
        Some(0xFFFF_FF00),
        Some(0x1337_0000),
        Some(0xFFFF_0000),
    );
    assert!(!filter.is_visible(0x1337_0000));
    assert!(!filter.is_visible(0x1337_00ff));
    assert!(filter.is_visible(0x1337_0100));
    assert!(!filter.is_visible(0x1338_0000));
}

#[test]
fn an_address_must_equal_the_pair_address_after_masking() {
    // An address with bits outside its mask can never be matched.
    let visible = VisibilityConfiguration::new(None, None, Some(0x1337_0001), Some(0xFFFF_0000));
    assert!(!visible.is_visible(0x1337_0001));
    assert!(!visible.is_visible(0x1337_0000));
    let hidden = VisibilityConfiguration::new(Some(0x1337_0001), Some(0xFFFF_0000), None, None);
    assert!(hidden.is_visible(0x1337_0001));
}

#[test]
fn enabling_a_pair_never_accepts_more() {
    let probes: [u64; 8] = [
        0,
        0x1000,
        0x1337_0000,
        0x1337_8000,
        0x1338_0000,
        0x40_1000,
        0x7fff_f7a0_0000,
        u64::MAX,
    ];
    let pairs: [(u64, Option<u64>); 4] = [
        (0x1337_0000, Some(0xFFFF_0000)),
        (0x40_0000, None),
        (0, Some(0)),
        (0x7fff_f7a0_0000, Some(0xFFFF_FFFF_FFF0_0000)),
    ];
    let bases = [
        VisibilityConfiguration::full_visibility(),
        VisibilityConfiguration::harness_visibility(),
        VisibilityConfiguration::new(Some(0x40_0000), None, None, None),
    ];
    for base in bases {
        for (address, mask) in pairs {
            for probe in probes {
                if base.hidden_address.is_none() {
                    let narrowed = VisibilityConfiguration::new(
                        Some(address),
                        mask,
                        base.visible_address,
                        base.visible_mask,
                    );
                    assert!(!narrowed.is_visible(probe) || base.is_visible(probe));
                }
                if base.visible_address.is_none() {
                    let narrowed = VisibilityConfiguration::new(
                        base.hidden_address,
                        base.hidden_mask,
                        Some(address),
                        mask,
                    );
                    assert!(!narrowed.is_visible(probe) || base.is_visible(probe));
                }
            }
        }
    }
}

#[test]
fn a_window_at_zero_matches_no_userland_address() {
    let filter =
        VisibilityConfiguration::new(None, None, Some(0), Some(0xFFFF_FFFF_FFFF_0000));
    assert!(!filter.is_visible(0x40_1000));
    assert!(!filter.is_visible(0x5555_5555_4000));
    assert!(!filter.is_visible(0x7fff_f7dd_1234));
    assert!(filter.is_visible(0x0fff));
}
