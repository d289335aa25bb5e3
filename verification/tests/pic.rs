//! Controller driver tests: remap ranges, programming sequence, mask
//! preservation, end-of-interrupt routing.

use chronos::interrupts::InterruptIndex;
use chronos::pic::ChainedPics;
use chronos::pic::PortWrite;

#[test]
fn remap_at_32_owns_the_two_documented_ranges() {
    let pics = ChainedPics::new(32, 40);
    // Controller 1 owns [32, 40), controller 2 owns [40, 48).
    assert!(!pics.handles_interrupt(31));
    for vector in 32..48 {
        assert!(pics.handles_interrupt(vector));
    }
    assert!(!pics.handles_interrupt(48));
    // In the reference configuration the timer is vector 32 and the
    // keyboard vector 33.
    assert_eq!(InterruptIndex::Timer.as_u8(), 32);
    assert_eq!(InterruptIndex::Keyboard.as_u8(), 33);
    assert_eq!(InterruptIndex::Timer.as_usize(), 32);
    assert_eq!(InterruptIndex::Keyboard.as_usize(), 33);
}

#[test]
fn remap_at_other_base_shifts_both_ranges() {
    let pics = ChainedPics::new(0x70, 0x78);
    assert!(!pics.handles_interrupt(0x6F));
    assert!(pics.handles_interrupt(0x70));
    assert!(pics.handles_interrupt(0x77));
    assert!(pics.handles_interrupt(0x78));
    assert!(pics.handles_interrupt(0x7F));
    assert!(!pics.handles_interrupt(0x80));
}

#[test]
fn initialize_issues_the_remap_sequence_and_restores_masks() {
    let mut pics = ChainedPics::new(32, 40);
    pics.initialize(0xAA, 0x55);
    assert!(pics.initialized);
    assert_eq!(pics.mask1, 0xAA);
    assert_eq!(pics.mask2, 0x55);
    let expected = vec![
        PortWrite { port: 0x20, value: 0x11 },
        PortWrite { port: 0x80, value: 0 },
        PortWrite { port: 0xA0, value: 0x11 },
        PortWrite { port: 0x80, value: 0 },
        PortWrite { port: 0x21, value: 32 },
        PortWrite { port: 0x80, value: 0 },
        PortWrite { port: 0xA1, value: 40 },
        PortWrite { port: 0x80, value: 0 },
        PortWrite { port: 0x21, value: 4 },
        PortWrite { port: 0x80, value: 0 },
        PortWrite { port: 0xA1, value: 2 },
        PortWrite { port: 0x80, value: 0 },
        PortWrite { port: 0x21, value: 1 },
        PortWrite { port: 0x80, value: 0 },
        PortWrite { port: 0xA1, value: 1 },
        PortWrite { port: 0x80, value: 0 },
        PortWrite { port: 0x21, value: 0xAA },
        PortWrite { port: 0xA1, value: 0x55 },
    ];
    assert_eq!(pics.issued, expected);
    assert!(pics.acks.is_empty());
}

#[test]
fn eoi_for_primary_range_goes_to_the_primary_only() {
    let mut pics = ChainedPics::new(32, 40);
    pics.notify_end_of_interrupt(33);
    assert_eq!(pics.acks, vec![33u8]);
    assert_eq!(pics.issued, vec![PortWrite { port: 0x20, value: 0x20 }]);
}

#[test]
fn eoi_for_secondary_range_goes_to_both_secondary_first() {
    let mut pics = ChainedPics::new(32, 40);
    pics.notify_end_of_interrupt(44);
    assert_eq!(pics.acks, vec![44u8]);
    assert_eq!(
        pics.issued,
        vec![
            PortWrite { port: 0xA0, value: 0x20 },
            PortWrite { port: 0x20, value: 0x20 },
        ]
    );
}

#[test]
fn eoi_for_unowned_vector_is_ignored() {
    let mut pics = ChainedPics::new(32, 40);
    pics.notify_end_of_interrupt(3);
    pics.notify_end_of_interrupt(200);
    assert!(pics.acks.is_empty());
    assert!(pics.issued.is_empty());
}
