//! Model of the legacy dual 8259 interrupt controller driver.
//!
//! The driver's state machine is verified here: which vector range each of
//! the two cascaded controllers owns after a remap, which port commands the
//! remap issues, how the prior mask state is preserved, and which
//! controller(s) receive an end-of-interrupt acknowledgment for a serviced
//! vector.  The unverified shell performs the actual port writes, in the
//! order recorded in [`ChainedPics::issued`].

use vstd::prelude::*;

verus! {

/// Command port of the primary controller.
pub const PRIMARY_COMMAND_PORT: u16 = 0x20;

/// Data port of the primary controller.
pub const PRIMARY_DATA_PORT: u16 = 0x21;

/// Command port of the secondary (cascaded) controller.
pub const SECONDARY_COMMAND_PORT: u16 = 0xA0;

/// Data port of the secondary controller.
pub const SECONDARY_DATA_PORT: u16 = 0xA1;

/// Port written with garbage between programming steps, as a delay on old
/// hardware.
pub const WAIT_PORT: u16 = 0x80;

/// Command that begins the three-byte initialization sequence.
pub const CMD_INIT: u8 = 0x11;

/// Command that acknowledges the current interrupt.
pub const CMD_END_OF_INTERRUPT: u8 = 0x20;

/// Mode byte selecting 8086/88 operation.
pub const MODE_8086: u8 = 0x01;

/// A single write of one byte to one I/O port.
#[derive(Debug, Clone, Copy, PartialEq, Eq, Structural)]
pub struct PortWrite {
    /// The I/O port address.
    pub port: u16,
    /// The byte written.
    pub value: u8,
}

/// Does a controller remapped to `offset` own vector `vector`?
/// Each controller owns the eight consecutive vectors starting at its offset.
pub open spec fn pic_owns(offset: u8, vector: u8) -> bool {
    offset <= vector < offset + 8
}

/// The exact port-write sequence of a remap: an init command to each
/// controller, then on each data port the vector offset, the cascade wiring
/// (the secondary hangs off line 2 of the primary), and the mode byte, each
/// write followed by a delay; finally the saved masks are written back.
pub open spec fn init_command_sequence(offset1: u8, offset2: u8, mask1: u8, mask2: u8) -> Seq<
    PortWrite,
> {
    seq![
        (PortWrite { port: PRIMARY_COMMAND_PORT, value: CMD_INIT }),
        (PortWrite { port: WAIT_PORT, value: 0 }),
        (PortWrite { port: SECONDARY_COMMAND_PORT, value: CMD_INIT }),
        (PortWrite { port: WAIT_PORT, value: 0 }),
        (PortWrite { port: PRIMARY_DATA_PORT, value: offset1 }),
        (PortWrite { port: WAIT_PORT, value: 0 }),
        (PortWrite { port: SECONDARY_DATA_PORT, value: offset2 }),
        (PortWrite { port: WAIT_PORT, value: 0 }),
        (PortWrite { port: PRIMARY_DATA_PORT, value: 4 }),
        (PortWrite { port: WAIT_PORT, value: 0 }),
        (PortWrite { port: SECONDARY_DATA_PORT, value: 2 }),
        (PortWrite { port: WAIT_PORT, value: 0 }),
        (PortWrite { port: PRIMARY_DATA_PORT, value: MODE_8086 }),
        (PortWrite { port: WAIT_PORT, value: 0 }),
        (PortWrite { port: SECONDARY_DATA_PORT, value: MODE_8086 }),
        (PortWrite { port: WAIT_PORT, value: 0 }),
        (PortWrite { port: PRIMARY_DATA_PORT, value: mask1 }),
        (PortWrite { port: SECONDARY_DATA_PORT, value: mask2 }),
    ]
}

/// The exact port writes of one end-of-interrupt: the secondary controller
/// is acknowledged first when the vector is in its range (it is cascaded
/// behind the primary), and the primary is always acknowledged.
pub open spec fn eoi_command_sequence(secondary_owns: bool) -> Seq<PortWrite> {
    if secondary_owns {
        seq![
            (PortWrite { port: SECONDARY_COMMAND_PORT, value: CMD_END_OF_INTERRUPT }),
            (PortWrite { port: PRIMARY_COMMAND_PORT, value: CMD_END_OF_INTERRUPT }),
        ]
    } else {
        seq![(PortWrite { port: PRIMARY_COMMAND_PORT, value: CMD_END_OF_INTERRUPT })]
    }
}

/// The pair of cascaded interrupt controllers.
///
/// `issued` records, in order, every port write the driver has decided on;
/// `acks` records, in order, every vector for which an end-of-interrupt was
/// sent.  Both start empty and only grow.
pub struct ChainedPics {
    /// Vector offset of the primary controller.
    pub offset1: u8,
    /// Vector offset of the secondary controller.
    pub offset2: u8,
    /// Mask register of the primary controller, as last programmed.
    pub mask1: u8,
    /// Mask register of the secondary controller, as last programmed.
    pub mask2: u8,
    /// Whether the remap sequence has been issued.
    pub initialized: bool,
    /// Every port write decided on so far, in order.
    pub issued: Vec<PortWrite>,
    /// Every vector acknowledged so far, in order.
    pub acks: Vec<u8>,
}

impl ChainedPics {
    /// Offsets stay clear of the 32 vectors reserved for CPU exceptions and
    /// leave room for eight lines each.
    pub open spec fn wf(self) -> bool {
        &&& 32 <= self.offset1
        &&& 32 <= self.offset2
        &&& self.offset1 + 8 <= 256
        &&& self.offset2 + 8 <= 256
    }

    /// Does either controller own this vector?
    pub open spec fn spec_handles_interrupt(self, vector: u8) -> bool {
        pic_owns(self.offset1, vector) || pic_owns(self.offset2, vector)
    }

    /// Create the driver for the two controllers, remapped-to-be at the two
    /// given offsets.  Nothing is issued until [`Self::initialize`].
    pub fn new(offset1: u8, offset2: u8) -> (r: ChainedPics)
        requires
            32 <= offset1,
            32 <= offset2,
            offset1 + 8 <= 256,
            offset2 + 8 <= 256,
        ensures
            r.wf(),
            r.offset1 == offset1,
            r.offset2 == offset2,
            !r.initialized,
            r.issued@ == Seq::<PortWrite>::empty(),
            r.acks@ == Seq::<u8>::empty(),
    {
        ChainedPics {
            offset1,
            offset2,
            mask1: 0,
            mask2: 0,
            initialized: false,
            issued: Vec::new(),
            acks: Vec::new(),
        }
    }

    /// Remap both controllers.
    ///
    /// `saved_mask1` and `saved_mask2` are the mask registers as read from
    /// the hardware just before the remap; the issued sequence writes them
    /// back at the end, so previously enabled lines remain enabled.
    pub fn initialize(&mut self, saved_mask1: u8, saved_mask2: u8)
        ensures
            final(self).offset1 == old(self).offset1,
            final(self).offset2 == old(self).offset2,
            final(self).mask1 == saved_mask1,
            final(self).mask2 == saved_mask2,
            final(self).initialized,
            final(self).acks@ == old(self).acks@,
            final(self).issued@ == old(self).issued@ + init_command_sequence(
                old(self).offset1,
                old(self).offset2,
                saved_mask1,
                saved_mask2,
            ),
    {
        self.push_issued(PRIMARY_COMMAND_PORT, CMD_INIT);
        self.push_issued(WAIT_PORT, 0);
        self.push_issued(SECONDARY_COMMAND_PORT, CMD_INIT);
        self.push_issued(WAIT_PORT, 0);
        let offset1 = self.offset1;
        let offset2 = self.offset2;
        self.push_issued(PRIMARY_DATA_PORT, offset1);
        self.push_issued(WAIT_PORT, 0);
        self.push_issued(SECONDARY_DATA_PORT, offset2);
        self.push_issued(WAIT_PORT, 0);
        self.push_issued(PRIMARY_DATA_PORT, 4);
        self.push_issued(WAIT_PORT, 0);
        self.push_issued(SECONDARY_DATA_PORT, 2);
        self.push_issued(WAIT_PORT, 0);
        self.push_issued(PRIMARY_DATA_PORT, MODE_8086);
        self.push_issued(WAIT_PORT, 0);
        self.push_issued(SECONDARY_DATA_PORT, MODE_8086);
        self.push_issued(WAIT_PORT, 0);
        self.push_issued(PRIMARY_DATA_PORT, saved_mask1);
        self.push_issued(SECONDARY_DATA_PORT, saved_mask2);
        self.mask1 = saved_mask1;
        self.mask2 = saved_mask2;
        self.initialized = true;
        proof {
            assert(self.issued@ =~= old(self).issued@ + init_command_sequence(
                old(self).offset1,
                old(self).offset2,
                saved_mask1,
                saved_mask2,
            ));
        }
    }

    /// Record one port write.
    fn push_issued(&mut self, port: u16, value: u8)
        ensures
            final(self).issued@ == old(self).issued@.push(
                (PortWrite { port: port, value: value }),
            ),
            final(self).offset1 == old(self).offset1,
            final(self).offset2 == old(self).offset2,
            final(self).mask1 == old(self).mask1,
            final(self).mask2 == old(self).mask2,
            final(self).initialized == old(self).initialized,
            final(self).acks@ == old(self).acks@,
    {
        self.issued.push(PortWrite { port, value });
    }

    /// Does either controller own this vector?
    pub fn handles_interrupt(&self, vector: u8) -> (r: bool)
        requires
            self.wf(),
        ensures
            r == self.spec_handles_interrupt(vector),
    {
        (self.offset1 <= vector && vector - self.offset1 < 8) || (self.offset2 <= vector && vector
            - self.offset2 < 8)
    }

    /// Acknowledge a serviced vector.
    ///
    /// If one of the controllers owns the vector, the end-of-interrupt
    /// commands are issued (secondary first when it owns the vector, then
    /// always the primary) and the vector is appended to the ack log exactly
    /// once.  A vector owned by neither controller is ignored.
    pub fn notify_end_of_interrupt(&mut self, vector: u8)
        requires
            old(self).wf(),
        ensures
            final(self).offset1 == old(self).offset1,
            final(self).offset2 == old(self).offset2,
            final(self).mask1 == old(self).mask1,
            final(self).mask2 == old(self).mask2,
            final(self).initialized == old(self).initialized,
            old(self).spec_handles_interrupt(vector) ==> {
                &&& final(self).acks@ == old(self).acks@.push(vector)
                &&& final(self).issued@ == old(self).issued@ + eoi_command_sequence(
                    pic_owns(old(self).offset2, vector),
                )
            },
            !old(self).spec_handles_interrupt(vector) ==> *final(self) == *old(self),
    {
        if self.handles_interrupt(vector) {
            if self.offset2 <= vector && vector - self.offset2 < 8 {
                self.push_issued(SECONDARY_COMMAND_PORT, CMD_END_OF_INTERRUPT);
            }
            self.push_issued(PRIMARY_COMMAND_PORT, CMD_END_OF_INTERRUPT);
            self.acks.push(vector);
            proof {
                assert(self.issued@ =~= old(self).issued@ + eoi_command_sequence(
                    pic_owns(old(self).offset2, vector),
                ));
            }
        }
    }
}

/// After a contiguous remap with base offset `base`, the primary controller
/// owns exactly the vectors in `[base, base + 8)` and the secondary exactly
/// those in `[base + 8, base + 16)`.
pub proof fn lemma_contiguous_remap_ownership(pics: ChainedPics, base: u8, vector: u8)
    requires
        pics.wf(),
        pics.offset1 == base,
        pics.offset2 == base + 8,
    ensures
        pic_owns(pics.offset1, vector) <==> base <= vector < base + 8,
        pic_owns(pics.offset2, vector) <==> base + 8 <= vector < base + 16,
        pics.spec_handles_interrupt(vector) <==> base <= vector < base + 16,
{
}

} // verus!
