//! Bridge to the two cascaded interrupt controllers: the vectors that they
//! are moved to, the lines that are masked, and who is told that an interrupt
//! has been served.

use crate::interrupts::{EXCEPTION_VECTORS, PIC_1_OFFSET, PIC_2_OFFSET, VECTORS};
use vstd::prelude::*;

verus! {

/// Number of interrupt lines of one controller.
pub const LINES_PER_CONTROLLER: u8 = 8;

/// Number of interrupt lines of both controllers.
pub const LINES: u8 = 16;

/// Highest offset of the primary controller that leaves room for the vectors
/// of both.
pub const HIGHEST_OFFSET: u8 = 240;

/// Why a pair of vector offsets cannot be given to the controllers.
#[derive(Debug, Clone, Copy, PartialEq, Eq, Structural)]
pub enum OffsetError {
    /// The primary controller would deliver on exception vectors.
    OverlapsExceptions,
    /// The sixteen vectors would not fit below 256.
    OutOfRange,
    /// The secondary offset is not eight above the primary one.
    NotAdjacent,
}

/// Which controllers are told that an interrupt has been served.
#[derive(Debug, Clone, Copy, PartialEq, Eq, Structural)]
pub enum Acknowledgment {
    /// The vector belongs to neither controller: nothing is sent.
    Neither,
    /// The interrupt came in on the primary controller.
    Primary,
    /// The interrupt came in behind the secondary controller, which is
    /// chained through the primary one: both are told.
    Both,
}

/// The offsets that a pair of controllers can be given: above the exception
/// vectors, below the end of the table, and eight apart.
pub open spec fn checked_offsets(offset1: u8, offset2: u8) -> Result<(), OffsetError> {
    if offset1 < EXCEPTION_VECTORS {
        Err(OffsetError::OverlapsExceptions)
    } else if offset1 > HIGHEST_OFFSET {
        Err(OffsetError::OutOfRange)
    } else if offset2 != offset1 + LINES_PER_CONTROLLER {
        Err(OffsetError::NotAdjacent)
    } else {
        Ok(())
    }
}

/// One of the two controllers.
#[derive(Debug, Clone, Copy, PartialEq, Eq, Structural)]
pub enum Controller {
    /// The controller that faces the processor.
    Primary,
    /// The controller that is chained to line 2 of the primary one.
    Secondary,
}

/// A new value for the mask register of a controller.
#[derive(Debug, Clone, Copy, PartialEq, Eq, Structural)]
pub struct MaskWrite {
    pub controller: Controller,
    pub mask: u8,
}

/// Whether bit `line` of a mask register is set, which keeps that line of the
/// controller from interrupting.
pub open spec fn mask_bit(mask: u8, line: u8) -> bool {
    (mask >> line) & 1 == 1
}

/// The interrupt line behind bit `bit` of the mask register of `controller`.
pub open spec fn line_of(controller: Controller, bit: u8) -> u8 {
    match controller {
        Controller::Primary => bit,
        Controller::Secondary => (bit + LINES_PER_CONTROLLER) as u8,
    }
}

/// The two cascaded interrupt controllers, as far as the kernel decides about
/// them: the vector offsets that they are given and the lines that are
/// masked.
#[derive(Debug, Clone, Copy, PartialEq, Eq, Structural)]
pub struct ControllerPair {
    primary_offset: u8,
    secondary_offset: u8,
    primary_mask: u8,
    secondary_mask: u8,
}

impl ControllerPair {
    /// First vector of the primary controller.
    pub closed spec fn primary(&self) -> u8 {
        self.primary_offset
    }

    /// First vector of the secondary controller.
    pub closed spec fn secondary(&self) -> u8 {
        self.secondary_offset
    }

    /// The mask register of a controller.
    pub closed spec fn mask_of(&self, controller: Controller) -> u8 {
        match controller {
            Controller::Primary => self.primary_mask,
            Controller::Secondary => self.secondary_mask,
        }
    }

    /// Whether interrupt line `line` is masked: its bit in the mask register
    /// of its controller is set.
    pub open spec fn masked(&self, line: u8) -> bool {
        if line < LINES_PER_CONTROLLER {
            mask_bit(self.mask_of(Controller::Primary), line)
        } else {
            mask_bit(self.mask_of(Controller::Secondary), (line - LINES_PER_CONTROLLER) as u8)
        }
    }

    /// The offsets are eight apart and the sixteen vectors lie between the
    /// exception vectors and the end of the table.
    pub open spec fn wf(&self) -> bool {
        checked_offsets(self.primary(), self.secondary()) is Ok
    }

    /// Whether the primary controller delivers on `vector`.
    pub open spec fn primary_handles(&self, vector: u8) -> bool {
        self.primary() <= vector < self.primary() + LINES_PER_CONTROLLER
    }

    /// Whether the secondary controller delivers on `vector`.
    pub open spec fn secondary_handles(&self, vector: u8) -> bool {
        self.secondary() <= vector < self.secondary() + LINES_PER_CONTROLLER
    }

    /// Whether one of the two controllers delivers on `vector`.
    pub open spec fn handles(&self, vector: u8) -> bool {
        self.primary_handles(vector) || self.secondary_handles(vector)
    }

    /// The vector on which interrupt line `line` is delivered: lines 0 to 7
    /// are those of the primary controller, lines 8 to 15 those of the
    /// secondary one.
    pub open spec fn vector_of(&self, line: u8) -> int {
        if line < LINES_PER_CONTROLLER {
            self.primary() + line
        } else {
            self.secondary() + (line - LINES_PER_CONTROLLER)
        }
    }

    /// Who has to be told that the interrupt on `vector` has been served.
    pub open spec fn acknowledgment(&self, vector: u8) -> Acknowledgment {
        if self.secondary_handles(vector) {
            Acknowledgment::Both
        } else if self.primary_handles(vector) {
            Acknowledgment::Primary
        } else {
            Acknowledgment::Neither
        }
    }

    /// A pair of controllers with the given offsets, where these can be
    /// used, and with no line masked.
    pub fn new(offset1: u8, offset2: u8) -> (pair: Result<ControllerPair, OffsetError>)
        ensures
            match checked_offsets(offset1, offset2) {
                Ok(_) => pair is Ok && pair.unwrap().wf() && pair.unwrap().primary() == offset1
                    && pair.unwrap().secondary() == offset2 && pair.unwrap().mask_of(
                    Controller::Primary,
                ) == 0 && pair.unwrap().mask_of(Controller::Secondary) == 0,
                Err(error) => pair == Err::<ControllerPair, OffsetError>(error),
            },
    {
        if offset1 < EXCEPTION_VECTORS {
            Err(OffsetError::OverlapsExceptions)
        } else if offset1 > HIGHEST_OFFSET {
            Err(OffsetError::OutOfRange)
        } else if offset2 != offset1 + LINES_PER_CONTROLLER {
            Err(OffsetError::NotAdjacent)
        } else {
            Ok(
                ControllerPair {
                    primary_offset: offset1,
                    secondary_offset: offset2,
                    primary_mask: 0,
                    secondary_mask: 0,
                },
            )
        }
    }

    /// The pair as the kernel programs it: on the vectors from 32 to 47, with
    /// no line masked.
    pub fn remapped() -> (pair: ControllerPair)
        ensures
            pair.wf(),
            pair.primary() == PIC_1_OFFSET,
            pair.secondary() == PIC_2_OFFSET,
            pair.mask_of(Controller::Primary) == 0,
            pair.mask_of(Controller::Secondary) == 0,
    {
        ControllerPair {
            primary_offset: PIC_1_OFFSET,
            secondary_offset: PIC_2_OFFSET,
            primary_mask: 0,
            secondary_mask: 0,
        }
    }

    /// Takes over the mask registers as they were read from the controllers.
    pub fn set_masks(&mut self, primary: u8, secondary: u8)
        ensures
            final(self).primary() == old(self).primary(),
            final(self).secondary() == old(self).secondary(),
            final(self).mask_of(Controller::Primary) == primary,
            final(self).mask_of(Controller::Secondary) == secondary,
    {
        self.primary_mask = primary;
        self.secondary_mask = secondary;
    }

    /// Masks interrupt line `line` or lets it through again, and hands back
    /// the register write that tells the controller. The other lines stay as
    /// they are.
    pub fn set_line_masked(&mut self, line: u8, masked: bool) -> (write: MaskWrite)
        requires
            old(self).wf(),
            line < LINES,
        ensures
            final(self).wf(),
            final(self).primary() == old(self).primary(),
            final(self).secondary() == old(self).secondary(),
            final(self).masked(line) == masked,
            forall|other: u8|
                other < LINES && other != line ==> final(self).masked(other) == old(self).masked(
                    other,
                ),
            write.controller == if line < LINES_PER_CONTROLLER {
                Controller::Primary
            } else {
                Controller::Secondary
            },
            write.mask == final(self).mask_of(write.controller),
            write.mask == if masked {
                old(self).mask_of(write.controller) | (1u8 << (line % LINES_PER_CONTROLLER))
            } else {
                old(self).mask_of(write.controller) & !(1u8 << (line % LINES_PER_CONTROLLER))
            },
            forall|other: Controller|
                other != write.controller ==> final(self).mask_of(other) == old(self).mask_of(
                    other,
                ),
    {
        if line < LINES_PER_CONTROLLER {
            let mask = with_bit(self.primary_mask, line, masked);
            self.primary_mask = mask;
            MaskWrite { controller: Controller::Primary, mask }
        } else {
            let mask = with_bit(self.secondary_mask, line - LINES_PER_CONTROLLER, masked);
            self.secondary_mask = mask;
            MaskWrite { controller: Controller::Secondary, mask }
        }
    }

    /// Whether interrupt line `line` is masked.
    pub fn is_line_masked(&self, line: u8) -> (masked: bool)
        requires
            line < LINES,
        ensures
            masked == self.masked(line),
    {
        if line < LINES_PER_CONTROLLER {
            (self.primary_mask >> line) & 1 == 1
        } else {
            (self.secondary_mask >> (line - LINES_PER_CONTROLLER)) & 1 == 1
        }
    }

    /// The mask register of `controller`, bit by bit the masked lines.
    pub fn mask(&self, controller: Controller) -> (mask: u8)
        ensures
            mask == self.mask_of(controller),
            forall|bit: u8|
                bit < LINES_PER_CONTROLLER ==> mask_bit(mask, bit) == self.masked(
                    line_of(controller, bit),
                ),
    {
        match controller {
            Controller::Primary => self.primary_mask,
            Controller::Secondary => self.secondary_mask,
        }
    }

    /// The offsets of the primary and of the secondary controller.
    pub fn offsets(&self) -> (offsets: (u8, u8))
        ensures
            offsets == (self.primary(), self.secondary()),
    {
        (self.primary_offset, self.secondary_offset)
    }

    /// Whether one of the two controllers delivers on `interrupt_id`.
    pub fn handles_interrupt(&self, interrupt_id: u8) -> (handled: bool)
        requires
            self.wf(),
        ensures
            handled == self.handles(interrupt_id),
            handled == (self.primary() <= interrupt_id < self.primary() + LINES),
    {
        let primary = self.primary_offset <= interrupt_id && interrupt_id - self.primary_offset
            < LINES_PER_CONTROLLER;
        let secondary = self.secondary_offset <= interrupt_id && interrupt_id
            - self.secondary_offset < LINES_PER_CONTROLLER;
        primary || secondary
    }

    /// The vector on which interrupt line `line` is delivered.
    pub fn vector(&self, line: u8) -> (vector: u8)
        requires
            self.wf(),
            line < LINES,
        ensures
            vector == self.vector_of(line),
            vector == self.primary() + line,
            self.handles(vector),
    {
        if line < LINES_PER_CONTROLLER {
            self.primary_offset + line
        } else {
            self.secondary_offset + (line - LINES_PER_CONTROLLER)
        }
    }

    /// The interrupt line that is delivered on `vector`, if there is one.
    pub fn line(&self, vector: u8) -> (line: Option<u8>)
        requires
            self.wf(),
        ensures
            line is Some <==> self.handles(vector),
            line is Some ==> line.unwrap() < LINES && self.vector_of(line.unwrap()) == vector,
    {
        if self.handles_interrupt(vector) {
            Some(vector - self.primary_offset)
        } else {
            None
        }
    }

    /// Decides who has to be told that the interrupt on `interrupt_id` has
    /// been served. An interrupt from behind the secondary controller passes
    /// through the primary one, so both wait for the word.
    pub fn notify_end_of_interrupt(&self, interrupt_id: u8) -> (told: Acknowledgment)
        requires
            self.wf(),
        ensures
            told == self.acknowledgment(interrupt_id),
            told != Acknowledgment::Neither <==> self.handles(interrupt_id),
    {
        if self.handles_interrupt(interrupt_id) {
            if interrupt_id >= self.secondary_offset {
                Acknowledgment::Both
            } else {
                Acknowledgment::Primary
            }
        } else {
            Acknowledgment::Neither
        }
    }
}

/// A mask with bit `line` set or cleared and every other bit as it was.
fn with_bit(mask: u8, line: u8, set: bool) -> (changed: u8)
    requires
        line < LINES_PER_CONTROLLER,
    ensures
        changed == if set {
            mask | (1u8 << line)
        } else {
            mask & !(1u8 << line)
        },
        mask_bit(changed, line) == set,
        forall|other: u8|
            other < LINES_PER_CONTROLLER && other != line ==> mask_bit(changed, other) == mask_bit(
                mask,
                other,
            ),
{
    let bit: u8 = 1u8 << line;
    let changed: u8 = if set {
        mask | bit
    } else {
        mask & !bit
    };
    proof {
        assert forall|other: u8| other < LINES_PER_CONTROLLER implies (mask_bit(changed, other)
            == if other == line {
            set
        } else {
            mask_bit(mask, other)
        }) by {
            lemma_bit_changed(mask, line, other, set);
        }
    }
    changed
}

/// Setting or clearing one bit of a byte changes that bit and no other.
proof fn lemma_bit_changed(mask: u8, line: u8, other: u8, set: bool)
    requires
        line < 8,
        other < 8,
    ensures
        mask_bit(
            if set {
                mask | (1u8 << line)
            } else {
                mask & !(1u8 << line)
            },
            other,
        ) == if other == line {
            set
        } else {
            mask_bit(mask, other)
        },
{
    assert(line < 8 && other < 8 ==> ((((mask | (1u8 << line)) >> other) & 1 == 1) == (other == line
        || (mask >> other) & 1 == 1))) by (bit_vector);
    assert(line < 8 && other < 8 ==> ((((mask & !(1u8 << line)) >> other) & 1 == 1) == (other
        != line && (mask >> other) & 1 == 1))) by (bit_vector);
}

/// Every interrupt line of a pair of controllers is delivered on a vector of
/// its own above the exception vectors; for the pair as the kernel programs
/// it, on one of the vectors from 32 to 47.
pub proof fn lemma_vectors_clear_of_exceptions(pair: ControllerPair, line: u8)
    requires
        pair.wf(),
        line < LINES,
    ensures
        EXCEPTION_VECTORS <= pair.vector_of(line) < VECTORS,
        pair.primary() <= pair.vector_of(line) < pair.primary() + LINES,
        pair.primary() == PIC_1_OFFSET ==> 32 <= pair.vector_of(line) < 48,
        forall|other: u8| other < LINES && other != line ==> pair.vector_of(other) != pair.vector_of(line),
{
}

} // verus!
