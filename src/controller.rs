use vstd::prelude::*;

verus! {

/// The standard eight-button pad, read one bit at a time through `$4016`.
///
/// Button order: A, B, Select, Start, Up, Down, Left, Right.
pub struct NesController {
    pub bits: [bool; 8],
    pub cur_idx: usize,
}

impl NesController {
    /// The pressed state of each button, in shift order.
    pub open spec fn buttons(&self) -> Seq<bool> {
        self.bits@
    }

    /// The index of the button that the next read reports.
    pub open spec fn shift_index(&self) -> nat {
        self.cur_idx as nat
    }

    pub open spec fn wf(&self) -> bool {
        self.cur_idx < 8
    }

    /// The bit that a read reports and the pad after that read.
    pub open spec fn read_spec(&self) -> (u8, NesController) {
        (
            if self.buttons()[self.shift_index() as int] { 1u8 } else { 0u8 },
            self.with_index(if self.shift_index() < 7 { self.shift_index() + 1 } else { 7 }),
        )
    }

    pub open spec fn with_index(&self, i: nat) -> NesController {
        NesController { bits: self.bits, cur_idx: i as usize }
    }

    pub proof fn lemma_with_index(&self, i: nat)
        requires
            i < 8,
        ensures
            self.with_index(i).buttons() == self.buttons(),
            self.with_index(i).shift_index() == i,
            self.with_index(i).wf(),
    {
    }

    /// A read with the shift index at `i` reports button `i` and moves on.
    pub proof fn lemma_read_at(&self, i: nat)
        requires
            i < 8,
        ensures
            self.with_index(i).read_spec() == (
                if self.buttons()[i as int] { 1u8 } else { 0u8 },
                self.with_index(if i < 7 { i + 1 } else { 7 }),
            ),
    {
    }

    pub fn new() -> (r: Self)
        ensures
            r.wf(),
            r.shift_index() == 0,
            r.buttons() == seq![false, false, false, false, false, false, false, false],
    {
        let r = NesController { bits: [false; 8], cur_idx: 0 };
        assert(r.bits@ =~= seq![false, false, false, false, false, false, false, false]);
        r
    }

    /// Presses button `input`.
    pub fn set_input(&mut self, input: usize)
        requires
            old(self).wf(),
            input < 8,
        ensures
            final(self).wf(),
            final(self).buttons() == old(self).buttons().update(input as int, true),
            final(self).shift_index() == old(self).shift_index(),
    {
        self.bits[input] = true;
    }

    /// Releases button `input`.
    pub fn clear_input(&mut self, input: usize)
        requires
            old(self).wf(),
            input < 8,
        ensures
            final(self).wf(),
            final(self).buttons() == old(self).buttons().update(input as int, false),
            final(self).shift_index() == old(self).shift_index(),
    {
        self.bits[input] = false;
    }

    /// Strobe: the next read reports button A again.
    pub fn poll(&mut self)
        requires
            old(self).wf(),
        ensures
            final(self).wf(),
            final(self).buttons() == old(self).buttons(),
            final(self).shift_index() == 0,
            *final(self) == old(self).with_index(0),
    {
        self.cur_idx = 0;
    }

    /// Reports the current button as bit 0 and moves to the next one; after
    /// Right it keeps reporting Right.
    pub fn read_input(&mut self) -> (r: u8)
        requires
            old(self).wf(),
        ensures
            final(self).wf(),
            (r, *final(self)) == old(self).read_spec(),
            r == (if old(self).buttons()[old(self).shift_index() as int] { 1u8 } else { 0u8 }),
            final(self).buttons() == old(self).buttons(),
            final(self).shift_index() == if old(self).shift_index() < 7 {
                old(self).shift_index() + 1
            } else {
                7
            },
    {
        let ret: u8 = if self.bits[self.cur_idx] { 1 } else { 0 };
        if self.cur_idx < 7 {
            self.cur_idx = self.cur_idx + 1;
        }
        ret
    }
}

} // verus!
