//! The CHIP-8 machine state: memory, registers, stack, timers.

use vstd::prelude::*;

verus! {

/// The 16 built-in glyphs, 5 bytes each, stored at address 0.
pub open spec fn font_seq() -> Seq<u8> {
    seq![
        0xF0u8, 0x90, 0x90, 0x90, 0xF0, // 0
        0x20, 0x60, 0x20, 0x20, 0x70, // 1
        0xF0, 0x10, 0xF0, 0x80, 0xF0, // 2
        0xF0, 0x10, 0xF0, 0x10, 0xF0, // 3
        0x90, 0x90, 0xF0, 0x10, 0x10, // 4
        0xF0, 0x80, 0xF0, 0x10, 0xF0, // 5
        0xF0, 0x80, 0xF0, 0x90, 0xF0, // 6
        0xF0, 0x10, 0x20, 0x40, 0x40, // 7
        0xF0, 0x90, 0xF0, 0x90, 0xF0, // 8
        0xF0, 0x90, 0xF0, 0x10, 0xF0, // 9
        0xF0, 0x90, 0xF0, 0x90, 0x90, // A
        0xE0, 0x90, 0xE0, 0x90, 0xE0, // B
        0xF0, 0x80, 0x80, 0x80, 0xF0, // C
        0xE0, 0x90, 0x90, 0x90, 0xE0, // D
        0xF0, 0x80, 0xF0, 0x80, 0xF0, // E
        0xF0, 0x80, 0xF0, 0x80, 0x80, // F
    ]
}

/// Memory, program counter, index register, call stack, the two timers and
/// the 16 general-purpose registers.
pub struct Chip8Components {
    pub memory: Vec<u8>,
    pub pc: u16,
    pub index: u16,
    pub stack: Vec<u16>,
    pub delay_timer: u8,
    pub sound_timer: u8,
    pub var_registers: Vec<u8>,
}

impl Chip8Components {
    /// Memory holds 4096 bytes, there are 16 registers, and every return
    /// address on the stack points at a fetchable instruction, so that a
    /// return can advance past it without wrapping.
    pub open spec fn wf(&self) -> bool {
        &&& self.memory@.len() == 4096
        &&& self.var_registers@.len() == 16
        &&& forall|i: int| 0 <= i < self.stack@.len() ==> self.stack@[i] <= 4094
    }

    /// A fresh machine: zeroed memory with the font table at address 0,
    /// all registers, timers and the program counter at zero, empty stack.
    pub fn new() -> (r: Self)
        ensures
            r.wf(),
            r.pc == 0,
            r.index == 0,
            r.stack@.len() == 0,
            r.delay_timer == 0,
            r.sound_timer == 0,
            forall|i: int| 0 <= i < 16 ==> r.var_registers@[i] == 0,
            forall|i: int| 0 <= i < 80 ==> r.memory@[i] == font_seq()[i],
            forall|i: int| 80 <= i < 4096 ==> r.memory@[i] == 0,
    {
        let mut memory: Vec<u8> = Vec::new();
        memory.push(0xF0);
        memory.push(0x90);
        memory.push(0x90);
        memory.push(0x90);
        memory.push(0xF0);
        memory.push(0x20);
        memory.push(0x60);
        memory.push(0x20);
        memory.push(0x20);
        memory.push(0x70);
        memory.push(0xF0);
        memory.push(0x10);
        memory.push(0xF0);
        memory.push(0x80);
        memory.push(0xF0);
        memory.push(0xF0);
        memory.push(0x10);
        memory.push(0xF0);
        memory.push(0x10);
        memory.push(0xF0);
        memory.push(0x90);
        memory.push(0x90);
        memory.push(0xF0);
        memory.push(0x10);
        memory.push(0x10);
        memory.push(0xF0);
        memory.push(0x80);
        memory.push(0xF0);
        memory.push(0x10);
        memory.push(0xF0);
        memory.push(0xF0);
        memory.push(0x80);
        memory.push(0xF0);
        memory.push(0x90);
        memory.push(0xF0);
        memory.push(0xF0);
        memory.push(0x10);
        memory.push(0x20);
        memory.push(0x40);
        memory.push(0x40);
        memory.push(0xF0);
        memory.push(0x90);
        memory.push(0xF0);
        memory.push(0x90);
        memory.push(0xF0);
        memory.push(0xF0);
        memory.push(0x90);
        memory.push(0xF0);
        memory.push(0x10);
        memory.push(0xF0);
        memory.push(0xF0);
        memory.push(0x90);
        memory.push(0xF0);
        memory.push(0x90);
        memory.push(0x90);
        memory.push(0xE0);
        memory.push(0x90);
        memory.push(0xE0);
        memory.push(0x90);
        memory.push(0xE0);
        memory.push(0xF0);
        memory.push(0x80);
        memory.push(0x80);
        memory.push(0x80);
        memory.push(0xF0);
        memory.push(0xE0);
        memory.push(0x90);
        memory.push(0x90);
        memory.push(0x90);
        memory.push(0xE0);
        memory.push(0xF0);
        memory.push(0x80);
        memory.push(0xF0);
        memory.push(0x80);
        memory.push(0xF0);
        memory.push(0xF0);
        memory.push(0x80);
        memory.push(0xF0);
        memory.push(0x80);
        memory.push(0x80);
        proof {
            assert(memory@ =~= font_seq());
        }
        let ghost font_part = memory@;
        while memory.len() < 4096
            invariant
                80 <= memory@.len() <= 4096,
                memory@.subrange(0, 80) =~= font_part,
                font_part == font_seq(),
                forall|i: int| 80 <= i < memory@.len() ==> memory@[i] == 0,
            decreases 4096 - memory@.len(),
        {
            memory.push(0);
            proof {
                assert(memory@.subrange(0, 80) =~= memory@.drop_last().subrange(0, 80));
            }
        }
        let mut var_registers: Vec<u8> = Vec::new();
        let mut i: usize = 0;
        while i < 16
            invariant
                i == var_registers@.len(),
                i <= 16,
                forall|j: int| 0 <= j < i ==> var_registers@[j] == 0,
            decreases 16 - i,
        {
            var_registers.push(0);
            i = i + 1;
        }
        proof {
            assert(forall|i: int| 0 <= i < 80 ==> memory@[i] == font_seq()[i]) by {
                assert(forall|i: int| 0 <= i < 80 ==> memory@[i] == memory@.subrange(0, 80)[i]);
            }
        }
        Chip8Components {
            memory,
            pc: 0,
            index: 0,
            stack: Vec::new(),
            delay_timer: 0,
            sound_timer: 0,
            var_registers,
        }
    }
}

} // verus!
