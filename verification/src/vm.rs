//! The contract virtual machine: a gas-metered stack machine over 64-bit
//! operands with a fixed 1 KiB memory region. Pushes and pops charge one
//! gas each; an opcode charges five more on top of its operand pops.
//! Arithmetic wraps at 64 bits, as a real machine register would — only
//! division by zero is guarded. Gas used never exceeds the limit.

use vstd::prelude::*;

use crate::text::str_eq;

verus! {

/// The size of the linear memory region, in bytes.
pub const VM_MEMORY_SIZE: usize = 1024;

/// Why a machine operation was refused. A refused operation leaves the
/// machine exactly as it was: no operand moves and no gas is charged.
#[derive(Clone, Copy, PartialEq, Eq, Debug)]
pub enum VmError {
    OutOfGas,
    StackUnderflow,
    DivisionByZero,
    UnknownOpcode,
}

/// Why the pre-execution security check refused to proceed.
#[derive(Clone, Copy, PartialEq, Eq, Debug)]
pub enum SecurityError {
    ForbiddenMemoryAccess,
    HighGasUsage,
}

/// The machine: operand stack, linear memory, and the gas meter.
pub struct VirtualMachine {
    pub stack: Vec<u64>,
    pub memory: Vec<u8>,
    pub gas_used: u64,
    pub gas_limit: u64,
}

/// The machine's mathematical model: the same state over `Seq`.
pub struct VmModel {
    pub stack: Seq<u64>,
    pub memory: Seq<u8>,
    pub gas_used: u64,
    pub gas_limit: u64,
}

impl View for VirtualMachine {
    type V = VmModel;

    open spec fn view(&self) -> VmModel {
        VmModel {
            stack: self.stack@,
            memory: self.memory@,
            gas_used: self.gas_used,
            gas_limit: self.gas_limit,
        }
    }
}

/// 64-bit wraparound addition.
pub open spec fn wrap_add(a: u64, b: u64) -> u64 {
    if a + b > u64::MAX {
        (a + b - 0x1_0000_0000_0000_0000) as u64
    } else {
        (a + b) as u64
    }
}

/// 64-bit wraparound subtraction.
pub open spec fn wrap_sub(a: u64, b: u64) -> u64 {
    if a - b < 0 {
        (a - b + 0x1_0000_0000_0000_0000) as u64
    } else {
        (a - b) as u64
    }
}

/// 64-bit wraparound multiplication.
pub open spec fn wrap_mul(a: u64, b: u64) -> u64 {
    ((a * b) % 0x1_0000_0000_0000_0000) as u64
}

/// What `push` does: one gas, then the value on top — or an out-of-gas
/// refusal that changes nothing.
pub open spec fn push_spec(m: VmModel, value: u64) -> (VmModel, Result<(), VmError>) {
    if m.gas_used + 1 > m.gas_limit {
        (m, Err(VmError::OutOfGas))
    } else {
        (
            VmModel { stack: m.stack.push(value), gas_used: (m.gas_used + 1) as u64, ..m },
            Ok(()),
        )
    }
}

/// What `pop` does: the gas check first, then the underflow check (which
/// charges nothing), then one gas and the top value.
pub open spec fn pop_spec(m: VmModel) -> (VmModel, Result<u64, VmError>) {
    if m.gas_used + 1 > m.gas_limit {
        (m, Err(VmError::OutOfGas))
    } else if m.stack.len() == 0 {
        (m, Err(VmError::StackUnderflow))
    } else {
        (
            VmModel { stack: m.stack.drop_last(), gas_used: (m.gas_used + 1) as u64, ..m },
            Ok(m.stack.last()),
        )
    }
}

/// Whether `op` names one of the machine's opcodes.
pub open spec fn known_opcode(op: Seq<char>) -> bool {
    op == "ADD"@ || op == "SUB"@ || op == "MUL"@ || op == "DIV"@
}

/// The gas an opcode costs in full: one for each of its two operand pops
/// and a flat five on top.
pub const OPCODE_GAS: u64 = 7;

/// What `execute_opcode` does. The operation commits as one step or is
/// rejected as a whole, leaving the machine unchanged: a full seven-gas
/// headroom check first, then the opcode dispatch, the two-operand
/// availability check, and the division-by-zero guard; on success the two
/// top operands are replaced by the result (top operand first) and the
/// full charge commits.
pub open spec fn execute_opcode_spec(m: VmModel, op: Seq<char>) -> (VmModel, Result<(), VmError>) {
    if m.gas_used + OPCODE_GAS > m.gas_limit {
        (m, Err(VmError::OutOfGas))
    } else if !known_opcode(op) {
        (m, Err(VmError::UnknownOpcode))
    } else if m.stack.len() < 2 {
        (m, Err(VmError::StackUnderflow))
    } else {
        let a = m.stack.last();
        let b = m.stack.drop_last().last();
        if op == "DIV"@ && b == 0 {
            (m, Err(VmError::DivisionByZero))
        } else {
            let v = if op == "ADD"@ {
                wrap_add(a, b)
            } else if op == "SUB"@ {
                wrap_sub(a, b)
            } else if op == "MUL"@ {
                wrap_mul(a, b)
            } else {
                (a / b) as u64
            };
            (
                VmModel {
                    stack: m.stack.drop_last().drop_last().push(v),
                    gas_used: (m.gas_used + OPCODE_GAS) as u64,
                    ..m
                },
                Ok(()),
            )
        }
    }
}

/// What `security_check` reports: a memory byte holding the forbidden
/// sentinel, or gas use beyond 90% of the limit.
pub open spec fn security_check_spec(m: VmModel) -> Result<(), SecurityError> {
    if exists|i: int| 0 <= i < m.memory.len() && m.memory[i] == 0xFF {
        Err(SecurityError::ForbiddenMemoryAccess)
    } else if m.gas_used > m.gas_limit * 90 / 100 {
        Err(SecurityError::HighGasUsage)
    } else {
        Ok(())
    }
}

impl VirtualMachine {
    /// The machine invariant: committed gas never exceeds the limit.
    pub open spec fn wf(self) -> bool {
        self.gas_used <= self.gas_limit
    }

    /// A fresh machine: empty stack, zeroed memory, no gas used.
    pub fn new(gas_limit: u64) -> (r: VirtualMachine)
        ensures
            r.wf(),
            r@.stack.len() == 0,
            r@.memory.len() == VM_MEMORY_SIZE,
            forall|i: int| 0 <= i < r@.memory.len() ==> r@.memory[i] == 0,
            r@.gas_used == 0,
            r@.gas_limit == gas_limit,
    {
        let mut memory: Vec<u8> = Vec::new();
        let mut i: usize = 0;
        while i < VM_MEMORY_SIZE
            invariant
                i <= VM_MEMORY_SIZE,
                memory@.len() == i,
                forall|k: int| 0 <= k < i ==> memory@[k] == 0,
            decreases VM_MEMORY_SIZE - i,
        {
            memory.push(0);
            i = i + 1;
        }
        VirtualMachine { stack: Vec::new(), memory, gas_used: 0, gas_limit }
    }

    /// Pushes an operand, charging one gas.
    pub fn push(&mut self, value: u64) -> (r: Result<(), VmError>)
        requires
            old(self).wf(),
        ensures
            final(self).wf(),
            (final(self)@, r) == push_spec(old(self)@, value),
    {
        if self.gas_used >= self.gas_limit {
            return Err(VmError::OutOfGas);
        }
        self.stack.push(value);
        self.gas_used = self.gas_used + 1;
        Ok(())
    }

    /// Pops the top operand, charging one gas; an empty stack is refused
    /// without charge.
    pub fn pop(&mut self) -> (r: Result<u64, VmError>)
        requires
            old(self).wf(),
        ensures
            final(self).wf(),
            (final(self)@, r) == pop_spec(old(self)@),
    {
        if self.gas_used >= self.gas_limit {
            return Err(VmError::OutOfGas);
        }
        if self.stack.len() == 0 {
            return Err(VmError::StackUnderflow);
        }
        let v = match self.stack.pop() {
            Some(v) => v,
            None => {
                proof {
                    assert(false);
                }
                0
            },
        };
        self.gas_used = self.gas_used + 1;
        Ok(v)
    }

    /// Executes one opcode over the top two operands, as one atomic step:
    /// any refusal leaves the machine exactly as it was.
    pub fn execute_opcode(&mut self, opcode: &str) -> (r: Result<(), VmError>)
        requires
            old(self).wf(),
        ensures
            final(self).wf(),
            (final(self)@, r) == execute_opcode_spec(old(self)@, opcode@),
    {
        if self.gas_limit - self.gas_used < OPCODE_GAS {
            return Err(VmError::OutOfGas);
        }
        let is_add = str_eq(opcode, "ADD");
        let is_sub = str_eq(opcode, "SUB");
        let is_mul = str_eq(opcode, "MUL");
        let is_div = str_eq(opcode, "DIV");
        if !(is_add || is_sub || is_mul || is_div) {
            return Err(VmError::UnknownOpcode);
        }
        if self.stack.len() < 2 {
            return Err(VmError::StackUnderflow);
        }
        let a = self.stack[self.stack.len() - 1];
        let b = self.stack[self.stack.len() - 2];
        if is_div && b == 0 {
            return Err(VmError::DivisionByZero);
        }
        let v = if is_add {
            proof {
                assert(a.wrapping_add(b) == wrap_add(a, b));
            }
            a.wrapping_add(b)
        } else if is_sub {
            proof {
                assert(a.wrapping_sub(b) == wrap_sub(a, b));
            }
            a.wrapping_sub(b)
        } else if is_mul {
            proof {
                assert(a.wrapping_mul(b) == wrap_mul(a, b));
            }
            a.wrapping_mul(b)
        } else {
            a / b
        };
        let ghost stack0 = self.stack@;
        let _top = self.stack.pop();
        let _next = self.stack.pop();
        self.stack.push(v);
        self.gas_used = self.gas_used + OPCODE_GAS;
        proof {
            assert(self.stack@ =~= stack0.drop_last().drop_last().push(v));
            assert(stack0.drop_last().last() == stack0[stack0.len() - 2]);
        }
        Ok(())
    }

    /// The advisory pre-execution gate: refuses on a forbidden memory
    /// byte, or on gas use beyond 90% of the limit. Read-only.
    pub fn security_check(&self) -> (r: Result<(), SecurityError>)
        ensures
            r == security_check_spec(self@),
    {
        let mut i: usize = 0;
        while i < self.memory.len()
            invariant
                i <= self.memory@.len(),
                forall|k: int| 0 <= k < i ==> self.memory@[k] != 0xFF,
            decreases self.memory@.len() - i,
        {
            if self.memory[i] == 0xFF {
                proof {
                    assert(self@.memory[i as int] == 0xFF);
                    assert(exists|k: int| 0 <= k < self@.memory.len() && self@.memory[k] == 0xFF);
                }
                return Err(SecurityError::ForbiddenMemoryAccess);
            }
            i = i + 1;
        }
        proof {
            assert forall|k: int| !(0 <= k < self.memory@.len() && self.memory@[k] == 0xFF) by {
                if 0 <= k < self.memory@.len() {
                    assert(self.memory@[k] != 0xFF);
                }
            }
        }
        let threshold = (self.gas_limit as u128) * 90 / 100;
        if (self.gas_used as u128) > threshold {
            return Err(SecurityError::HighGasUsage);
        }
        Ok(())
    }
}

} // verus!
