//! Smart contracts: a fixed function table (`transfer`, `balance`,
//! `mint`) dispatched by name over raw argument lists, simulating gas cost
//! by pushing operands through the virtual machine; and a heuristic
//! source-text scan for risk markers — a linter, not an analysis.

use vstd::prelude::*;
use vstd::string::StringExecFns;

use crate::clock::now_seconds;
use crate::monitor::SecurityEvent;
use crate::text::contains_seq;
use crate::text::dec_str;
use crate::text::push_dec;
use crate::text::str_contains;
use crate::text::str_eq;
use crate::vm::execute_opcode_spec;
use crate::vm::push_spec;
use crate::vm::security_check_spec;
use crate::vm::SecurityError;
use crate::vm::VirtualMachine;
use crate::vm::VmError;
use crate::vm::VmModel;

verus! {

/// One entry of a contract's function table.
pub struct ContractFunction {
    pub name: String,
    pub inputs: Vec<String>,
    pub outputs: Vec<String>,
    pub payable: bool,
}

/// A deployed contract: its address, source text, and function table.
pub struct SmartContract {
    pub address: String,
    pub code: String,
    pub abi: Vec<ContractFunction>,
}

/// Why a contract call was refused.
#[derive(Clone, Copy, PartialEq, Eq, Debug)]
pub enum ContractError {
    InsufficientArguments,
    UnknownFunction,
    Vm(VmError),
    Security(SecurityError),
}

/// The report a successful `transfer` call renders.
pub open spec fn transfer_message(amount: u64, from: u64, to: u64) -> Seq<char> {
    "Transferred "@ + dec_str(amount as nat) + " from "@ + dec_str(from as nat) + " to "@
        + dec_str(to as nat)
}

/// The report a successful `balance` call renders.
pub open spec fn balance_message(address: u64) -> Seq<char> {
    "Balance for address "@ + dec_str(address as nat) + ": 1000"@
}

/// The report a successful `mint` call renders.
pub open spec fn mint_message(amount: u64, to: u64) -> Seq<char> {
    "Minted "@ + dec_str(amount as nat) + " to address "@ + dec_str(to as nat)
}

/// What `call_function` does: the security gate first, then dispatch by
/// name, each function checking its argument count, driving its operands
/// through the machine, and rendering its report.
pub open spec fn call_function_spec(m: VmModel, name: Seq<char>, args: Seq<u64>) -> (
    VmModel,
    Result<Seq<char>, ContractError>,
) {
    match security_check_spec(m) {
        Err(e) => (m, Err(ContractError::Security(e))),
        Ok(()) => {
            if name == "transfer"@ {
                if args.len() < 2 {
                    (m, Err(ContractError::InsufficientArguments))
                } else {
                    let from = args[0];
                    let to = args[1];
                    let amount = if args.len() > 2 {
                        args[2]
                    } else {
                        0
                    };
                    let (m1, r1) = push_spec(m, from);
                    match r1 {
                        Err(e) => (m1, Err(ContractError::Vm(e))),
                        Ok(()) => {
                            let (m2, r2) = push_spec(m1, to);
                            match r2 {
                                Err(e) => (m2, Err(ContractError::Vm(e))),
                                Ok(()) => {
                                    let (m3, r3) = push_spec(m2, amount);
                                    match r3 {
                                        Err(e) => (m3, Err(ContractError::Vm(e))),
                                        Ok(()) => {
                                            let (m4, r4) = execute_opcode_spec(m3, "ADD"@);
                                            match r4 {
                                                Err(e) => (m4, Err(ContractError::Vm(e))),
                                                Ok(()) => (
                                                    m4,
                                                    Ok(transfer_message(amount, from, to)),
                                                ),
                                            }
                                        },
                                    }
                                },
                            }
                        },
                    }
                }
            } else if name == "balance"@ {
                if args.len() == 0 {
                    (m, Err(ContractError::InsufficientArguments))
                } else {
                    let address = args[0];
                    let (m1, r1) = push_spec(m, address);
                    match r1 {
                        Err(e) => (m1, Err(ContractError::Vm(e))),
                        Ok(()) => (m1, Ok(balance_message(address))),
                    }
                }
            } else if name == "mint"@ {
                if args.len() < 2 {
                    (m, Err(ContractError::InsufficientArguments))
                } else {
                    let to = args[0];
                    let amount = args[1];
                    let (m1, r1) = push_spec(m, to);
                    match r1 {
                        Err(e) => (m1, Err(ContractError::Vm(e))),
                        Ok(()) => {
                            let (m2, r2) = push_spec(m1, amount);
                            match r2 {
                                Err(e) => (m2, Err(ContractError::Vm(e))),
                                Ok(()) => {
                                    let (m3, r3) = execute_opcode_spec(m2, "ADD"@);
                                    match r3 {
                                        Err(e) => (m3, Err(ContractError::Vm(e))),
                                        Ok(()) => (m3, Ok(mint_message(amount, to))),
                                    }
                                },
                            }
                        },
                    }
                }
            } else {
                (m, Err(ContractError::UnknownFunction))
            }
        },
    }
}

/// The reentrancy marker: the source text holds both "call" and
/// "transfer".
pub open spec fn reentrancy_risk(code: Seq<char>) -> bool {
    contains_seq(code, "call"@) && contains_seq(code, "transfer"@)
}

/// The overflow marker: the source text holds an arithmetic operator.
pub open spec fn overflow_risk(code: Seq<char>) -> bool {
    contains_seq(code, "+"@) || contains_seq(code, "*"@)
}

/// The unsafe-call marker: the source text holds "delegatecall".
pub open spec fn unsafe_call_risk(code: Seq<char>) -> bool {
    contains_seq(code, "delegatecall"@)
}

/// The fields of a reported event, timestamp aside.
pub open spec fn event_is(
    e: SecurityEvent,
    event_type: Seq<char>,
    details: Seq<char>,
    severity: Seq<char>,
    source: Seq<char>,
) -> bool {
    e.event_type@ == event_type && e.details@ == details && e.severity@ == severity && e.source@
        == source
}

impl SmartContract {
    /// A contract at `address` with source `code` and the fixed table of
    /// `transfer` (payable), `balance`, and `mint`.
    pub fn new(address: String, code: String) -> (r: SmartContract)
        ensures
            r.address == address,
            r.code == code,
            r.abi@.len() == 3,
            r.abi@[0].name@ == "transfer"@ && r.abi@[0].payable == true
                && r.abi@[0].inputs.deep_view() =~= seq!["from"@, "to"@]
                && r.abi@[0].outputs.deep_view() =~= seq!["success"@],
            r.abi@[1].name@ == "balance"@ && r.abi@[1].payable == false
                && r.abi@[1].inputs.deep_view() =~= seq!["address"@]
                && r.abi@[1].outputs.deep_view() =~= seq!["amount"@],
            r.abi@[2].name@ == "mint"@ && r.abi@[2].payable == false
                && r.abi@[2].inputs.deep_view() =~= seq!["to"@, "amount"@]
                && r.abi@[2].outputs.deep_view() =~= seq!["success"@],
    {
        let mut transfer_inputs: Vec<String> = Vec::new();
        transfer_inputs.push(String::from_str("from"));
        transfer_inputs.push(String::from_str("to"));
        let mut transfer_outputs: Vec<String> = Vec::new();
        transfer_outputs.push(String::from_str("success"));
        let mut balance_inputs: Vec<String> = Vec::new();
        balance_inputs.push(String::from_str("address"));
        let mut balance_outputs: Vec<String> = Vec::new();
        balance_outputs.push(String::from_str("amount"));
        let mut mint_inputs: Vec<String> = Vec::new();
        mint_inputs.push(String::from_str("to"));
        mint_inputs.push(String::from_str("amount"));
        let mut mint_outputs: Vec<String> = Vec::new();
        mint_outputs.push(String::from_str("success"));
        proof {
            assert(transfer_inputs@[0]@ == "from"@ && transfer_inputs@[1]@ == "to"@);
            assert(transfer_inputs.deep_view() =~= seq!["from"@, "to"@]);
            assert(transfer_outputs.deep_view() =~= seq!["success"@]);
            assert(balance_inputs.deep_view() =~= seq!["address"@]);
            assert(balance_outputs.deep_view() =~= seq!["amount"@]);
            assert(mint_inputs@[0]@ == "to"@ && mint_inputs@[1]@ == "amount"@);
            assert(mint_inputs.deep_view() =~= seq!["to"@, "amount"@]);
            assert(mint_outputs.deep_view() =~= seq!["success"@]);
        }
        let mut abi: Vec<ContractFunction> = Vec::new();
        abi.push(
            ContractFunction {
                name: String::from_str("transfer"),
                inputs: transfer_inputs,
                outputs: transfer_outputs,
                payable: true,
            },
        );
        abi.push(
            ContractFunction {
                name: String::from_str("balance"),
                inputs: balance_inputs,
                outputs: balance_outputs,
                payable: false,
            },
        );
        abi.push(
            ContractFunction {
                name: String::from_str("mint"),
                inputs: mint_inputs,
                outputs: mint_outputs,
                payable: false,
            },
        );
        SmartContract { address, code, abi }
    }

    /// Dispatches a named contract function over raw arguments, driving
    /// its operands through the machine.
    pub fn call_function(
        &self,
        vm: &mut VirtualMachine,
        function_name: &str,
        args: Vec<u64>,
    ) -> (r: Result<String, ContractError>)
        requires
            old(vm).wf(),
        ensures
            final(vm).wf(),
            ({
                let (m2, rr) = call_function_spec(old(vm)@, function_name@, args@);
                final(vm)@ == m2 && (match (r, rr) {
                    (Ok(s), Ok(t)) => s@ == t,
                    (Err(e), Err(f)) => e == f,
                    _ => false,
                })
            }),
    {
        match vm.security_check() {
            Ok(()) => {},
            Err(e) => {
                return Err(ContractError::Security(e));
            },
        }
        if str_eq(function_name, "transfer") {
            if args.len() < 2 {
                return Err(ContractError::InsufficientArguments);
            }
            let from = args[0];
            let to = args[1];
            let amount = if args.len() > 2 {
                args[2]
            } else {
                0
            };
            match vm.push(from) {
                Ok(()) => {},
                Err(e) => {
                    return Err(ContractError::Vm(e));
                },
            }
            match vm.push(to) {
                Ok(()) => {},
                Err(e) => {
                    return Err(ContractError::Vm(e));
                },
            }
            match vm.push(amount) {
                Ok(()) => {},
                Err(e) => {
                    return Err(ContractError::Vm(e));
                },
            }
            match vm.execute_opcode("ADD") {
                Ok(()) => {},
                Err(e) => {
                    return Err(ContractError::Vm(e));
                },
            }
            let mut message = String::new();
            message.append("Transferred ");
            push_dec(&mut message, amount);
            message.append(" from ");
            push_dec(&mut message, from);
            message.append(" to ");
            push_dec(&mut message, to);
            proof {
                assert(message@ =~= transfer_message(amount, from, to));
            }
            Ok(message)
        } else if str_eq(function_name, "balance") {
            if args.len() == 0 {
                return Err(ContractError::InsufficientArguments);
            }
            let address = args[0];
            match vm.push(address) {
                Ok(()) => {},
                Err(e) => {
                    return Err(ContractError::Vm(e));
                },
            }
            let mut message = String::new();
            message.append("Balance for address ");
            push_dec(&mut message, address);
            message.append(": 1000");
            proof {
                assert(message@ =~= balance_message(address));
            }
            Ok(message)
        } else if str_eq(function_name, "mint") {
            if args.len() < 2 {
                return Err(ContractError::InsufficientArguments);
            }
            let to = args[0];
            let amount = args[1];
            match vm.push(to) {
                Ok(()) => {},
                Err(e) => {
                    return Err(ContractError::Vm(e));
                },
            }
            match vm.push(amount) {
                Ok(()) => {},
                Err(e) => {
                    return Err(ContractError::Vm(e));
                },
            }
            match vm.execute_opcode("ADD") {
                Ok(()) => {},
                Err(e) => {
                    return Err(ContractError::Vm(e));
                },
            }
            let mut message = String::new();
            message.append("Minted ");
            push_dec(&mut message, amount);
            message.append(" to address ");
            push_dec(&mut message, to);
            proof {
                assert(message@ =~= mint_message(amount, to));
            }
            Ok(message)
        } else {
            Err(ContractError::UnknownFunction)
        }
    }

    /// Scans the contract's source text for risk markers and reports one
    /// timestamped event per marker found, in a fixed order.
    pub fn analyze_security(&self) -> (r: Vec<SecurityEvent>)
        ensures
            ({
                let re = reentrancy_risk(self.code@);
                let ov = overflow_risk(self.code@);
                let un = unsafe_call_risk(self.code@);
                r@.len() == (if re {
                    1int
                } else {
                    0int
                }) + (if ov {
                    1int
                } else {
                    0int
                }) + (if un {
                    1int
                } else {
                    0int
                }) && (re ==> event_is(
                    r@[0],
                    "reentrancy_risk"@,
                    "Potential reentrancy vulnerability detected"@,
                    "high"@,
                    self.address@,
                )) && (ov ==> event_is(
                    r@[if re {
                        1int
                    } else {
                        0int
                    }],
                    "overflow_risk"@,
                    "Potential integer overflow risk detected"@,
                    "medium"@,
                    self.address@,
                )) && (un ==> event_is(
                    r@[r@.len() - 1],
                    "unsafe_call"@,
                    "Unsafe delegatecall detected"@,
                    "critical"@,
                    self.address@,
                ))
            }),
    {
        let mut issues: Vec<SecurityEvent> = Vec::new();
        if str_contains(self.code.as_str(), "call") && str_contains(self.code.as_str(), "transfer")
        {
            issues.push(
                SecurityEvent {
                    event_type: String::from_str("reentrancy_risk"),
                    timestamp: now_seconds(),
                    details: String::from_str("Potential reentrancy vulnerability detected"),
                    severity: String::from_str("high"),
                    source: self.address.clone(),
                },
            );
        }
        if str_contains(self.code.as_str(), "+") || str_contains(self.code.as_str(), "*") {
            issues.push(
                SecurityEvent {
                    event_type: String::from_str("overflow_risk"),
                    timestamp: now_seconds(),
                    details: String::from_str("Potential integer overflow risk detected"),
                    severity: String::from_str("medium"),
                    source: self.address.clone(),
                },
            );
        }
        if str_contains(self.code.as_str(), "delegatecall") {
            issues.push(
                SecurityEvent {
                    event_type: String::from_str("unsafe_call"),
                    timestamp: now_seconds(),
                    details: String::from_str("Unsafe delegatecall detected"),
                    severity: String::from_str("critical"),
                    source: self.address.clone(),
                },
            );
        }
        issues
    }
}

} // verus!
