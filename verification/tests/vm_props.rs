use blocksim::contract::ContractError;
use blocksim::contract::SmartContract;
use blocksim::vm::SecurityError;
use blocksim::vm::VirtualMachine;
use blocksim::vm::VmError;

#[test]
fn add_leaves_seven_on_top_and_charges_nine_gas() {
    let mut vm = VirtualMachine::new(10000);
    assert!(vm.push(3).is_ok());
    assert!(vm.push(4).is_ok());
    assert!(vm.execute_opcode("ADD").is_ok());
    assert_eq!(vm.gas_used, 9);
    assert_eq!(vm.pop(), Ok(7));
}

#[test]
fn div_by_zero_charges_nothing() {
    let mut vm = VirtualMachine::new(10000);
    assert!(vm.push(0).is_ok());
    assert!(vm.push(10).is_ok());
    let gas_before = vm.gas_used;
    assert_eq!(vm.execute_opcode("DIV"), Err(VmError::DivisionByZero));
    assert_eq!(vm.gas_used, gas_before);
    assert_eq!(vm.stack, vec![0, 10]);
}

#[test]
fn div_takes_top_as_dividend() {
    let mut vm = VirtualMachine::new(10000);
    assert!(vm.push(2).is_ok());
    assert!(vm.push(10).is_ok());
    assert!(vm.execute_opcode("DIV").is_ok());
    assert_eq!(vm.pop(), Ok(5));
}

#[test]
fn sub_wraps_at_sixty_four_bits() {
    let mut vm = VirtualMachine::new(10000);
    assert!(vm.push(5).is_ok());
    assert!(vm.push(3).is_ok());
    // Top operand 3 minus next operand 5 wraps below zero.
    assert!(vm.execute_opcode("SUB").is_ok());
    assert_eq!(vm.pop(), Ok(u64::MAX - 1));

    let mut vm = VirtualMachine::new(10000);
    assert!(vm.push(2).is_ok());
    assert!(vm.push(u64::MAX).is_ok());
    assert!(vm.execute_opcode("MUL").is_ok());
    assert_eq!(vm.pop(), Ok(u64::MAX - 1));

    let mut vm = VirtualMachine::new(10000);
    assert!(vm.push(1).is_ok());
    assert!(vm.push(u64::MAX).is_ok());
    assert!(vm.execute_opcode("ADD").is_ok());
    assert_eq!(vm.pop(), Ok(0));
}

#[test]
fn out_of_gas_and_underflow_are_reported() {
    let mut vm = VirtualMachine::new(0);
    assert_eq!(vm.push(1), Err(VmError::OutOfGas));

    let mut vm = VirtualMachine::new(10);
    assert_eq!(vm.pop(), Err(VmError::StackUnderflow));

    let mut vm = VirtualMachine::new(10);
    assert_eq!(vm.execute_opcode("NOP"), Err(VmError::UnknownOpcode));

    // An opcode needs seven gas of headroom in full.
    let mut vm = VirtualMachine::new(6);
    assert!(vm.push(1).is_ok());
    assert!(vm.push(2).is_ok());
    assert_eq!(vm.execute_opcode("ADD"), Err(VmError::OutOfGas));
    assert_eq!(vm.gas_used, 2);

    // A lone operand is refused without any charge.
    let mut vm = VirtualMachine::new(100);
    assert!(vm.push(1).is_ok());
    assert_eq!(vm.execute_opcode("ADD"), Err(VmError::StackUnderflow));
    assert_eq!(vm.gas_used, 1);
}

#[test]
fn contract_messages_are_exact() {
    let contract = SmartContract::new("c1".to_string(), "code".to_string());

    let mut vm = VirtualMachine::new(10000);
    let r = contract.call_function(&mut vm, "transfer", vec![1, 2, 77]);
    assert_eq!(r, Ok("Transferred 77 from 1 to 2".to_string()));

    let r = contract.call_function(&mut vm, "transfer", vec![5, 6]);
    assert_eq!(r, Ok("Transferred 0 from 5 to 6".to_string()));

    let r = contract.call_function(&mut vm, "balance", vec![123]);
    assert_eq!(r, Ok("Balance for address 123: 1000".to_string()));

    let r = contract.call_function(&mut vm, "mint", vec![9, 41]);
    assert_eq!(r, Ok("Minted 41 to address 9".to_string()));
}

#[test]
fn contract_call_errors() {
    let contract = SmartContract::new("c1".to_string(), "code".to_string());

    let mut vm = VirtualMachine::new(10000);
    assert_eq!(
        contract.call_function(&mut vm, "transfer", vec![1]),
        Err(ContractError::InsufficientArguments)
    );
    assert_eq!(
        contract.call_function(&mut vm, "balance", vec![]),
        Err(ContractError::InsufficientArguments)
    );
    assert_eq!(
        contract.call_function(&mut vm, "mint", vec![1]),
        Err(ContractError::InsufficientArguments)
    );
    assert_eq!(
        contract.call_function(&mut vm, "nothing", vec![]),
        Err(ContractError::UnknownFunction)
    );
}

#[test]
fn security_check_gates_contract_calls() {
    let contract = SmartContract::new("c1".to_string(), "code".to_string());

    // Past 90% of the gas limit the security check refuses before dispatch.
    let mut vm = VirtualMachine::new(10);
    for i in 0..10 {
        assert!(vm.push(i).is_ok());
    }
    assert_eq!(
        contract.call_function(&mut vm, "balance", vec![1]),
        Err(ContractError::Security(SecurityError::HighGasUsage))
    );

    // A forbidden memory byte is refused first.
    let mut vm = VirtualMachine::new(10000);
    vm.memory[5] = 0xFF;
    assert_eq!(
        vm.security_check(),
        Err(SecurityError::ForbiddenMemoryAccess)
    );
    assert_eq!(
        contract.call_function(&mut vm, "balance", vec![1]),
        Err(ContractError::Security(SecurityError::ForbiddenMemoryAccess))
    );

    let vm = VirtualMachine::new(10000);
    assert_eq!(vm.security_check(), Ok(()));
}

#[test]
fn analyze_security_flags_risk_markers() {
    let contract = SmartContract::new(
        "contract1".to_string(),
        "contract code with potential reentrancy call transfer".to_string(),
    );
    let issues = contract.analyze_security();
    assert_eq!(issues.len(), 1);
    assert_eq!(issues[0].event_type, "reentrancy_risk");
    assert_eq!(issues[0].severity, "high");
    assert_eq!(issues[0].source, "contract1");

    let contract = SmartContract::new("c2".to_string(), "a + b delegatecall".to_string());
    let issues = contract.analyze_security();
    assert_eq!(issues.len(), 2);
    assert_eq!(issues[0].event_type, "overflow_risk");
    assert_eq!(issues[0].severity, "medium");
    assert_eq!(issues[1].event_type, "unsafe_call");
    assert_eq!(issues[1].severity, "critical");

    let contract = SmartContract::new("c3".to_string(), "harmless".to_string());
    assert_eq!(contract.analyze_security().len(), 0);
}
