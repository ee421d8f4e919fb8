use bwb16::cpu::Cpu;

#[test]
fn cpu_after_reset() {
    let cpu = Cpu::new();
    assert_eq!(cpu._registers, [0u16; 16]);
    assert!(!cpu._carry);
    assert!(!cpu._zero);
    assert!(!cpu._negative);
    assert!(!cpu._overflow);
    assert!(cpu._kernel);
    cpu._run();
    assert!(cpu._kernel);
}
