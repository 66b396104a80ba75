use tasks::TaskRegisters;
use tasks::render::decimal_string;
use tasks::render::hex_string;
use tasks::stack::Stack;

#[test]
fn decimal_rendering_of_machine_words() {
    assert_eq!(decimal_string(0).as_str(), "0");
    assert_eq!(decimal_string(7).as_str(), "7");
    assert_eq!(decimal_string(10).as_str(), "10");
    assert_eq!(decimal_string(12345).as_str(), "12345");
    assert_eq!(decimal_string(usize::MAX).as_str(), format!("{}", usize::MAX).as_str());
}

#[test]
fn hex_rendering_of_machine_words() {
    assert_eq!(hex_string(0).as_str(), "0");
    assert_eq!(hex_string(10).as_str(), "a");
    assert_eq!(hex_string(16).as_str(), "10");
    assert_eq!(hex_string(0xbeef).as_str(), "beef");
    assert_eq!(hex_string(usize::MAX).as_str(), format!("{:x}", usize::MAX).as_str());
}

#[test]
fn empty_registers_are_all_zero() {
    let r = TaskRegisters::empty();
    assert_eq!(r.rax, 0);
    assert_eq!(r.rbx, 0);
    assert_eq!(r.rcx, 0);
    assert_eq!(r.rdx, 0);
    assert_eq!(r.rsi, 0);
    assert_eq!(r.rdi, 0);
    assert_eq!(r.r8, 0);
    assert_eq!(r.r9, 0);
    assert_eq!(r.r10, 0);
    assert_eq!(r.r11, 0);
    assert_eq!(r.r12, 0);
    assert_eq!(r.r13, 0);
    assert_eq!(r.r14, 0);
    assert_eq!(r.r15, 0);
    assert_eq!(r.rbp, 0);
}

#[test]
fn registers_render_in_register_name_order() {
    let mut r = TaskRegisters::empty();
    r.rax = 1;
    r.rbp = 15;
    assert_eq!(
        r.to_decimal_string().as_str(),
        "rax: 1 rbx: 0 rcx: 0 rdx: 0 rsi: 0 rdi: 0 r8:  0 r9:  0 r10: 0 r11: 0 r12: 0 r13: 0 r14: 0 r15: 0 rbp: 15",
    );
    r.rax = 255;
    r.rbp = 16;
    assert_eq!(
        r.to_hex_string().as_str(),
        "rax: 0xff rbx: 0x0 rcx: 0x0 rdx: 0x0 rsi: 0x0 rdi: 0x0 r8:  0x0 r9:  0x0 r10: 0x0 r11: 0x0 r12: 0x0 r13: 0x0 r14: 0x0 r15: 0x0 rbp: 0x10",
    );
}

#[test]
fn stack_contains_is_inclusive_at_both_ends() {
    let s = Stack { bottom: 0x1000, top: 0x2000 };
    assert!(s.contains(0x1000));
    assert!(s.contains(0x2000));
    assert!(s.contains(0x1800));
    assert!(!s.contains(0x0fff));
    assert!(!s.contains(0x2001));
}

#[test]
fn stack_renders_as_a_hex_range() {
    let s = Stack { bottom: 0x10, top: 0xff };
    assert_eq!(s.to_hex_string().as_str(), "0x10..0xff");
}
