use c4_rust::printf::{push_decimal, push_decimal_text, push_hex};
use c4_rust::program::Program;
use c4_rust::vm::Vm;

fn machine(data: &[u8]) -> Vm {
    Vm::new(Program { code: vec![0], data: data.to_vec(), entry: 1 }, 0, 0).unwrap()
}

fn text(bytes: Option<Vec<u8>>) -> Option<String> {
    bytes.map(|b| String::from_utf8(b).unwrap())
}

#[test]
fn numbers_in_decimal_and_hexadecimal() {
    let mut out = Vec::new();
    push_decimal(&mut out, 0);
    out.push(b' ');
    push_decimal(&mut out, 9);
    out.push(b' ');
    push_decimal(&mut out, 10);
    out.push(b' ');
    push_decimal(&mut out, u64::MAX);
    assert_eq!(out, b"0 9 10 18446744073709551615");
    let mut out = Vec::new();
    push_decimal_text(&mut out, -42);
    out.push(b' ');
    push_decimal_text(&mut out, i64::MIN);
    out.push(b' ');
    push_decimal_text(&mut out, i64::MAX);
    assert_eq!(out, b"-42 -9223372036854775808 9223372036854775807");
    let mut out = vec![b'x'];
    push_hex(&mut out, 0);
    out.push(b' ');
    push_hex(&mut out, 255);
    out.push(b' ');
    push_hex(&mut out, 0xdead_beef);
    out.push(b' ');
    push_hex(&mut out, u64::MAX);
    assert_eq!(out, b"x0 ff deadbeef ffffffffffffffff");
}

#[test]
fn a_format_without_directives_is_copied() {
    let vm = machine(b"hello, world\n\0");
    assert_eq!(text(vm.format(0, &vec![])), Some(String::from("hello, world\n")));
    assert_eq!(text(vm.format(7, &vec![1, 2])), Some(String::from("world\n")));
    assert_eq!(text(vm.format(13, &vec![])), Some(String::new()));
}

#[test]
fn directives_take_the_arguments_in_order() {
    let vm = machine(b"%d + %d = %x%c\0");
    assert_eq!(text(vm.format(0, &vec![7, -3, 255, 33])), Some(String::from("7 + -3 = ff!")));
    // arguments that were not handed over count as 0
    assert_eq!(text(vm.format(0, &vec![7])), Some(String::from("7 + 0 = 0\0")));
    let vm = machine(b"%x\0");
    assert_eq!(text(vm.format(0, &vec![-1])), Some(String::from("ffffffffffffffff")));
    let vm = machine(b"%c%c\0");
    assert_eq!(vm.format(0, &vec![0x141, 66]), Some(vec![0x41, 66]));
}

#[test]
fn strings_are_read_from_the_memory() {
    let vm = machine(b"<%s|%s>\0abc\0");
    assert_eq!(text(vm.format(0, &vec![8, 11])), Some(String::from("<abc|>")));
    assert_eq!(text(vm.format(0, &vec![9, 0])), Some(String::from("<bc|<%s|%s>>")));
    assert_eq!(vm.format(0, &vec![8, -1]), None);
    assert_eq!(vm.format(0, &vec![0x10_0000, 8]), None);
    assert_eq!(vm.format(-1, &vec![]), None);
}

#[test]
fn percent_signs_and_unknown_directives() {
    let vm = machine(b"100%% %q %d%\0");
    assert_eq!(text(vm.format(0, &vec![5, 6])), Some(String::from("100% %q 5%")));
    let vm = machine(b"%\0");
    assert_eq!(text(vm.format(0, &vec![5])), Some(String::from("%")));
}
