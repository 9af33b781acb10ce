use elfasm::ast::Node;
use elfasm::code_gen::{CodeGenerator, GenError};
use elfasm::elf::ELF;
use elfasm::parser::Parser;

/// Runs the whole pipeline: source text to a 32-bit image.
fn assemble(src: &str) -> ELF {
    let ast = Parser::parse(src).unwrap();
    let program = CodeGenerator::generate(&ast).unwrap();
    ELF::new_x86(program)
}

#[test]
fn parser() {
    let code = "
entry _start

_msg:
    db \"Hello World!\",0xA

_start:
    mov ebx, 1      ; stdout
    mov ecx, _msg
    mov edx, 13    ; message length
    mov edi, 5      ; print it 5 times

_loop:
    mov eax, 4  ; write
    int 0x80

    dec edi
    jnz _loop

_exit:
    mov eax, 1      ; exit
    mov ebx, 0      ; status code 0
    int 0x80
";

    let node = Parser::parse(code).unwrap();
    assert!(matches!(node, Node::Program(_)));
}

#[test]
fn new_parser_parser() {
    let code = "
entry _start

_msg:
    db \"Hello World!\",0xA

_start:
    mov ebx, 1      ; stdout
    mov ecx, _msg
    mov edx, 13    ; message length
    mov edi, 5      ; print it 5 times

_loop:
    mov eax, 4  ; write
    int 0x80

    dec edi
    jnz _loop

_exit:
    mov eax, 1      ; exit
    mov ebx, 0      ; status code 0
    int 0x80
";

    let node = Parser::parse(code).unwrap();
    assert!(matches!(node, Node::Program(_)));
}

#[test]
fn exit_program() {
    let elf = assemble(
        "entry _start
_start:
  mov eax, 1
  mov ebx, 0
  int 0x80",
    );
    let body = elf.program.as_vec();
    assert_eq!(body.len(), 12);
    assert_eq!(
        body,
        vec![0xB8, 0x01, 0x00, 0x00, 0x00, 0xBB, 0x00, 0x00, 0x00, 0x00, 0xCD, 0x80]
    );
    assert_eq!(elf.header.entry_point, 0x08048054);
    assert_eq!(elf.program_header.p_filesz, 12);
}

#[test]
fn hello_world_addresses() {
    let elf = assemble(
        "entry _start
_msg: db \"Hi\", 0x0A
_start:
  mov ebx, 1
  mov ecx, _msg
  mov edx, 3
  mov eax, 4
  int 0x80
  mov eax, 1
  mov ebx, 0
  int 0x80",
    );
    let body = elf.program.as_vec();
    // _msg sits at the load address itself
    assert_eq!(elf.header.entry_point, 0x08048054 + 3);
    // the dword after B9 (mov ecx, _msg) is the vaddr of _msg
    let at = 3 + 5;
    assert_eq!(body[at], 0xB9);
    assert_eq!(&body[at + 1..at + 5], &[0x54, 0x80, 0x04, 0x08]);
    // the dword after BA (mov edx, 3) is 3
    let at = at + 5;
    assert_eq!(body[at], 0xBA);
    assert_eq!(&body[at + 1..at + 5], &[0x03, 0x00, 0x00, 0x00]);
    // layout consistency end to end
    assert_eq!(body.len() as u64, elf.program_header.p_filesz);
    let image = elf.as_vec();
    assert_eq!(image.len(), 0x54 + body.len());
    assert_eq!(&image[0..4], &[0x7F, 0x45, 0x4C, 0x46]);
}

#[test]
fn conditional_backward_jump() {
    let elf = assemble(
        "entry _s
_s:
  mov edi, 5
_l:
  dec edi
  jnz _l",
    );
    let body = elf.program.as_vec();
    // mov edi,5 is 5 bytes; dec edi is one byte 0x4F; jnz is 0F 85 rel32
    assert_eq!(body.len(), 5 + 1 + 6);
    assert_eq!(body[5], 0x4F);
    assert_eq!(body[6], 0x0F);
    assert_eq!(body[7], 0x85);
    // the displacement is -7: back past the jump and the dec
    assert_eq!(&body[8..12], &[0xF9, 0xFF, 0xFF, 0xFF]);
}

#[test]
fn equate_with_current_location() {
    let ast = Parser::parse(
        "_d: db \"abcd\"
EQU L $ - _d",
    )
    .unwrap();
    let gen = CodeGenerator::run(&ast).unwrap();
    assert_eq!(gen.equate_value("L"), Some(4));
}

#[test]
fn memory_store_through_ebp() {
    let elf = assemble("mov [ebp], eax");
    let body = elf.program.as_vec();
    assert_eq!(body, vec![0x89, 0x45, 0x00]);
}

#[test]
fn memory_store_through_esp() {
    let elf = assemble("mov [esp], eax");
    let body = elf.program.as_vec();
    assert_eq!(body, vec![0x89, 0x04, 0x24]);
}

#[test]
fn accumulator_short_form_add() {
    let elf = assemble(
        "add eax, 1
add ebx, 1",
    );
    let body = elf.program.as_vec();
    assert_eq!(
        body,
        vec![0x05, 0x01, 0x00, 0x00, 0x00, 0x81, 0xC3, 0x01, 0x00, 0x00, 0x00]
    );
}

#[test]
fn encoding_is_repeatable() {
    let src = "entry _start
_msg: db \"Hi\", 0x0A
_start:
  mov ecx, _msg
  dec edi
  jnz _start
  call _start
  int 0x80";
    let ast = Parser::parse(src).unwrap();
    let first = ELF::new_x86(CodeGenerator::generate(&ast).unwrap()).as_vec();
    let second = ELF::new_x86(CodeGenerator::generate(&ast).unwrap()).as_vec();
    assert_eq!(first, second);
}

#[test]
fn equate_shadows_in_operands() {
    let elf = assemble(
        "EQU N 7
mov eax, N",
    );
    let body = elf.program.as_vec();
    assert_eq!(body, vec![0xB8, 0x07, 0x00, 0x00, 0x00]);
}

#[test]
fn expression_precedence_is_left_associative() {
    // 1 - 2 * 3 + 4 groups as (1 - (2 * 3)) + 4, wrapping at 32 bits
    let ast = Parser::parse("EQU X 1 - 2 * 3 + 4").unwrap();
    let gen = CodeGenerator::run(&ast).unwrap();
    assert_eq!(gen.equate_value("X"), Some(1u32.wrapping_sub(6).wrapping_add(4)));
    // parentheses override
    let ast = Parser::parse("EQU Y ( 10 - 4 ) / 2").unwrap();
    let gen = CodeGenerator::run(&ast).unwrap();
    assert_eq!(gen.equate_value("Y"), Some(3));
}

#[test]
fn code_generation_errors() {
    // an immediate wider than the register
    let ast = Parser::parse("mov al, 300").unwrap();
    assert_eq!(CodeGenerator::generate(&ast).unwrap_err(), GenError::ImmediateOverflow);
    // memory addressing through a 16-bit register
    let ast = Parser::parse("mov [cx], eax").unwrap();
    assert_eq!(CodeGenerator::generate(&ast).unwrap_err(), GenError::UnsupportedOperand);
    // a label operand on a register narrower than 32 bits
    let ast = Parser::parse(
        "_l: ret
mov ax, _l",
    )
    .unwrap();
    assert_eq!(CodeGenerator::generate(&ast).unwrap_err(), GenError::UnsupportedOperand);
    // an unknown name inside an expression
    let ast = Parser::parse("EQU X nowhere").unwrap();
    assert_eq!(CodeGenerator::generate(&ast).unwrap_err(), GenError::UnknownName);
    // division by zero inside an expression
    let ast = Parser::parse("EQU X 1 / 0").unwrap();
    assert_eq!(CodeGenerator::generate(&ast).unwrap_err(), GenError::DivisionByZero);
    // a malformed expression, as a tree no parse produces
    let ast = Node::EQU(String::from("x"), Box::new(Node::Return));
    assert_eq!(CodeGenerator::generate(&ast).unwrap_err(), GenError::BadExpression);
}

#[test]
fn parse_errors_carry_lines() {
    let err = Parser::parse(
        "ret
mov",
    )
    .unwrap_err();
    assert_eq!(err.line_no, 2);
    assert!(Parser::parse("bogus eax, 1").is_err());
}

#[test]
fn data_directives() {
    let elf = assemble(
        "db \"AB\", 0x43
dw 0x1234, \"a\"
dl 0x01020304
ds 3",
    );
    let body = elf.program.as_vec();
    assert_eq!(
        body,
        vec![
            0x41, 0x42, 0x43, // db
            0x34, 0x12, 0x61, 0x00, // dw
            0x04, 0x03, 0x02, 0x01, // dl
            0x00, 0x00, 0x00, // ds
        ]
    );
}

#[test]
fn sub_forms_select_by_width() {
    // register-register: 28 for 8-bit, 29 for 16/32-bit (66-prefixed at 16)
    let body = assemble(
        "sub bl, cl
sub ax, cx
sub eax, ecx",
    )
    .program
    .as_vec();
    assert_eq!(
        body,
        vec![0x28, 0xCB, 0x66, 0x29, 0xC8, 0x29, 0xC8]
    );
    // immediate: 80 for 8-bit, 81 for 16/32-bit non-accumulator;
    // AL/AX/EAX take the short forms 2C/2D
    let body = assemble(
        "sub bl, 1
sub cx, 1
sub ebx, 1
sub al, 1
sub ax, 1",
    )
    .program
    .as_vec();
    assert_eq!(
        body,
        vec![
            0x80, 0xEB, 0x01, // sub bl, 1
            0x66, 0x81, 0xE9, 0x01, 0x00, // sub cx, 1
            0x81, 0xEB, 0x01, 0x00, 0x00, 0x00, // sub ebx, 1
            0x2C, 0x01, // sub al, 1
            0x66, 0x2D, 0x01, 0x00, // sub ax, 1
        ]
    );
}

#[test]
fn sixteen_bit_forms_take_a_prefix() {
    let elf = assemble(
        "mov ax, 5
inc cx
push bx",
    );
    let body = elf.program.as_vec();
    assert_eq!(
        body,
        vec![0x66, 0xB8, 0x05, 0x00, 0x66, 0x41, 0x66, 0x53]
    );
}
