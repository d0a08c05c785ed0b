use rlox::chunk::Chunk;
use rlox::chunk::OpCode;
use rlox::value::Value;

/// A numeric value, rendered to its numeral text at the boundary.
fn number(n: f64) -> Value {
    Value::Number(n.to_string())
}

#[test]
fn chunk_write_opcode_adds_op_and_line_number() {
    let mut chunk = Chunk::default();
    let line = 42;

    chunk.write(OpCode::Return, line);

    assert_eq!(chunk.ops(), &vec![OpCode::Return]);
    assert_eq!(chunk.lines(), &vec![line]);
}

#[test]
fn chunk_disassemble_when_empty_prints_title() {
    let chunk = Chunk::default();
    let name = "empty chunk";

    let output = chunk.disassemble(name);

    assert_eq!(output, "== empty chunk ==\n");
}

#[test]
fn chunk_disassemble_with_ops_prints_name_and_ops() {
    let mut chunk = Chunk::default();
    let position = chunk.add_constant(number(42.0));
    chunk.write(OpCode::Constant(position), 1);
    let position = chunk.add_constant(number(1.2));
    chunk.write(OpCode::Constant(position), 1);
    chunk.write(OpCode::Return, 2);
    let name = "test chunk";

    let output = chunk.disassemble(name);

    assert_eq!(
        output,
        "== test chunk ==\n0000    1 OP_CONSTANT      0 '42'\n0001    | OP_CONSTANT      1 '1.2'\n0002    2 OP_RETURN       \n"
    );
}

#[test]
fn chunk_disassemble_twice_is_byte_identical() {
    let mut chunk = Chunk::default();
    let position = chunk.add_constant(number(42.0));
    chunk.write(OpCode::Constant(position), 1);
    chunk.write(OpCode::Return, 2);

    let first = chunk.disassemble("test chunk");
    let second = chunk.disassemble("test chunk");

    assert_eq!(first.as_bytes(), second.as_bytes());
}

#[test]
fn chunk_disassemble_line_repeats_only_when_consecutive() {
    let mut chunk = Chunk::default();
    chunk.write(OpCode::Return, 1);
    chunk.write(OpCode::Return, 2);
    chunk.write(OpCode::Return, 1);

    let output = chunk.disassemble("lines");

    assert_eq!(
        output,
        "== lines ==\n0000    1 OP_RETURN       \n0001    2 OP_RETURN       \n0002    1 OP_RETURN       \n"
    );
}

#[test]
fn chunk_disassemble_pads_index_and_line_columns() {
    let mut chunk = Chunk::default();
    for _ in 0..11 {
        chunk.write(OpCode::Return, 12345);
    }

    let output = chunk.disassemble("wide");
    let rows: Vec<&str> = output.lines().collect();

    assert_eq!(rows[1], "0000 12345 OP_RETURN       ");
    assert_eq!(rows[2], "0001    | OP_RETURN       ");
    assert_eq!(rows[10], "0009    | OP_RETURN       ");
    assert_eq!(rows[11], "0010    | OP_RETURN       ");
}

#[test]
fn chunk_disassemble_missing_constant_renders_nil() {
    let mut chunk = Chunk::default();
    chunk.write(OpCode::Constant(rlox::value::ValuePosition(7)), 1);

    let output = chunk.disassemble("sparse");

    assert_eq!(output, "== sparse ==\n0000    1 OP_CONSTANT      7 'nil'\n");
}
