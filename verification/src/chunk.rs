//! Chunks of bytecode and their disassembly.

use vstd::prelude::*;
use vstd::string::StringExecFns;

use crate::text::dec_rep;
use crate::text::decimal_string;
use crate::text::pad_left;
use crate::text::pad_left_string;
use crate::text::pad_right;
use crate::text::pad_right_string;
use crate::value::pool_get;
use crate::value::value_text;
use crate::value::Value;
use crate::value::ValuePosition;
use crate::value::Values;

verus! {

/// Instruction to carry out a particular operation.
#[derive(Debug, PartialEq, Eq, Structural)]
pub enum OpCode {
    /// Load a constant for use.
    Constant(ValuePosition),
    /// Return from the current function.
    Return,
}

/// One instruction in disassembly form: its name token padded to sixteen
/// columns and, for `Constant`, the raw numeral of the pool position and the
/// referenced value's debug text in single quotes.
pub open spec fn op_text(op: OpCode, pool: Seq<Value>) -> Seq<char> {
    match op {
        OpCode::Constant(position) => pad_right("OP_CONSTANT"@, ' ', 16) + " "@ + dec_rep(
            position.0 as nat,
        ) + " '"@ + value_text(pool_get(pool, position.0 as int)) + "'"@,
        OpCode::Return => pad_right("OP_RETURN"@, ' ', 16),
    }
}

impl OpCode {
    /// Writes the instruction in disassembly format against the pool it
    /// takes its constants from.
    pub fn disassemble(&self, constants: &Values) -> (r: String)
        ensures
            r@ == op_text(*self, constants@),
    {
        proof {
            reveal_strlit(" ");
        }
        match self {
            OpCode::Constant(position) => {
                let value = constants.get(position);
                let mut r = pad_right_string(String::from_str("OP_CONSTANT"), " ", 16);
                r.append(" ");
                let numeral = position.to_display_text();
                r.append(numeral.as_str());
                r.append(" '");
                let text = value.to_display_text();
                r.append(text.as_str());
                r.append("'");
                r
            },
            OpCode::Return => pad_right_string(String::from_str("OP_RETURN"), " ", 16),
        }
    }
}

/// A chunk of bytecode: the program, ready for disassembly or execution.
pub struct Chunk {
    /// Sequence of instructions.
    ops: Vec<OpCode>,
    /// Constants used in the chunk.
    constants: Values,
    /// Line each instruction originated from: the instruction at a given
    /// index in `ops` has its source line at the same index here.
    lines: Vec<usize>,
}

/// The mathematical content of a chunk.
pub struct ChunkView {
    pub ops: Seq<OpCode>,
    pub lines: Seq<usize>,
    pub constants: Seq<Value>,
}

impl ChunkView {
    /// Every instruction has its source line at the same index: each write
    /// appends exactly one instruction and one line number together.
    pub open spec fn wf(self) -> bool {
        self.ops.len() == self.lines.len()
    }
}

impl View for Chunk {
    type V = ChunkView;

    closed spec fn view(&self) -> ChunkView {
        ChunkView { ops: self.ops@, lines: self.lines@, constants: self.constants@ }
    }
}

/// The title line of a chunk listing.
pub open spec fn chunk_header(name: Seq<char>) -> Seq<char> {
    "== "@ + name + " ==\n"@
}

/// The line column of one listing row: a continuation marker when this
/// instruction's line repeats the one printed before it, else the line
/// number right-justified in four columns. Both forms end in a space.
pub open spec fn line_text(line: usize, last: Option<usize>) -> Seq<char> {
    if last == Some(line) {
        "   | "@
    } else {
        pad_left(dec_rep(line as nat), ' ', 4) + " "@
    }
}

/// The listing rows for the instructions from index `i` on, where `last` is
/// the source line printed for the previous instruction, if any. Each row
/// holds the zero-padded instruction index, the line column, and the
/// instruction's own disassembly.
pub open spec fn listing_from(
    ops: Seq<OpCode>,
    lines: Seq<usize>,
    pool: Seq<Value>,
    i: int,
    last: Option<usize>,
) -> Seq<char>
    decreases ops.len() - i,
{
    if i < 0 || i >= ops.len() {
        Seq::<char>::empty()
    } else {
        pad_left(dec_rep(i as nat), '0', 4) + " "@ + line_text(lines[i], last) + op_text(
            ops[i],
            pool,
        ) + "\n"@ + listing_from(ops, lines, pool, i + 1, Some(lines[i]))
    }
}

/// The full disassembly of a chunk: the title line, then one row per
/// instruction.
pub open spec fn chunk_listing(name: Seq<char>, c: ChunkView) -> Seq<char> {
    chunk_header(name) + listing_from(c.ops, c.lines, c.constants, 0, None::<usize>)
}

impl Default for Chunk {
    /// A chunk starts with no instructions, no lines and an empty pool.
    fn default() -> (r: Chunk)
        ensures
            r@.ops == Seq::<OpCode>::empty(),
            r@.lines == Seq::<usize>::empty(),
            r@.constants == Seq::<Value>::empty(),
    {
        Chunk { ops: Vec::new(), constants: Values::default(), lines: Vec::new() }
    }
}

impl Chunk {
    /// Appends an instruction and records the line of source code the
    /// instruction came from, as one atomic step: the two sequences always
    /// grow together, so their lengths never diverge.
    pub fn write(&mut self, op_code: OpCode, line: usize)
        ensures
            final(self)@.ops == old(self)@.ops.push(op_code),
            final(self)@.lines == old(self)@.lines.push(line),
            final(self)@.constants == old(self)@.constants,
            old(self)@.wf() ==> final(self)@.wf(),
    {
        self.ops.push(op_code);
        self.lines.push(line);
    }

    /// Adds a constant to this chunk's pool and returns its position, for a
    /// later `Constant` instruction to reference.
    pub fn add_constant(&mut self, value: Value) -> (position: ValuePosition)
        ensures
            final(self)@.constants == old(self)@.constants.push(value),
            final(self)@.ops == old(self)@.ops,
            final(self)@.lines == old(self)@.lines,
            final(self)@.wf() == old(self)@.wf(),
            position.0 == old(self)@.constants.len(),
    {
        self.constants.write(value)
    }

    /// The instructions of this chunk.
    pub fn ops(&self) -> (r: &Vec<OpCode>)
        ensures
            r@ == self@.ops,
    {
        &self.ops
    }

    /// The source lines, parallel to the instructions.
    pub fn lines(&self) -> (r: &Vec<usize>)
        ensures
            r@ == self@.lines,
    {
        &self.lines
    }

    /// This chunk's constant pool.
    pub fn constants(&self) -> (r: &Values)
        ensures
            r@ == self@.constants,
    {
        &self.constants
    }

    /// The constant at `position` in this chunk's pool, or `Nil` when the
    /// position is out of range.
    pub fn constant(&self, position: &ValuePosition) -> (r: Value)
        ensures
            r == pool_get(self@.constants, position.0 as int),
    {
        self.constants.get(position)
    }

    /// Writes the chunk in disassembly format: the title line, then one row
    /// per instruction. The text depends on the chunk and the name alone.
    pub fn disassemble(&self, name: &str) -> (r: String)
        requires
            self@.wf(),
        ensures
            r@ == chunk_listing(name@, self@),
    {
        let mut r = String::from_str("== ");
        r.append(name);
        r.append(" ==\n");
        let mut last: Option<usize> = None;
        let mut i: usize = 0;
        while i < self.ops.len()
            invariant
                self@.wf(),
                i <= self@.ops.len(),
                r@ + listing_from(self@.ops, self@.lines, self@.constants, i as int, last)
                    == chunk_listing(name@, self@),
            decreases self@.ops.len() - i,
        {
            proof {
                reveal_strlit(" ");
                reveal_strlit("0");
            }
            let ghost prev = r@;
            let ghost spec_last = last;
            let index = pad_left_string(decimal_string(i), "0", 4);
            r.append(index.as_str());
            r.append(" ");
            let line = self.lines[i];
            let same = if let Some(l) = last {
                l == line
            } else {
                false
            };
            if same {
                r.append("   | ");
            } else {
                let line_numeral = pad_left_string(decimal_string(line), " ", 4);
                r.append(line_numeral.as_str());
                r.append(" ");
                last = Some(line);
            }
            let op_line = self.ops[i].disassemble(&self.constants);
            r.append(op_line.as_str());
            r.append("\n");
            proof {
                assert(r@ =~= prev + (pad_left(dec_rep(i as nat), '0', 4) + " "@ + line_text(
                    self@.lines[i as int],
                    spec_last,
                ) + op_text(self@.ops[i as int], self@.constants) + "\n"@));
            }
            i = i + 1;
            proof {
                assert(last == Some(self@.lines[i as int - 1]));
                assert(r@ + listing_from(self@.ops, self@.lines, self@.constants, i as int, last)
                    =~= chunk_listing(name@, self@));
            }
        }
        proof {
            assert(listing_from(self@.ops, self@.lines, self@.constants, i as int, last)
                == Seq::<char>::empty());
            assert(r@ =~= chunk_listing(name@, self@));
        }
        r
    }
}

/// Law: the disassembly of a chunk with no instructions is exactly the title
/// line `== <name> ==` and its newline, and nothing else.
pub proof fn lemma_disassemble_empty(name: Seq<char>, c: ChunkView)
    requires
        c.ops.len() == 0,
    ensures
        chunk_listing(name, c) == "== "@ + name + " ==\n"@,
{
    assert(chunk_listing(name, c) =~= "== "@ + name + " ==\n"@);
}

/// Law: disassembly is deterministic: two renderings of the same chunk under
/// the same name are identical, byte for byte.
pub proof fn lemma_disassemble_deterministic(
    name: Seq<char>,
    c: ChunkView,
    first: Seq<char>,
    second: Seq<char>,
)
    requires
        first == chunk_listing(name, c),
        second == chunk_listing(name, c),
    ensures
        first == second,
{
}

} // verus!
