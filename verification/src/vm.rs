//! The virtual machine: executes a chunk against a value stack.

use vstd::prelude::*;
use vstd::string::StringExecFns;

use crate::chunk::op_text;
use crate::chunk::Chunk;
use crate::chunk::OpCode;
use crate::value::pool_get;
use crate::value::value_text;
use crate::value::Value;
use crate::value::Values;

verus! {

/// Virtual machine that executes instructions.
///
/// Results and, when tracing is on, trace lines accumulate in an owned text
/// buffer; the caller hands the buffer's contents to its sink after `run`
/// returns. Executing never fails: a missing constant or an empty stack
/// degrades to `Nil` rather than to an error.
pub struct Vm {
    /// Text the machine has written so far.
    output: String,
    /// Stack of values storing the state of program execution.
    stack: Vec<Value>,
    /// Whether the machine writes the stack contents and the current
    /// instruction before each execution step.
    trace_execution: bool,
}

/// The mathematical content of a machine.
pub struct VmView {
    pub output: Seq<char>,
    pub stack: Seq<Value>,
    pub trace_execution: bool,
}

impl View for Vm {
    type V = VmView;

    closed spec fn view(&self) -> VmView {
        VmView {
            output: self.output@,
            stack: self.stack@,
            trace_execution: self.trace_execution,
        }
    }
}

/// The stack contents in trace form: each value's debug text bracketed,
/// bottom of the stack first.
pub open spec fn stack_text(stack: Seq<Value>) -> Seq<char>
    decreases stack.len(),
{
    if stack.len() == 0 {
        Seq::<char>::empty()
    } else {
        stack_text(stack.drop_last()) + "["@ + value_text(stack.last()) + "]"@
    }
}

/// The trace text written before one instruction executes: ten leading
/// spaces and the stack dump on one line, then the instruction's own
/// disassembly on the next.
pub open spec fn trace_text(op: OpCode, pool: Seq<Value>, stack: Seq<Value>) -> Seq<char> {
    "          "@ + stack_text(stack) + "\n"@ + op_text(op, pool) + "\n"@
}

/// What executing `ops` from index `i` with the given stack leaves: the text
/// written and the stack after. One instruction is interpreted per step, in
/// sequence. `Constant` pushes the referenced pool value, or `Nil` when its
/// position is out of range. `Return` pops a value, or takes `Nil` from an
/// empty stack, writes its debug text and a newline, and ends the run at
/// once; instructions after it are never executed. A run with no `Return`
/// ends when the instructions are exhausted, writing no final value. With
/// `trace` on, each step is preceded by its trace text.
pub open spec fn run_from(
    ops: Seq<OpCode>,
    pool: Seq<Value>,
    stack: Seq<Value>,
    trace: bool,
    i: int,
) -> (Seq<char>, Seq<Value>)
    decreases ops.len() - i,
{
    if i < 0 || i >= ops.len() {
        (Seq::<char>::empty(), stack)
    } else {
        let pre = if trace {
            trace_text(ops[i], pool, stack)
        } else {
            Seq::<char>::empty()
        };
        match ops[i] {
            OpCode::Constant(position) => {
                let rest = run_from(
                    ops,
                    pool,
                    stack.push(pool_get(pool, position.0 as int)),
                    trace,
                    i + 1,
                );
                (pre + rest.0, rest.1)
            },
            OpCode::Return => {
                if stack.len() == 0 {
                    (pre + value_text(Value::Nil) + "\n"@, stack)
                } else {
                    (pre + value_text(stack.last()) + "\n"@, stack.drop_last())
                }
            },
        }
    }
}

impl Vm {
    /// Creates a machine with empty output and an empty stack.
    pub fn new(trace_execution: bool) -> (r: Vm)
        ensures
            r@.output == Seq::<char>::empty(),
            r@.stack == Seq::<Value>::empty(),
            r@.trace_execution == trace_execution,
    {
        Vm { output: String::new(), stack: Vec::with_capacity(256), trace_execution }
    }

    /// Text the machine has written so far.
    pub fn output(&self) -> (r: &String)
        ensures
            r@ == self@.output,
    {
        &self.output
    }

    /// The execution stack, bottom of the stack first.
    pub fn stack(&self) -> (r: &Vec<Value>)
        ensures
            r@ == self@.stack,
    {
        &self.stack
    }

    /// Writes tracing information: the current stack contents, then the
    /// instruction about to execute.
    fn trace(&mut self, op: &OpCode, constants: &Values)
        ensures
            final(self)@.output == old(self)@.output + trace_text(
                *op,
                constants@,
                old(self)@.stack,
            ),
            final(self)@.stack == old(self)@.stack,
            final(self)@.trace_execution == old(self)@.trace_execution,
    {
        self.output.append("          ");
        let mut j: usize = 0;
        while j < self.stack.len()
            invariant
                j <= self@.stack.len(),
                self@.stack == old(self)@.stack,
                self@.trace_execution == old(self)@.trace_execution,
                self@.output == old(self)@.output + "          "@ + stack_text(
                    self@.stack.take(j as int),
                ),
            decreases self@.stack.len() - j,
        {
            let text = self.stack[j].to_display_text();
            self.output.append("[");
            self.output.append(text.as_str());
            self.output.append("]");
            j = j + 1;
            proof {
                assert(self@.stack.take(j as int).drop_last() =~= self@.stack.take(j as int - 1));
                assert(self@.stack.take(j as int).last() == self@.stack[j as int - 1]);
                assert(self@.output =~= old(self)@.output + "          "@ + stack_text(
                    self@.stack.take(j as int),
                ));
            }
        }
        proof {
            assert(self@.stack.take(j as int) =~= self@.stack);
        }
        self.output.append("\n");
        let text = op.disassemble(constants);
        self.output.append(text.as_str());
        self.output.append("\n");
        proof {
            assert(final(self)@.output =~= old(self)@.output + trace_text(
                *op,
                constants@,
                old(self)@.stack,
            ));
        }
    }

    /// Runs a chunk of instructions, consuming it. Interprets each
    /// instruction in sequence until a `Return` ends the run or the
    /// instructions are exhausted; the text written and the final stack are
    /// exactly what `run_from` gives for the chunk and this machine's
    /// starting stack.
    pub fn run(&mut self, chunk: Chunk)
        requires
            chunk@.wf(),
        ensures
            ({
                let r = run_from(
                    chunk@.ops,
                    chunk@.constants,
                    old(self)@.stack,
                    old(self)@.trace_execution,
                    0,
                );
                &&& final(self)@.output == old(self)@.output + r.0
                &&& final(self)@.stack == r.1
                &&& final(self)@.trace_execution == old(self)@.trace_execution
            }),
    {
        let n = chunk.ops().len();
        let mut i: usize = 0;
        while i < n
            invariant
                n == chunk@.ops.len(),
                chunk@.wf(),
                i <= n,
                self@.trace_execution == old(self)@.trace_execution,
                ({
                    let whole = run_from(
                        chunk@.ops,
                        chunk@.constants,
                        old(self)@.stack,
                        old(self)@.trace_execution,
                        0,
                    );
                    let rest = run_from(
                        chunk@.ops,
                        chunk@.constants,
                        self@.stack,
                        self@.trace_execution,
                        i as int,
                    );
                    &&& old(self)@.output + whole.0 == self@.output + rest.0
                    &&& whole.1 == rest.1
                }),
            decreases n - i,
        {
            let ghost pre_stack = self@.stack;
            let op = &chunk.ops()[i];
            if self.trace_execution {
                self.trace(op, chunk.constants());
            }
            match op {
                OpCode::Constant(position) => {
                    let constant = chunk.constant(position);
                    self.stack.push(constant);
                    proof {
                        assert(old(self)@.output + run_from(
                            chunk@.ops,
                            chunk@.constants,
                            old(self)@.stack,
                            old(self)@.trace_execution,
                            0,
                        ).0 =~= self@.output + run_from(
                            chunk@.ops,
                            chunk@.constants,
                            self@.stack,
                            self@.trace_execution,
                            i as int + 1,
                        ).0);
                    }
                },
                OpCode::Return => {
                    let value = match self.stack.pop() {
                        Some(v) => v,
                        None => Value::Nil,
                    };
                    let text = value.to_display_text();
                    self.output.append(text.as_str());
                    self.output.append("\n");
                    proof {
                        if pre_stack.len() > 0 {
                            assert(value == pre_stack.last());
                            assert(self@.stack =~= pre_stack.drop_last());
                        }
                        assert(old(self)@.output + run_from(
                            chunk@.ops,
                            chunk@.constants,
                            old(self)@.stack,
                            old(self)@.trace_execution,
                            0,
                        ).0 =~= self@.output);
                    }
                    return ;
                },
            }
            i = i + 1;
        }
        proof {
            assert(old(self)@.output + run_from(
                chunk@.ops,
                chunk@.constants,
                old(self)@.stack,
                old(self)@.trace_execution,
                0,
            ).0 =~= self@.output);
        }
    }
}

/// Law: instructions that stand after a `Return` are never executed.
/// Extending a program that ends in `Return` with any further instructions
/// changes neither the text a run writes nor the stack it leaves.
pub proof fn lemma_run_ignores_code_after_return(
    ops: Seq<OpCode>,
    tail: Seq<OpCode>,
    pool: Seq<Value>,
    stack: Seq<Value>,
    trace: bool,
    i: int,
)
    requires
        0 <= i < ops.len(),
        ops.last() == OpCode::Return,
    ensures
        run_from(ops + tail, pool, stack, trace, i) == run_from(ops, pool, stack, trace, i),
    decreases ops.len() - i,
{
    assert((ops + tail)[i] == ops[i]);
    match ops[i] {
        OpCode::Constant(position) => {
            assert(i + 1 < ops.len()) by {
                if i + 1 == ops.len() {
                    assert(ops[i] == ops.last());
                }
            }
            lemma_run_ignores_code_after_return(
                ops,
                tail,
                pool,
                stack.push(pool_get(pool, position.0 as int)),
                trace,
                i + 1,
            );
        },
        OpCode::Return => {
        },
    }
}

/// Law: loading one constant and returning writes the referenced value's
/// debug text and a newline, and leaves the stack exactly as it began.
pub proof fn lemma_load_then_return(
    position: crate::value::ValuePosition,
    pool: Seq<Value>,
    stack: Seq<Value>,
)
    ensures
        run_from(
            seq![OpCode::Constant(position), OpCode::Return],
            pool,
            stack,
            false,
            0,
        ) == (value_text(pool_get(pool, position.0 as int)) + "\n"@, stack),
{
    let ops = seq![OpCode::Constant(position), OpCode::Return];
    let pushed = stack.push(pool_get(pool, position.0 as int));
    assert(pushed.len() > 0);
    assert(pushed.last() == pool_get(pool, position.0 as int));
    assert(pushed.drop_last() =~= stack);
    assert(run_from(ops, pool, pushed, false, 1) == (
        value_text(pool_get(pool, position.0 as int)) + "\n"@,
        pushed.drop_last(),
    ));
    assert(run_from(ops, pool, stack, false, 0).0 =~= value_text(
        pool_get(pool, position.0 as int),
    ) + "\n"@);
}

} // verus!
