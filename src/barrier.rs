//! Barrier lifecycle operations and their CUDA text.
use vstd::prelude::*;
use vstd::string::*;

verus! {

/// The character of a single decimal digit.
pub open spec fn digit_char(d: nat) -> char {
    seq!['0', '1', '2', '3', '4', '5', '6', '7', '8', '9'][d as int]
}

/// The decimal spelling of a natural number, most significant digit first.
pub open spec fn dec_text(n: nat) -> Seq<char>
    decreases n,
{
    if n < 10 {
        seq![digit_char(n)]
    } else {
        dec_text(n / 10) + seq![digit_char(n % 10)]
    }
}

fn digit_str(d: u32) -> (r: &'static str)
    requires
        d < 10,
    ensures
        r@ == seq![digit_char(d as nat)],
{
    match d {
        0 => {
            proof { reveal_strlit("0"); }
            "0"
        },
        1 => {
            proof { reveal_strlit("1"); }
            "1"
        },
        2 => {
            proof { reveal_strlit("2"); }
            "2"
        },
        3 => {
            proof { reveal_strlit("3"); }
            "3"
        },
        4 => {
            proof { reveal_strlit("4"); }
            "4"
        },
        5 => {
            proof { reveal_strlit("5"); }
            "5"
        },
        6 => {
            proof { reveal_strlit("6"); }
            "6"
        },
        7 => {
            proof { reveal_strlit("7"); }
            "7"
        },
        8 => {
            proof { reveal_strlit("8"); }
            "8"
        },
        _ => {
            proof { reveal_strlit("9"); }
            "9"
        },
    }
}

/// Spells `n` in decimal.
pub fn decimal(n: u32) -> (r: String)
    ensures
        r@ == dec_text(n as nat),
    decreases n,
{
    if n < 10 {
        let r = String::from_str(digit_str(n));
        assert(r@ =~= dec_text(n as nat));
        r
    } else {
        let mut s = decimal(n / 10);
        s.append(digit_str(n % 10));
        s
    }
}


/// Storage class of a variable; it decides the prefix of its name.
#[derive(Clone, Copy, Debug, PartialEq, Eq, Structural)]
pub enum VarKind {
    Local,
    Shared,
    Global,
}

/// Element type of a variable, spelled as a CUDA type.
#[derive(Clone, Copy, Debug, PartialEq, Eq, Structural)]
pub enum Elem {
    Half,
    BFloat16,
    Float,
    Double,
    Int,
    UInt,
    Bool,
}

/// A named object of a kernel body. The identity `id` is always present,
/// so a barrier operation always knows which barrier it acts on.
#[derive(Clone, Copy, Debug, PartialEq, Eq, Structural)]
pub struct Variable {
    pub kind: VarKind,
    pub id: u32,
    pub elem: Elem,
}

/// Scope that a barrier synchronizes.
#[derive(Clone, Copy, Debug, PartialEq, Eq, Structural)]
pub enum BarrierLevel {
    /// A single thread.
    Unit,
    /// All threads of the cube; the given thread index performs the initialization.
    Cube(u32),
}

/// One synchronization action of a kernel body.
#[derive(Clone, Copy, Debug, PartialEq, Eq, Structural)]
pub enum BarrierOps {
    Init { barrier: Variable, level: BarrierLevel },
    MemCopyAsync { barrier: Variable, source: Variable, destination: Variable },
    Wait { barrier: Variable },
}

impl VarKind {
    pub open spec fn prefix(self) -> Seq<char> {
        match self {
            VarKind::Local => "l_"@,
            VarKind::Shared => "shared_"@,
            VarKind::Global => "buffer_"@,
        }
    }

    pub fn render(&self) -> (r: &'static str)
        ensures
            r@ == self.prefix(),
    {
        match self {
            VarKind::Local => "l_",
            VarKind::Shared => "shared_",
            VarKind::Global => "buffer_",
        }
    }
}

impl Elem {
    pub open spec fn text(self) -> Seq<char> {
        match self {
            Elem::Half => "__half"@,
            Elem::BFloat16 => "__nv_bfloat16"@,
            Elem::Float => "float"@,
            Elem::Double => "double"@,
            Elem::Int => "int"@,
            Elem::UInt => "uint"@,
            Elem::Bool => "bool"@,
        }
    }

    pub fn render(&self) -> (r: &'static str)
        ensures
            r@ == self.text(),
    {
        match self {
            Elem::Half => "__half",
            Elem::BFloat16 => "__nv_bfloat16",
            Elem::Float => "float",
            Elem::Double => "double",
            Elem::Int => "int",
            Elem::UInt => "uint",
            Elem::Bool => "bool",
        }
    }
}

impl Variable {
    /// The name of the variable in generated code: its prefix and its identity.
    /// The element type takes no part in it.
    pub open spec fn name(self) -> Seq<char> {
        self.kind.prefix() + dec_text(self.id as nat)
    }

    pub fn render(&self) -> (r: String)
        ensures
            r@ == self.name(),
    {
        let mut s = String::from_str(self.kind.render());
        let id = decimal(self.id);
        s.append(id.as_str());
        s
    }
}

/// `init(&barrier, count);`
pub open spec fn init_call(barrier: Seq<char>, count: Seq<char>) -> Seq<char> {
    "init(&"@ + barrier + ", "@ + count + ");"@
}

/// A block that only the thread with index `elected` runs.
pub open spec fn elected_guard(elected: nat, body: Seq<char>) -> Seq<char> {
    "if (threadIdxGlobal == "@ + dec_text(elected) + ") {\n   "@ + body + "\n}"@
}

/// The number of bytes that a copy out of `source` moves: its length times the
/// size of its element type.
pub open spec fn byte_count(source: Variable) -> Seq<char> {
    source.name() + "_length * sizeof("@ + source.elem.text() + ")"@
}

/// The number of threads that a cube barrier waits for.
pub open spec fn cube_extent() -> Seq<char> {
    "blockDimGlobal"@
}

impl BarrierOps {
    /// The barrier that the operation acts on.
    pub open spec fn barrier(self) -> Variable {
        match self {
            BarrierOps::Init { barrier, .. } => barrier,
            BarrierOps::MemCopyAsync { barrier, .. } => barrier,
            BarrierOps::Wait { barrier } => barrier,
        }
    }

    /// The CUDA text of the operation.
    pub open spec fn text(self) -> Seq<char> {
        match self {
            BarrierOps::MemCopyAsync { barrier, source, destination } => "\ncuda::memcpy_async("@
                + destination.name() + ", "@ + source.name() + ", "@ + byte_count(source) + ", "@
                + barrier.name() + ");\n"@,
            BarrierOps::Init { barrier, level } => match level {
                BarrierLevel::Unit => "\ncuda::barrier<cuda::thread_scope_thread> "@
                    + barrier.name() + ";\n"@ + init_call(barrier.name(), "1"@) + "\n"@,
                BarrierLevel::Cube(elected) => "\n__shared__ cuda::barrier<cuda::thread_scope_block> "@
                    + barrier.name() + ";\n"@ + elected_guard(
                    elected as nat,
                    init_call(barrier.name(), cube_extent()),
                ) + "\n"@,
            },
            BarrierOps::Wait { barrier } => "\n"@ + barrier.name() + ".arrive_and_wait();\n"@,
        }
    }

    /// Identity of the barrier that the operation acts on.
    pub fn barrier_id(&self) -> (r: u32)
        ensures
            r == self.barrier().id,
    {
        match self {
            BarrierOps::MemCopyAsync { barrier, .. } => barrier.id,
            BarrierOps::Init { barrier, .. } => barrier.id,
            BarrierOps::Wait { barrier } => barrier.id,
        }
    }

    /// The CUDA text of the operation.
    pub fn render(&self) -> (r: String)
        ensures
            r@ == self.text(),
    {
        match self {
            BarrierOps::MemCopyAsync { barrier, source, destination } => {
                let src = source.render();
                let mut s = String::from_str("\ncuda::memcpy_async(");
                s.append(destination.render().as_str());
                s.append(", ");
                s.append(src.as_str());
                s.append(", ");
                s.append(src.as_str());
                s.append("_length * sizeof(");
                s.append(source.elem.render());
                s.append(")");
                s.append(", ");
                s.append(barrier.render().as_str());
                s.append(");\n");
                assert(s@ =~= self.text());
                s
            },
            BarrierOps::Init { barrier, level } => {
                let name = barrier.render();
                match level {
                    BarrierLevel::Unit => {
                        let mut s = String::from_str("\ncuda::barrier<cuda::thread_scope_thread> ");
                        s.append(name.as_str());
                        s.append(";\n");
                        s.append("init(&");
                        s.append(name.as_str());
                        s.append(", ");
                        s.append("1");
                        s.append(");");
                        s.append("\n");
                        assert(s@ =~= self.text());
                        s
                    },
                    BarrierLevel::Cube(elected) => {
                        let mut s = String::from_str(
                            "\n__shared__ cuda::barrier<cuda::thread_scope_block> ",
                        );
                        s.append(name.as_str());
                        s.append(";\n");
                        s.append("if (threadIdxGlobal == ");
                        s.append(decimal(*elected).as_str());
                        s.append(") {\n   ");
                        s.append("init(&");
                        s.append(name.as_str());
                        s.append(", ");
                        s.append("blockDimGlobal");
                        s.append(");");
                        s.append("\n}");
                        s.append("\n");
                        assert(s@ =~= self.text());
                        s
                    },
                }
            },
            BarrierOps::Wait { barrier } => {
                let mut s = String::from_str("\n");
                s.append(barrier.render().as_str());
                s.append(".arrive_and_wait();\n");
                assert(s@ =~= self.text());
                s
            },
        }
    }
}

/// Initializing a cube barrier runs only on the elected thread, and the barrier
/// is sized for every thread of the cube.
pub proof fn lemma_cube_init_is_guarded(barrier: Variable, elected: u32)
    ensures
        exists|pre: Seq<char>, post: Seq<char>|
            #[trigger] (BarrierOps::Init { barrier, level: BarrierLevel::Cube(elected) }).text()
                == pre + elected_guard(elected as nat, init_call(barrier.name(), cube_extent()))
                + post,
{
    let op = BarrierOps::Init { barrier, level: BarrierLevel::Cube(elected) };
    let pre = "\n__shared__ cuda::barrier<cuda::thread_scope_block> "@ + barrier.name() + ";\n"@;
    let post = "\n"@;
    assert(op.text() == pre + elected_guard(elected as nat, init_call(barrier.name(), cube_extent()))
        + post);
}

/// An asynchronous copy moves as many bytes as the source holds (its length times
/// the size of its element type), whatever the element type of the destination.
pub proof fn lemma_copy_counts_source_bytes(
    barrier: Variable,
    source: Variable,
    destination: Variable,
    other_destination: Variable,
)
    requires
        other_destination.kind == destination.kind,
        other_destination.id == destination.id,
    ensures
        exists|pre: Seq<char>, post: Seq<char>|
            #[trigger] (BarrierOps::MemCopyAsync { barrier, source, destination }).text() == pre
                + byte_count(source) + post,
        (BarrierOps::MemCopyAsync { barrier, source, destination: other_destination }).text()
            == (BarrierOps::MemCopyAsync { barrier, source, destination }).text(),
{
    let op = BarrierOps::MemCopyAsync { barrier, source, destination };
    let pre = "\ncuda::memcpy_async("@ + destination.name() + ", "@ + source.name() + ", "@;
    let post = ", "@ + barrier.name() + ");\n"@;
    assert(op.text() =~= pre + byte_count(source) + post);
}

} // verus!
