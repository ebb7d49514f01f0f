//! The operations the library asks of a graphics driver, what the driver
//! answers, and a model of the object names the driver hands out.
//!
//! The library never calls the driver. It says which operation comes next;
//! the caller performs it on the thread that owns the drawing context and
//! hands the answer back.

use crate::text::{blank, whitespace_buffer};
use vstd::prelude::*;

verus! {

/// The pipeline phase a shader is compiled for.
#[derive(Clone, Copy, PartialEq, Eq, Debug, Structural)]
pub enum Stage {
    Vertex,
    Fragment,
}

/// One blocking operation on the driver.
#[derive(PartialEq, Eq, Debug)]
pub enum Command {
    CreateShader { stage: Stage },
    ShaderSource { shader: u32, source: Vec<u8> },
    CompileShader { shader: u32 },
    QueryCompileStatus { shader: u32 },
    QueryShaderLogLength { shader: u32 },
    FetchShaderLog { shader: u32, buffer: Vec<u8> },
    DeleteShader { shader: u32 },
    CreateProgram,
    AttachShader { program: u32, shader: u32 },
    LinkProgram { program: u32 },
    QueryLinkStatus { program: u32 },
    QueryProgramLogLength { program: u32 },
    FetchProgramLog { program: u32, buffer: Vec<u8> },
    DetachShader { program: u32, shader: u32 },
    UseProgram { program: u32 },
    DeleteProgram { program: u32 },
}

/// The mathematical value of a [`Command`].
pub enum CommandView {
    CreateShader { stage: Stage },
    ShaderSource { shader: u32, source: Seq<u8> },
    CompileShader { shader: u32 },
    QueryCompileStatus { shader: u32 },
    QueryShaderLogLength { shader: u32 },
    FetchShaderLog { shader: u32, buffer: Seq<u8> },
    DeleteShader { shader: u32 },
    CreateProgram,
    AttachShader { program: u32, shader: u32 },
    LinkProgram { program: u32 },
    QueryLinkStatus { program: u32 },
    QueryProgramLogLength { program: u32 },
    FetchProgramLog { program: u32, buffer: Seq<u8> },
    DetachShader { program: u32, shader: u32 },
    UseProgram { program: u32 },
    DeleteProgram { program: u32 },
}

impl View for Command {
    type V = CommandView;

    open spec fn view(&self) -> CommandView {
        match *self {
            Command::CreateShader { stage } => CommandView::CreateShader { stage },
            Command::ShaderSource { shader, source } => CommandView::ShaderSource {
                shader,
                source: source@,
            },
            Command::CompileShader { shader } => CommandView::CompileShader { shader },
            Command::QueryCompileStatus { shader } => CommandView::QueryCompileStatus { shader },
            Command::QueryShaderLogLength { shader } => CommandView::QueryShaderLogLength {
                shader,
            },
            Command::FetchShaderLog { shader, buffer } => CommandView::FetchShaderLog {
                shader,
                buffer: buffer@,
            },
            Command::DeleteShader { shader } => CommandView::DeleteShader { shader },
            Command::CreateProgram => CommandView::CreateProgram,
            Command::AttachShader { program, shader } => CommandView::AttachShader {
                program,
                shader,
            },
            Command::LinkProgram { program } => CommandView::LinkProgram { program },
            Command::QueryLinkStatus { program } => CommandView::QueryLinkStatus { program },
            Command::QueryProgramLogLength { program } => CommandView::QueryProgramLogLength {
                program,
            },
            Command::FetchProgramLog { program, buffer } => CommandView::FetchProgramLog {
                program,
                buffer: buffer@,
            },
            Command::DetachShader { program, shader } => CommandView::DetachShader {
                program,
                shader,
            },
            Command::UseProgram { program } => CommandView::UseProgram { program },
            Command::DeleteProgram { program } => CommandView::DeleteProgram { program },
        }
    }
}

/// What the driver handed back for one operation.
#[derive(PartialEq, Eq, Debug)]
pub enum Reply {
    /// The operation returns nothing, or the driver wrote nothing.
    Done,
    /// The name of a newly created object; zero when none was created.
    Handle(u32),
    /// The integer a query wrote.
    Value(i32),
    /// The log buffer as the driver left it.
    Text(Vec<u8>),
}

/// The mathematical value of a [`Reply`].
pub enum ReplyView {
    Done,
    Handle(u32),
    Value(i32),
    Text(Seq<u8>),
}

impl View for Reply {
    type V = ReplyView;

    open spec fn view(&self) -> ReplyView {
        match *self {
            Reply::Done => ReplyView::Done,
            Reply::Handle(handle) => ReplyView::Handle(handle),
            Reply::Value(value) => ReplyView::Value(value),
            Reply::Text(bytes) => ReplyView::Text(bytes@),
        }
    }
}

impl CommandView {
    /// The operation neither creates nor deletes an object, attaches or
    /// detaches nothing and binds nothing.
    pub open spec fn is_passive(self) -> bool {
        match self {
            CommandView::ShaderSource { .. } => true,
            CommandView::CompileShader { .. } => true,
            CommandView::QueryCompileStatus { .. } => true,
            CommandView::QueryShaderLogLength { .. } => true,
            CommandView::FetchShaderLog { .. } => true,
            CommandView::LinkProgram { .. } => true,
            CommandView::QueryLinkStatus { .. } => true,
            CommandView::QueryProgramLogLength { .. } => true,
            CommandView::FetchProgramLog { .. } => true,
            _ => false,
        }
    }
}

impl ReplyView {
    /// The object name in the reply; zero, the name of no object, when the
    /// reply carries none.
    pub open spec fn handle(self) -> u32 {
        match self {
            ReplyView::Handle(handle) => handle,
            _ => 0,
        }
    }

    /// The integer in the reply, or `untouched` when the driver wrote none.
    pub open spec fn value_or(self, untouched: i32) -> i32 {
        match self {
            ReplyView::Value(value) => value,
            _ => untouched,
        }
    }

    /// The bytes in the reply, or `untouched` when the driver wrote none.
    pub open spec fn text_or(self, untouched: Seq<u8>) -> Seq<u8> {
        match self {
            ReplyView::Text(bytes) => bytes,
            _ => untouched,
        }
    }
}

impl Reply {
    /// The object name in the reply; zero when the reply carries none.
    pub fn handle(&self) -> (handle: u32)
        ensures
            handle == self@.handle(),
    {
        match self {
            Reply::Handle(handle) => *handle,
            _ => 0,
        }
    }

    /// The integer in the reply, or `untouched` when the driver wrote none.
    pub fn value_or(&self, untouched: i32) -> (value: i32)
        ensures
            value == self@.value_or(untouched),
    {
        match self {
            Reply::Value(value) => *value,
            _ => untouched,
        }
    }

    /// The log the driver left: the bytes in the reply or, when it wrote
    /// none, the buffer of `capacity` bytes as it was handed out.
    pub fn into_text(self, capacity: usize) -> (bytes: Vec<u8>)
        ensures
            bytes@ == self@.text_or(blank(capacity as nat)),
    {
        match self {
            Reply::Text(bytes) => bytes,
            _ => whitespace_buffer(capacity),
        }
    }
}

/// The number of bytes to set aside for a log whose length the driver
/// reported as `reported`: that length, or none for a negative report.
pub open spec fn log_capacity(reported: i32) -> nat {
    if reported > 0 {
        reported as nat
    } else {
        0
    }
}

/// The size of the buffer for a log of the reported length.
pub(crate) fn capacity_for(reported: i32) -> (capacity: usize)
    ensures
        capacity == log_capacity(reported),
{
    if reported > 0 {
        reported as usize
    } else {
        0
    }
}

/// The object names a driver has in use, and the program it is set to draw
/// with.
pub ghost struct Objects {
    /// Names of the shader objects that exist.
    pub shaders: Set<u32>,
    /// Names of the program objects that exist.
    pub programs: Set<u32>,
    /// Pairs of a program and a shader attached to it.
    pub attached: Set<(u32, u32)>,
    /// The program bound for drawing; zero when none is.
    pub current: u32,
}

impl Objects {
    /// Only programs that exist have shaders attached.
    pub open spec fn wf(self) -> bool {
        forall|program: u32, shader: u32| #[trigger]
            self.attached.contains((program, shader)) ==> self.programs.contains(program)
    }

    /// Whether a driver in this state may answer `command` with `reply`: a
    /// newly created object gets a name that is not zero and not in use.
    /// Nothing is asked of the other answers.
    pub open spec fn allows(self, command: CommandView, reply: ReplyView) -> bool {
        match command {
            CommandView::CreateShader { .. } => reply.handle() != 0 && !self.shaders.contains(
                reply.handle(),
            ),
            CommandView::CreateProgram => reply.handle() != 0 && !self.programs.contains(
                reply.handle(),
            ),
            _ => true,
        }
    }

    /// The state after the driver has performed `command` and answered
    /// `reply`.
    pub open spec fn apply(self, command: CommandView, reply: ReplyView) -> Objects {
        match command {
            CommandView::CreateShader { .. } => if reply.handle() != 0 {
                Objects { shaders: self.shaders.insert(reply.handle()), ..self }
            } else {
                self
            },
            CommandView::DeleteShader { shader } => Objects {
                shaders: self.shaders.remove(shader),
                ..self
            },
            CommandView::CreateProgram => if reply.handle() != 0 {
                Objects { programs: self.programs.insert(reply.handle()), ..self }
            } else {
                self
            },
            CommandView::AttachShader { program, shader } => Objects {
                attached: self.attached.insert((program, shader)),
                ..self
            },
            CommandView::DetachShader { program, shader } => Objects {
                attached: self.attached.remove((program, shader)),
                ..self
            },
            CommandView::UseProgram { program } => Objects { current: program, ..self },
            CommandView::DeleteProgram { program } => Objects {
                programs: self.programs.remove(program),
                attached: self.attached.filter(|pair: (u32, u32)| pair.0 != program),
                ..self
            },
            _ => self,
        }
    }
}

} // verus!
