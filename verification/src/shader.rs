//! Shader units: one compiled stage each, built by a state machine that
//! creates the driver's shader object, compiles the source into it and, where
//! the compiler rejects the source, fetches the log and deletes the object
//! again.

use crate::protocol::{
    capacity_for, log_capacity, Command, CommandView, Reply, ReplyView, Stage,
};
use crate::text::{blank, decode_lossy, lossy_text, whitespace_buffer};
use vstd::prelude::*;
use vstd::slice::slice_to_vec;

verus! {

/// Shader source text as the driver takes it: bytes that a terminating zero
/// byte is appended to at the call, and that hold no zero byte themselves.
#[derive(Debug)]
pub struct Source {
    bytes: Vec<u8>,
}

/// The bytes offered as source text hold a zero byte.
#[derive(Clone, Copy, PartialEq, Eq, Debug, Structural)]
pub struct NulError {
    /// The index of the first zero byte.
    pub position: usize,
}

impl View for Source {
    type V = Seq<u8>;

    closed spec fn view(&self) -> Seq<u8> {
        self.bytes@
    }
}

impl Source {
    #[verifier::type_invariant]
    spec fn unterminated(&self) -> bool {
        forall|i: int| 0 <= i < self.bytes@.len() ==> self.bytes@[i] != 0
    }

    /// Takes `bytes` as source text, unless a zero byte is among them.
    pub fn new(bytes: Vec<u8>) -> (result: Result<Source, NulError>)
        ensures
            match result {
                Ok(source) => {
                    &&& source@ == bytes@
                    &&& forall|i: int| 0 <= i < bytes@.len() ==> bytes@[i] != 0
                },
                Err(error) => {
                    &&& error.position < bytes@.len()
                    &&& bytes@[error.position as int] == 0
                    &&& forall|i: int| 0 <= i < error.position ==> bytes@[i] != 0
                },
            },
    {
        let mut position: usize = 0;
        while position < bytes.len()
            invariant
                position <= bytes.len(),
                forall|i: int| 0 <= i < position ==> bytes@[i] != 0,
            decreases bytes.len() - position,
        {
            if bytes[position] == 0 {
                return Err(NulError { position });
            }
            position = position + 1;
        }
        Ok(Source { bytes })
    }

    /// The text, without a terminator.
    pub fn as_bytes(&self) -> (bytes: &[u8])
        ensures
            bytes@ == self@,
            forall|i: int| 0 <= i < bytes@.len() ==> bytes@[i] != 0,
    {
        proof {
            use_type_invariant(self);
        }
        self.bytes.as_slice()
    }
}

/// One compiled shader stage. It stands for exactly one shader object of the
/// driver, from a successful compilation until [`Shader::delete`].
#[derive(Debug, PartialEq, Eq)]
pub struct Shader {
    id: u32,
    stage: Stage,
}

/// The mathematical value of a [`Shader`].
pub ghost struct ShaderView {
    pub id: u32,
    pub stage: Stage,
}

impl View for Shader {
    type V = ShaderView;

    closed spec fn view(&self) -> ShaderView {
        ShaderView { id: self.id, stage: self.stage }
    }
}

/// The operation a [`ShaderBuild`] has asked for and awaits the answer to.
#[derive(Clone, Copy, PartialEq, Eq, Debug, Structural)]
pub enum ShaderPhase {
    /// Creating the shader object.
    Creating,
    /// Handing the source text to the object.
    Loading,
    /// Compiling.
    Compiling,
    /// Asking whether the source compiled.
    Checking,
    /// Asking for the length of the log.
    Measuring,
    /// Fetching the log.
    Reading,
    /// Deleting the object of a failed compilation.
    Releasing,
}

/// A compilation under way.
#[derive(Debug)]
pub struct ShaderBuild {
    phase: ShaderPhase,
    stage: Stage,
    source: Vec<u8>,
    shader: u32,
    capacity: usize,
    message: String,
}

/// The mathematical value of a [`ShaderBuild`].
pub ghost struct ShaderBuildView {
    pub phase: ShaderPhase,
    pub stage: Stage,
    /// The source text, until it has been handed to the driver.
    pub source: Seq<u8>,
    /// The name of the shader object, once created.
    pub shader: u32,
    /// The size of the log buffer, once it has been handed out.
    pub capacity: nat,
    /// The text of the log, once fetched.
    pub message: Seq<char>,
}

impl View for ShaderBuild {
    type V = ShaderBuildView;

    closed spec fn view(&self) -> ShaderBuildView {
        ShaderBuildView {
            phase: self.phase,
            stage: self.stage,
            source: self.source@,
            shader: self.shader,
            capacity: self.capacity as nat,
            message: self.message@,
        }
    }
}

/// Where a compilation stands after an answer: at another operation, or at
/// its result.
#[derive(Debug)]
pub enum ShaderStep {
    /// The caller performs the command and hands the driver's answer to
    /// [`ShaderBuild::advance`].
    Next(ShaderBuild, Command),
    /// The shader unit, or the text of the compiler's log.
    Done(Result<Shader, String>),
}

/// The mathematical value of a [`ShaderStep`].
pub ghost enum ShaderStepView {
    Next(ShaderBuildView, CommandView),
    Done(Result<ShaderView, Seq<char>>),
}

impl View for ShaderStep {
    type V = ShaderStepView;

    open spec fn view(&self) -> ShaderStepView {
        match *self {
            ShaderStep::Next(build, command) => ShaderStepView::Next(build@, command@),
            ShaderStep::Done(Ok(shader)) => ShaderStepView::Done(Ok(shader@)),
            ShaderStep::Done(Err(message)) => ShaderStepView::Done(Err(message@)),
        }
    }
}

impl ShaderStepView {
    /// The operation to perform next, unless the build is done.
    pub open spec fn command(self) -> Option<CommandView> {
        match self {
            ShaderStepView::Next(_, command) => Some(command),
            ShaderStepView::Done(_) => None,
        }
    }

    /// The step after the driver's answer `reply`; a build that is done
    /// stays as it is.
    pub open spec fn after(self, reply: ReplyView) -> ShaderStepView {
        match self {
            ShaderStepView::Next(build, _) => build.next(reply),
            ShaderStepView::Done(_) => self,
        }
    }

    /// The step after the driver has answered with each of `replies`, one
    /// after the other.
    pub open spec fn after_all(self, replies: Seq<ReplyView>) -> ShaderStepView
        decreases replies.len(),
    {
        if replies.len() == 0 {
            self
        } else {
            self.after(replies[0]).after_all(replies.drop_first())
        }
    }
}

impl ShaderBuildView {
    /// The first step of compiling `source` for `stage`: the shader object is
    /// to be created.
    pub open spec fn start(source: Seq<u8>, stage: Stage) -> ShaderStepView {
        ShaderStepView::Next(
            ShaderBuildView {
                phase: ShaderPhase::Creating,
                stage,
                source,
                shader: 0,
                capacity: 0,
                message: Seq::empty(),
            },
            CommandView::CreateShader { stage },
        )
    }

    /// The step that gives the build up with `message` as its result: the
    /// shader object is to be deleted.
    pub open spec fn fail_with(self, message: Seq<char>) -> ShaderStepView {
        ShaderStepView::Next(
            ShaderBuildView { phase: ShaderPhase::Releasing, message, ..self },
            CommandView::DeleteShader { shader: self.shader },
        )
    }

    /// The step that follows when the driver answers the awaited operation
    /// with `reply`.
    ///
    /// The source goes to the new object and is compiled. A compile status
    /// other than zero ends the build with the shader unit; a status the
    /// driver did not write counts as success. On status zero the log is
    /// fetched into a buffer of the reported length, the object is deleted,
    /// and the build ends with the text of the log.
    pub open spec fn next(self, reply: ReplyView) -> ShaderStepView {
        match self.phase {
            ShaderPhase::Creating => ShaderStepView::Next(
                ShaderBuildView {
                    phase: ShaderPhase::Loading,
                    shader: reply.handle(),
                    source: Seq::empty(),
                    ..self
                },
                CommandView::ShaderSource { shader: reply.handle(), source: self.source },
            ),
            ShaderPhase::Loading => ShaderStepView::Next(
                ShaderBuildView { phase: ShaderPhase::Compiling, ..self },
                CommandView::CompileShader { shader: self.shader },
            ),
            ShaderPhase::Compiling => ShaderStepView::Next(
                ShaderBuildView { phase: ShaderPhase::Checking, ..self },
                CommandView::QueryCompileStatus { shader: self.shader },
            ),
            ShaderPhase::Checking => if reply.value_or(1) != 0 {
                ShaderStepView::Done(Ok(ShaderView { id: self.shader, stage: self.stage }))
            } else {
                ShaderStepView::Next(
                    ShaderBuildView { phase: ShaderPhase::Measuring, ..self },
                    CommandView::QueryShaderLogLength { shader: self.shader },
                )
            },
            ShaderPhase::Measuring => ShaderStepView::Next(
                ShaderBuildView {
                    phase: ShaderPhase::Reading,
                    capacity: log_capacity(reply.value_or(0)),
                    ..self
                },
                CommandView::FetchShaderLog {
                    shader: self.shader,
                    buffer: blank(log_capacity(reply.value_or(0))),
                },
            ),
            ShaderPhase::Reading => self.fail_with(
                lossy_text(reply.text_or(blank(self.capacity))),
            ),
            ShaderPhase::Releasing => ShaderStepView::Done(Err(self.message)),
        }
    }
}

impl ShaderBuild {
    /// Gives the build up with `message` as its result. The shader object is
    /// deleted first; this is how a rejected source ends once its log has
    /// been read.
    pub fn fail_with(self, message: String) -> (step: ShaderStep)
        ensures
            step@ == self@.fail_with(message@),
    {
        let shader = self.shader;
        ShaderStep::Next(
            ShaderBuild { phase: ShaderPhase::Releasing, message, ..self },
            Command::DeleteShader { shader },
        )
    }

    /// Takes the driver's answer to the awaited operation and says what
    /// comes next.
    pub fn advance(self, reply: Reply) -> (step: ShaderStep)
        ensures
            step@ == self@.next(reply@),
    {
        let ShaderBuild { phase, stage, source, shader, capacity, message } = self;
        match phase {
            ShaderPhase::Creating => {
                let shader = reply.handle();
                ShaderStep::Next(
                    ShaderBuild {
                        phase: ShaderPhase::Loading,
                        stage,
                        source: Vec::new(),
                        shader,
                        capacity,
                        message,
                    },
                    Command::ShaderSource { shader, source },
                )
            },
            ShaderPhase::Loading => ShaderStep::Next(
                ShaderBuild { phase: ShaderPhase::Compiling, stage, source, shader, capacity, message },
                Command::CompileShader { shader },
            ),
            ShaderPhase::Compiling => ShaderStep::Next(
                ShaderBuild { phase: ShaderPhase::Checking, stage, source, shader, capacity, message },
                Command::QueryCompileStatus { shader },
            ),
            ShaderPhase::Checking => {
                if reply.value_or(1) != 0 {
                    ShaderStep::Done(Ok(Shader { id: shader, stage }))
                } else {
                    ShaderStep::Next(
                        ShaderBuild {
                            phase: ShaderPhase::Measuring,
                            stage,
                            source,
                            shader,
                            capacity,
                            message,
                        },
                        Command::QueryShaderLogLength { shader },
                    )
                }
            },
            ShaderPhase::Measuring => {
                let capacity = capacity_for(reply.value_or(0));
                ShaderStep::Next(
                    ShaderBuild { phase: ShaderPhase::Reading, stage, source, shader, capacity, message },
                    Command::FetchShaderLog { shader, buffer: whitespace_buffer(capacity) },
                )
            },
            ShaderPhase::Reading => {
                let text = decode_lossy(&reply.into_text(capacity));
                ShaderBuild { phase, stage, source, shader, capacity, message }.fail_with(text)
            },
            ShaderPhase::Releasing => ShaderStep::Done(Err(message)),
        }
    }
}

/// A compilation from its first operation to its result, whatever the driver
/// answers: the shader object is created, given the source and compiled, and
/// its compile status is read. A status other than zero ends the compilation
/// with the unit that owns the object. On status zero the length of the log
/// is read, the log is fetched into a buffer of that length filled with
/// placeholders, the object is deleted, and the compilation ends with the
/// text of the log.
pub proof fn compile_script(
    source: Seq<u8>,
    stage: Stage,
    created: ReplyView,
    loaded: ReplyView,
    compiled: ReplyView,
    status: ReplyView,
    length: ReplyView,
    log: ReplyView,
    deleted: ReplyView,
)
    ensures
        ({
            let shader = created.handle();
            let buffer = blank(log_capacity(length.value_or(0)));
            let begun = ShaderBuildView::start(source, stage);
            let checking = begun.after(created).after(loaded).after(compiled);
            let decided = checking.after(status);
            &&& begun.command() == Some(CommandView::CreateShader { stage })
            &&& begun.after(created).command() == Some(CommandView::ShaderSource { shader, source })
            &&& begun.after(created).after(loaded).command() == Some(
                CommandView::CompileShader { shader },
            )
            &&& checking.command() == Some(CommandView::QueryCompileStatus { shader })
            &&& status.value_or(1) != 0 ==> decided == ShaderStepView::Done(
                Ok(ShaderView { id: shader, stage }),
            )
            &&& status.value_or(1) == 0 ==> {
                &&& decided.command() == Some(CommandView::QueryShaderLogLength { shader })
                &&& decided.after(length).command() == Some(
                    CommandView::FetchShaderLog { shader, buffer },
                )
                &&& decided.after(length).after(log).command() == Some(
                    CommandView::DeleteShader { shader },
                )
                &&& decided.after(length).after(log).after(deleted) == ShaderStepView::Done(
                    Err(lossy_text(log.text_or(buffer))),
                )
            }
        }),
{
}

impl Shader {
    /// Begins to compile `source` for `stage`. The text that will be handed
    /// to the driver holds no zero byte.
    pub fn from_source(source: &Source, stage: Stage) -> (step: ShaderStep)
        ensures
            step@ == ShaderBuildView::start(source@, stage),
            forall|i: int| 0 <= i < source@.len() ==> source@[i] != 0,
    {
        ShaderStep::Next(
            ShaderBuild {
                phase: ShaderPhase::Creating,
                stage,
                source: slice_to_vec(source.as_bytes()),
                shader: 0,
                capacity: 0,
                message: String::new(),
            },
            Command::CreateShader { stage },
        )
    }

    /// Begins to compile `source` as a vertex shader.
    pub fn from_vert_source(source: &Source) -> (step: ShaderStep)
        ensures
            step@ == ShaderBuildView::start(source@, Stage::Vertex),
    {
        Shader::from_source(source, Stage::Vertex)
    }

    /// Begins to compile `source` as a fragment shader.
    pub fn from_frag_source(source: &Source) -> (step: ShaderStep)
        ensures
            step@ == ShaderBuildView::start(source@, Stage::Fragment),
    {
        Shader::from_source(source, Stage::Fragment)
    }

    /// The driver's name for the shader object.
    pub fn id(&self) -> (id: u32)
        ensures
            id == self@.id,
    {
        self.id
    }

    /// The stage the shader was compiled for.
    pub fn stage(&self) -> (stage: Stage)
        ensures
            stage == self@.stage,
    {
        self.stage
    }

    /// Ends the life of the unit: the one operation that deletes its shader
    /// object.
    pub fn delete(self) -> (command: Command)
        ensures
            command@ == (CommandView::DeleteShader { shader: self@.id }),
    {
        Command::DeleteShader { shader: self.id }
    }
}

} // verus!
