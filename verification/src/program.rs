//! Programs: shader units linked into one pipeline object, built by a state
//! machine that creates the driver's program object, attaches the units,
//! links, and then either detaches the units again or, where the linker
//! fails, fetches the log and deletes the object.

use crate::protocol::{capacity_for, log_capacity, Command, CommandView, Reply, ReplyView};
use crate::shader::Shader;
use crate::text::{blank, decode_lossy, lossy_text, whitespace_buffer};
use vstd::prelude::*;

verus! {

/// A linked pipeline. It stands for exactly one program object of the
/// driver, from a successful link until [`Program::delete`].
#[derive(Debug, PartialEq, Eq)]
pub struct Program {
    id: u32,
}

/// The mathematical value of a [`Program`].
pub ghost struct ProgramView {
    pub id: u32,
}

impl View for Program {
    type V = ProgramView;

    closed spec fn view(&self) -> ProgramView {
        ProgramView { id: self.id }
    }
}

/// The operation a [`ProgramBuild`] has asked for and awaits the answer to.
#[derive(Clone, Copy, PartialEq, Eq, Debug, Structural)]
pub enum ProgramPhase {
    /// Creating the program object.
    Creating,
    /// Attaching one of the units.
    Attaching,
    /// Linking.
    Linking,
    /// Asking whether the units linked.
    Checking,
    /// Detaching one of the units after a successful link.
    Detaching,
    /// Asking for the length of the log.
    Measuring,
    /// Fetching the log.
    Reading,
    /// Deleting the object of a failed link.
    Releasing,
}

/// A link under way.
#[derive(Debug)]
pub struct ProgramBuild {
    phase: ProgramPhase,
    program: u32,
    shaders: Vec<u32>,
    cursor: usize,
    capacity: usize,
    message: String,
}

/// The mathematical value of a [`ProgramBuild`].
pub ghost struct ProgramBuildView {
    pub phase: ProgramPhase,
    /// The name of the program object, once created.
    pub program: u32,
    /// The names of the shader objects to link, in the order given.
    pub shaders: Seq<u32>,
    /// While attaching or detaching: how many units have been asked for.
    pub cursor: nat,
    /// The size of the log buffer, once it has been handed out.
    pub capacity: nat,
    /// The text of the log, once fetched.
    pub message: Seq<char>,
}

impl View for ProgramBuild {
    type V = ProgramBuildView;

    closed spec fn view(&self) -> ProgramBuildView {
        ProgramBuildView {
            phase: self.phase,
            program: self.program,
            shaders: self.shaders@,
            cursor: self.cursor as nat,
            capacity: self.capacity as nat,
            message: self.message@,
        }
    }
}

/// Where a link stands after an answer: at another operation, or at its
/// result.
#[derive(Debug)]
pub enum ProgramStep {
    /// The caller performs the command and hands the driver's answer to
    /// [`ProgramBuild::advance`].
    Next(ProgramBuild, Command),
    /// The program, or the text of the linker's log.
    Done(Result<Program, String>),
}

/// The mathematical value of a [`ProgramStep`].
pub ghost enum ProgramStepView {
    Next(ProgramBuildView, CommandView),
    Done(Result<ProgramView, Seq<char>>),
}

impl View for ProgramStep {
    type V = ProgramStepView;

    open spec fn view(&self) -> ProgramStepView {
        match *self {
            ProgramStep::Next(build, command) => ProgramStepView::Next(build@, command@),
            ProgramStep::Done(Ok(program)) => ProgramStepView::Done(Ok(program@)),
            ProgramStep::Done(Err(message)) => ProgramStepView::Done(Err(message@)),
        }
    }
}

/// The names of the shader objects of `units`, in the same order.
pub open spec fn handles(units: Seq<Shader>) -> Seq<u32> {
    units.map_values(|unit: Shader| unit@.id)
}

impl ProgramStepView {
    /// The operation to perform next, unless the build is done.
    pub open spec fn command(self) -> Option<CommandView> {
        match self {
            ProgramStepView::Next(_, command) => Some(command),
            ProgramStepView::Done(_) => None,
        }
    }

    /// The step after the driver's answer `reply`; a build that is done
    /// stays as it is.
    pub open spec fn after(self, reply: ReplyView) -> ProgramStepView {
        match self {
            ProgramStepView::Next(build, _) => build.next(reply),
            ProgramStepView::Done(_) => self,
        }
    }

    /// The step after the driver has answered with each of `replies`, one
    /// after the other.
    pub open spec fn after_all(self, replies: Seq<ReplyView>) -> ProgramStepView
        decreases replies.len(),
    {
        if replies.len() == 0 {
            self
        } else {
            self.after(replies[0]).after_all(replies.drop_first())
        }
    }
}

impl ProgramBuildView {
    /// The first step of linking the shader objects named `shaders`: the
    /// program object is to be created.
    pub open spec fn start(shaders: Seq<u32>) -> ProgramStepView {
        ProgramStepView::Next(
            ProgramBuildView {
                phase: ProgramPhase::Creating,
                program: 0,
                shaders,
                cursor: 0,
                capacity: 0,
                message: Seq::empty(),
            },
            CommandView::CreateProgram,
        )
    }

    /// With `attached` units attached to `program`: attach the next one, or
    /// link when none is left.
    pub open spec fn attach_or_link(self, program: u32, attached: nat) -> ProgramStepView {
        if attached < self.shaders.len() {
            ProgramStepView::Next(
                ProgramBuildView {
                    phase: ProgramPhase::Attaching,
                    program,
                    cursor: attached + 1,
                    ..self
                },
                CommandView::AttachShader { program, shader: self.shaders[attached as int] },
            )
        } else {
            ProgramStepView::Next(
                ProgramBuildView { phase: ProgramPhase::Linking, program, cursor: 0, ..self },
                CommandView::LinkProgram { program },
            )
        }
    }

    /// With `detached` units detached from the linked program: detach the
    /// next one, or end with the program when none is left.
    pub open spec fn detach_or_finish(self, detached: nat) -> ProgramStepView {
        if detached < self.shaders.len() {
            ProgramStepView::Next(
                ProgramBuildView { phase: ProgramPhase::Detaching, cursor: detached + 1, ..self },
                CommandView::DetachShader {
                    program: self.program,
                    shader: self.shaders[detached as int],
                },
            )
        } else {
            ProgramStepView::Done(Ok(ProgramView { id: self.program }))
        }
    }

    /// The step that gives the build up with `message` as its result: the
    /// program object is to be deleted.
    pub open spec fn fail_with(self, message: Seq<char>) -> ProgramStepView {
        ProgramStepView::Next(
            ProgramBuildView { phase: ProgramPhase::Releasing, message, ..self },
            CommandView::DeleteProgram { program: self.program },
        )
    }

    /// The step that follows when the driver answers the awaited operation
    /// with `reply`.
    ///
    /// Every unit is attached to the new object, in order, and the object is
    /// linked. A link status other than zero has every unit detached again,
    /// in order, and ends the build with the program; a status the driver did
    /// not write counts as success. On status zero the log is fetched into a
    /// buffer of the reported length, the object is deleted, and the build
    /// ends with the text of the log.
    pub open spec fn next(self, reply: ReplyView) -> ProgramStepView {
        match self.phase {
            ProgramPhase::Creating => self.attach_or_link(reply.handle(), 0),
            ProgramPhase::Attaching => self.attach_or_link(self.program, self.cursor),
            ProgramPhase::Linking => ProgramStepView::Next(
                ProgramBuildView { phase: ProgramPhase::Checking, ..self },
                CommandView::QueryLinkStatus { program: self.program },
            ),
            ProgramPhase::Checking => if reply.value_or(1) != 0 {
                self.detach_or_finish(0)
            } else {
                ProgramStepView::Next(
                    ProgramBuildView { phase: ProgramPhase::Measuring, ..self },
                    CommandView::QueryProgramLogLength { program: self.program },
                )
            },
            ProgramPhase::Detaching => self.detach_or_finish(self.cursor),
            ProgramPhase::Measuring => ProgramStepView::Next(
                ProgramBuildView {
                    phase: ProgramPhase::Reading,
                    capacity: log_capacity(reply.value_or(0)),
                    ..self
                },
                CommandView::FetchProgramLog {
                    program: self.program,
                    buffer: blank(log_capacity(reply.value_or(0))),
                },
            ),
            ProgramPhase::Reading => self.fail_with(
                lossy_text(reply.text_or(blank(self.capacity))),
            ),
            ProgramPhase::Releasing => ProgramStepView::Done(Err(self.message)),
        }
    }
}

impl ProgramBuild {
    fn attach_or_link(self, program: u32, attached: usize) -> (step: ProgramStep)
        ensures
            step@ == self@.attach_or_link(program, attached as nat),
    {
        let ProgramBuild { phase: _, program: _, shaders, cursor: _, capacity, message } = self;
        if attached < shaders.len() {
            let shader = shaders[attached];
            ProgramStep::Next(
                ProgramBuild {
                    phase: ProgramPhase::Attaching,
                    program,
                    shaders,
                    cursor: attached + 1,
                    capacity,
                    message,
                },
                Command::AttachShader { program, shader },
            )
        } else {
            ProgramStep::Next(
                ProgramBuild {
                    phase: ProgramPhase::Linking,
                    program,
                    shaders,
                    cursor: 0,
                    capacity,
                    message,
                },
                Command::LinkProgram { program },
            )
        }
    }

    fn detach_or_finish(self, detached: usize) -> (step: ProgramStep)
        ensures
            step@ == self@.detach_or_finish(detached as nat),
    {
        let ProgramBuild { phase: _, program, shaders, cursor: _, capacity, message } = self;
        if detached < shaders.len() {
            let shader = shaders[detached];
            ProgramStep::Next(
                ProgramBuild {
                    phase: ProgramPhase::Detaching,
                    program,
                    shaders,
                    cursor: detached + 1,
                    capacity,
                    message,
                },
                Command::DetachShader { program, shader },
            )
        } else {
            ProgramStep::Done(Ok(Program { id: program }))
        }
    }

    /// Gives the build up with `message` as its result. The program object
    /// is deleted first; this is how a failed link ends once its log has been
    /// read.
    pub fn fail_with(self, message: String) -> (step: ProgramStep)
        ensures
            step@ == self@.fail_with(message@),
    {
        let program = self.program;
        ProgramStep::Next(
            ProgramBuild { phase: ProgramPhase::Releasing, message, ..self },
            Command::DeleteProgram { program },
        )
    }

    /// Takes the driver's answer to the awaited operation and says what
    /// comes next.
    pub fn advance(self, reply: Reply) -> (step: ProgramStep)
        ensures
            step@ == self@.next(reply@),
    {
        match self.phase {
            ProgramPhase::Creating => self.attach_or_link(reply.handle(), 0),
            ProgramPhase::Attaching => {
                let (program, attached) = (self.program, self.cursor);
                self.attach_or_link(program, attached)
            },
            ProgramPhase::Linking => {
                let program = self.program;
                ProgramStep::Next(
                    ProgramBuild { phase: ProgramPhase::Checking, ..self },
                    Command::QueryLinkStatus { program },
                )
            },
            ProgramPhase::Checking => {
                if reply.value_or(1) != 0 {
                    self.detach_or_finish(0)
                } else {
                    let program = self.program;
                    ProgramStep::Next(
                        ProgramBuild { phase: ProgramPhase::Measuring, ..self },
                        Command::QueryProgramLogLength { program },
                    )
                }
            },
            ProgramPhase::Detaching => {
                let detached = self.cursor;
                self.detach_or_finish(detached)
            },
            ProgramPhase::Measuring => {
                let program = self.program;
                let capacity = capacity_for(reply.value_or(0));
                ProgramStep::Next(
                    ProgramBuild { phase: ProgramPhase::Reading, capacity, ..self },
                    Command::FetchProgramLog { program, buffer: whitespace_buffer(capacity) },
                )
            },
            ProgramPhase::Reading => {
                let text = decode_lossy(&reply.into_text(self.capacity));
                self.fail_with(text)
            },
            ProgramPhase::Releasing => ProgramStep::Done(Err(self.message)),
        }
    }
}

proof fn attach_progress(
    build: ProgramBuildView,
    program: u32,
    attached: nat,
    replies: Seq<ReplyView>,
)
    requires
        attached + replies.len() <= build.shaders.len(),
    ensures
        build.attach_or_link(program, attached).after_all(replies) == build.attach_or_link(
            program,
            attached + replies.len(),
        ),
    decreases replies.len(),
{
    if replies.len() > 0 {
        let step = build.attach_or_link(program, attached);
        assert(step.after(replies[0]) == build.attach_or_link(program, attached + 1));
        attach_progress(build, program, attached + 1, replies.drop_first());
    }
}

proof fn detach_progress(build: ProgramBuildView, detached: nat, replies: Seq<ReplyView>)
    requires
        detached + replies.len() <= build.shaders.len(),
    ensures
        build.detach_or_finish(detached).after_all(replies) == build.detach_or_finish(
            detached + replies.len(),
        ),
    decreases replies.len(),
{
    if replies.len() > 0 {
        let step = build.detach_or_finish(detached);
        assert(step.after(replies[0]) == build.detach_or_finish(detached + 1));
        detach_progress(build, detached + 1, replies.drop_first());
    }
}

/// A link from its first operation to its result, whatever the driver
/// answers: the program object is created, the shaders are attached to it in
/// the order given, it is linked, and its link status is read. A status
/// other than zero has the shaders detached again, in the same order, and
/// ends the link with the program that owns the object. On status zero the
/// length of the log is read, the log is fetched into a buffer of that
/// length filled with placeholders, the object is deleted, and the link ends
/// with the text of the log.
pub proof fn link_script(
    shaders: Seq<u32>,
    created: ReplyView,
    attached: Seq<ReplyView>,
    linked: ReplyView,
    status: ReplyView,
    detached: Seq<ReplyView>,
    length: ReplyView,
    log: ReplyView,
    deleted: ReplyView,
)
    requires
        attached.len() == shaders.len(),
        detached.len() == shaders.len(),
    ensures
        ({
            let program = created.handle();
            let buffer = blank(log_capacity(length.value_or(0)));
            let begun = ProgramBuildView::start(shaders);
            let attaching = begun.after(created);
            let linking = attaching.after_all(attached);
            let checking = linking.after(linked);
            let decided = checking.after(status);
            &&& begun.command() == Some(CommandView::CreateProgram)
            &&& forall|i: int|
                0 <= i < shaders.len() ==> attaching.after_all(#[trigger] attached.take(i)).command()
                    == Some(CommandView::AttachShader { program, shader: shaders[i] })
            &&& linking.command() == Some(CommandView::LinkProgram { program })
            &&& checking.command() == Some(CommandView::QueryLinkStatus { program })
            &&& status.value_or(1) != 0 ==> {
                &&& forall|i: int|
                    0 <= i < shaders.len() ==> decided.after_all(
                        #[trigger] detached.take(i),
                    ).command() == Some(CommandView::DetachShader { program, shader: shaders[i] })
                &&& decided.after_all(detached) == ProgramStepView::Done(
                    Ok(ProgramView { id: program }),
                )
            }
            &&& status.value_or(1) == 0 ==> {
                &&& decided.command() == Some(CommandView::QueryProgramLogLength { program })
                &&& decided.after(length).command() == Some(
                    CommandView::FetchProgramLog { program, buffer },
                )
                &&& decided.after(length).after(log).command() == Some(
                    CommandView::DeleteProgram { program },
                )
                &&& decided.after(length).after(log).after(deleted) == ProgramStepView::Done(
                    Err(lossy_text(log.text_or(buffer))),
                )
            }
        }),
{
    let program = created.handle();
    let begun = ProgramBuildView::start(shaders);
    let first = begun->Next_0;
    let attaching = begun.after(created);
    assert(attaching == first.attach_or_link(program, 0));
    assert forall|i: int| 0 <= i < shaders.len() implies attaching.after_all(
        #[trigger] attached.take(i),
    ).command() == Some(CommandView::AttachShader { program, shader: shaders[i] }) by {
        attach_progress(first, program, 0, attached.take(i));
    }
    attach_progress(first, program, 0, attached);
    let linking = attaching.after_all(attached);
    let decided = linking.after(linked).after(status);
    if status.value_or(1) != 0 {
        let held = linking.after(linked)->Next_0;
        assert(decided == held.detach_or_finish(0));
        assert forall|i: int| 0 <= i < shaders.len() implies decided.after_all(
            #[trigger] detached.take(i),
        ).command() == Some(CommandView::DetachShader { program, shader: shaders[i] }) by {
            detach_progress(held, 0, detached.take(i));
        }
        detach_progress(held, 0, detached);
    }
}

impl Program {
    /// Begins to link `shaders`, in the order given. The units are read here
    /// and not held: each may end its life on its own once the link is done.
    pub fn from_shaders(shaders: &[Shader]) -> (step: ProgramStep)
        ensures
            step@ == ProgramBuildView::start(handles(shaders@)),
    {
        let mut names: Vec<u32> = Vec::with_capacity(shaders.len());
        let mut taken: usize = 0;
        while taken < shaders.len()
            invariant
                taken <= shaders.len(),
                names@ == handles(shaders@.subrange(0, taken as int)),
            decreases shaders.len() - taken,
        {
            names.push(shaders[taken].id());
            taken = taken + 1;
            assert(names@ =~= handles(shaders@.subrange(0, taken as int)));
        }
        assert(shaders@.subrange(0, taken as int) =~= shaders@);
        ProgramStep::Next(
            ProgramBuild {
                phase: ProgramPhase::Creating,
                program: 0,
                shaders: names,
                cursor: 0,
                capacity: 0,
                message: String::new(),
            },
            Command::CreateProgram,
        )
    }

    /// The driver's name for the program object.
    pub fn id(&self) -> (id: u32)
        ensures
            id == self@.id,
    {
        self.id
    }

    /// The operation that binds this program as the one to draw with,
    /// whatever was bound before.
    pub fn set_used(&self) -> (command: Command)
        ensures
            command@ == (CommandView::UseProgram { program: self@.id }),
    {
        Command::UseProgram { program: self.id }
    }

    /// Ends the life of the program: the one operation that deletes its
    /// program object.
    pub fn delete(self) -> (command: Command)
        ensures
            command@ == (CommandView::DeleteProgram { program: self@.id }),
    {
        Command::DeleteProgram { program: self.id }
    }
}

} // verus!
