//! What holds of the driver's objects over whole builds and at the end of
//! a unit's life.

use crate::program::{link_script, ProgramBuildView, ProgramPhase, ProgramStepView, ProgramView};
use crate::protocol::{log_capacity, CommandView, Objects, ReplyView, Stage};
use crate::shader::{compile_script, ShaderBuildView, ShaderPhase, ShaderStepView, ShaderView};
use crate::text::{blank, lossy_text};
use vstd::prelude::*;
use vstd::utf8::valid_utf8;

verus! {

/// A build played against a driver: where it stands, and the driver's
/// objects, after the driver has answered the awaited operations with
/// `replies`, one after the other. Answers that come after the build is done
/// go unused.
pub open spec fn compile_run(step: ShaderStepView, objects: Objects, replies: Seq<ReplyView>) -> (
    ShaderStepView,
    Objects,
)
    decreases replies.len(),
{
    match step {
        ShaderStepView::Next(build, command) => if replies.len() > 0 {
            compile_run(
                build.next(replies[0]),
                objects.apply(command, replies[0]),
                replies.drop_first(),
            )
        } else {
            (step, objects)
        },
        ShaderStepView::Done(_) => (step, objects),
    }
}

/// `objects` and one more shader object.
pub open spec fn with_shader(objects: Objects, shader: u32) -> Objects {
    Objects { shaders: objects.shaders.insert(shader), ..objects }
}

/// `objects` and one more program object.
pub open spec fn with_program(objects: Objects, program: u32) -> Objects {
    Objects { programs: objects.programs.insert(program), ..objects }
}

spec fn compile_books(before: Objects, now: Objects, step: ShaderStepView, stage: Stage) -> bool {
    match step {
        ShaderStepView::Next(build, command) => {
            &&& build.stage == stage
            &&& if build.phase == ShaderPhase::Creating {
                now == before && command == (CommandView::CreateShader { stage })
            } else {
                &&& build.shader != 0
                &&& !before.shaders.contains(build.shader)
                &&& now == with_shader(before, build.shader)
                &&& if build.phase == ShaderPhase::Releasing {
                    command == (CommandView::DeleteShader { shader: build.shader })
                } else {
                    command.is_passive()
                }
            }
        },
        ShaderStepView::Done(Ok(shader)) => {
            &&& shader.stage == stage
            &&& shader.id != 0
            &&& !before.shaders.contains(shader.id)
            &&& now == with_shader(before, shader.id)
        },
        ShaderStepView::Done(Err(_)) => now == before,
    }
}

proof fn compile_books_step(
    before: Objects,
    now: Objects,
    build: ShaderBuildView,
    command: CommandView,
    reply: ReplyView,
    stage: Stage,
)
    requires
        compile_books(before, now, ShaderStepView::Next(build, command), stage),
        build.phase == ShaderPhase::Creating ==> now.allows(command, reply),
    ensures
        compile_books(before, now.apply(command, reply), build.next(reply), stage),
        build.next(reply) matches ShaderStepView::Next(later, _) ==> later.phase
            != ShaderPhase::Creating,
{
    let after = now.apply(command, reply);
    match build.phase {
        ShaderPhase::Creating => {
            assert(after.shaders =~= before.shaders.insert(reply.handle()));
        },
        ShaderPhase::Releasing => {
            assert(after.shaders =~= before.shaders);
        },
        _ => {},
    }
}

proof fn compile_books_run(
    before: Objects,
    now: Objects,
    step: ShaderStepView,
    replies: Seq<ReplyView>,
    stage: Stage,
)
    requires
        compile_books(before, now, step, stage),
        step matches ShaderStepView::Next(build, command) ==> build.phase == ShaderPhase::Creating
            ==> replies.len() > 0 ==> now.allows(command, replies[0]),
    ensures
        compile_books(
            before,
            compile_run(step, now, replies).1,
            compile_run(step, now, replies).0,
            stage,
        ),
    decreases replies.len(),
{
    match step {
        ShaderStepView::Next(build, command) => {
            if replies.len() > 0 {
                compile_books_step(before, now, build, command, replies[0], stage);
                compile_books_run(
                    before,
                    now.apply(command, replies[0]),
                    build.next(replies[0]),
                    replies.drop_first(),
                    stage,
                );
            }
        },
        ShaderStepView::Done(_) => {},
    }
}

proof fn compile_run_follows(step: ShaderStepView, objects: Objects, replies: Seq<ReplyView>)
    ensures
        compile_run(step, objects, replies).0 == step.after_all(replies),
    decreases replies.len(),
{
    if replies.len() > 0 {
        match step {
            ShaderStepView::Next(build, command) => {
                compile_run_follows(
                    build.next(replies[0]),
                    objects.apply(command, replies[0]),
                    replies.drop_first(),
                );
            },
            ShaderStepView::Done(_) => {
                compile_run_follows(step, objects, replies.drop_first());
            },
        }
    }
}

/// However far a compilation has come against a driver that names the new
/// shader object with a number that is not zero and not in use: a
/// compilation that ended with a shader unit has added exactly that unit's
/// object, under such a name, and one that ended with the compiler's log has
/// left the driver's objects as they were. In between, at most the object
/// being compiled has been added.
pub proof fn compile_accounts_for_its_object(
    source: Seq<u8>,
    stage: Stage,
    before: Objects,
    replies: Seq<ReplyView>,
)
    requires
        replies.len() > 0 ==> before.allows(CommandView::CreateShader { stage }, replies[0]),
    ensures
        ({
            let (step, after) = compile_run(ShaderBuildView::start(source, stage), before, replies);
            match step {
                ShaderStepView::Done(Ok(shader)) => {
                    &&& shader.stage == stage
                    &&& shader.id != 0
                    &&& !before.shaders.contains(shader.id)
                    &&& after == with_shader(before, shader.id)
                },
                ShaderStepView::Done(Err(_)) => after == before,
                ShaderStepView::Next(build, _) => {
                    ||| after == before
                    ||| !before.shaders.contains(build.shader) && after == with_shader(
                        before,
                        build.shader,
                    )
                },
            }
        }),
{
    compile_books_run(before, before, ShaderBuildView::start(source, stage), replies, stage);
}

/// Source that the driver's compiler accepts gives a shader unit whose name
/// is the one the driver chose for the new object: not zero, and in use for
/// no other shader. That object is all the compilation has added.
pub proof fn accepted_source_yields_a_new_unit(
    source: Seq<u8>,
    stage: Stage,
    before: Objects,
    created: ReplyView,
    loaded: ReplyView,
    compiled: ReplyView,
    status: ReplyView,
)
    requires
        before.allows(CommandView::CreateShader { stage }, created),
        status.value_or(1) != 0,
    ensures
        ({
            let (step, after) = compile_run(
                ShaderBuildView::start(source, stage),
                before,
                seq![created, loaded, compiled, status],
            );
            &&& step == ShaderStepView::Done(Ok(ShaderView { id: created.handle(), stage }))
            &&& created.handle() != 0
            &&& !before.shaders.contains(created.handle())
            &&& after == with_shader(before, created.handle())
        }),
{
    let begun = ShaderBuildView::start(source, stage);
    let replies = seq![created, loaded, compiled, status];
    compile_script(source, stage, created, loaded, compiled, status, status, status, status);
    compile_run_follows(begun, before, replies);
    assert(begun.after_all(replies) == begun.after(created).after(loaded).after(compiled).after(
        status,
    )) by {
        reveal_with_fuel(ShaderStepView::after_all, 5);
    }
    compile_accounts_for_its_object(source, stage, before, replies);
}

/// Source that the driver's compiler rejects gives the text of the log the
/// driver wrote, and leaves the driver's objects as they were: the shader
/// object created for the compilation is deleted again. A log of well-formed
/// text that is not empty gives a message that is not empty.
pub proof fn rejected_source_yields_the_log(
    source: Seq<u8>,
    stage: Stage,
    before: Objects,
    created: ReplyView,
    loaded: ReplyView,
    compiled: ReplyView,
    status: ReplyView,
    length: ReplyView,
    log: ReplyView,
    deleted: ReplyView,
)
    requires
        before.allows(CommandView::CreateShader { stage }, created),
        status.value_or(1) == 0,
    ensures
        ({
            let (step, after) = compile_run(
                ShaderBuildView::start(source, stage),
                before,
                seq![created, loaded, compiled, status, length, log, deleted],
            );
            let written = log.text_or(blank(log_capacity(length.value_or(0))));
            &&& step == ShaderStepView::Done(Err(lossy_text(written)))
            &&& after == before
            &&& valid_utf8(written) && written.len() > 0 ==> lossy_text(written).len() > 0
        }),
{
    let begun = ShaderBuildView::start(source, stage);
    let replies = seq![created, loaded, compiled, status, length, log, deleted];
    compile_script(source, stage, created, loaded, compiled, status, length, log, deleted);
    compile_run_follows(begun, before, replies);
    assert(begun.after_all(replies) == begun.after(created).after(loaded).after(compiled).after(
        status,
    ).after(length).after(log).after(deleted)) by {
        reveal_with_fuel(ShaderStepView::after_all, 8);
    }
    compile_accounts_for_its_object(source, stage, before, replies);
}

/// As [`compile_run`], for a link.
pub open spec fn link_run(step: ProgramStepView, objects: Objects, replies: Seq<ReplyView>) -> (
    ProgramStepView,
    Objects,
)
    decreases replies.len(),
{
    match step {
        ProgramStepView::Next(build, command) => if replies.len() > 0 {
            link_run(
                build.next(replies[0]),
                objects.apply(command, replies[0]),
                replies.drop_first(),
            )
        } else {
            (step, objects)
        },
        ProgramStepView::Done(_) => (step, objects),
    }
}

/// The attachments of the first `count` of `shaders` to `program`.
spec fn links(program: u32, shaders: Seq<u32>, count: int) -> Set<(u32, u32)> {
    Set::new(
        |pair: (u32, u32)|
            pair.0 == program && exists|i: int| 0 <= i < count && #[trigger] shaders[i] == pair.1,
    )
}

spec fn link_books(before: Objects, now: Objects, step: ProgramStepView, shaders: Seq<u32>) -> bool {
    match step {
        ProgramStepView::Next(build, command) => {
            let program = build.program;
            let all = before.attached.union(links(program, shaders, shaders.len() as int));
            &&& build.shaders == shaders
            &&& if build.phase == ProgramPhase::Creating {
                now == before && command == CommandView::CreateProgram
            } else {
                &&& program != 0
                &&& !before.programs.contains(program)
                &&& now.programs == before.programs.insert(program)
                &&& now.shaders == before.shaders
                &&& now.current == before.current
                &&& match build.phase {
                    ProgramPhase::Attaching => {
                        &&& 1 <= build.cursor <= shaders.len()
                        &&& command == (CommandView::AttachShader {
                            program,
                            shader: shaders[build.cursor - 1],
                        })
                        &&& now.attached == before.attached.union(
                            links(program, shaders, build.cursor - 1),
                        )
                    },
                    ProgramPhase::Detaching => {
                        &&& 1 <= build.cursor <= shaders.len()
                        &&& command == (CommandView::DetachShader {
                            program,
                            shader: shaders[build.cursor - 1],
                        })
                        &&& now.attached == all.difference(
                            links(program, shaders, build.cursor - 1),
                        )
                    },
                    ProgramPhase::Releasing => {
                        &&& command == (CommandView::DeleteProgram { program })
                        &&& now.attached == all
                    },
                    _ => command.is_passive() && now.attached == all,
                }
            }
        },
        ProgramStepView::Done(Ok(program)) => {
            &&& program.id != 0
            &&& !before.programs.contains(program.id)
            &&& now == with_program(before, program.id)
        },
        ProgramStepView::Done(Err(_)) => now == before,
    }
}

proof fn link_books_step(
    before: Objects,
    now: Objects,
    build: ProgramBuildView,
    command: CommandView,
    reply: ReplyView,
    shaders: Seq<u32>,
)
    requires
        before.wf(),
        link_books(before, now, ProgramStepView::Next(build, command), shaders),
        build.phase == ProgramPhase::Creating ==> now.allows(command, reply),
    ensures
        link_books(before, now.apply(command, reply), build.next(reply), shaders),
        build.next(reply) matches ProgramStepView::Next(later, _) ==> later.phase
            != ProgramPhase::Creating,
{
    let after = now.apply(command, reply);
    let count = shaders.len() as int;
    match build.phase {
        ProgramPhase::Creating => {
            let program = reply.handle();
            assert(after.attached =~= before.attached.union(links(program, shaders, 0)));
            if count == 0 {
                assert(links(program, shaders, 0) =~= links(program, shaders, count));
            }
        },
        ProgramPhase::Attaching => {
            let program = build.program;
            let cursor = build.cursor as int;
            assert(after.attached =~= before.attached.union(links(program, shaders, cursor)));
        },
        ProgramPhase::Checking => {
            let program = build.program;
            let all = before.attached.union(links(program, shaders, count));
            if reply.value_or(1) != 0 {
                assert(after.attached =~= all.difference(links(program, shaders, 0)));
                if count == 0 {
                    assert(after.attached =~= before.attached);
                }
            }
        },
        ProgramPhase::Detaching => {
            let program = build.program;
            let cursor = build.cursor as int;
            let all = before.attached.union(links(program, shaders, count));
            assert(after.attached =~= all.difference(links(program, shaders, cursor)));
            if cursor == count {
                assert(after.attached =~= before.attached);
            }
        },
        ProgramPhase::Releasing => {
            let program = build.program;
            assert(after.programs =~= before.programs);
            assert forall|pair: (u32, u32)| before.attached.contains(pair) implies pair.0
                != program by {
                assert(before.attached.contains((pair.0, pair.1)));
            }
            assert(after.attached =~= before.attached);
        },
        _ => {},
    }
}

proof fn link_books_run(
    before: Objects,
    now: Objects,
    step: ProgramStepView,
    replies: Seq<ReplyView>,
    shaders: Seq<u32>,
)
    requires
        before.wf(),
        link_books(before, now, step, shaders),
        step matches ProgramStepView::Next(build, command) ==> build.phase
            == ProgramPhase::Creating ==> replies.len() > 0 ==> now.allows(command, replies[0]),
    ensures
        link_books(before, link_run(step, now, replies).1, link_run(step, now, replies).0, shaders),
    decreases replies.len(),
{
    match step {
        ProgramStepView::Next(build, command) => {
            if replies.len() > 0 {
                link_books_step(before, now, build, command, replies[0], shaders);
                link_books_run(
                    before,
                    now.apply(command, replies[0]),
                    build.next(replies[0]),
                    replies.drop_first(),
                    shaders,
                );
            }
        },
        ProgramStepView::Done(_) => {},
    }
}

proof fn link_run_follows(step: ProgramStepView, objects: Objects, replies: Seq<ReplyView>)
    ensures
        link_run(step, objects, replies).0 == step.after_all(replies),
    decreases replies.len(),
{
    if replies.len() > 0 {
        match step {
            ProgramStepView::Next(build, command) => {
                link_run_follows(
                    build.next(replies[0]),
                    objects.apply(command, replies[0]),
                    replies.drop_first(),
                );
            },
            ProgramStepView::Done(_) => {
                link_run_follows(step, objects, replies.drop_first());
            },
        }
    }
}

proof fn after_all_splits(step: ProgramStepView, first: Seq<ReplyView>, rest: Seq<ReplyView>)
    ensures
        step.after_all(first + rest) == step.after_all(first).after_all(rest),
    decreases first.len(),
{
    if first.len() == 0 {
        assert(first + rest =~= rest);
    } else {
        assert((first + rest).drop_first() =~= first.drop_first() + rest);
        after_all_splits(step.after(first[0]), first.drop_first(), rest);
    }
}

/// However far a link has come against a driver that names the new program
/// object with a number that is not zero and not in use: a link that ended
/// with a program has added exactly that program's object, under such a
/// name, and left no shader attached to it; a link that ended with the
/// linker's log has left the driver's objects as they were. Shader objects
/// and the binding are never touched.
pub proof fn link_accounts_for_its_object(
    shaders: Seq<u32>,
    before: Objects,
    replies: Seq<ReplyView>,
)
    requires
        before.wf(),
        replies.len() > 0 ==> before.allows(CommandView::CreateProgram, replies[0]),
    ensures
        ({
            let (step, after) = link_run(ProgramBuildView::start(shaders), before, replies);
            &&& after.shaders == before.shaders
            &&& after.current == before.current
            &&& match step {
                ProgramStepView::Done(Ok(program)) => {
                    &&& program.id != 0
                    &&& !before.programs.contains(program.id)
                    &&& after == with_program(before, program.id)
                    &&& forall|shader: u32| !after.attached.contains((program.id, shader))
                },
                ProgramStepView::Done(Err(_)) => after == before,
                ProgramStepView::Next(build, _) => {
                    ||| after.programs == before.programs
                    ||| !before.programs.contains(build.program) && after.programs
                        == before.programs.insert(build.program)
                },
            }
        }),
{
    link_books_run(before, before, ProgramBuildView::start(shaders), replies, shaders);
}

/// Shader units that the driver's linker accepts give a program whose name
/// is the one the driver chose for the new object: not zero, and in use for
/// no other program. That object is all the link has added: no shader is
/// left attached to it, so each unit can be deleted on its own, and the
/// shader objects are as they were.
pub proof fn accepted_units_yield_a_new_program(
    shaders: Seq<u32>,
    before: Objects,
    created: ReplyView,
    attached: Seq<ReplyView>,
    linked: ReplyView,
    status: ReplyView,
    detached: Seq<ReplyView>,
)
    requires
        before.wf(),
        before.allows(CommandView::CreateProgram, created),
        attached.len() == shaders.len(),
        detached.len() == shaders.len(),
        status.value_or(1) != 0,
    ensures
        ({
            let (step, after) = link_run(
                ProgramBuildView::start(shaders),
                before,
                seq![created] + attached + seq![linked, status] + detached,
            );
            &&& step == ProgramStepView::Done(Ok(ProgramView { id: created.handle() }))
            &&& created.handle() != 0
            &&& !before.programs.contains(created.handle())
            &&& after == with_program(before, created.handle())
            &&& forall|shader: u32| !after.attached.contains((created.handle(), shader))
        }),
{
    let begun = ProgramBuildView::start(shaders);
    let replies = seq![created] + attached + seq![linked, status] + detached;
    link_script(shaders, created, attached, linked, status, detached, status, status, status);
    link_run_follows(begun, before, replies);
    after_all_splits(begun, seq![created] + attached + seq![linked, status], detached);
    after_all_splits(begun, seq![created] + attached, seq![linked, status]);
    after_all_splits(begun, seq![created], attached);
    assert(begun.after_all(seq![created]) == begun.after(created)) by {
        reveal_with_fuel(ProgramStepView::after_all, 2);
    }
    let linking = begun.after(created).after_all(attached);
    assert(linking.after_all(seq![linked, status]) == linking.after(linked).after(status)) by {
        reveal_with_fuel(ProgramStepView::after_all, 3);
    }
    link_accounts_for_its_object(shaders, before, replies);
}

/// Shader units that the driver's linker rejects give the text of the log
/// the driver wrote, and leave the driver's objects as they were: the
/// program object created for the link is deleted again. A log of
/// well-formed text that is not empty gives a message that is not empty.
pub proof fn rejected_units_yield_the_log(
    shaders: Seq<u32>,
    before: Objects,
    created: ReplyView,
    attached: Seq<ReplyView>,
    linked: ReplyView,
    status: ReplyView,
    length: ReplyView,
    log: ReplyView,
    deleted: ReplyView,
)
    requires
        before.wf(),
        before.allows(CommandView::CreateProgram, created),
        attached.len() == shaders.len(),
        status.value_or(1) == 0,
    ensures
        ({
            let (step, after) = link_run(
                ProgramBuildView::start(shaders),
                before,
                seq![created] + attached + seq![linked, status, length, log, deleted],
            );
            let written = log.text_or(blank(log_capacity(length.value_or(0))));
            &&& step == ProgramStepView::Done(Err(lossy_text(written)))
            &&& after == before
            &&& valid_utf8(written) && written.len() > 0 ==> lossy_text(written).len() > 0
        }),
{
    let begun = ProgramBuildView::start(shaders);
    let tail = seq![linked, status, length, log, deleted];
    let replies = seq![created] + attached + tail;
    link_script(shaders, created, attached, linked, status, attached, length, log, deleted);
    link_run_follows(begun, before, replies);
    after_all_splits(begun, seq![created] + attached, tail);
    after_all_splits(begun, seq![created], attached);
    assert(begun.after_all(seq![created]) == begun.after(created)) by {
        reveal_with_fuel(ProgramStepView::after_all, 2);
    }
    let linking = begun.after(created).after_all(attached);
    assert(linking.after_all(tail) == linking.after(linked).after(status).after(length).after(
        log,
    ).after(deleted)) by {
        reveal_with_fuel(ProgramStepView::after_all, 6);
    }
    link_accounts_for_its_object(shaders, before, replies);
}

/// Binding a program twice in a row leaves the driver as binding it once.
pub proof fn activation_is_idempotent(
    objects: Objects,
    program: ProgramView,
    first: ReplyView,
    second: ReplyView,
)
    ensures
        ({
            let bind = CommandView::UseProgram { program: program.id };
            objects.apply(bind, first).apply(bind, second) == objects.apply(bind, first)
        }),
{
}

/// The driver's objects after the shader objects named `shaders` have been
/// deleted, one after the other.
pub open spec fn without_shaders(objects: Objects, shaders: Seq<u32>) -> Objects
    decreases shaders.len(),
{
    if shaders.len() == 0 {
        objects
    } else {
        without_shaders(
            objects.apply(CommandView::DeleteShader { shader: shaders[0] }, ReplyView::Done),
            shaders.drop_first(),
        )
    }
}

/// Deleting shader objects takes exactly their names out of use and touches
/// nothing else.
pub proof fn without_shaders_removes(objects: Objects, shaders: Seq<u32>)
    ensures
        without_shaders(objects, shaders) == (Objects {
            shaders: objects.shaders.difference(shaders.to_set()),
            ..objects
        }),
    decreases shaders.len(),
{
    if shaders.len() == 0 {
        assert(objects.shaders.difference(shaders.to_set()) =~= objects.shaders);
    } else {
        let first = objects.apply(
            CommandView::DeleteShader { shader: shaders[0] },
            ReplyView::Done,
        );
        without_shaders_removes(first, shaders.drop_first());
        assert forall|shader: u32|
            first.shaders.difference(shaders.drop_first().to_set()).contains(shader)
                == objects.shaders.difference(shaders.to_set()).contains(shader) by {
            if shaders.to_set().contains(shader) && shader != shaders[0] {
                let i = choose|i: int| 0 <= i < shaders.len() && shaders[i] == shader;
                assert(shaders.drop_first()[i - 1] == shader);
            }
            if shaders.drop_first().to_set().contains(shader) {
                let i = choose|i: int|
                    0 <= i < shaders.drop_first().len() && shaders.drop_first()[i] == shader;
                assert(shaders[i + 1] == shader);
            }
        }
        assert(first.shaders.difference(shaders.drop_first().to_set())
            =~= objects.shaders.difference(shaders.to_set()));
    }
}

/// A program and the shader units it was linked from, each with an object of
/// its own, can end their lives in either order: deleting the program before
/// the shaders leaves the driver as deleting it after them, with none of
/// their names in use. Either way each deletion meets an object that still
/// exists, so that none is deleted twice.
pub proof fn destruction_order_is_free(objects: Objects, program: ProgramView, shaders: Seq<u32>)
    requires
        objects.programs.contains(program.id),
        forall|i: int| 0 <= i < shaders.len() ==> objects.shaders.contains(shaders[i]),
        shaders.no_duplicates(),
    ensures
        ({
            let delete = CommandView::DeleteProgram { program: program.id };
            let program_first = objects.apply(delete, ReplyView::Done);
            let shaders_first = without_shaders(objects, shaders);
            &&& without_shaders(program_first, shaders) == shaders_first.apply(
                delete,
                ReplyView::Done,
            )
            &&& !without_shaders(program_first, shaders).programs.contains(program.id)
            &&& forall|i: int|
                0 <= i < shaders.len() ==> !without_shaders(program_first, shaders).shaders.contains(
                    shaders[i],
                )
            &&& shaders_first.programs.contains(program.id)
            &&& forall|i: int|
                0 <= i < shaders.len() ==> (#[trigger] without_shaders(
                    objects,
                    shaders.take(i),
                )).shaders.contains(shaders[i])
            &&& forall|i: int|
                0 <= i < shaders.len() ==> (#[trigger] without_shaders(
                    program_first,
                    shaders.take(i),
                )).shaders.contains(shaders[i])
        }),
{
    let delete = CommandView::DeleteProgram { program: program.id };
    let program_first = objects.apply(delete, ReplyView::Done);
    without_shaders_removes(program_first, shaders);
    without_shaders_removes(objects, shaders);
    assert forall|i: int| 0 <= i < shaders.len() implies (#[trigger] without_shaders(
        objects,
        shaders.take(i),
    )).shaders.contains(shaders[i]) by {
        without_shaders_removes(objects, shaders.take(i));
        if shaders.take(i).to_set().contains(shaders[i]) {
            let j = choose|j: int| 0 <= j < shaders.take(i).len() && shaders.take(i)[j] == shaders[i];
            assert(shaders[j] == shaders[i]);
        }
    }
    assert forall|i: int| 0 <= i < shaders.len() implies (#[trigger] without_shaders(
        program_first,
        shaders.take(i),
    )).shaders.contains(shaders[i]) by {
        without_shaders_removes(program_first, shaders.take(i));
        if shaders.take(i).to_set().contains(shaders[i]) {
            let j = choose|j: int| 0 <= j < shaders.take(i).len() && shaders.take(i)[j] == shaders[i];
            assert(shaders[j] == shaders[i]);
        }
    }
}

} // verus!
