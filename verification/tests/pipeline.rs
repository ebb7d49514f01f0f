use render_gl::program::{Program, ProgramStep};
use render_gl::protocol::{Command, Reply, Stage};
use render_gl::shader::{NulError, Shader, ShaderStep, Source};
use render_gl::text::whitespace_buffer;
use std::collections::BTreeSet;

/// A stand-in for the graphics driver that counts the objects it has handed
/// out. It rejects sources and links as told, and writes the log it was
/// given into the buffer, cut to the buffer's size.
struct CountingDriver {
    next: u32,
    shaders: BTreeSet<u32>,
    programs: BTreeSet<u32>,
    attached: BTreeSet<(u32, u32)>,
    current: u32,
    compiles: bool,
    links: bool,
    log: Vec<u8>,
    deleted: Vec<u32>,
    performed: Vec<Command>,
}

impl CountingDriver {
    fn new() -> CountingDriver {
        CountingDriver {
            next: 1,
            shaders: BTreeSet::new(),
            programs: BTreeSet::new(),
            attached: BTreeSet::new(),
            current: 0,
            compiles: true,
            links: true,
            log: Vec::new(),
            deleted: Vec::new(),
            performed: Vec::new(),
        }
    }

    fn rejecting(log: &[u8]) -> CountingDriver {
        let mut driver = CountingDriver::new();
        driver.compiles = false;
        driver.links = false;
        driver.log = log.to_vec();
        driver
    }

    fn fresh(&mut self) -> u32 {
        let name = self.next;
        self.next += 1;
        name
    }

    fn write_log(&self, mut buffer: Vec<u8>) -> Reply {
        let count = buffer.len().min(self.log.len());
        buffer[..count].copy_from_slice(&self.log[..count]);
        Reply::Text(buffer)
    }

    fn perform(&mut self, command: Command) -> Reply {
        let reply = match &command {
            Command::CreateShader { .. } => {
                let name = self.fresh();
                self.shaders.insert(name);
                Reply::Handle(name)
            }
            Command::CreateProgram => {
                let name = self.fresh();
                self.programs.insert(name);
                Reply::Handle(name)
            }
            Command::QueryCompileStatus { .. } => Reply::Value(self.compiles as i32),
            Command::QueryLinkStatus { .. } => Reply::Value(self.links as i32),
            Command::QueryShaderLogLength { .. } | Command::QueryProgramLogLength { .. } => {
                Reply::Value(self.log.len() as i32)
            }
            Command::FetchShaderLog { buffer, .. } | Command::FetchProgramLog { buffer, .. } => {
                self.write_log(buffer.clone())
            }
            Command::DeleteShader { shader } => {
                assert!(self.shaders.remove(shader), "shader {} deleted twice", shader);
                self.deleted.push(*shader);
                Reply::Done
            }
            Command::DeleteProgram { program } => {
                assert!(self.programs.remove(program), "program {} deleted twice", program);
                let gone = *program;
                self.attached.retain(|pair| pair.0 != gone);
                self.deleted.push(gone);
                Reply::Done
            }
            Command::AttachShader { program, shader } => {
                self.attached.insert((*program, *shader));
                Reply::Done
            }
            Command::DetachShader { program, shader } => {
                self.attached.remove(&(*program, *shader));
                Reply::Done
            }
            Command::UseProgram { program } => {
                self.current = *program;
                Reply::Done
            }
            Command::ShaderSource { .. }
            | Command::CompileShader { .. }
            | Command::LinkProgram { .. } => Reply::Done,
        };
        self.performed.push(command);
        reply
    }

    fn compile(&mut self, text: &[u8], stage: Stage) -> Result<Shader, String> {
        let source = Source::new(text.to_vec()).unwrap();
        let mut step = Shader::from_source(&source, stage);
        loop {
            match step {
                ShaderStep::Next(build, command) => step = build.advance(self.perform(command)),
                ShaderStep::Done(result) => return result,
            }
        }
    }

    fn link(&mut self, shaders: &[Shader]) -> Result<Program, String> {
        let mut step = Program::from_shaders(shaders);
        loop {
            match step {
                ProgramStep::Next(build, command) => step = build.advance(self.perform(command)),
                ProgramStep::Done(result) => return result,
            }
        }
    }
}

fn source(text: &[u8]) -> Source {
    Source::new(text.to_vec()).unwrap()
}

/// Answers each operation with the reply at its turn and returns the
/// operations asked for and the result.
fn play_compile(first: ShaderStep, replies: Vec<Reply>) -> (Vec<Command>, Option<Result<Shader, String>>) {
    let mut commands = Vec::new();
    let mut step = first;
    let mut replies = replies.into_iter();
    loop {
        match step {
            ShaderStep::Next(build, command) => {
                commands.push(command);
                match replies.next() {
                    Some(reply) => step = build.advance(reply),
                    None => return (commands, None),
                }
            }
            ShaderStep::Done(result) => return (commands, Some(result)),
        }
    }
}

fn play_link(first: ProgramStep, replies: Vec<Reply>) -> (Vec<Command>, Option<Result<Program, String>>) {
    let mut commands = Vec::new();
    let mut step = first;
    let mut replies = replies.into_iter();
    loop {
        match step {
            ProgramStep::Next(build, command) => {
                commands.push(command);
                match replies.next() {
                    Some(reply) => step = build.advance(reply),
                    None => return (commands, None),
                }
            }
            ProgramStep::Done(result) => return (commands, Some(result)),
        }
    }
}

#[test]
fn whitespace_buffer_has_the_length_asked_for() {
    assert_eq!(whitespace_buffer(0), Vec::<u8>::new());
    assert_eq!(whitespace_buffer(5), b"     ".to_vec());
}

#[test]
fn source_without_zero_byte_is_taken() {
    let text = Source::new(b"void main() {}".to_vec()).unwrap();
    assert_eq!(text.as_bytes(), b"void main() {}");
    assert_eq!(Source::new(Vec::new()).unwrap().as_bytes(), b"");
}

#[test]
fn source_with_zero_byte_is_refused_at_the_first() {
    assert_eq!(Source::new(b"ab\0cd\0".to_vec()).unwrap_err(), NulError { position: 2 });
    assert_eq!(Source::new(b"\0".to_vec()).unwrap_err(), NulError { position: 0 });
}

#[test]
fn accepted_source_gives_the_unit_after_four_operations() {
    let first = Shader::from_source(&source(b"void main() {}"), Stage::Fragment);
    let (commands, result) = play_compile(
        first,
        vec![Reply::Handle(7), Reply::Done, Reply::Done, Reply::Value(1)],
    );
    assert_eq!(
        commands,
        vec![
            Command::CreateShader { stage: Stage::Fragment },
            Command::ShaderSource { shader: 7, source: b"void main() {}".to_vec() },
            Command::CompileShader { shader: 7 },
            Command::QueryCompileStatus { shader: 7 },
        ]
    );
    let shader = result.unwrap().unwrap();
    assert_eq!(shader.id(), 7);
    assert_eq!(shader.stage(), Stage::Fragment);
}

#[test]
fn rejected_source_gives_the_log_and_deletes_the_object() {
    let first = Shader::from_source(&source(b"void main( {}"), Stage::Vertex);
    let (commands, result) = play_compile(
        first,
        vec![
            Reply::Handle(3),
            Reply::Done,
            Reply::Done,
            Reply::Value(0),
            Reply::Value(6),
            Reply::Text(b"0:1: x".to_vec()),
            Reply::Done,
        ],
    );
    assert_eq!(
        commands,
        vec![
            Command::CreateShader { stage: Stage::Vertex },
            Command::ShaderSource { shader: 3, source: b"void main( {}".to_vec() },
            Command::CompileShader { shader: 3 },
            Command::QueryCompileStatus { shader: 3 },
            Command::QueryShaderLogLength { shader: 3 },
            Command::FetchShaderLog { shader: 3, buffer: b"      ".to_vec() },
            Command::DeleteShader { shader: 3 },
        ]
    );
    assert_eq!(result.unwrap().unwrap_err(), "0:1: x");
}

#[test]
fn compilation_waits_for_each_answer() {
    let first = Shader::from_source(&source(b"x"), Stage::Vertex);
    let (commands, result) = play_compile(first, vec![Reply::Handle(3), Reply::Done]);
    assert_eq!(commands.len(), 3);
    assert!(result.is_none());
}

#[test]
fn any_status_but_zero_is_success() {
    for status in [1, -1, 35713] {
        let first = Shader::from_source(&source(b"x"), Stage::Vertex);
        let (_, result) = play_compile(
            first,
            vec![Reply::Handle(2), Reply::Done, Reply::Done, Reply::Value(status)],
        );
        assert_eq!(result.unwrap().unwrap().id(), 2);
    }
}

#[test]
fn unwritten_status_counts_as_success() {
    let first = Shader::from_source(&source(b"x"), Stage::Vertex);
    let (_, result) =
        play_compile(first, vec![Reply::Handle(2), Reply::Done, Reply::Done, Reply::Done]);
    assert_eq!(result.unwrap().unwrap().id(), 2);
}

#[test]
fn unwritten_length_gives_an_empty_buffer() {
    let first = Shader::from_source(&source(b"x"), Stage::Vertex);
    let (commands, result) = play_compile(
        first,
        vec![
            Reply::Handle(2),
            Reply::Done,
            Reply::Done,
            Reply::Value(0),
            Reply::Done,
            Reply::Text(Vec::new()),
            Reply::Done,
        ],
    );
    assert_eq!(commands[5], Command::FetchShaderLog { shader: 2, buffer: Vec::new() });
    assert_eq!(result.unwrap().unwrap_err(), "");
}

#[test]
fn negative_length_gives_an_empty_buffer() {
    let first = Shader::from_source(&source(b"x"), Stage::Vertex);
    let (commands, _) = play_compile(
        first,
        vec![Reply::Handle(2), Reply::Done, Reply::Done, Reply::Value(0), Reply::Value(-4)],
    );
    assert_eq!(commands[5], Command::FetchShaderLog { shader: 2, buffer: Vec::new() });
}

#[test]
fn unwritten_log_is_the_buffer_of_placeholders() {
    let first = Shader::from_source(&source(b"x"), Stage::Vertex);
    let (_, result) = play_compile(
        first,
        vec![
            Reply::Handle(2),
            Reply::Done,
            Reply::Done,
            Reply::Value(0),
            Reply::Value(3),
            Reply::Done,
            Reply::Done,
        ],
    );
    assert_eq!(result.unwrap().unwrap_err(), "   ");
}

#[test]
fn ill_formed_log_is_decoded_with_replacement_characters() {
    let first = Shader::from_source(&source(b"x"), Stage::Vertex);
    let (_, result) = play_compile(
        first,
        vec![
            Reply::Handle(2),
            Reply::Done,
            Reply::Done,
            Reply::Value(0),
            Reply::Value(5),
            Reply::Text(vec![b'a', 0xff, b'b', 0xc3, 0xa9]),
            Reply::Done,
        ],
    );
    assert_eq!(result.unwrap().unwrap_err(), "a\u{fffd}b\u{e9}");
}

#[test]
fn build_given_up_deletes_its_object_first() {
    let first = Shader::from_source(&source(b"x"), Stage::Vertex);
    let build = match first {
        ShaderStep::Next(build, _) => build,
        ShaderStep::Done(_) => panic!("a build starts with an operation"),
    };
    let build = match build.advance(Reply::Handle(6)) {
        ShaderStep::Next(build, _) => build,
        ShaderStep::Done(_) => panic!("the source is still to be loaded"),
    };
    let (commands, result) = play_compile(build.fail_with("context lost".to_string()), vec![Reply::Done]);
    assert_eq!(commands, vec![Command::DeleteShader { shader: 6 }]);
    assert_eq!(result.unwrap().unwrap_err(), "context lost");
}

#[test]
fn link_given_up_deletes_its_object_first() {
    let build = match Program::from_shaders(&[]) {
        ProgramStep::Next(build, _) => build,
        ProgramStep::Done(_) => panic!("a build starts with an operation"),
    };
    let build = match build.advance(Reply::Handle(8)) {
        ProgramStep::Next(build, _) => build,
        ProgramStep::Done(_) => panic!("the program is still to be linked"),
    };
    let (commands, result) = play_link(build.fail_with("context lost".to_string()), vec![Reply::Done]);
    assert_eq!(commands, vec![Command::DeleteProgram { program: 8 }]);
    assert_eq!(result.unwrap().unwrap_err(), "context lost");
}

#[test]
fn vertex_and_fragment_sources_name_their_stage() {
    let (commands, _) = play_compile(Shader::from_vert_source(&source(b"v")), Vec::new());
    assert_eq!(commands, vec![Command::CreateShader { stage: Stage::Vertex }]);
    let (commands, _) = play_compile(Shader::from_frag_source(&source(b"f")), Vec::new());
    assert_eq!(commands, vec![Command::CreateShader { stage: Stage::Fragment }]);
}

#[test]
fn reply_readers_fall_back_when_nothing_was_written() {
    assert_eq!(Reply::Handle(9).handle(), 9);
    assert_eq!(Reply::Done.handle(), 0);
    assert_eq!(Reply::Value(4).value_or(1), 4);
    assert_eq!(Reply::Done.value_or(1), 1);
    assert_eq!(Reply::Text(b"log".to_vec()).into_text(2), b"log".to_vec());
    assert_eq!(Reply::Done.into_text(2), b"  ".to_vec());
}

#[test]
fn live_units_have_distinct_names_that_are_not_zero() {
    let mut driver = CountingDriver::new();
    let vertex = driver.compile(b"v", Stage::Vertex).unwrap();
    let fragment = driver.compile(b"f", Stage::Fragment).unwrap();
    assert_ne!(vertex.id(), 0);
    assert_ne!(fragment.id(), 0);
    assert_ne!(vertex.id(), fragment.id());
    assert_eq!(driver.shaders, BTreeSet::from([vertex.id(), fragment.id()]));
}

#[test]
fn rejected_source_leaves_no_shader_object() {
    let mut driver = CountingDriver::rejecting(b"ERROR: 0:1: syntax error\0");
    let message = driver.compile(b"void main( {}", Stage::Vertex).unwrap_err();
    assert_eq!(message, "ERROR: 0:1: syntax error\0");
    assert!(!message.is_empty());
    assert!(driver.shaders.is_empty());
    assert_eq!(driver.deleted.len(), 1);
    let created = driver
        .performed
        .iter()
        .filter(|command| matches!(command, Command::CreateShader { .. }))
        .count();
    assert_eq!(created, 1);
}

#[test]
fn link_attaches_links_and_detaches_in_order() {
    let mut driver = CountingDriver::new();
    let vertex = driver.compile(b"v", Stage::Vertex).unwrap();
    let fragment = driver.compile(b"f", Stage::Fragment).unwrap();
    let (v, f) = (vertex.id(), fragment.id());
    let (commands, result) = play_link(
        Program::from_shaders(&[vertex, fragment]),
        vec![
            Reply::Handle(9),
            Reply::Done,
            Reply::Done,
            Reply::Done,
            Reply::Value(1),
            Reply::Done,
            Reply::Done,
        ],
    );
    assert_eq!(
        commands,
        vec![
            Command::CreateProgram,
            Command::AttachShader { program: 9, shader: v },
            Command::AttachShader { program: 9, shader: f },
            Command::LinkProgram { program: 9 },
            Command::QueryLinkStatus { program: 9 },
            Command::DetachShader { program: 9, shader: v },
            Command::DetachShader { program: 9, shader: f },
        ]
    );
    assert_eq!(result.unwrap().unwrap().id(), 9);
}

#[test]
fn failed_link_gives_the_log_and_deletes_the_object() {
    let mut driver = CountingDriver::new();
    let vertex = driver.compile(b"v", Stage::Vertex).unwrap();
    let v = vertex.id();
    let (commands, result) = play_link(
        Program::from_shaders(&[vertex]),
        vec![
            Reply::Handle(4),
            Reply::Done,
            Reply::Done,
            Reply::Value(0),
            Reply::Value(11),
            Reply::Text(b"no fragment".to_vec()),
            Reply::Done,
        ],
    );
    assert_eq!(
        commands,
        vec![
            Command::CreateProgram,
            Command::AttachShader { program: 4, shader: v },
            Command::LinkProgram { program: 4 },
            Command::QueryLinkStatus { program: 4 },
            Command::QueryProgramLogLength { program: 4 },
            Command::FetchProgramLog { program: 4, buffer: b"           ".to_vec() },
            Command::DeleteProgram { program: 4 },
        ]
    );
    assert_eq!(result.unwrap().unwrap_err(), "no fragment");
}

#[test]
fn link_of_no_units_attaches_nothing() {
    let (commands, result) = play_link(
        Program::from_shaders(&[]),
        vec![Reply::Handle(5), Reply::Done, Reply::Value(1)],
    );
    assert_eq!(
        commands,
        vec![
            Command::CreateProgram,
            Command::LinkProgram { program: 5 },
            Command::QueryLinkStatus { program: 5 },
        ]
    );
    assert_eq!(result.unwrap().unwrap().id(), 5);
}

#[test]
fn linked_program_has_an_object_and_no_attachments() {
    let mut driver = CountingDriver::new();
    let vertex = driver.compile(b"v", Stage::Vertex).unwrap();
    let fragment = driver.compile(b"f", Stage::Fragment).unwrap();
    let units = [vertex, fragment];
    let program = driver.link(&units).unwrap();
    assert_ne!(program.id(), 0);
    assert_eq!(driver.programs, BTreeSet::from([program.id()]));
    assert!(driver.attached.is_empty());
    assert_eq!(driver.shaders.len(), 2);
}

#[test]
fn failed_link_leaves_no_program_object() {
    let mut driver = CountingDriver::new();
    let vertex = driver.compile(b"v", Stage::Vertex).unwrap();
    driver.links = false;
    driver.log = b"error: fragment stage missing".to_vec();
    let units = [vertex];
    let message = driver.link(&units).unwrap_err();
    assert_eq!(message, "error: fragment stage missing");
    assert!(driver.programs.is_empty());
    assert!(driver.attached.is_empty());
    assert_eq!(driver.shaders.len(), 1);
}

#[test]
fn binding_twice_is_binding_once() {
    let mut driver = CountingDriver::new();
    let program = driver.link(&[]).unwrap();
    assert_eq!(program.set_used(), Command::UseProgram { program: program.id() });
    driver.perform(program.set_used());
    let (current, programs) = (driver.current, driver.programs.clone());
    driver.perform(program.set_used());
    assert_eq!(driver.current, current);
    assert_eq!(driver.current, program.id());
    assert_eq!(driver.programs, programs);
}

#[test]
fn binding_overwrites_the_previous_binding() {
    let mut driver = CountingDriver::new();
    let first = driver.link(&[]).unwrap();
    let second = driver.link(&[]).unwrap();
    driver.perform(first.set_used());
    driver.perform(second.set_used());
    assert_eq!(driver.current, second.id());
}

#[test]
fn program_can_be_deleted_before_its_shaders() {
    let mut driver = CountingDriver::new();
    let vertex = driver.compile(b"v", Stage::Vertex).unwrap();
    let fragment = driver.compile(b"f", Stage::Fragment).unwrap();
    let units = [vertex, fragment];
    let program = driver.link(&units).unwrap();
    driver.perform(program.delete());
    for unit in units {
        driver.perform(unit.delete());
    }
    assert!(driver.shaders.is_empty());
    assert!(driver.programs.is_empty());
    assert_eq!(driver.deleted.len(), 3);
}

#[test]
fn shaders_can_be_deleted_before_their_program() {
    let mut driver = CountingDriver::new();
    let vertex = driver.compile(b"v", Stage::Vertex).unwrap();
    let fragment = driver.compile(b"f", Stage::Fragment).unwrap();
    let units = [vertex, fragment];
    let program = driver.link(&units).unwrap();
    let name = program.id();
    for unit in units {
        driver.perform(unit.delete());
    }
    assert_eq!(driver.programs, BTreeSet::from([name]));
    driver.perform(program.delete());
    assert!(driver.shaders.is_empty());
    assert!(driver.programs.is_empty());
    assert_eq!(driver.deleted.len(), 3);
}

#[test]
fn deleting_names_the_object_of_the_unit() {
    let mut driver = CountingDriver::new();
    let vertex = driver.compile(b"v", Stage::Vertex).unwrap();
    let name = vertex.id();
    assert_eq!(vertex.delete(), Command::DeleteShader { shader: name });
    let program = driver.link(&[]).unwrap();
    let name = program.id();
    assert_eq!(program.delete(), Command::DeleteProgram { program: name });
}
