//! The render engine: the installed pipeline, the camera, the uniform data
//! and the input accumulator, and the step that services a shader reload
//! before a frame is drawn.
//!
//! The engine decides; it neither reads files, nor examines shader texts,
//! nor touches the GPU. One call of `render` takes what has just happened and
//! answers with what the host must do next, until the answer is to draw the
//! frame.

use vstd::prelude::*;
use crate::camera::{Camera2D, Camera2DUniform};
use crate::channel::ShaderChannel;
use crate::debounce::{after_poll, due_at, DebounceCell};
use crate::input::{InputEvent, InputManager};
use crate::pass::{main_commands, main_pass, RenderPass};
use crate::shader::ShaderVerdict;
use crate::uniforms::{magnitude, MainUniforms};

verus! {

/// Where a reload stands between two calls of `render`.
#[derive(Clone, Copy, Debug, PartialEq, Eq, Structural)]
pub enum ReloadStage {
    /// Nothing is under way.
    Idle,
    /// The quiet period is over; the host was asked to read the shader file.
    ReadyToRead,
    /// A text was taken from the channel; the host was asked to examine it.
    Examining,
    /// A text parsed and was valid; the host was asked to build a pipeline.
    Validated,
}

/// What became of the reload in the frame that has just been settled.
#[derive(Debug, PartialEq, Eq)]
pub enum ReloadReport {
    /// No text was waiting.
    Nothing,
    /// The text did not parse; the parser's message.
    ParseFailed(String),
    /// The module was not valid; the validator's message.
    ValidationFailed(String),
    /// No pipeline could be built; the builder's message.
    RebuildFailed(String),
    /// A new pipeline was installed.
    Rebuilt,
}

/// A report as contracts see it, with each message as its characters.
pub enum Reload {
    Nothing,
    ParseFailed(Seq<char>),
    ValidationFailed(Seq<char>),
    RebuildFailed(Seq<char>),
    Rebuilt,
}

impl View for ReloadReport {
    type V = Reload;

    open spec fn view(&self) -> Reload {
        match *self {
            ReloadReport::Nothing => Reload::Nothing,
            ReloadReport::ParseFailed(m) => Reload::ParseFailed(m@),
            ReloadReport::ValidationFailed(m) => Reload::ValidationFailed(m@),
            ReloadReport::RebuildFailed(m) => Reload::RebuildFailed(m@),
            ReloadReport::Rebuilt => Reload::Rebuilt,
        }
    }
}

/// What the host tells the engine.
pub enum RenderEvent<P> {
    /// A render call begins at `now`, in nanoseconds.
    Frame { now: u64 },
    /// The shader file was read, or could not be.
    ShaderRead(Option<String>),
    /// The text handed out was examined, with this verdict.
    Examined(ShaderVerdict),
    /// A pipeline was built from the text handed out, or could not be.
    Rebuilt(Result<P, String>),
}

/// What the engine asks of the host.
#[derive(Debug, PartialEq, Eq)]
pub enum RenderAction {
    /// Read the shader file in full and report `ShaderRead`.
    ReadShader,
    /// Parse this text and validate its module, and report `Examined`. The
    /// host sees to it that the examination comes back for every text.
    Examine(String),
    /// Build a pipeline from this text and report `Rebuilt`.
    Rebuild(String),
    /// Record this pass with the installed pipeline, submit it and present
    /// the frame; the render call is over.
    Draw(RenderPass, ReloadReport),
}

impl RenderAction {
    /// Whether this is the order to draw the engine's pass, with `report` on
    /// the reload.
    pub open spec fn draws(self, report: Reload) -> bool {
        &&& self matches RenderAction::Draw(pass, r)
        &&& r@ == report
        &&& pass.is_plain_target()
        &&& pass.commands@ == main_commands()
    }

    /// Whether this is the order to examine `text`.
    pub open spec fn examines(self, text: Seq<char>) -> bool {
        &&& self matches RenderAction::Examine(t)
        &&& t@ == text
    }

    /// Whether this is the order to build a pipeline from `text`.
    pub open spec fn builds(self, text: Seq<char>) -> bool {
        &&& self matches RenderAction::Rebuild(t)
        &&& t@ == text
    }
}

/// The engine, with `P` as the host's pipeline.
pub struct Stoy<P> {
    pipeline: P,
    camera: Camera2D,
    uniforms: MainUniforms,
    channel: ShaderChannel,
    input: InputManager,
    stage: ReloadStage,
    candidate: Option<String>,
}

/// The engine as contracts see it. `candidate` is the text that the host
/// was asked to examine, while it is out.
pub struct StoyState<P> {
    pub pipeline: P,
    pub camera: Camera2D,
    pub uniforms: MainUniforms,
    pub channel: Seq<Seq<char>>,
    pub input: InputManager,
    pub stage: ReloadStage,
    pub candidate: Option<Seq<char>>,
}

impl<P> View for Stoy<P> {
    type V = StoyState<P>;

    closed spec fn view(&self) -> StoyState<P> {
        StoyState {
            pipeline: self.pipeline,
            camera: self.camera,
            uniforms: self.uniforms,
            channel: self.channel@,
            input: self.input,
            stage: self.stage,
            candidate: match self.candidate {
                Some(text) => Some(text@),
                None => None,
            },
        }
    }
}

impl<P> StoyState<P> {
    /// This state at another stage, with no text out for examination.
    pub open spec fn at(self, stage: ReloadStage) -> Self {
        StoyState { stage, candidate: None, ..self }
    }

    /// This state with `text` out for examination.
    pub open spec fn examining(self, text: Seq<char>) -> Self {
        StoyState { stage: ReloadStage::Examining, candidate: Some(text), ..self }
    }

    /// This state after one update at window size `size`: the uniform data
    /// move on, and nothing else does.
    pub open spec fn updated(self, size: (u32, u32)) -> Self {
        StoyState {
            uniforms: self.uniforms.advanced(
                size,
                (self.input.x, self.input.y),
                (self.input.wx, self.input.wy),
            ),
            ..self
        }
    }

    /// This state after `n` updates, all at window size `size`.
    pub open spec fn updated_times(self, n: nat, size: (u32, u32)) -> Self
        decreases n,
    {
        if n == 0 {
            self
        } else {
            self.updated_times((n - 1) as nat, size).updated(size)
        }
    }

    /// This state with `text` sent, where there is one and the host was
    /// asked for it; a text that was not asked for is dropped.
    pub open spec fn with_sent(self, text: Option<String>) -> Self {
        match text {
            Some(t) if self.stage == ReloadStage::ReadyToRead => StoyState {
                channel: self.channel.push(t@),
                ..self
            },
            _ => self,
        }
    }

    /// This state with the oldest waiting text taken.
    pub open spec fn with_taken(self) -> Self {
        StoyState { channel: self.channel.subrange(1, self.channel.len() as int), ..self }
    }

    /// What is made of a text that was taken and examined: a rejected text is
    /// dropped and the frame drawn with the pipeline that is installed; an
    /// accepted one goes to the host to be built. The pipeline stays in
    /// either case.
    pub open spec fn decided(
        self,
        text: Seq<char>,
        verdict: ShaderVerdict,
        after: Self,
        action: RenderAction,
    ) -> bool {
        match verdict {
            ShaderVerdict::ParseFailed(m) => {
                &&& after == self.at(ReloadStage::Idle)
                &&& action.draws(Reload::ParseFailed(m@))
            },
            ShaderVerdict::ValidationFailed(m) => {
                &&& after == self.at(ReloadStage::Idle)
                &&& action.draws(Reload::ValidationFailed(m@))
            },
            ShaderVerdict::Valid => {
                &&& after == self.at(ReloadStage::Validated)
                &&& action.builds(text)
            },
        }
    }

    /// What the poll of the channel makes of this state. With nothing
    /// waiting the frame is drawn. Else the oldest text is taken, kept as
    /// the candidate, and handed out to be examined.
    pub open spec fn polled(self, after: Self, action: RenderAction) -> bool {
        if self.channel.len() == 0 {
            &&& after == self.at(ReloadStage::Idle)
            &&& action.draws(Reload::Nothing)
        } else {
            &&& after == self.with_taken().examining(self.channel[0])
            &&& action.examines(self.channel[0])
        }
    }

    /// What the end of an examination makes of this state. Where a text is
    /// out, it is settled as `decided` says, by the verdict; where none is,
    /// the verdict is passed over and the frame drawn.
    pub open spec fn examined(self, verdict: ShaderVerdict, after: Self, action: RenderAction) -> bool {
        match self.candidate {
            Some(text) if self.stage == ReloadStage::Examining => self.decided(
                text,
                verdict,
                after,
                action,
            ),
            _ => {
                &&& after == self.at(ReloadStage::Idle)
                &&& action.draws(Reload::Nothing)
            },
        }
    }

    /// What the end of a build makes of this state. Where a build was asked
    /// for, a pipeline that came of it is installed and a failure leaves the
    /// old one; where none was asked for, nothing is installed. The frame is
    /// drawn in every case.
    pub open spec fn rebuilt(self, outcome: Result<P, String>, after: Self, action: RenderAction) -> bool {
        if self.stage == ReloadStage::Validated {
            match outcome {
                Ok(p) => {
                    &&& after == (StoyState { pipeline: p, ..self }).at(ReloadStage::Idle)
                    &&& action.draws(Reload::Rebuilt)
                },
                Err(m) => {
                    &&& after == self.at(ReloadStage::Idle)
                    &&& action.draws(Reload::RebuildFailed(m@))
                },
            }
        } else {
            &&& after == self.at(ReloadStage::Idle)
            &&& action.draws(Reload::Nothing)
        }
    }

    /// One step of a render call, from this state and the cell `cell` to
    /// `after`, `cell_after` and the action handed back.
    ///
    /// When a frame begins and the cell is due, the cell is cleared and the
    /// host is asked for the shader text; the channel is not looked at
    /// before the answer. When it begins otherwise, the channel is polled.
    /// A text that was read on the engine's asking is sent, and then the
    /// channel is polled. The end of an examination is settled as `examined`
    /// says, and the end of a build as `rebuilt` says.
    pub open spec fn stepped(
        self,
        cell: Option<u64>,
        event: RenderEvent<P>,
        after: Self,
        cell_after: Option<u64>,
        action: RenderAction,
    ) -> bool {
        match event {
            RenderEvent::Frame { now } => if due_at(cell, now) {
                &&& cell_after == None::<u64>
                &&& after == self.at(ReloadStage::ReadyToRead)
                &&& action == RenderAction::ReadShader
            } else {
                &&& cell_after == cell
                &&& self.polled(after, action)
            },
            RenderEvent::ShaderRead(text) => {
                &&& cell_after == cell
                &&& self.with_sent(text).polled(after, action)
            },
            RenderEvent::Examined(verdict) => {
                &&& cell_after == cell
                &&& self.examined(verdict, after, action)
            },
            RenderEvent::Rebuilt(outcome) => {
                &&& cell_after == cell
                &&& self.rebuilt(outcome, after, action)
            },
        }
    }
}

impl<P> Stoy<P> {
    /// An engine with `pipeline` installed, the camera at the origin with
    /// `camera_uniform` as its block, default uniform data, no input yet and
    /// nothing to reload.
    pub fn new(pipeline: P, camera_uniform: Camera2DUniform) -> (engine: Self)
        ensures
            engine@ == (StoyState {
                pipeline,
                camera: (Camera2D {
                    position: (0, 0, 0),
                    scale: (crate::camera::WIDTH, crate::camera::HEIGHT),
                    uniform: camera_uniform,
                }),
                uniforms: (MainUniforms {
                    time: 0,
                    resolution: (10, 10),
                    mouse_position: (0, 0),
                    zoom: (0, 0),
                }),
                channel: Seq::<Seq<char>>::empty(),
                input: (InputManager {
                    delta_x: 0,
                    delta_y: 0,
                    x: 0,
                    y: 0,
                    wx: 0,
                    wy: 0,
                    sensitivity: 0,
                }),
                stage: ReloadStage::Idle,
                candidate: None,
            }),
    {
        Stoy {
            pipeline,
            camera: Camera2D::new(camera_uniform),
            uniforms: MainUniforms::default(),
            channel: ShaderChannel::new(),
            input: InputManager::default(),
            stage: ReloadStage::Idle,
            candidate: None,
        }
    }

    /// The installed pipeline.
    pub fn pipeline(&self) -> (p: &P)
        ensures
            *p == self@.pipeline,
    {
        &self.pipeline
    }

    pub fn camera(&self) -> (c: &Camera2D)
        ensures
            *c == self@.camera,
    {
        &self.camera
    }

    pub fn uniforms(&self) -> (u: &MainUniforms)
        ensures
            *u == self@.uniforms,
    {
        &self.uniforms
    }

    pub fn input_state(&self) -> (i: &InputManager)
        ensures
            *i == self@.input,
    {
        &self.input
    }

    pub fn stage(&self) -> (s: ReloadStage)
        ensures
            s == self@.stage,
    {
        self.stage
    }

    /// How many shader texts wait to be examined.
    pub fn waiting(&self) -> (n: usize)
        ensures
            n == self@.channel.len(),
    {
        self.channel.len()
    }

    /// Takes one input event in; `plus` is the sum of two single-precision
    /// values.
    pub fn input<F: Fn(u32, u32) -> u32>(&mut self, event: InputEvent, plus: &F)
        requires
            forall|a: u32, b: u32| call_requires(*plus, (a, b)),
        ensures
            old(self)@.input.processed(event, *plus, final(self)@.input),
            final(self)@ == (StoyState { input: final(self)@.input, ..old(self)@ }),
    {
        self.input.process_events(event, plus);
    }

    /// One update: time goes one step on, and the window size, the pointer
    /// and the magnitude of the accumulated scroll are copied into the
    /// uniform data. Nothing else changes; the camera in particular is the
    /// same for every window size.
    pub fn update(&mut self, size: (u32, u32))
        ensures
            final(self)@ == old(self)@.updated(size),
    {
        self.uniforms.advance(size, (self.input.x, self.input.y), (self.input.wx, self.input.wy));
    }

    /// Sets the stage, with no text out for examination.
    fn settle(&mut self, stage: ReloadStage)
        ensures
            final(self)@ == old(self)@.at(stage),
    {
        self.stage = stage;
        self.candidate = None;
    }

    /// Settles a text that was examined, given the verdict on it.
    pub fn decide(&mut self, text: String, verdict: ShaderVerdict) -> (action: RenderAction)
        ensures
            old(self)@.decided(text@, verdict, final(self)@, action),
    {
        match verdict {
            ShaderVerdict::ParseFailed(message) => {
                self.settle(ReloadStage::Idle);
                RenderAction::Draw(main_pass(), ReloadReport::ParseFailed(message))
            },
            ShaderVerdict::ValidationFailed(message) => {
                self.settle(ReloadStage::Idle);
                RenderAction::Draw(main_pass(), ReloadReport::ValidationFailed(message))
            },
            ShaderVerdict::Valid => {
                self.settle(ReloadStage::Validated);
                RenderAction::Rebuild(text)
            },
        }
    }

    /// Settles the end of an examination.
    pub fn examined(&mut self, verdict: ShaderVerdict) -> (action: RenderAction)
        ensures
            old(self)@.examined(verdict, final(self)@, action),
    {
        let asked = self.stage == ReloadStage::Examining;
        match self.candidate.take() {
            Some(text) => {
                if asked {
                    self.decide(text, verdict)
                } else {
                    self.settle(ReloadStage::Idle);
                    RenderAction::Draw(main_pass(), ReloadReport::Nothing)
                }
            },
            None => {
                self.settle(ReloadStage::Idle);
                RenderAction::Draw(main_pass(), ReloadReport::Nothing)
            },
        }
    }

    /// Settles the end of a build.
    pub fn install(&mut self, outcome: Result<P, String>) -> (action: RenderAction)
        ensures
            old(self)@.rebuilt(outcome, final(self)@, action),
    {
        let asked = self.stage == ReloadStage::Validated;
        self.settle(ReloadStage::Idle);
        if asked {
            match outcome {
                Ok(pipeline) => {
                    self.pipeline = pipeline;
                    RenderAction::Draw(main_pass(), ReloadReport::Rebuilt)
                },
                Err(message) => RenderAction::Draw(main_pass(), ReloadReport::RebuildFailed(message)),
            }
        } else {
            RenderAction::Draw(main_pass(), ReloadReport::Nothing)
        }
    }

    /// Polls the channel once, without waiting, and hands out the text that
    /// was taken.
    fn poll_channel(&mut self) -> (action: RenderAction)
        ensures
            old(self)@.polled(final(self)@, action),
    {
        match self.channel.try_recv() {
            None => {
                self.settle(ReloadStage::Idle);
                RenderAction::Draw(main_pass(), ReloadReport::Nothing)
            },
            Some(text) => {
                let copy = text.clone();
                self.stage = ReloadStage::Examining;
                self.candidate = Some(text);
                RenderAction::Examine(copy)
            },
        }
    }

    /// One step of a render call.
    pub fn render(&mut self, cell: &mut DebounceCell, event: RenderEvent<P>) -> (action:
        RenderAction)
        ensures
            old(self)@.stepped(old(cell)@, event, final(self)@, final(cell)@, action),
    {
        match event {
            RenderEvent::Frame { now } => {
                if cell.poll(now) {
                    self.settle(ReloadStage::ReadyToRead);
                    RenderAction::ReadShader
                } else {
                    self.poll_channel()
                }
            },
            RenderEvent::ShaderRead(text) => {
                match text {
                    Some(t) => {
                        if self.stage == ReloadStage::ReadyToRead {
                            self.channel.send(t);
                        }
                    },
                    None => {},
                }
                self.poll_channel()
            },
            RenderEvent::Examined(verdict) => self.examined(verdict),
            RenderEvent::Rebuilt(outcome) => self.install(outcome),
        }
    }
}

/// The camera is the same after an update whatever the window size, and so
/// is everything but the uniform data.
pub proof fn lemma_camera_ignores_window_size<P>(state: StoyState<P>, a: (u32, u32), b: (u32, u32))
    ensures
        state.updated(a).camera == state.camera,
        state.updated(a).camera == state.updated(b).camera,
        state.updated(a) == (StoyState { uniforms: state.updated(a).uniforms, ..state }),
{
}

/// After `n` updates at one window size, with no input between them, the
/// uniform data hold that size, the pointer, the magnitude of the scroll and
/// a time `n` steps on, and the rest of the engine is as it was. Stated for
/// as long as the step counter has room.
pub proof fn lemma_updates_depend_on_inputs_and_count<P>(state: StoyState<P>, n: nat, size: (u32, u32))
    requires
        n >= 1,
        state.uniforms.time + n <= u64::MAX,
    ensures
        state.updated_times(n, size) == (StoyState {
            uniforms: (MainUniforms {
                time: (state.uniforms.time + n) as u64,
                resolution: size,
                mouse_position: (state.input.x, state.input.y),
                zoom: (magnitude(state.input.wx), magnitude(state.input.wy)),
            }),
            ..state
        }),
    decreases n,
{
    if n > 1 {
        lemma_updates_depend_on_inputs_and_count(state, (n - 1) as nat, size);
    } else {
        assert(state.updated_times(0, size) == state);
    }
}

/// A step of a render call changes neither camera nor uniform data nor
/// input, and it changes the pipeline in one case alone: a build had been
/// asked for, and the host reports the pipeline that came of it.
pub proof fn lemma_pipeline_changes_only_when_built<P>(
    before: StoyState<P>,
    cell: Option<u64>,
    event: RenderEvent<P>,
    after: StoyState<P>,
    cell_after: Option<u64>,
    action: RenderAction,
)
    requires
        before.stepped(cell, event, after, cell_after, action),
    ensures
        after.camera == before.camera,
        after.uniforms == before.uniforms,
        after.input == before.input,
        after.pipeline != before.pipeline ==> before.stage == ReloadStage::Validated && event
            == RenderEvent::Rebuilt(Ok::<P, String>(after.pipeline)),
        after.stage == ReloadStage::Validated ==> action is Rebuild,
{
}

/// The host is asked to read the shader file exactly when a frame begins
/// with the cell due, and the cell is then cleared; no other step touches
/// the cell.
pub proof fn lemma_file_is_read_when_due<P>(
    before: StoyState<P>,
    cell: Option<u64>,
    event: RenderEvent<P>,
    after: StoyState<P>,
    cell_after: Option<u64>,
    action: RenderAction,
)
    requires
        before.stepped(cell, event, after, cell_after, action),
    ensures
        action == RenderAction::ReadShader <==> (event matches RenderEvent::Frame { now }
            && due_at(cell, now)),
        cell_after == match event {
            RenderEvent::Frame { now } => after_poll(cell, now),
            _ => cell,
        },
{
}

/// No text is left waiting: where the channel is empty before a step, it is
/// empty after it, for a text that is sent is taken in the same step.
pub proof fn lemma_no_text_is_left_waiting<P>(
    before: StoyState<P>,
    cell: Option<u64>,
    event: RenderEvent<P>,
    after: StoyState<P>,
    cell_after: Option<u64>,
    action: RenderAction,
)
    requires
        before.channel.len() == 0,
        before.stepped(cell, event, after, cell_after, action),
    ensures
        after.channel.len() == 0,
{
}

/// Every step ends in an order to the host, and the orders of one render
/// call run out: the file is asked for at the start of a frame alone, an
/// examination never on the report of one or of a build, a build on the
/// report of an examination alone, and the report of a build ends the call.
/// Whatever is drawn is the engine's one pass. So each render call ends in
/// that pass, whatever became of the reload.
pub proof fn lemma_every_call_ends_in_the_pass<P>(
    before: StoyState<P>,
    cell: Option<u64>,
    event: RenderEvent<P>,
    after: StoyState<P>,
    cell_after: Option<u64>,
    action: RenderAction,
)
    requires
        before.stepped(cell, event, after, cell_after, action),
    ensures
        action is ReadShader ==> event is Frame,
        action is Examine ==> event is Frame || event is ShaderRead,
        action is Rebuild ==> event is Examined,
        event is Rebuilt ==> action is Draw,
        action matches RenderAction::Draw(pass, _) ==> pass.is_plain_target() && pass.commands@
            == main_commands(),
{
}

/// The text that is examined is the text that is built: a build is asked
/// for with the very text that was handed out to be examined, and only on
/// the verdict that it is valid.
pub proof fn lemma_only_the_examined_text_is_built<P>(
    before: StoyState<P>,
    cell: Option<u64>,
    event: RenderEvent<P>,
    after: StoyState<P>,
    cell_after: Option<u64>,
    action: RenderAction,
)
    requires
        before.stepped(cell, event, after, cell_after, action),
    ensures
        action matches RenderAction::Examine(t) ==> after.stage == ReloadStage::Examining
            && after.candidate == Some(t@),
        action matches RenderAction::Rebuild(t) ==> before.stage == ReloadStage::Examining
            && before.candidate == Some(t@) && event == RenderEvent::<P>::Examined(
            ShaderVerdict::Valid,
        ),
        after.stage == ReloadStage::Validated <==> action is Rebuild,
{
}

/// A text that does not parse never replaces the pipeline: on the verdict
/// the pipeline stays, the frame is drawn with it and with the parser's
/// message, and no build is asked for.
pub proof fn lemma_unparsable_text_is_dropped<P>(
    before: StoyState<P>,
    message: String,
    after: StoyState<P>,
    action: RenderAction,
)
    requires
        before.examined(ShaderVerdict::ParseFailed(message), after, action),
    ensures
        after.pipeline == before.pipeline,
        after.stage == ReloadStage::Idle,
        after.candidate == None::<Seq<char>>,
        action is Draw,
        before.stage == ReloadStage::Examining && before.candidate is Some ==> action.draws(
            Reload::ParseFailed(message@),
        ),
{
}

/// A text that parses and is not valid never reaches the build: on the
/// verdict the pipeline stays, the frame is drawn with it and with the
/// validator's message, no build is asked for, and whatever the host
/// reports as built afterwards is not installed.
pub proof fn lemma_invalid_text_is_never_built<P>(
    before: StoyState<P>,
    message: String,
    after: StoyState<P>,
    action: RenderAction,
    outcome: Result<P, String>,
    next: StoyState<P>,
    next_action: RenderAction,
)
    requires
        before.examined(ShaderVerdict::ValidationFailed(message), after, action),
        after.rebuilt(outcome, next, next_action),
    ensures
        action is Draw,
        before.stage == ReloadStage::Examining && before.candidate is Some ==> action.draws(
            Reload::ValidationFailed(message@),
        ),
        after.pipeline == before.pipeline,
        after.stage == ReloadStage::Idle,
        next.pipeline == before.pipeline,
        next_action.draws(Reload::Nothing),
{
}

/// A text that parses and is valid is handed out to be built, and the
/// pipeline that comes of it is installed once: it is the installed pipeline
/// when the frame is drawn, a second report of a build is not installed, and
/// the next frame with nothing to reload draws with it.
pub proof fn lemma_accepted_text_is_installed_once<P>(
    before: StoyState<P>,
    text: Seq<char>,
    after: StoyState<P>,
    action: RenderAction,
    built: P,
    installed: StoyState<P>,
    drawn: RenderAction,
    other: P,
    again: StoyState<P>,
    ignored: RenderAction,
    cell: Option<u64>,
    now: u64,
    next: StoyState<P>,
    cell_next: Option<u64>,
    next_action: RenderAction,
)
    requires
        before.stage == ReloadStage::Examining,
        before.candidate == Some(text),
        before.channel.len() == 0,
        before.examined(ShaderVerdict::Valid, after, action),
        after.rebuilt(Ok(built), installed, drawn),
        installed.rebuilt(Ok(other), again, ignored),
        !due_at(cell, now),
        installed.stepped(cell, RenderEvent::Frame { now }, next, cell_next, next_action),
    ensures
        action.builds(text),
        after.pipeline == before.pipeline,
        installed.pipeline == built,
        drawn.draws(Reload::Rebuilt),
        again.pipeline == built,
        ignored.draws(Reload::Nothing),
        next.pipeline == built,
        next_action.draws(Reload::Nothing),
{
}

} // verus!
