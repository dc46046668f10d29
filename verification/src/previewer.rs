use std::collections::HashMap;
use vstd::prelude::*;

use crate::filter::PreviewFilterType;
use crate::input::{
    requested_output_of, seek_fits, seek_frame, seek_key_of, seek_result, KeyInput,
};
use crate::outputs::{choose_output, fallback_output, output_keys};

verus! {

broadcast use vstd::std_specs::hash::group_hash_axioms;

/// What the previewer reads of a script output's node.
#[derive(Clone, Copy, Debug, PartialEq, Eq)]
pub struct NodeInfo {
    pub num_frames: u32,
    pub framerate: u32,
}

/// The part of the preview settings that the frame logic reads and writes.
#[derive(Clone, Copy, Debug, PartialEq, Eq)]
pub struct PreviewState {
    pub cur_output: i32,
    pub cur_frame_no: u32,
    pub scale_to_window: bool,
    /// Defaults to Point
    pub scale_filter: PreviewFilterType,
}

/// The frame to start the preview on, before the script is loaded; the
/// reload clamps it to the output's last frame.
pub const STARTUP_FRAME: u32 = 12345;

impl Default for PreviewState {
    fn default() -> (s: Self)
        ensures
            s == (PreviewState {
                cur_output: 0,
                cur_frame_no: 0,
                scale_to_window: false,
                scale_filter: PreviewFilterType::Point,
            }),
    {
        PreviewState {
            cur_output: 0,
            cur_frame_no: 0,
            scale_to_window: false,
            scale_filter: PreviewFilterType::Point,
        }
    }
}

impl PreviewState {
    /// The settings a session starts from: a stored state, opened on
    /// `STARTUP_FRAME` and not scaled to the window.
    pub fn prepare_for_startup(&mut self)
        ensures
            *final(self) == (PreviewState {
                cur_frame_no: STARTUP_FRAME,
                scale_to_window: false,
                ..*old(self)
            }),
    {
        self.cur_frame_no = STARTUP_FRAME;
        self.scale_to_window = false;
    }
}

/// One output of the script, with the frame shown for it (a handle of type `F`).
pub struct PreviewOutput<F> {
    pub node_info: NodeInfo,
    pub frame_promise: Option<F>,
    pub force_reprocess: bool,
    pub last_frame_no: u32,
}

/// An output as it is right after the script was (re)loaded.
pub open spec fn fresh_output<F>(info: NodeInfo) -> PreviewOutput<F> {
    PreviewOutput { node_info: info, frame_promise: None, force_reprocess: false, last_frame_no: 0 }
}

/// What a render job is asked to produce.
#[derive(Clone, Copy, Debug, PartialEq, Eq)]
pub struct RenderRequest {
    /// Reprocess the frame already shown (the view changed) instead of
    /// requesting the frame from the script.
    pub reprocess: bool,
    pub output: i32,
    pub frame_no: u32,
}

impl RenderRequest {
    /// A reprocess reuses the frame already shown when there is one; any
    /// other render asks the script for the frame.
    pub fn reuses_frame(&self, have_existing_frame: bool) -> (b: bool)
        ensures
            b == (self.reprocess && have_existing_frame),
    {
        self.reprocess && have_existing_frame
    }
}

/// What the first half of a UI frame decided.
#[derive(Clone, Copy, Debug, PartialEq, Eq)]
pub struct FrameStart {
    /// A render job started with the frame's first job handle.
    pub render: Option<RenderRequest>,
    /// A frame is to be drawn (`frame_to_show` has one); otherwise a spinner.
    pub frame_shown: bool,
}

/// What the second half of a UI frame decided.
#[derive(Clone, Copy, Debug, PartialEq, Eq)]
pub struct FrameEnd {
    /// Close the previewer.
    pub quit: bool,
    /// Keys and mouse were taken this frame.
    pub input_taken: bool,
    /// A reload started with the frame's reload handle.
    pub reload: bool,
    /// A render job started with the frame's second job handle.
    pub render: Option<RenderRequest>,
}

/// The events of one UI frame, as the application polls them, and the job
/// handles it has ready for the jobs the frame may start.
pub struct FrameEvents<F, R> {
    /// The reload in flight finished: the script's outputs and the frame
    /// rendered for the output that becomes current.
    pub reloaded: Option<(Map<i32, NodeInfo>, F)>,
    /// The render job in flight at the start of the frame has finished.
    pub replace_ready: bool,
    /// The canvas changed size.
    pub resized: bool,
    pub first_render_slot: F,
    /// The frame to draw was ready and was drawn.
    pub drawn: bool,
    pub keys: KeyInput,
    /// The mouse changed the view of the drawn frame.
    pub view_changed: bool,
    pub reload_slot: R,
    pub second_render_slot: F,
}

/// The finished reload of an event, with its outputs as a `Map`.
pub open spec fn reload_event_view<F>(e: Option<(HashMap<i32, NodeInfo>, F)>) -> Option<(Map<i32, NodeInfo>, F)> {
    match e {
        Some(p) => Some((p.0@, p.1)),
        None => None,
    }
}

/// A reload evaluates the script again when asked to, or when it was never
/// evaluated.
pub fn needs_script_reload(force_reload: bool, script_initialized: bool) -> (b: bool)
    ensures
        b == (force_reload || !script_initialized),
{
    force_reload || !script_initialized
}

/// The previewer: the outputs of the loaded script with their frames, the
/// current settings, and the background jobs in flight. `F` is the handle
/// of a frame being rendered or shown, `R` the handle of a script reload.
pub struct Previewer<F, R> {
    pub reload_data: Option<R>,
    pub state: PreviewState,
    pub initialized: bool,
    pub outputs: HashMap<i32, PreviewOutput<F>>,
    pub last_output_key: i32,
    pub rerender: bool,
    pub reprocess: bool,
    pub replace_frame_promise: Option<F>,
}

/// The mathematical model of a `Previewer`: its outputs as a `Map`.
pub struct PreviewerModel<F, R> {
    pub reload_data: Option<R>,
    pub state: PreviewState,
    pub initialized: bool,
    pub outputs: Map<i32, PreviewOutput<F>>,
    pub last_output_key: i32,
    pub rerender: bool,
    pub reprocess: bool,
    pub replace_frame_promise: Option<F>,
}

impl<F, R> View for Previewer<F, R> {
    type V = PreviewerModel<F, R>;

    open spec fn view(&self) -> PreviewerModel<F, R> {
        PreviewerModel {
            reload_data: self.reload_data,
            state: self.state,
            initialized: self.initialized,
            outputs: self.outputs@,
            last_output_key: self.last_output_key,
            rerender: self.rerender,
            reprocess: self.reprocess,
            replace_frame_promise: self.replace_frame_promise,
        }
    }
}

impl<F, R> PreviewerModel<F, R> {
    /// Before outputs are loaded no render is wanted or in flight; once
    /// they are, the current output and the output whose frame was rendered
    /// last are both among them.
    pub open spec fn wf(self) -> bool {
        &&& self.outputs.is_empty() ==> !self.rerender && self.replace_frame_promise is None
        &&& !self.outputs.is_empty() ==> {
            &&& self.outputs.contains_key(self.state.cur_output)
            &&& self.outputs.contains_key(self.last_output_key)
        }
    }

    /// The previewer before anything is loaded.
    pub open spec fn initial() -> Self {
        PreviewerModel {
            reload_data: None,
            state: PreviewState {
                cur_output: 0,
                cur_frame_no: 0,
                scale_to_window: false,
                scale_filter: PreviewFilterType::Point,
            },
            initialized: false,
            outputs: Map::empty(),
            last_output_key: 0,
            rerender: false,
            reprocess: false,
            replace_frame_promise: None,
        }
    }

    /// A reload of the script was started.
    pub open spec fn reload_started(self, job: R) -> Self {
        PreviewerModel { reload_data: Some(job), ..self }
    }

    /// The outputs of a finished reload, with `frame` shown for the output
    /// that becomes current.
    pub open spec fn reloaded_outputs(infos: Map<i32, NodeInfo>, chosen: i32, frame: F) -> Map<i32, PreviewOutput<F>> {
        Map::new(
            |k: i32| infos.contains_key(k),
            |k: i32|
                if k == chosen {
                    PreviewOutput { frame_promise: Some(frame), ..fresh_output(infos[k]) }
                } else {
                    fresh_output(infos[k])
                },
        )
    }

    /// A reload finished with the outputs `infos` and the first frame `frame`.
    pub open spec fn reload_finished(self, infos: Map<i32, NodeInfo>, frame: F) -> Self {
        let chosen = fallback_output(infos.dom(), self.state.cur_output);
        let num_frames = infos[chosen].num_frames;
        PreviewerModel {
            reload_data: None,
            state: PreviewState {
                cur_output: chosen,
                cur_frame_no: if self.state.cur_frame_no >= num_frames {
                    (num_frames - 1) as u32
                } else {
                    self.state.cur_frame_no
                },
                ..self.state
            },
            initialized: true,
            outputs: Self::reloaded_outputs(infos, chosen, frame),
            last_output_key: chosen,
            rerender: if !self.initialized && self.state.scale_to_window {
                true
            } else {
                self.rerender
            },
            ..self
        }
    }

    /// The frame handle to draw for output `key`, or `None` when a spinner is
    /// shown instead: while the script reloads, when `key` is not an output,
    /// when it has no frame yet, or when its frame number differs from that of
    /// the output rendered last (the new frame is still being rendered).
    pub open spec fn frame_to_show(self, key: i32) -> Option<F> {
        if self.reload_data is Some {
            None
        } else if self.outputs.contains_key(key) && self.outputs[key].last_frame_no
            == self.outputs[self.last_output_key].last_frame_no {
            self.outputs[key].frame_promise
        } else {
            None
        }
    }

    /// The render job in flight finished (`ready`): its frame becomes the
    /// frame of output `key`, which becomes the output rendered last.
    pub open spec fn frame_replaced(self, ready: bool, key: i32) -> Self {
        if ready && self.replace_frame_promise is Some {
            PreviewerModel {
                outputs: self.outputs.insert(
                    key,
                    PreviewOutput { frame_promise: self.replace_frame_promise, ..self.outputs[key] },
                ),
                replace_frame_promise: None,
                last_output_key: key,
                ..self
            }
        } else {
            self
        }
    }

    /// Every output is marked to be processed again.
    pub open spec fn all_marked_for_reprocess(self) -> Self {
        PreviewerModel {
            outputs: Map::new(
                |k: i32| self.outputs.contains_key(k),
                |k: i32| PreviewOutput { force_reprocess: true, ..self.outputs[k] },
            ),
            ..self
        }
    }

    /// A pending reprocess of the current output turns into a rerender; a
    /// rerender starts a render job when none is in flight, which the
    /// returned request describes.
    pub open spec fn rerender_checked(self) -> (Self, Option<RenderRequest>) {
        let cur = self.state.cur_output;
        let m = if self.outputs.contains_key(cur) && self.outputs[cur].force_reprocess {
            PreviewerModel {
                rerender: true,
                reprocess: true,
                outputs: self.outputs.insert(cur, PreviewOutput { force_reprocess: false, ..self.outputs[cur] }),
                ..self
            }
        } else {
            self
        };
        if m.rerender && m.replace_frame_promise is None {
            (
                PreviewerModel { rerender: false, reprocess: false, ..m },
                Some(RenderRequest { reprocess: m.reprocess, output: cur, frame_no: m.state.cur_frame_no }),
            )
        } else {
            (m, None)
        }
    }

    /// A render job was started.
    pub open spec fn render_started(self, job: F) -> Self {
        PreviewerModel { replace_frame_promise: Some(job), ..self }
    }

    /// The frame handle of the current output.
    pub open spec fn current_frame(self) -> Option<F> {
        if self.outputs.contains_key(self.state.cur_output) {
            self.outputs[self.state.cur_output].frame_promise
        } else {
            None
        }
    }

    /// Key presses are taken only while no render is wanted or in flight.
    pub open spec fn accepts_input(self) -> bool {
        !self.rerender && self.replace_frame_promise is None
    }

    /// The inputs on which a seek can be made: with no modifier held the
    /// current output must exist and have frames, and a jump forward must
    /// stay within `u32`.
    pub open spec fn can_seek(self, input: KeyInput) -> bool {
        input.no_modifiers ==> {
            let cur = self.state.cur_output;
            &&& self.outputs.contains_key(cur)
            &&& self.outputs[cur].node_info.num_frames >= 1
            &&& seek_fits(seek_key_of(input), self.state.cur_frame_no, self.outputs[cur].node_info.framerate)
        }
    }

    /// The seek keys move the current frame; the frame left behind is
    /// remembered as the current output's last frame. Returns whether to
    /// rerender: exactly when the current frame changed.
    pub open spec fn seek_stepped(self, input: KeyInput) -> (Self, bool) {
        if !input.no_modifiers {
            (self, false)
        } else {
            let cur = self.state.cur_output;
            let current = self.state.cur_frame_no;
            let info = self.outputs[cur].node_info;
            let frame_no = seek_result(seek_key_of(input), current, info.num_frames, info.framerate);
            (
                PreviewerModel {
                    state: PreviewState {
                        cur_frame_no: frame_no as u32,
                        ..self.state
                    },
                    outputs: self.outputs.insert(cur, PreviewOutput { last_frame_no: current, ..self.outputs[cur] }),
                    ..self
                },
                frame_no != current,
            )
        }
    }

    /// The number row switches to another existing output. Returns whether
    /// the switch asks for a render: the two outputs were last shown at
    /// different frames.
    pub open spec fn output_stepped(self, input: KeyInput) -> (Self, bool) {
        let n = requested_output_of(input);
        if input.no_modifiers && n >= 0 && self.outputs.contains_key(n as i32) {
            (
                PreviewerModel { state: PreviewState { cur_output: n as i32, ..self.state }, ..self },
                self.outputs[self.state.cur_output].last_frame_no != self.outputs[n as i32].last_frame_no,
            )
        } else {
            (self, false)
        }
    }

    /// Seek, then output switch; a render is wanted when either asks for one.
    pub open spec fn keys_handled(self, input: KeyInput) -> Self {
        let (m1, seek_rerender) = self.seek_stepped(input);
        let (m2, output_rerender) = m1.output_stepped(input);
        PreviewerModel { rerender: seek_rerender || output_rerender, ..m2 }
    }

    /// A change of the view (zoom, scroll) of a drawn frame: every output is
    /// processed again and a render is wanted.
    pub open spec fn view_changed(self, changed: bool) -> Self {
        if changed {
            PreviewerModel { rerender: true, ..self.all_marked_for_reprocess() }
        } else {
            self
        }
    }

    /// Takes in a finished reload, if there is one.
    pub open spec fn reload_taken(self, reloaded: Option<(Map<i32, NodeInfo>, F)>) -> Self {
        match reloaded {
            Some(e) => self.reload_finished(e.0, e.1),
            None => self,
        }
    }

    /// Decides whether a render starts; when it does, `slot` is its job.
    pub open spec fn render_slot_used(self, slot: F) -> (Self, Option<RenderRequest>) {
        let (m, req) = self.rerender_checked();
        if req is Some {
            (m.render_started(slot), req)
        } else {
            (m, None)
        }
    }

    /// The first half of a UI frame for output `key` (the output current
    /// when the frame began): take in a finished reload, start a render if
    /// one is wanted, install a finished render, mark every output for
    /// reprocessing on a resize, and decide whether a frame is drawn.
    pub open spec fn frame_begun(
        self,
        key: i32,
        reloaded: Option<(Map<i32, NodeInfo>, F)>,
        replace_ready: bool,
        resized: bool,
        slot: F,
    ) -> (Self, FrameStart) {
        let m1 = self.reload_taken(reloaded);
        let (m2, req) = m1.render_slot_used(slot);
        let m3 = m2.frame_replaced(replace_ready, key);
        let m4 = if resized { m3.all_marked_for_reprocess() } else { m3 };
        (m4, FrameStart { render: req, frame_shown: m4.frame_to_show(key) is Some })
    }

    /// The events on which the first half of a frame can run: a finished
    /// reload can be taken in, readiness is that of the job in flight, and a
    /// finished job's output exists.
    pub open spec fn can_begin_frame(self, key: i32, reloaded: Option<(Map<i32, NodeInfo>, F)>, replace_ready: bool) -> bool {
        &&& reloaded matches Some(e) ==> self.can_finish_reload(e.0)
        &&& replace_ready ==> self.replace_frame_promise is Some
        &&& replace_ready ==> self.reload_taken(reloaded).outputs.contains_key(key)
    }

    /// The second half of a UI frame: when a frame was drawn and input is
    /// taken, the keys, the mouse, a reload request and a new render.
    pub open spec fn frame_ended(
        self,
        key: i32,
        drawn: bool,
        keys: KeyInput,
        view_changed: bool,
        reload_slot: R,
        slot: F,
    ) -> (Self, FrameEnd) {
        let quit = keys.q || keys.escape;
        if drawn && self.accepts_input() {
            let m1 = self.keys_handled(keys).view_changed(view_changed);
            let m2 = if keys.r { m1.reload_started(reload_slot) } else { m1 };
            let (m3, req) = m2.render_slot_used(slot);
            (m3, FrameEnd { quit, input_taken: true, reload: keys.r, render: req })
        } else {
            (self, FrameEnd { quit, input_taken: false, reload: false, render: None })
        }
    }

    /// The events on which the second half of a frame can run: a drawn frame
    /// was there to draw, and the keys can be taken.
    pub open spec fn can_end_frame(self, key: i32, drawn: bool, keys: KeyInput) -> bool {
        &&& drawn ==> self.frame_to_show(key) is Some
        &&& drawn && self.accepts_input() ==> self.can_seek(keys)
    }

    /// One whole UI frame for output `key`.
    pub open spec fn ui_frame(self, key: i32, ev: FrameEvents<F, R>) -> (Self, FrameStart, FrameEnd) {
        let (m1, start) = self.frame_begun(key, ev.reloaded, ev.replace_ready, ev.resized, ev.first_render_slot);
        let (m2, end) = m1.frame_ended(key, ev.drawn, ev.keys, ev.view_changed, ev.reload_slot, ev.second_render_slot);
        (m2, start, end)
    }

    /// The events on which a whole UI frame can run.
    pub open spec fn can_run_frame(self, key: i32, ev: FrameEvents<F, R>) -> bool {
        &&& self.can_begin_frame(key, ev.reloaded, ev.replace_ready)
        &&& self.frame_begun(key, ev.reloaded, ev.replace_ready, ev.resized, ev.first_render_slot).0.can_end_frame(
            key,
            ev.drawn,
            ev.keys,
        )
    }

    /// The inputs on which a finished reload can be taken in: the script has
    /// outputs, and the one that becomes current has frames.
    pub open spec fn can_finish_reload(self, infos: Map<i32, NodeInfo>) -> bool {
        &&& !infos.is_empty()
        &&& infos[fallback_output(infos.dom(), self.state.cur_output)].num_frames >= 1
    }
}

impl<F, R> Default for Previewer<F, R> {
    fn default() -> (p: Self)
        ensures
            p@ == PreviewerModel::<F, R>::initial(),
    {
        Previewer {
            reload_data: None,
            state: PreviewState::default(),
            initialized: false,
            outputs: HashMap::new(),
            last_output_key: 0,
            rerender: false,
            reprocess: false,
            replace_frame_promise: None,
        }
    }
}

impl<F, R> Previewer<F, R> {
    /// Records the reload job that was started for the script.
    pub fn reload(&mut self, job: R)
        ensures
            final(self)@ == old(self)@.reload_started(job),
    {
        self.reload_data = Some(job);
    }

    /// Takes in the result of a reload: the script's outputs and the frame
    /// rendered for the output that becomes current (`frame`).
    pub fn check_reload_finish(&mut self, infos: HashMap<i32, NodeInfo>, frame: F)
        requires
            old(self)@.can_finish_reload(infos@),
        ensures
            final(self)@ == old(self)@.reload_finished(infos@, frame),
            final(self)@.wf(),
    {
        let keys = output_keys(&infos);
        let chosen: i32 = choose_output(&infos, self.state.cur_output);
        let mut outputs: HashMap<i32, PreviewOutput<F>> = HashMap::new();
        let n: usize = keys.len();
        for i in 0..n
            invariant
                n == keys@.len(),
                keys@.to_set() == infos@.dom(),
                outputs@.dom() == keys@.take(i as int).to_set(),
                forall|k: i32| #[trigger] outputs@.contains_key(k) ==> outputs@[k] == fresh_output::<F>(infos@[k]),
        {
            let key: i32 = keys[i];
            proof {
                assert(keys@.to_set().contains(key));
            }
            let info = *infos.get(&key).unwrap();
            outputs.insert(key, PreviewOutput {
                node_info: info,
                frame_promise: None,
                force_reprocess: false,
                last_frame_no: 0,
            });
            proof {
                let s0 = keys@.take(i as int);
                let s1 = keys@.take(i + 1);
                assert(s1 =~= s0.push(key));
                assert forall|x: i32| #[trigger] s1.to_set().contains(x) <==> outputs@.dom().contains(x) by {
                    if s0.contains(x) {
                        let j = choose|j: int| 0 <= j < s0.len() && s0[j] == x;
                        assert(s1[j] == x);
                    }
                    if x == key {
                        assert(s1[i as int] == key);
                    }
                    if s1.contains(x) {
                        let j = choose|j: int| 0 <= j < s1.len() && s1[j] == x;
                        if j < i {
                            assert(s0[j] == x);
                        }
                    }
                }
                assert(outputs@.dom() =~= s1.to_set());
            }
        }
        proof {
            assert(keys@.take(n as int) =~= keys@);
        }
        let mut first = outputs.remove(&chosen).unwrap();
        first.frame_promise = Some(frame);
        let num_frames: u32 = first.node_info.num_frames;
        outputs.insert(chosen, first);
        self.outputs = outputs;
        self.state.cur_output = chosen;
        self.reload_data = None;
        self.last_output_key = chosen;
        if self.state.cur_frame_no >= num_frames {
            self.state.cur_frame_no = num_frames - 1;
        }
        if !self.initialized {
            self.initialized = true;
            if self.state.scale_to_window {
                self.rerender = true;
            }
        }
        proof {
            assert(self.outputs@ =~= PreviewerModel::<F, R>::reloaded_outputs(infos@, chosen, frame));
        }
    }

    /// The frame handle to draw for output `key` (see
    /// `PreviewerModel::frame_to_show`); `None` means a spinner is shown.
    pub fn frame_to_show(&self, key: i32) -> (r: Option<&F>)
        requires
            self@.wf(),
        ensures
            r is None <==> self@.frame_to_show(key) is None,
            r matches Some(p) ==> self@.frame_to_show(key) == Some(*p),
    {
        if self.reload_data.is_some() {
            return None;
        }
        match self.outputs.get(&key) {
            None => None,
            Some(output) => {
                let last = self.outputs.get(&self.last_output_key).unwrap();
                if output.last_frame_no != last.last_frame_no {
                    None
                } else {
                    output.frame_promise.as_ref()
                }
            },
        }
    }

    /// Installs the finished render job (`ready`) as the frame of output `key`.
    pub fn replace_frame(&mut self, ready: bool, key: i32)
        requires
            old(self)@.wf(),
            ready && old(self).replace_frame_promise is Some ==> old(self).outputs@.contains_key(key),
        ensures
            final(self)@ == old(self)@.frame_replaced(ready, key),
            final(self)@.wf(),
    {
        if ready && self.replace_frame_promise.is_some() {
            let job = self.replace_frame_promise.take();
            let mut output = self.outputs.remove(&key).unwrap();
            output.frame_promise = job;
            self.outputs.insert(key, output);
            self.last_output_key = key;
            proof {
                assert(self.outputs@ =~= old(self)@.frame_replaced(ready, key).outputs);
            }
        }
    }

    /// Marks every output to be processed again (the canvas changed size).
    pub fn mark_all_for_reprocess(&mut self)
        requires
            old(self)@.wf(),
        ensures
            final(self)@ == old(self)@.all_marked_for_reprocess(),
            final(self)@.wf(),
    {
        let ghost before = self.outputs@;
        let keys = output_keys(&self.outputs);
        let n: usize = keys.len();
        for i in 0..n
            invariant
                n == keys@.len(),
                keys@.to_set() == before.dom(),
                before == old(self).outputs@,
                self.outputs@.dom() == before.dom(),
                self.reload_data == old(self).reload_data,
                self.state == old(self).state,
                self.initialized == old(self).initialized,
                self.last_output_key == old(self).last_output_key,
                self.rerender == old(self).rerender,
                self.reprocess == old(self).reprocess,
                self.replace_frame_promise == old(self).replace_frame_promise,
                forall|k: i32| #[trigger] before.contains_key(k) ==> self.outputs@[k] == (
                    if keys@.take(i as int).contains(k) {
                        PreviewOutput { force_reprocess: true, ..before[k] }
                    } else {
                        before[k]
                    }),
        {
            let key: i32 = keys[i];
            proof {
                assert(keys@.to_set().contains(key));
            }
            let mut output = self.outputs.remove(&key).unwrap();
            output.force_reprocess = true;
            self.outputs.insert(key, output);
            proof {
                let s0 = keys@.take(i as int);
                let s1 = keys@.take(i + 1);
                assert(s1 =~= s0.push(key));
                assert forall|k: i32| #[trigger] before.contains_key(k) implies self.outputs@[k] == (
                    if s1.contains(k) {
                        PreviewOutput { force_reprocess: true, ..before[k] }
                    } else {
                        before[k]
                    }) by {
                    if s0.contains(k) {
                        let j = choose|j: int| 0 <= j < s0.len() && s0[j] == k;
                        assert(s1[j] == k);
                    }
                    if k == key {
                        assert(s1[i as int] == key);
                    }
                    if s1.contains(k) && k != key {
                        let j = choose|j: int| 0 <= j < s1.len() && s1[j] == k;
                        assert(j < i);
                        assert(s0[j] == k);
                    }
                }
                assert(self.outputs@.dom() =~= before.dom());
            }
        }
        proof {
            assert(keys@.take(n as int) =~= keys@);
            assert forall|k: i32| #[trigger] before.contains_key(k) implies keys@.contains(k) by {
                assert(keys@.to_set().contains(k));
            }
            assert(self.outputs@ =~= old(self)@.all_marked_for_reprocess().outputs);
        }
    }

    /// Decides whether a render job starts now; when it does, the returned
    /// request says what to render, and `set_render_job` records the job.
    pub fn check_rerender(&mut self) -> (r: Option<RenderRequest>)
        requires
            old(self)@.wf(),
        ensures
            (final(self)@, r) == old(self)@.rerender_checked(),
            final(self)@.wf(),
    {
        let cur: i32 = self.state.cur_output;
        if !self.outputs.is_empty() {
            let mut output = self.outputs.remove(&cur).unwrap();
            if output.force_reprocess {
                self.rerender = true;
                self.reprocess = true;
                output.force_reprocess = false;
            }
            self.outputs.insert(cur, output);
            proof {
                assert(self.outputs@ =~= old(self)@.rerender_checked().0.outputs);
            }
        }
        if self.rerender && self.replace_frame_promise.is_none() {
            self.rerender = false;
            let reprocess: bool = self.reprocess;
            self.reprocess = false;
            Some(RenderRequest { reprocess, output: cur, frame_no: self.state.cur_frame_no })
        } else {
            None
        }
    }

    /// Records the render job that was started for a request.
    pub fn set_render_job(&mut self, job: F)
        requires
            old(self)@.wf(),
            !old(self).outputs@.is_empty(),
        ensures
            final(self)@ == old(self)@.render_started(job),
            final(self)@.wf(),
    {
        self.replace_frame_promise = Some(job);
    }

    /// The frame handle of the current output, if it has one.
    pub fn get_current_frame(&self) -> (r: Option<&F>)
        requires
            self@.wf(),
        ensures
            r is None <==> self@.current_frame() is None,
            r matches Some(p) ==> self@.current_frame() == Some(*p),
    {
        if !self.outputs.is_empty() {
            let output = self.outputs.get(&self.state.cur_output).unwrap();
            output.frame_promise.as_ref()
        } else {
            None
        }
    }

    /// Whether key presses and mouse input are taken now.
    pub fn accepts_input(&self) -> (b: bool)
        ensures
            b == self@.accepts_input(),
    {
        !self.rerender && self.replace_frame_promise.is_none()
    }

    /// Moves through the frames of the current output; returns whether a
    /// render is wanted.
    pub fn check_update_seek(&mut self, input: &KeyInput) -> (r: bool)
        requires
            old(self)@.wf(),
            old(self)@.can_seek(*input),
        ensures
            (final(self)@, r) == old(self)@.seek_stepped(*input),
            final(self)@.wf(),
            input.no_modifiers ==> final(self).state.cur_frame_no
                < final(self)@.outputs[final(self).state.cur_output].node_info.num_frames,
    {
        if !input.no_modifiers {
            return false;
        }
        let cur: i32 = self.state.cur_output;
        let current: u32 = self.state.cur_frame_no;
        let mut output = self.outputs.remove(&cur).unwrap();
        let (frame_no, rerender) = seek_frame(
            input.seek_key(),
            current,
            output.node_info.num_frames,
            output.node_info.framerate,
        );
        output.last_frame_no = current;
        self.outputs.insert(cur, output);
        self.state.cur_frame_no = frame_no;
        proof {
            assert(self.outputs@ =~= old(self)@.seek_stepped(*input).0.outputs);
        }
        rerender
    }

    /// Switches to the output picked on the number row; returns whether a
    /// render is wanted.
    pub fn check_update_output(&mut self, input: &KeyInput) -> (r: bool)
        requires
            old(self)@.wf(),
        ensures
            (final(self)@, r) == old(self)@.output_stepped(*input),
            final(self)@.wf(),
    {
        if !input.no_modifiers {
            return false;
        }
        let old_output: i32 = self.state.cur_output;
        let new_output: i32 = input.requested_output();
        if new_output >= 0 && self.outputs.contains_key(&new_output) {
            self.state.cur_output = new_output;
            let old_frame: u32 = self.outputs.get(&old_output).unwrap().last_frame_no;
            let new_frame: u32 = self.outputs.get(&new_output).unwrap().last_frame_no;
            old_frame != new_frame
        } else {
            false
        }
    }

    /// Seek, then output switch; a render is wanted when either asks for one.
    pub fn handle_keypresses(&mut self, input: &KeyInput)
        requires
            old(self)@.wf(),
            old(self)@.can_seek(*input),
        ensures
            final(self)@ == old(self)@.keys_handled(*input),
            final(self)@.wf(),
    {
        let mut rerender: bool = self.check_update_seek(input);
        rerender = self.check_update_output(input) || rerender;
        self.rerender = rerender;
    }

    /// The first half of a UI frame for output `key` (the output current
    /// when the frame began; see `PreviewerModel::frame_begun`). `reloaded`
    /// is the finished reload, if any, `replace_ready` whether the render job
    /// in flight has finished, `resized` whether the canvas changed size, and
    /// `render_slot` the job handle to use if a render starts.
    pub fn begin_frame(
        &mut self,
        key: i32,
        reloaded: Option<(HashMap<i32, NodeInfo>, F)>,
        replace_ready: bool,
        resized: bool,
        render_slot: F,
    ) -> (r: FrameStart)
        requires
            old(self)@.wf(),
            old(self)@.can_begin_frame(key, reload_event_view(reloaded), replace_ready),
        ensures
            (final(self)@, r) == old(self)@.frame_begun(
                key,
                reload_event_view(reloaded),
                replace_ready,
                resized,
                render_slot,
            ),
            final(self)@.wf(),
    {
        match reloaded {
            Some((infos, frame)) => self.check_reload_finish(infos, frame),
            None => {},
        }
        let request = self.check_rerender();
        if request.is_some() {
            self.set_render_job(render_slot);
        }
        self.replace_frame(replace_ready, key);
        if resized {
            self.mark_all_for_reprocess();
        }
        let frame_shown: bool = self.frame_to_show(key).is_some();
        FrameStart { render: request, frame_shown }
    }

    /// The second half of a UI frame (see `PreviewerModel::frame_ended`):
    /// `drawn` says the frame to show was ready and drawn, `keys` and
    /// `view_changed` are this frame's input, `reload_slot` and
    /// `render_slot` the job handles to use if a reload or a render starts.
    pub fn end_frame(
        &mut self,
        key: i32,
        drawn: bool,
        keys: &KeyInput,
        view_changed: bool,
        reload_slot: R,
        render_slot: F,
    ) -> (r: FrameEnd)
        requires
            old(self)@.wf(),
            old(self)@.can_end_frame(key, drawn, *keys),
        ensures
            (final(self)@, r) == old(self)@.frame_ended(key, drawn, *keys, view_changed, reload_slot, render_slot),
            final(self)@.wf(),
    {
        let quit: bool = keys.quit_requested();
        if drawn && self.accepts_input() {
            self.handle_keypresses(keys);
            proof {
                assert(self.outputs@.dom() =~= old(self).outputs@.dom());
                assert(old(self).outputs@.contains_key(key));
            }
            self.apply_view_change(view_changed);
            let reload: bool = keys.reload_requested();
            if reload {
                self.reload(reload_slot);
            }
            let request = self.check_rerender();
            if request.is_some() {
                self.set_render_job(render_slot);
            }
            FrameEnd { quit, input_taken: true, reload, render: request }
        } else {
            FrameEnd { quit, input_taken: false, reload: false, render: None }
        }
    }

    /// Takes in whether the mouse changed the view (zoom or scroll).
    pub fn apply_view_change(&mut self, changed: bool)
        requires
            old(self)@.wf(),
            changed ==> !old(self).outputs@.is_empty(),
        ensures
            final(self)@ == old(self)@.view_changed(changed),
            final(self)@.wf(),
    {
        if changed {
            self.mark_all_for_reprocess();
            self.rerender = true;
        }
    }
}

} // verus!
