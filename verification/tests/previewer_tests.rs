use std::collections::HashMap;
use vspreview_rs::filter::{PreviewFilterType, ResizeFilterType};
use vspreview_rs::input::KeyInput;
use vspreview_rs::outputs::{choose_output, output_keys, smallest_key};
use vspreview_rs::previewer::{
    needs_script_reload, NodeInfo, PreviewState, Previewer, RenderRequest, STARTUP_FRAME,
};

type Lib = Previewer<u32, &'static str>;

fn no_keys() -> KeyInput {
    KeyInput {
        no_modifiers: true,
        arrow_left: false,
        arrow_right: false,
        arrow_up: false,
        arrow_down: false,
        h: false,
        j: false,
        k: false,
        l: false,
        q: false,
        r: false,
        escape: false,
        number_row: [false; 10],
    }
}

fn info(num_frames: u32, framerate: u32) -> NodeInfo {
    NodeInfo { num_frames, framerate }
}

fn script_outputs() -> HashMap<i32, NodeInfo> {
    let mut m = HashMap::new();
    m.insert(2, info(100, 24));
    m.insert(0, info(10, 30));
    m.insert(5, info(50, 25));
    m
}

/// A previewer with the outputs of `script_outputs` loaded and frame 7 shown.
fn loaded() -> Lib {
    let mut p: Lib = Previewer::default();
    p.reload("job");
    p.check_reload_finish(script_outputs(), 7);
    p
}

#[test]
fn filter_defaults_to_point() {
    assert_eq!(PreviewFilterType::default(), PreviewFilterType::Point);
}

#[test]
fn state_default_and_startup() {
    let mut s = PreviewState::default();
    assert_eq!(s.cur_output, 0);
    assert_eq!(s.cur_frame_no, 0);
    assert!(!s.scale_to_window);
    assert_eq!(s.scale_filter, PreviewFilterType::Point);
    s.scale_to_window = true;
    s.cur_output = 3;
    s.prepare_for_startup();
    assert_eq!(s.cur_frame_no, STARTUP_FRAME);
    assert_eq!(s.cur_frame_no, 12345);
    assert!(!s.scale_to_window);
    assert_eq!(s.cur_output, 3);
}

#[test]
fn choose_output_prefers_wanted_then_smallest() {
    let m = script_outputs();
    assert_eq!(choose_output(&m, 5), 5);
    assert_eq!(choose_output(&m, 1), 0);
    assert_eq!(smallest_key(&m), 0);
    let mut neg = HashMap::new();
    neg.insert(-3, ());
    neg.insert(4, ());
    neg.insert(-7, ());
    assert_eq!(choose_output(&neg, 0), -7);
    let mut keys = output_keys(&neg);
    keys.sort();
    assert_eq!(keys, vec![-7, -3, 4]);
}

#[test]
fn default_previewer_is_empty() {
    let p: Lib = Previewer::default();
    assert!(p.outputs.is_empty());
    assert!(p.reload_data.is_none());
    assert!(!p.initialized);
    assert!(p.frame_to_show(0).is_none());
    assert!(p.get_current_frame().is_none());
    assert!(p.accepts_input());
}

#[test]
fn reload_falls_back_and_clamps() {
    let mut p: Lib = Previewer::default();
    p.state.cur_output = 3;
    p.state.prepare_for_startup();
    p.reload("job");
    assert_eq!(p.reload_data, Some("job"));
    assert!(p.frame_to_show(3).is_none());
    p.check_reload_finish(script_outputs(), 7);
    // output 3 does not exist: the smallest key is taken
    assert_eq!(p.state.cur_output, 0);
    assert_eq!(p.last_output_key, 0);
    // frame 12345 is clamped to the last frame of output 0
    assert_eq!(p.state.cur_frame_no, 9);
    assert!(p.reload_data.is_none());
    assert!(p.initialized);
    assert!(!p.rerender);
    assert_eq!(p.outputs.len(), 3);
    assert_eq!(p.outputs[&0].frame_promise, Some(7));
    assert_eq!(p.outputs[&2].frame_promise, None);
    assert_eq!(p.outputs[&5].node_info, info(50, 25));
    assert_eq!(p.frame_to_show(0), Some(&7));
    assert_eq!(p.get_current_frame(), Some(&7));
}

#[test]
fn reload_keeps_existing_output_and_frame() {
    let mut p: Lib = Previewer::default();
    p.state.cur_output = 5;
    p.state.cur_frame_no = 20;
    p.check_reload_finish(script_outputs(), 1);
    assert_eq!(p.state.cur_output, 5);
    assert_eq!(p.state.cur_frame_no, 20);
}

#[test]
fn first_reload_scaled_to_window_asks_for_render() {
    let mut p: Lib = Previewer::default();
    p.state.scale_to_window = true;
    p.check_reload_finish(script_outputs(), 1);
    assert!(p.rerender);
    // a later reload leaves the wish as it is
    p.rerender = false;
    p.check_reload_finish(script_outputs(), 2);
    assert!(!p.rerender);
}

#[test]
fn render_job_flow() {
    let mut p = loaded();
    assert_eq!(p.check_rerender(), None);
    p.rerender = true;
    let req = p.check_rerender();
    assert_eq!(req, Some(RenderRequest { reprocess: false, output: 0, frame_no: 0 }));
    assert!(!p.rerender);
    p.set_render_job(11);
    assert!(!p.accepts_input());
    // a job is in flight: no second one starts
    p.rerender = true;
    assert_eq!(p.check_rerender(), None);
    assert!(p.rerender);
    // not ready yet
    p.replace_frame(false, 0);
    assert_eq!(p.replace_frame_promise, Some(11));
    assert_eq!(p.frame_to_show(0), Some(&7));
    // ready: it becomes the frame of output 0
    p.replace_frame(true, 0);
    assert_eq!(p.replace_frame_promise, None);
    assert_eq!(p.frame_to_show(0), Some(&11));
    assert_eq!(p.last_output_key, 0);
}

#[test]
fn view_change_reprocesses() {
    let mut p = loaded();
    p.apply_view_change(false);
    assert!(!p.rerender);
    assert!(!p.outputs[&2].force_reprocess);
    p.apply_view_change(true);
    assert!(p.rerender);
    assert!(p.outputs.values().all(|o| o.force_reprocess));
    let req = p.check_rerender();
    assert_eq!(req, Some(RenderRequest { reprocess: true, output: 0, frame_no: 0 }));
    assert!(!p.outputs[&0].force_reprocess);
    assert!(p.outputs[&2].force_reprocess);
    assert!(!p.reprocess);
    assert!(req.unwrap().reuses_frame(true));
    assert!(!req.unwrap().reuses_frame(false));
}

#[test]
fn resize_marks_and_current_output_reprocesses() {
    let mut p = loaded();
    p.mark_all_for_reprocess();
    assert!(!p.rerender);
    assert!(p.outputs.values().all(|o| o.force_reprocess));
    let req = p.check_rerender();
    assert_eq!(req, Some(RenderRequest { reprocess: true, output: 0, frame_no: 0 }));
}

#[test]
fn seek_updates_frame_and_last_frame() {
    let mut p = loaded();
    p.state.cur_output = 2;
    p.last_output_key = 2;
    p.state.cur_frame_no = 40;
    let mut input = no_keys();
    input.arrow_down = true;
    assert!(p.check_update_seek(&input));
    assert_eq!(p.state.cur_frame_no, 64);
    assert_eq!(p.outputs[&2].last_frame_no, 40);
    // with a modifier nothing happens
    input.no_modifiers = false;
    assert!(!p.check_update_seek(&input));
    assert_eq!(p.state.cur_frame_no, 64);
    assert_eq!(p.outputs[&2].last_frame_no, 40);
}

#[test]
fn seek_without_key_clamps_and_records() {
    let mut p = loaded();
    p.state.cur_frame_no = 500;
    assert!(p.check_update_seek(&no_keys()));
    assert_eq!(p.state.cur_frame_no, 9);
    assert_eq!(p.outputs[&0].last_frame_no, 500);
}

#[test]
fn output_switch() {
    let mut p = loaded();
    let mut input = no_keys();
    input.number_row[5] = true; // key `6` selects output 5
    assert!(!p.check_update_output(&input));
    assert_eq!(p.state.cur_output, 5);
    // missing output: nothing changes
    let mut input = no_keys();
    input.number_row[7] = true;
    assert!(!p.check_update_output(&input));
    assert_eq!(p.state.cur_output, 5);
    // different last frames ask for a render
    p.outputs.get_mut(&2).unwrap().last_frame_no = 3;
    let mut input = no_keys();
    input.number_row[2] = true;
    assert!(p.check_update_output(&input));
    assert_eq!(p.state.cur_output, 2);
    // modifiers block the switch
    let mut input = no_keys();
    input.no_modifiers = false;
    input.number_row[0] = true;
    assert!(!p.check_update_output(&input));
    assert_eq!(p.state.cur_output, 2);
}

#[test]
fn keypresses_combine_seek_and_switch() {
    let mut p = loaded();
    p.state.cur_frame_no = 4;
    let mut input = no_keys();
    input.l = true;
    input.number_row[2] = true; // key `3` selects output 2
    p.handle_keypresses(&input);
    assert_eq!(p.state.cur_frame_no, 5);
    assert_eq!(p.outputs[&0].last_frame_no, 4);
    assert_eq!(p.state.cur_output, 2);
    assert!(p.rerender);
    // the new output was last shown at another frame: spinner until rendered
    assert!(p.frame_to_show(2).is_none());
    let req = p.check_rerender();
    assert_eq!(req, Some(RenderRequest { reprocess: false, output: 2, frame_no: 5 }));
    p.set_render_job(21);
    p.replace_frame(true, 2);
    assert_eq!(p.frame_to_show(2), Some(&21));

    let mut q = loaded();
    q.handle_keypresses(&no_keys());
    assert!(!q.rerender);
}

#[test]
fn frame_hidden_while_reloading() {
    let mut p = loaded();
    p.reload("again");
    assert!(p.frame_to_show(0).is_none());
    assert_eq!(p.get_current_frame(), Some(&7));
}

#[test]
fn script_reload_decision() {
    assert!(needs_script_reload(true, true));
    assert!(needs_script_reload(false, false));
    assert!(!needs_script_reload(false, true));
}

#[test]
fn modifiers_block_keypresses() {
    let mut p = loaded();
    p.rerender = true;
    let mut input = no_keys();
    input.no_modifiers = false;
    input.arrow_right = true;
    input.number_row[2] = true;
    p.handle_keypresses(&input);
    assert_eq!(p.state.cur_output, 0);
    assert_eq!(p.state.cur_frame_no, 0);
    assert!(!p.rerender);
}

#[test]
fn resize_filter_mapping() {
    assert_eq!(PreviewFilterType::Point.resize_filter(), ResizeFilterType::Box);
    assert_eq!(PreviewFilterType::Bilinear.resize_filter(), ResizeFilterType::Bilinear);
    assert_eq!(PreviewFilterType::Hamming.resize_filter(), ResizeFilterType::Hamming);
    assert_eq!(PreviewFilterType::CatmullRom.resize_filter(), ResizeFilterType::CatmullRom);
    assert_eq!(PreviewFilterType::Mitchell.resize_filter(), ResizeFilterType::Mitchell);
    assert_eq!(PreviewFilterType::Lanczos3.resize_filter(), ResizeFilterType::Lanczos3);
}

#[test]
fn frames_before_load_do_nothing() {
    let mut p: Lib = Previewer::default();
    p.reload("job");
    let mut keys = no_keys();
    keys.arrow_right = true;
    keys.r = true;
    let start = p.begin_frame(0, None, false, true, 1);
    assert_eq!(start.render, None);
    assert!(!start.frame_shown);
    let end = p.end_frame(0, false, &keys, true, "again", 2);
    assert!(!end.input_taken);
    assert!(!end.reload);
    assert_eq!(end.render, None);
    assert!(p.outputs.is_empty());
    assert!(!p.rerender);
    assert!(p.replace_frame_promise.is_none());
    assert_eq!(p.reload_data, Some("job"));
}

#[test]
fn frame_takes_in_reload_and_input() {
    let mut p: Lib = Previewer::default();
    p.reload("job");
    let start = p.begin_frame(0, Some((script_outputs(), 7)), false, false, 1);
    assert_eq!(start.render, None);
    assert!(start.frame_shown);
    assert_eq!(p.frame_to_show(0), Some(&7));
    let mut keys = no_keys();
    keys.l = true;
    keys.q = true;
    let end = p.end_frame(0, true, &keys, false, "again", 2);
    assert!(end.quit);
    assert!(end.input_taken);
    assert!(!end.reload);
    // the seek moved to frame 1: a render starts with the second handle
    assert_eq!(end.render, Some(RenderRequest { reprocess: false, output: 0, frame_no: 1 }));
    assert_eq!(p.replace_frame_promise, Some(2));
    assert_eq!(p.state.cur_frame_no, 1);

    // next frame: the render is in flight and ready; it is installed
    let start = p.begin_frame(0, None, true, false, 3);
    assert_eq!(start.render, None);
    assert!(start.frame_shown);
    assert_eq!(p.frame_to_show(0), Some(&2));
    assert!(p.replace_frame_promise.is_none());
}

#[test]
fn one_render_per_frame() {
    let mut p = loaded();
    p.rerender = true;
    let start = p.begin_frame(0, None, false, false, 5);
    assert_eq!(start.render, Some(RenderRequest { reprocess: false, output: 0, frame_no: 0 }));
    let mut keys = no_keys();
    keys.l = true;
    // the frame is drawn, but a job is in flight: no input, no second render
    let end = p.end_frame(0, start.frame_shown, &keys, true, "again", 6);
    assert!(!end.input_taken);
    assert_eq!(end.render, None);
    assert_eq!(p.replace_frame_promise, Some(5));
    assert_eq!(p.state.cur_frame_no, 0);
}

#[test]
fn no_input_while_reloading() {
    let mut p = loaded();
    p.reload("again");
    let start = p.begin_frame(0, None, false, false, 5);
    assert!(!start.frame_shown);
    let mut keys = no_keys();
    keys.l = true;
    let end = p.end_frame(0, false, &keys, true, "third", 6);
    assert!(!end.input_taken);
    assert_eq!(p.state.cur_frame_no, 0);
    assert_eq!(p.reload_data, Some("again"));
}

#[test]
fn resize_then_input_reprocesses() {
    let mut p = loaded();
    let start = p.begin_frame(0, None, false, true, 5);
    assert_eq!(start.render, None);
    let mut keys = no_keys();
    keys.r = true;
    let end = p.end_frame(0, true, &keys, false, "again", 6);
    assert!(end.input_taken);
    assert!(end.reload);
    assert_eq!(p.reload_data, Some("again"));
    assert_eq!(end.render, Some(RenderRequest { reprocess: true, output: 0, frame_no: 0 }));
}
