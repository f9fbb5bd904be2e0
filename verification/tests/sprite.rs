use std::sync::Arc;

use gremlin::effect::{Reply, Request, SpriteReply};
use gremlin::error::GremlinError;
use gremlin::json::Json;
use gremlin::picture::Frame;
use gremlin::protocol::result_reply_line;
use gremlin::sprite::{
    encoded_text, register_sprite_tools, AnimationController, AnimationState, FrameMap,
    SpriteCommand, SpriteSheet, SpriteSheetMeta, SpriteSystem,
};
use gremlin::tools::{Execution, ToolRegistry, ToolResult};
use gremlin::viewer::{decode_png, poll_frame, ReplyReader, ReplyStep};

const MS: u64 = 1_000_000;

fn state(name: &str, frames: Vec<usize>, fps: u32, loop_anim: bool) -> AnimationState {
    AnimationState { name: name.to_string(), frames, fps, loop_anim, desc: format!("{} desc", name) }
}

fn meta(states: Vec<AnimationState>) -> SpriteSheetMeta {
    SpriteSheetMeta {
        sheet_file: "sheet.png".to_string(),
        sheet_dimensions: "8x2".to_string(),
        frame_size: 2,
        total_frames: 4,
        layout: "row".to_string(),
        note: String::new(),
        states,
    }
}

fn states() -> Vec<AnimationState> {
    vec![
        state("idle", vec![0, 1, 2], 10, true),
        state("wave", vec![3, 2], 4, false),
        state("idle", vec![3], 1, false),
    ]
}

/// Byte `b` of the pixel in column `x` and row `y`.
fn shade(x: u32, y: u32, b: u32) -> u8 {
    (x * 16 + y * 8 + b) as u8
}

fn png(width: u32, height: u32) -> Vec<u8> {
    let mut picture = image::RgbaImage::new(width, height);
    for y in 0..height {
        for x in 0..width {
            let p = [shade(x, y, 0), shade(x, y, 1), shade(x, y, 2), shade(x, y, 3)];
            picture.put_pixel(x, y, image::Rgba(p));
        }
    }
    let mut out = std::io::Cursor::new(Vec::new());
    picture.write_to(&mut out, image::ImageFormat::Png).expect("encodes");
    out.into_inner()
}

fn sheet() -> SpriteSheet {
    SpriteSheet::load_from_dir(FrameMap::Read(meta(states())), &Ok(png(8, 2)))
        .expect("sheet should load")
}

fn controller() -> AnimationController {
    AnimationController::new(Arc::new(sheet()), "idle", 0).expect("controller should init")
}

fn words<T>(r: Result<T, GremlinError>) -> String {
    match r {
        Ok(_) => panic!("no error"),
        Err(e) => e.message(),
    }
}

#[test]
fn test_load_sheet_and_states() {
    let sheet = sheet();
    assert_eq!(sheet.frames.len(), sheet.meta.total_frames);
    assert!(sheet.state("idle").is_some(), "expected an 'idle' state");
}

#[test]
fn test_set_state_and_tick_dont_panic() {
    let sheet = Arc::new(sheet());
    let mut ctrl = AnimationController::new(sheet, "idle", 0).expect("controller should init");
    ctrl.set_state("wave", Some(500), 0).expect("wave is a valid state");
    for i in 0..5 {
        ctrl.tick(i * 16 * MS);
    }
    let _ = ctrl.current_frame_base64();
}

#[test]
fn test_sprite_tools_work_inside_async_runtime() {
    let mut system =
        SpriteSystem::new(FrameMap::Read(meta(states())), &Ok(png(8, 2)), "idle", 0)
            .expect("sprite system should init");
    let mut registry = ToolRegistry::new();
    register_sprite_tools(&mut registry);
    let mut ask = |name: &str, args: Json| -> ToolResult {
        let mut replies: Vec<Reply> = Vec::new();
        loop {
            match registry.execute(name, &args, &replies) {
                Execution::Done(result) => return result,
                Execution::Perform(Request::Sprite(command)) => {
                    let said = system.controller.obey(&command, 500, 0);
                    replies.push(Reply::Sprite(SpriteReply::Said(said)));
                }
                Execution::Perform(other) => panic!("{:?}", other),
            }
        }
    };
    let result = ask("sprite_list_states", Json::empty());
    assert!(result.success, "sprite_list_states failed: {}", result.output);
    assert_eq!(
        result.output,
        "Available states:\n  idle: 3 frames @ 10fps, loop=true, idle desc\n  wave: 2 frames @ 4fps, loop=false, wave desc\n  idle: 1 frames @ 1fps, loop=false, idle desc"
    );
    let result = ask(
        "sprite_state",
        Json::empty().with("state", Json::text("wave")).with("one_shot", Json::Bool(true)),
    );
    assert!(result.success, "sprite_state failed: {}", result.output);
    assert_eq!(result.output, "Sprite state set to 'wave' (one_shot=true)");
    let result = ask("sprite_status", Json::empty());
    assert!(result.success, "sprite_status failed: {}", result.output);
    assert_eq!(result.output, "State: wave, Frame: 0");
    let result = ask("sprite_current_frame", Json::empty());
    assert!(result.success, "sprite_current_frame failed: {}", result.output);
    assert!(result.output.starts_with("data:image/png;base64,iVBOR"));
    let bad = ask("sprite_state", Json::empty().with("state", Json::text("fly")));
    assert_eq!(
        bad.output,
        "tool error: Unknown state 'fly'. Valid: [\"idle\", \"wave\", \"idle\"]"
    );
    let frame = ask(
        "sprite_frame",
        Json::empty().with("state", Json::text("wave")).with("frame", Json::unsigned(2)),
    );
    assert_eq!(frame.output, "tool error: invalid state/frame");
    let frame = ask(
        "sprite_frame",
        Json::empty().with("state", Json::text("wave")).with("frame", Json::unsigned(1)),
    );
    assert!(frame.success);
}

#[test]
fn frames_are_cut_from_left_to_right() {
    let sheet = sheet();
    assert_eq!(sheet.frame_size, 2);
    for (i, f) in sheet.frames.iter().enumerate() {
        assert_eq!((f.width, f.height), (2, 2));
        let mut expected = Vec::new();
        for y in 0..2 {
            for x in 0..2 {
                for b in 0..4 {
                    expected.push(shade(2 * i as u32 + x, y, b));
                }
            }
        }
        assert_eq!(f.pixels, expected);
    }
    assert_eq!(sheet.frame(3).unwrap().pixels, sheet.frames[3].pixels);
    assert!(sheet.frame(4).is_none());
    assert_eq!(sheet.frame_by_state("wave", 0).unwrap().pixels, sheet.frames[3].pixels);
    assert!(sheet.frame_by_state("wave", 2).is_none());
    assert!(sheet.frame_by_state("fly", 0).is_none());
    assert_eq!(sheet.state("idle").unwrap().frames.len(), 3);
    assert_eq!(sheet.state_names(), ["idle", "wave", "idle"]);
}

#[test]
fn sheets_that_do_not_load() {
    let load = |m: SpriteSheetMeta, bytes: Vec<u8>| {
        words(SpriteSheet::load_from_dir(FrameMap::Read(m), &Ok(bytes)))
    };
    assert_eq!(
        words(SpriteSheet::load_from_dir(FrameMap::Unread("e".to_string()), &Ok(Vec::new()))),
        "tool error: Failed to read frame map: e"
    );
    assert_eq!(
        words(SpriteSheet::load_from_dir(FrameMap::Malformed("e".to_string()), &Ok(Vec::new()))),
        "tool error: Failed to parse frame map JSON: e"
    );
    assert_eq!(
        words(SpriteSheet::load_from_dir(FrameMap::Read(meta(states())), &Err("gone".to_string()))),
        "tool error: Failed to load sprite sheet: gone"
    );
    assert!(load(meta(states()), b"no png".to_vec())
        .starts_with("tool error: Failed to load sprite sheet: "));
    assert_eq!(
        load(meta(states()), png(8, 3)),
        "tool error: Sprite sheet dimensions mismatch: got 8x3, expected 8x2"
    );
    assert_eq!(
        load(meta(vec![state("a", vec![], 0, true)]), png(8, 2)),
        "tool error: Sprite state 'a' has an empty frames list — invalid frame map"
    );
    assert_eq!(
        load(meta(vec![state("a", vec![9], 0, true)]), png(8, 2)),
        "tool error: Sprite state 'a' has fps=0 — invalid frame map"
    );
    assert_eq!(
        load(meta(vec![state("ok", vec![3], 1, true), state("a", vec![0, 4, 5], 1, true)]), png(8, 2)),
        "tool error: Sprite state 'a' references frame index 4 but sheet only has 4 frames"
    );
    assert_eq!(
        words(AnimationController::new(Arc::new(sheet()), "nap", 0)),
        "tool error: Unknown initial state 'nap'. Valid: [\"idle\", \"wave\", \"idle\"]"
    );
    assert_eq!(
        words(SpriteSystem::new(FrameMap::Read(meta(states())), &Ok(png(8, 2)), "nap", 0)),
        "tool error: Unknown initial state 'nap'. Valid: [\"idle\", \"wave\", \"idle\"]"
    );
}

#[test]
fn a_looping_animation_goes_round() {
    let mut ctrl = controller();
    let frames = sheet().frames;
    assert_eq!(ctrl.tick(99 * MS).pixels, frames[0].pixels);
    assert_eq!(ctrl.tick(100 * MS).pixels, frames[1].pixels);
    assert_eq!(ctrl.tick(250 * MS).pixels, frames[2].pixels);
    assert_eq!(ctrl.tick(300 * MS).pixels, frames[0].pixels);
    assert_eq!(ctrl.tick(10_450 * MS).pixels, frames[2].pixels);
    assert_eq!(ctrl.current_frame_index(), 2);
}

#[test]
fn ticks_compose() {
    let mut often = controller();
    for t in 0..700 {
        often.tick(t * 7 * MS);
    }
    let mut once = controller();
    once.tick(699 * 7 * MS);
    assert_eq!(often.current_frame_index(), once.current_frame_index());
    let now = 699 * 7 * MS + 60 * MS;
    assert_eq!(often.tick(now).pixels, once.tick(now).pixels);
}

#[test]
fn another_animation_stops_on_its_last_frame() {
    let mut ctrl = controller();
    ctrl.set_state("wave", None, 0).expect("wave");
    assert_eq!(ctrl.current_frame_index(), 0);
    ctrl.tick(250 * MS);
    assert_eq!(ctrl.current_frame_index(), 1);
    ctrl.tick(5_000 * MS);
    assert_eq!(ctrl.current_frame_index(), 1);
    assert_eq!(ctrl.current_state(), "wave");
    ctrl.set_state("idle", None, 5_000 * MS).expect("idle");
    ctrl.tick(5_000 * MS);
    assert_eq!(ctrl.current_frame_index(), 0);
}

#[test]
fn one_shot_returns_to_idle() {
    let mut ctrl = controller();
    ctrl.set_state("wave", Some(500), 1_000 * MS).expect("wave");
    ctrl.tick(1_499 * MS);
    assert_eq!(ctrl.current_state(), "wave");
    ctrl.tick(1_500 * MS);
    assert_eq!(ctrl.current_state(), "idle");
}

#[test]
fn without_idle_a_one_shot_stays() {
    let m = meta(vec![state("wave", vec![3, 2], 4, true)]);
    let sheet = SpriteSheet::load_from_dir(FrameMap::Read(m), &Ok(png(8, 2))).expect("loads");
    let mut ctrl = AnimationController::new(Arc::new(sheet), "wave", 0).expect("wave");
    ctrl.set_state("wave", Some(10), 0).expect("wave");
    ctrl.tick(20 * MS);
    assert_eq!(ctrl.current_state(), "wave");
}

#[test]
fn an_unknown_state_changes_nothing() {
    let mut ctrl = controller();
    ctrl.tick(100 * MS);
    assert!(ctrl.set_state("fly", None, 0).is_err());
    assert_eq!(ctrl.current_state(), "idle");
    assert_eq!(ctrl.current_frame_index(), 1);
}

#[test]
fn paused_animations_stay() {
    let mut ctrl = controller();
    ctrl.set_paused(true);
    ctrl.tick(1_000 * MS);
    assert_eq!(ctrl.current_frame_index(), 0);
    ctrl.set_paused(false);
    ctrl.tick(1_000 * MS);
    assert_eq!(ctrl.current_frame_index(), 1);
    assert_eq!(ctrl.sheet().meta.total_frames, 4);
}

#[test]
fn the_viewer_sees_the_shown_frame() {
    let mut ctrl = controller();
    let shown = ctrl.tick(100 * MS).pixels.clone();
    let output = ctrl.obey(&SpriteCommand::CurrentFrame, 0, 0).expect("a picture");
    let result =
        ToolResult { tool: "sprite_current_frame".to_string(), success: true, output };
    let sent = result_reply_line(&result);
    let mut reader = ReplyReader::new();
    let mut line = None;
    for piece in sent.as_bytes().chunks(10) {
        match reader.feed(&piece.to_vec()) {
            ReplyStep::More => {}
            ReplyStep::Line(l) => line = Some(l),
            ReplyStep::Broken => panic!("broken"),
        }
    }
    let data = poll_frame(&line.expect("a line")).expect("a picture");
    let frame = decode_png(&data).expect("decodes");
    assert_eq!((frame.width, frame.height), (2, 2));
    assert_eq!(frame.pixels, shown);
    assert_ne!(data, shown);
}

#[test]
fn png_errors_are_said() {
    let r = encoded_text(&Err("zero".to_string()));
    assert_eq!(words(r), "tool error: PNG encode failed: zero");
    assert_eq!(encoded_text(&Ok(b"hello".to_vec())).unwrap(), "aGVsbG8=");
    let m = SpriteSheetMeta { frame_size: 0, total_frames: 0, ..meta(Vec::new()) };
    let empty = Frame { width: 0, height: 0, pixels: Vec::new() };
    assert!(SpriteSheet::from_picture(m, Ok(empty)).is_ok());
}
