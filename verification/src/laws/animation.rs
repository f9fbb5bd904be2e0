//! The sprite, from its sheet to the frame that is shown.
use vstd::arithmetic::div_mod::{lemma_fundamental_div_mod_converse, lemma_mod_bound};
use vstd::prelude::*;

use crate::effect::{Reply, RequestView, SpriteReply, StepView};
use crate::error::{ErrorView, GremlinError};
use crate::json::{member, member_text, member_unsigned, JsonView};
use crate::laws::memories::refuses;
use crate::picture::{base64_text, png_file, FrameView};
use crate::sprite::{
    command_answer, commanded, cut_frames, find_state, first_fault, frame_text,
    lemma_found_is_sound, lemma_state_index, sheet_fault, shown_frame, shown_state, sound_state,
    started, state_fault, state_frame, state_index, stray_frame, switched, ticked, unknown_state,
    valid, AnimationState, ControllerView, SpriteCommandView, SpriteSheet, SpriteSheetMeta,
    PICTURE_PREFIX,
};
use crate::text::{debug_text, decimal, joined, occurs, occurs_at};
use crate::tools::handlers::handler_step;
use crate::tools::schema::Handler;

verus! {

/// The frames of an animation pass one by one: where `k` of the whole milliseconds that a
/// frame takes have gone by since the last change, the position has moved by exactly `k`.
/// An animation that goes round goes on from its first frame; another one stops on its
/// last.
pub proof fn law_frames_pass_one_by_one(c: ControllerView, now: u64, k: int)
    requires
        valid(c),
        c.until is None,
        !c.paused,
        shown_state(c).fps <= 1000,
        0 <= k,
        c.last_update + k * ((1000int / shown_state(c).fps as int) * 1_000_000) <= now,
        now < c.last_update + (k + 1) * ((1000int / shown_state(c).fps as int) * 1_000_000),
    ensures
        ({
            let after = ticked(c, now);
            let len = shown_state(c).frames@.len();
            &&& after.state == c.state
            &&& after.sheet == c.sheet
            &&& after.until is None
            &&& after.last_update == c.last_update + k * ((1000int / shown_state(c).fps as int)
                * 1_000_000)
            &&& shown_state(c).loop_anim ==> after.index == (c.index + k) % len as int
                && !after.paused
            &&& !shown_state(c).loop_anim && c.index + k < len ==> after.index == c.index + k
                && !after.paused
            &&& !shown_state(c).loop_anim && c.index + k >= len ==> after.index == len - 1
                && after.paused
        }),
{
    lemma_found_is_sound(&c.sheet, c.state);
    let fps = shown_state(c).fps as int;
    assert(1000int / fps >= 1) by (nonlinear_arith)
        requires
            1 <= fps <= 1000,
    ;
    let d = (1000int / fps) * 1_000_000;
    let len = shown_state(c).frames@.len() as int;
    assert(len == shown_state(c).frames.len());
    assert((k + 1) * d == k * d + d) by (nonlinear_arith);
    assert(0 <= k * d) by (nonlinear_arith)
        requires
            0 <= k,
            0 <= d,
    ;
    lemma_fundamental_div_mod_converse(now - c.last_update, d, k, now - c.last_update - k * d);
    lemma_mod_bound(c.index + k, len);
}

/// Before a frame has had its time nothing changes, and after it the position has moved by
/// one, where there is a next frame.
pub proof fn law_one_frame_moves_by_one(c: ControllerView, now: u64)
    requires
        valid(c),
        c.until is None,
        !c.paused,
        shown_state(c).fps <= 1000,
        c.last_update <= now,
    ensures
        now < c.last_update + (1000int / shown_state(c).fps as int) * 1_000_000 ==> ticked(c, now)
            == c,
        now == c.last_update + (1000int / shown_state(c).fps as int) * 1_000_000 && c.index + 1
            < shown_state(c).frames@.len() ==> ticked(c, now).index == c.index + 1,
        now == c.last_update + (1000int / shown_state(c).fps as int) * 1_000_000 && c.index + 1
            == shown_state(c).frames@.len() ==> ticked(c, now).index == (if shown_state(
            c,
        ).loop_anim {
            0
        } else {
            c.index
        }),
{
    lemma_found_is_sound(&c.sheet, c.state);
    let fps = shown_state(c).fps as int;
    assert(1000int / fps >= 1) by (nonlinear_arith)
        requires
            1 <= fps <= 1000,
    ;
    let d = (1000int / fps) * 1_000_000;
    let len = shown_state(c).frames@.len() as int;
    assert(len == shown_state(c).frames.len());
    assert(0 * d == 0 && 1 * d == d && 2 * d == d + d) by (nonlinear_arith);
    if now < c.last_update + d {
        law_frames_pass_one_by_one(c, now, 0);
        vstd::arithmetic::div_mod::lemma_small_mod(c.index as nat, len as nat);
    } else if now == c.last_update + d {
        law_frames_pass_one_by_one(c, now, 1);
        if c.index + 1 < len {
            vstd::arithmetic::div_mod::lemma_small_mod((c.index + 1) as nat, len as nat);
        } else if c.index + 1 == len {
            vstd::arithmetic::div_mod::lemma_mod_self_0(len);
        }
    }
}

/// However often an animation that does not go round is ticked on the way, it shows the
/// same frame in the end.
pub proof fn law_ticks_on_the_way_change_nothing(c: ControllerView, first: u64, second: u64)
    requires
        valid(c),
        c.until is None,
        !c.paused,
        !shown_state(c).loop_anim,
        shown_state(c).fps <= 1000,
        c.last_update <= first <= second,
    ensures
        ticked(ticked(c, first), second).index == ticked(c, second).index,
        ticked(ticked(c, first), second).paused == ticked(c, second).paused,
        ticked(ticked(c, first), second).state == ticked(c, second).state,
{
    lemma_found_is_sound(&c.sheet, c.state);
    let fps = shown_state(c).fps as int;
    assert(1000int / fps >= 1) by (nonlinear_arith)
        requires
            1 <= fps <= 1000,
    ;
    let d = (1000int / fps) * 1_000_000;
    let len = shown_state(c).frames@.len() as int;
    assert(len == shown_state(c).frames.len());
    let k = (first - c.last_update) / d;
    let n = (second - c.last_update) / d;
    lemma_passed(first - c.last_update, d);
    lemma_passed(second - c.last_update, d);
    vstd::arithmetic::div_mod::lemma_div_is_ordered(
        first - c.last_update,
        second - c.last_update,
        d,
    );
    law_frames_pass_one_by_one(c, first, k);
    law_frames_pass_one_by_one(c, second, n);
    let mid = ticked(c, first);
    if c.index + k < len {
        assert((n - k) * d == n * d - k * d) by (nonlinear_arith);
        assert((n - k + 1) * d == (n + 1) * d - k * d) by (nonlinear_arith);
        law_frames_pass_one_by_one(mid, second, n - k);
    }
}

proof fn lemma_passed(t: int, d: int)
    requires
        0 <= t,
        0 < d,
    ensures
        0 <= t / d,
        (t / d) * d <= t < (t / d + 1) * d,
{
    let k = t / d;
    vstd::arithmetic::div_mod::lemma_fundamental_div_mod(t, d);
    lemma_mod_bound(t, d);
    vstd::arithmetic::div_mod::lemma_div_pos_is_pos(t, d);
    assert(d * k == k * d && (k + 1) * d == k * d + d) by (nonlinear_arith);
}

/// A new controller shows the first frame of its animation and moves on from there.
pub proof fn law_controller_starts_at_the_first_frame(
    sheet: SpriteSheet,
    name: Seq<char>,
    now: u64,
)
    ensures
        ({
            let c = started(sheet, name, now);
            c.sheet == sheet && c.state == name && c.index == 0 && c.last_update == now && !c.paused
                && c.until is None
        }),
{
}

/// A change to another animation shows that one from its first frame, and lets it go on. The
/// sheet and the pace of time stay.
pub proof fn law_change_of_animation(c: ControllerView, name: Seq<char>, until: Option<u64>)
    ensures
        ({
            let after = switched(c, name, until);
            after.state == name && after.index == 0 && !after.paused && after.until == until
                && after.sheet == c.sheet && after.last_update == c.last_update
        }),
{
}

/// An animation that is shown once gives way as soon as its time is over, to the idle one
/// where the sheet has it; where it has none, it goes on as it is. The idle one itself does
/// not give way.
pub proof fn law_one_shot_ends(c: ControllerView, now: u64)
    requires
        c.until is Some,
        c.paused,
    ensures
        now < c.until->0 ==> ticked(c, now) == c,
        c.state == "idle"@ ==> ticked(c, now) == c,
        now >= c.until->0 && c.state != "idle"@ ==> ticked(c, now).until is None,
        now >= c.until->0 && c.state != "idle"@ && find_state(c.sheet, "idle"@) is Some ==> ticked(
            c,
            now,
        ).state == "idle"@ && ticked(c, now).index == 0,
        now >= c.until->0 && find_state(c.sheet, "idle"@) is None ==> ticked(c, now).state
            == c.state && ticked(c, now).index == c.index,
        ticked(c, now).sheet == c.sheet,
        ticked(c, now).last_update == c.last_update,
{
}

/// An animation is found under its name, the first of that name where there are several, and
/// under no other.
pub proof fn law_animations_are_found_by_name(sheet: SpriteSheet, name: Seq<char>)
    ensures
        match find_state(sheet, name) {
            Some(state) => state.name@ == name && exists|i: int|
                0 <= i < sheet.meta.states@.len() && #[trigger] sheet.meta.states@[i] == state
                    && forall|j: int|
                    0 <= j < i ==> (#[trigger] sheet.meta.states@[j]).name@ != name,
            None => forall|j: int|
                0 <= j < sheet.meta.states@.len() ==> (#[trigger] sheet.meta.states@[j]).name@
                    != name,
        },
{
    lemma_state_index(sheet.meta.states@, name, 0);
    lemma_first_state(sheet.meta.states@, name, 0);
}

proof fn lemma_first_state(states: Seq<AnimationState>, name: Seq<char>, i: int)
    requires
        0 <= i <= states.len(),
    ensures
        state_index(states, name, i) matches Some(k) ==> forall|j: int|
            i <= j < k ==> (#[trigger] states[j]).name@ != name,
    decreases states.len() - i,
{
    if i < states.len() && states[i].name@ != name {
        lemma_first_state(states, name, i + 1);
    }
}

/// What is shown is the frame of the sheet that stands at the position in the list of the
/// animation, and the same frame is given where it is asked for by animation and position.
pub proof fn law_shown_frame_is_the_one_at_the_position(c: ControllerView, state: AnimationState)
    requires
        valid(c),
        find_state(c.sheet, c.state) == Some(state),
    ensures
        shown_frame(c) == c.sheet.frames@[state.frames@[c.index as int] as int],
        state_frame(c.sheet, c.state, c.index) == Some(shown_frame(c)),
{
    lemma_found_is_sound(&c.sheet, c.state);
}

/// A position beyond the animation, or an animation that the sheet does not have, has no
/// frame and no text.
pub proof fn law_no_frame_beyond_the_end(sheet: SpriteSheet, name: Seq<char>, local: usize)
    requires
        find_state(sheet, name) matches Some(state) ==> local >= state.frames@.len(),
    ensures
        state_frame(sheet, name, local) is None,
        frame_text(sheet, name, local) is None,
{
}

/// A command changes nothing, unless it is to show an animation that the sheet has. That one
/// is shown from its first frame, for its own length from now on where it is to be shown
/// once, and without an end otherwise.
pub proof fn law_commands(
    c: ControllerView,
    command: SpriteCommandView,
    name: Seq<char>,
    one_shot: bool,
    ms: u64,
    now: u64,
)
    requires
        now + ms * 1_000_000 <= u64::MAX,
    ensures
        !(command is SetState) ==> commanded(c, command, ms, now) == c,
        find_state(c.sheet, name) is None ==> commanded(
            c,
            SpriteCommandView::SetState { state: name, one_shot },
            ms,
            now,
        ) == c,
        find_state(c.sheet, name) is Some ==> {
            let after = commanded(
                c,
                SpriteCommandView::SetState { state: name, one_shot },
                ms,
                now,
            );
            after.state == name && after.index == 0 && !after.paused && after.sheet == c.sheet
                && after.last_update == c.last_update && (match after.until {
                Some(until) => one_shot && until == now + ms * 1_000_000,
                None => !one_shot,
            })
        },
{
}

/// What the sprite says: it confirms the animation it was told to show, or refuses it by its
/// name; it names the animation and the position that are shown; it refuses a frame that is
/// not there; and a picture stands behind its prefix.
pub proof fn law_sprite_answers(
    c: ControllerView,
    name: Seq<char>,
    one_shot: bool,
    frame: u64,
)
    ensures
        match command_answer(c, SpriteCommandView::SetState { state: name, one_shot }) {
            Ok(text) => find_state(c.sheet, name) is Some && text == "Sprite state set to '"@ + name
                + "' (one_shot="@ + (if one_shot {
                "true"@
            } else {
                "false"@
            }) + ")"@,
            Err(e) => find_state(c.sheet, name) is None && e is Tool && occurs(e->Tool_0, name),
        },
        command_answer(c, SpriteCommandView::Status) == Result::<Seq<char>, ErrorView>::Ok(
            "State: "@ + c.state + ", Frame: "@ + decimal(c.index as nat),
        ),
        match command_answer(c, SpriteCommandView::Frame { state: name, frame }) {
            Ok(text) => occurs_at(text, PICTURE_PREFIX@, 0) && frame_text(
                c.sheet,
                name,
                frame as usize,
            ) == Some(text.skip(PICTURE_PREFIX@.len() as int)),
            Err(e) => frame_text(c.sheet, name, frame as usize) is None && e == ErrorView::Tool(
                "invalid state/frame"@,
            ),
        },
        command_answer(c, SpriteCommandView::CurrentFrame) matches Ok(text) ==> occurs_at(
            text,
            PICTURE_PREFIX@,
            0,
        ),
        command_answer(c, SpriteCommandView::ListStates) is Ok,
{
    if find_state(c.sheet, name) is None {
        let e = command_answer(c, SpriteCommandView::SetState { state: name, one_shot })->Err_0;
        let words = e->Tool_0;
        let at = "Unknown state '"@.len() as int;
        assert(words.subrange(at, at + name.len()) =~= name);
        assert(occurs_at(words, name, at));
    }
    if let Ok(text) = command_answer(c, SpriteCommandView::Frame { state: name, frame }) {
        let sent = frame_text(c.sheet, name, frame as usize)->0;
        assert(text.subrange(0, PICTURE_PREFIX@.len() as int) =~= PICTURE_PREFIX@);
        assert(text.skip(PICTURE_PREFIX@.len() as int) =~= sent);
    }
    if let Ok(text) = command_answer(c, SpriteCommandView::CurrentFrame) {
        assert(text.subrange(0, PICTURE_PREFIX@.len() as int) =~= PICTURE_PREFIX@);
    }
}

proof fn lemma_stray(frames: Seq<usize>, total: usize, i: int)
    requires
        0 <= i <= frames.len(),
    ensures
        match stray_frame(frames, total, i) {
            Some(j) => i <= j < frames.len() && frames[j] >= total,
            None => forall|j: int| i <= j < frames.len() ==> #[trigger] frames[j] < total,
        },
    decreases frames.len() - i,
{
    if i < frames.len() && frames[i] < total {
        lemma_stray(frames, total, i + 1);
    }
}

/// An animation is refused exactly where it has no frames, no pace, or a frame that the sheet
/// does not have.
pub proof fn law_animation_faults(state: AnimationState, total: usize)
    ensures
        state_fault(state, total) is None <==> state.frames@.len() > 0 && state.fps > 0 && forall|
            j: int,
        |
            0 <= j < state.frames@.len() ==> #[trigger] state.frames@[j] < total,
        state_fault(state, total) matches Some(words) ==> occurs(words, state.name@),
{
    lemma_stray(state.frames@, total, 0);
    if let Some(words) = state_fault(state, total) {
        let at = "Sprite state '"@.len() as int;
        assert(words.subrange(at, at + state.name@.len()) =~= state.name@);
        assert(occurs_at(words, state.name@, at));
    }
}

proof fn lemma_faults(states: Seq<AnimationState>, total: usize, i: int)
    requires
        0 <= i <= states.len(),
    ensures
        first_fault(states, total, i) is None <==> forall|j: int|
            i <= j < states.len() ==> sound_state(#[trigger] states[j], total),
    decreases states.len() - i,
{
    if i < states.len() {
        law_animation_faults(states[i], total);
        lemma_faults(states, total, i + 1);
        if first_fault(states, total, i) is None {
            assert forall|j: int| i <= j < states.len() implies sound_state(
                #[trigger] states[j],
                total,
            ) by {}
        }
    }
}

/// A sheet is taken exactly where its picture could be read, is as wide as its frames side by
/// side and as high as one, and each of its animations has frames of the sheet and a pace.
pub proof fn law_sheet_is_taken_iff_it_fits(
    meta: SpriteSheetMeta,
    picture: Result<FrameView, Seq<char>>,
)
    ensures
        sheet_fault(meta, picture) is None <==> (picture matches Ok(p) && p.width
            == meta.frame_size * meta.total_frames && p.height == meta.frame_size && forall|j: int|
            0 <= j < meta.states@.len() ==> sound_state(
                #[trigger] meta.states@[j],
                meta.total_frames,
            )),
        picture matches Err(e) ==> sheet_fault(meta, picture) == Some(
            "Failed to load sprite sheet: "@ + e,
        ),
{
    lemma_faults(meta.states@, meta.total_frames, 0);
}

/// Every frame that is cut out is a square of the size that the frame map gives, and there
/// are as many as it says.
pub proof fn law_frames_are_squares(sheet: FrameView, meta: SpriteSheetMeta, i: int)
    requires
        0 <= i < meta.total_frames,
    ensures
        cut_frames(sheet, meta).len() == meta.total_frames,
        cut_frames(sheet, meta)[i].width == meta.frame_size,
        cut_frames(sheet, meta)[i].height == meta.frame_size,
        cut_frames(sheet, meta)[i].pixels.len() == 4 * meta.frame_size * meta.frame_size,
        cut_frames(sheet, meta)[i] == crate::sprite::cut_frame(sheet, meta.frame_size, i),
{
    assert(0 <= 4 * meta.frame_size * meta.frame_size) by (nonlinear_arith);
}

/// An animation that is not there is refused with its name and with the names that are.
pub proof fn law_unknown_animations_are_refused(
    c: ControllerView,
    name: Seq<char>,
    one_shot: bool,
    prefix: Seq<char>,
)
    ensures
        unknown_state(prefix, name, c.sheet) == ErrorView::Tool(
            prefix + name + "'. Valid: "@ + ("["@ + joined(
                c.sheet.meta.states@.map_values(|s: AnimationState| debug_text(s.name@)),
                ", "@,
            ) + "]"@),
        ),
        find_state(c.sheet, name) is None ==> command_answer(
            c,
            SpriteCommandView::SetState { state: name, one_shot },
        ) == Result::<Seq<char>, ErrorView>::Err(unknown_state("Unknown state '"@, name, c.sheet)),
{
    let states = c.sheet.meta.states@;
    assert(crate::sprite::state_names_of(states).map_values(|s: Seq<char>| debug_text(s))
        =~= states.map_values(|s: AnimationState| debug_text(s.name@)));
}

/// Every animation is listed in a line of its own, with its name, how many frames it has, at
/// what pace they pass, whether it goes round, and what it shows.
pub proof fn law_animations_are_listed(c: ControllerView)
    ensures
        ({
            let lines = c.sheet.meta.states@.map_values(
                |s: AnimationState|
                    "  "@ + s.name@ + ": "@ + decimal(s.frames@.len()) + " frames @ "@ + decimal(
                        s.fps as nat,
                    ) + "fps, loop="@ + (if s.loop_anim {
                        "true"@
                    } else {
                        "false"@
                    }) + ", "@ + s.desc@,
            );
            command_answer(c, SpriteCommandView::ListStates) == Result::<Seq<char>, ErrorView>::Ok(
                "Available states:\n"@ + joined(lines, "\n"@),
            )
        }),
{
    let states = c.sheet.meta.states@;
    let lines = states.map_values(
        |s: AnimationState|
            "  "@ + s.name@ + ": "@ + decimal(s.frames@.len()) + " frames @ "@ + decimal(
                s.fps as nat,
            ) + "fps, loop="@ + (if s.loop_anim {
                "true"@
            } else {
                "false"@
            }) + ", "@ + s.desc@,
    );
    assert(crate::sprite::state_lines(states) =~= lines);
}

/// The frame that is shown is sent as the text of its file; where there is no file, that is
/// said.
pub proof fn law_the_shown_frame_is_sent(c: ControllerView, bytes: Seq<u8>)
    ensures
        png_file(shown_frame(c)@) == Ok::<_, Seq<char>>(bytes) ==> command_answer(
            c,
            SpriteCommandView::CurrentFrame,
        ) == Ok::<_, ErrorView>("data:image/png;base64,"@ + base64_text(bytes)),
        png_file(shown_frame(c)@) is Err ==> command_answer(
            c,
            SpriteCommandView::CurrentFrame,
        ) is Err,
{
}

/// Each tool for the sprite hands it one command, made of the tool's arguments, and tells what
/// the sprite says. Without the arguments that it needs it refuses.
pub proof fn law_sprite_tools(
    args: JsonView,
    name: Seq<char>,
    frame: u64,
    said: Result<String, GremlinError>,
)
    ensures
        member_text(args, "state"@) == Some(name) ==> commands(
            handler_step(Handler::SpriteState, args, Seq::empty()),
            SpriteCommandView::SetState {
                state: name,
                one_shot: member(args, "one_shot"@) == Some(JsonView::Bool(true)),
            },
        ),
        member_text(args, "state"@) is None ==> refuses(
            handler_step(Handler::SpriteState, args, Seq::empty()),
            "missing 'state'"@,
        ),
        member_text(args, "state"@) == Some(name) && member_unsigned(args, "frame"@) == Some(frame)
            ==> commands(
            handler_step(Handler::SpriteFrame, args, Seq::empty()),
            SpriteCommandView::Frame { state: name, frame },
        ),
        member_text(args, "state"@) is None ==> refuses(
            handler_step(Handler::SpriteFrame, args, Seq::empty()),
            "missing 'state'"@,
        ),
        member_text(args, "state"@) is Some && member_unsigned(args, "frame"@) is None ==> refuses(
            handler_step(Handler::SpriteFrame, args, Seq::empty()),
            "missing 'frame'"@,
        ),
        commands(
            handler_step(Handler::SpriteStatus, args, Seq::empty()),
            SpriteCommandView::Status,
        ),
        commands(
            handler_step(Handler::SpriteCurrentFrame, args, Seq::empty()),
            SpriteCommandView::CurrentFrame,
        ),
        commands(
            handler_step(Handler::SpriteListStates, args, Seq::empty()),
            SpriteCommandView::ListStates,
        ),
        forall|h: Handler|
            h == Handler::SpriteStatus || h == Handler::SpriteCurrentFrame || h
                == Handler::SpriteListStates || (member_text(args, "state"@) is Some && (h
                == Handler::SpriteState || (h == Handler::SpriteFrame && member_unsigned(
                args,
                "frame"@,
            ) is Some))) ==> {
                &&& #[trigger] handler_step(
                    h,
                    args,
                    seq![Reply::Sprite(SpriteReply::Said(said))],
                ) == StepView::Finish(match said {
                    Ok(text) => Ok(text@),
                    Err(e) => Err(e@),
                })
                &&& refuses(
                    handler_step(h, args, seq![Reply::Sprite(SpriteReply::Poisoned)]),
                    "sprite controller lock poisoned"@,
                )
            },
{
}

/// The tool hands the sprite this command.
pub open spec fn commands(step: StepView, command: SpriteCommandView) -> bool {
    step == StepView::Perform(RequestView::Sprite(command))
}

} // verus!
