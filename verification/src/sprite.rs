//! The sprite: its sheet of frames, its animations and the commands it takes.
use std::sync::Arc;

use vstd::arithmetic::div_mod::lemma_fundamental_div_mod_converse;
use vstd::prelude::*;

use crate::error::{answer, refusal, Answer, ErrorView, GremlinError};
use crate::json::text_view;
use crate::picture::{
    base64_bytes, base64_text, bytes_result, encode_standard, frame_result, load_png, modest,
    picture_in, png_file, png_picture, recovered, save_png, well_formed, Frame, FrameView,
};
use crate::text::{
    debug_list, debug_strings, decimal, decimal_text, join, joined, same, texts,
};
use crate::tools::schema::Handler;
use crate::tools::{with_tools, ToolRegistry};

verus! {

/// An animation.
#[derive(Debug)]
pub struct AnimationState {
    pub name: String,
    /// The frames of the sheet that it shows, in turn.
    pub frames: Vec<usize>,
    /// How many of them it shows in a second.
    pub fps: u32,
    /// It starts over when it has come to its end.
    pub loop_anim: bool,
    pub desc: String,
}

/// What the frame map says of a sheet.
#[derive(Debug)]
pub struct SpriteSheetMeta {
    pub sheet_file: String,
    pub sheet_dimensions: String,
    /// The side of a frame, in pixels.
    pub frame_size: u32,
    pub total_frames: usize,
    pub layout: String,
    pub note: String,
    pub states: Vec<AnimationState>,
}

/// A sheet, cut into its frames.
#[derive(Debug)]
pub struct SpriteSheet {
    pub meta: SpriteSheetMeta,
    pub frames: Vec<Frame>,
    pub frame_size: u32,
}

/// What was found of the frame map on disk.
#[derive(Debug)]
pub enum FrameMap {
    /// It could not be read, for this reason.
    Unread(String),
    /// It is not a frame map, for this reason.
    Malformed(String),
    /// It says this.
    Read(SpriteSheetMeta),
}

/// The contents of frames.
pub open spec fn frames_view(frames: Seq<Frame>) -> Seq<FrameView> {
    frames.map_values(|f: Frame| f@)
}

/// How wide the sheet has to be: its frames stand side by side.
pub open spec fn expected_width(meta: SpriteSheetMeta) -> int {
    meta.frame_size * meta.total_frames
}

/// Frame `i` of a sheet whose frames have sides of `size` pixels.
pub open spec fn cut_frame(sheet: FrameView, size: u32, i: int) -> FrameView {
    FrameView {
        width: size,
        height: size,
        pixels: Seq::new(
            (4 * size * size) as nat,
            |k: int|
                sheet.pixels[(k / (4 * size)) * (4 * sheet.width) + i * (4 * size) + k % (4 * size)],
        ),
    }
}

/// The frames of a sheet, from left to right.
pub open spec fn cut_frames(sheet: FrameView, meta: SpriteSheetMeta) -> Seq<FrameView> {
    Seq::new(meta.total_frames as nat, |i: int| cut_frame(sheet, meta.frame_size, i))
}

/// The first position from `i` on at which `frames` goes beyond the sheet.
pub open spec fn stray_frame(frames: Seq<usize>, total: usize, i: int) -> Option<int>
    decreases frames.len() - i,
{
    if i < 0 || i >= frames.len() {
        None
    } else if frames[i] >= total {
        Some(i)
    } else {
        stray_frame(frames, total, i + 1)
    }
}

/// What is wrong with an animation.
pub open spec fn state_fault(state: AnimationState, total: usize) -> Option<Seq<char>> {
    if state.frames@.len() == 0 {
        Some(
            "Sprite state '"@ + state.name@ + "' has an empty frames list — invalid frame map"@,
        )
    } else if state.fps == 0 {
        Some("Sprite state '"@ + state.name@ + "' has fps=0 — invalid frame map"@)
    } else {
        match stray_frame(state.frames@, total, 0) {
            Some(i) => Some(
                "Sprite state '"@ + state.name@ + "' references frame index "@ + decimal(
                    state.frames@[i] as nat,
                ) + " but sheet only has "@ + decimal(total as nat) + " frames"@,
            ),
            None => None,
        }
    }
}

/// What is wrong with the first animation from `i` on with which something is wrong.
pub open spec fn first_fault(states: Seq<AnimationState>, total: usize, i: int) -> Option<Seq<char>>
    decreases states.len() - i,
{
    if i < 0 || i >= states.len() {
        None
    } else {
        match state_fault(states[i], total) {
            Some(words) => Some(words),
            None => first_fault(states, total, i + 1),
        }
    }
}

/// What is wrong with a sheet and its frame map.
pub open spec fn sheet_fault(
    meta: SpriteSheetMeta,
    picture: Result<FrameView, Seq<char>>,
) -> Option<Seq<char>> {
    match picture {
        Err(e) => Some("Failed to load sprite sheet: "@ + e),
        Ok(p) => if p.width != expected_width(meta) || p.height != meta.frame_size {
            Some(
                "Sprite sheet dimensions mismatch: got "@ + decimal(p.width as nat) + "x"@ + decimal(
                    p.height as nat,
                ) + ", expected "@ + decimal(expected_width(meta) as nat) + "x"@ + decimal(
                    meta.frame_size as nat,
                ),
            )
        } else {
            first_fault(meta.states@, meta.total_frames, 0)
        },
    }
}

/// An animation with which nothing is wrong.
pub open spec fn sound_state(state: AnimationState, total: usize) -> bool {
    &&& state.frames@.len() > 0
    &&& state.fps > 0
    &&& forall|j: int| 0 <= j < state.frames@.len() ==> #[trigger] state.frames@[j] < total
}

/// A sheet whose frames are all there and whose animations show no others.
pub open spec fn sound_sheet(sheet: SpriteSheet) -> bool {
    &&& sheet.frames@.len() == sheet.meta.total_frames
    &&& forall|i: int| 0 <= i < sheet.frames@.len() ==> well_formed(#[trigger] sheet.frames@[i]@)
    &&& forall|i: int|
        0 <= i < sheet.meta.states@.len() ==> sound_state(
            #[trigger] sheet.meta.states@[i],
            sheet.meta.total_frames,
        )
}

/// What loading a sheet gives, where the frame map was read.
pub open spec fn is_loaded(
    r: Result<SpriteSheet, GremlinError>,
    meta: SpriteSheetMeta,
    picture: Result<FrameView, Seq<char>>,
) -> bool {
    match sheet_fault(meta, picture) {
        Some(words) => r matches Err(e) && e@ == ErrorView::Tool(words),
        None => match (r, picture) {
            (Ok(sheet), Ok(p)) => {
                &&& sheet.meta == meta
                &&& sheet.frame_size == meta.frame_size
                &&& frames_view(sheet.frames@) == cut_frames(p, meta)
                &&& sound_sheet(sheet)
            },
            _ => false,
        },
    }
}

/// The animation of this name: the first, where there are several.
pub open spec fn state_index(states: Seq<AnimationState>, name: Seq<char>, i: int) -> Option<int>
    decreases states.len() - i,
{
    if i < 0 || i >= states.len() {
        None
    } else if states[i].name@ == name {
        Some(i)
    } else {
        state_index(states, name, i + 1)
    }
}

/// The animation of this name.
pub open spec fn find_state(sheet: SpriteSheet, name: Seq<char>) -> Option<AnimationState> {
    match state_index(sheet.meta.states@, name, 0) {
        Some(i) => Some(sheet.meta.states@[i]),
        None => None,
    }
}

/// The frame at a position of an animation.
pub open spec fn state_frame(sheet: SpriteSheet, name: Seq<char>, local: usize) -> Option<Frame> {
    match find_state(sheet, name) {
        Some(state) => if local < state.frames@.len() && state.frames@[local as int]
            < sheet.frames@.len() {
            Some(sheet.frames@[state.frames@[local as int] as int])
        } else {
            None
        },
        None => None,
    }
}

/// The names of animations.
pub open spec fn state_names_of(states: Seq<AnimationState>) -> Seq<Seq<char>> {
    states.map_values(|s: AnimationState| s.name@)
}

/// What was found under a name has it, and what was not found is nowhere.
pub proof fn lemma_state_index(states: Seq<AnimationState>, name: Seq<char>, i: int)
    requires
        0 <= i <= states.len(),
    ensures
        match state_index(states, name, i) {
            Some(j) => i <= j < states.len() && states[j].name@ == name,
            None => forall|j: int| i <= j < states.len() ==> (#[trigger] states[j]).name@ != name,
        },
    decreases states.len() - i,
{
    if i < states.len() && states[i].name@ != name {
        lemma_state_index(states, name, i + 1);
    }
}

proof fn lemma_no_stray_frame(frames: Seq<usize>, total: usize, i: int)
    requires
        0 <= i <= frames.len(),
        stray_frame(frames, total, i) is None,
    ensures
        forall|j: int| i <= j < frames.len() ==> #[trigger] frames[j] < total,
    decreases frames.len() - i,
{
    if i < frames.len() {
        lemma_no_stray_frame(frames, total, i + 1);
    }
}

/// What is wrong with an animation.
fn fault_of(state: &AnimationState, total: usize) -> (r: Option<String>)
    ensures
        match r {
            Some(words) => state_fault(*state, total) == Some(words@),
            None => state_fault(*state, total) is None && sound_state(*state, total),
        },
{
    let mut words = "Sprite state '".to_owned();
    words.append(state.name.as_str());
    if state.frames.len() == 0 {
        words.append("' has an empty frames list — invalid frame map");
        return Some(words);
    }
    if state.fps == 0 {
        words.append("' has fps=0 — invalid frame map");
        return Some(words);
    }
    let mut i: usize = 0;
    while i < state.frames.len()
        invariant
            i <= state.frames@.len(),
            stray_frame(state.frames@, total, 0) == stray_frame(state.frames@, total, i as int),
            words@ == "Sprite state '"@ + state.name@,
            state.frames@.len() > 0,
            state.fps > 0,
        decreases state.frames@.len() - i,
    {
        if state.frames[i] >= total {
            words.append("' references frame index ");
            words.append(decimal_text(state.frames[i] as u64).as_str());
            words.append(" but sheet only has ");
            words.append(decimal_text(total as u64).as_str());
            words.append(" frames");
            return Some(words);
        }
        i = i + 1;
    }
    proof {
        lemma_no_stray_frame(state.frames@, total, 0);
    }
    None
}

proof fn lemma_cut_offset(row: int, k: int, i: int, size: int, width: int, total: int)
    requires
        0 <= row < size,
        0 <= k < 4 * size,
        0 <= i < total,
        width == size * total,
    ensures
        0 <= row * (4 * width),
        0 <= i * (4 * size),
        row * (4 * width) + i * (4 * size) + k < 4 * width * size,
{
    assert(row * (4 * width) + 4 * width <= 4 * width * size) by (nonlinear_arith)
        requires
            row + 1 <= size,
            0 <= width,
    ;
    assert(i * (4 * size) + 4 * size <= 4 * width) by (nonlinear_arith)
        requires
            i + 1 <= total,
            0 <= size,
            width == size * total,
    ;
    assert(0 <= row * (4 * width)) by (nonlinear_arith)
        requires
            0 <= row,
            0 <= width,
    ;
    assert(0 <= i * (4 * size)) by (nonlinear_arith)
        requires
            0 <= i,
            0 <= size,
    ;
}

/// Cuts frame `i` out of a sheet.
fn cut(sheet: &Frame, size: u32, i: usize, total: usize) -> (r: Frame)
    requires
        well_formed(sheet@),
        sheet.width == size * total,
        sheet.height == size,
        i < total,
    ensures
        r@ == cut_frame(sheet@, size, i as int),
        well_formed(r@),
{
    let ghost all = cut_frame(sheet@, size, i as int).pixels;
    let mut pixels: Vec<u8> = Vec::new();
    let side: usize = size as usize;
    let width: usize = sheet.width as usize;
    let mut row: usize = 0;
    assert(all.take(0) =~= Seq::<u8>::empty());
    assert(0 * (4 * size) == 0);
    while row < side
        invariant
            row <= side,
            side == size,
            width == sheet.width,
            well_formed(sheet@),
            sheet.width == size * total,
            sheet.height == size,
            i < total,
            all == cut_frame(sheet@, size, i as int).pixels,
            all.len() == 4 * size * size,
            pixels@ == all.take(row * (4 * size)),
            0 <= row * (4 * size) <= all.len(),
        decreases side - row,
    {
        proof {
            lemma_cut_offset(row as int, 0, i as int, size as int, width as int, total as int);
            assert(4 * size <= 4 * width * size) by (nonlinear_arith)
                requires
                    size >= 1,
                    width == size * total,
                    total >= 1,
            ;
            assert(row * (4 * size) + 4 * size == (row + 1) * (4 * size)) by (nonlinear_arith);
            assert((row + 1) * (4 * size) <= 4 * size * size) by (nonlinear_arith)
                requires
                    row + 1 <= size,
            ;
            assert(sheet.pixels@.len() == 4 * width * size);
            assert(4 * width <= 4 * width * size) by (nonlinear_arith)
                requires
                    size >= 1,
                    width >= 0,
            ;
            assert(row * (4 * width) <= 4 * width * size) by (nonlinear_arith)
                requires
                    row <= size,
                    width >= 0,
            ;
            assert(i * (4 * size) <= 4 * width) by (nonlinear_arith)
                requires
                    i <= total,
                    width == size * total,
                    size >= 0,
            ;
        }
        let room: usize = sheet.pixels.len();
        assert(4 * width <= room);
        let base: usize = row * (4 * width) + i * (4 * side);
        let span: usize = 4 * side;
        let mut k: usize = 0;
        while k < span
            invariant
                k <= span,
                span == 4 * side,
                room == sheet.pixels@.len(),
                row < side,
                side == size,
                width == sheet.width,
                well_formed(sheet@),
                sheet.width == size * total,
                sheet.height == size,
                i < total,
                all == cut_frame(sheet@, size, i as int).pixels,
                all.len() == 4 * size * size,
                base == row * (4 * width) + i * (4 * side),
                (row + 1) * (4 * size) <= all.len(),
                row * (4 * size) + 4 * size == (row + 1) * (4 * size),
                0 <= row * (4 * size),
                pixels@ == all.take(row * (4 * size) + k),
            decreases span - k,
        {
            proof {
                lemma_cut_offset(
                    row as int,
                    k as int,
                    i as int,
                    size as int,
                    width as int,
                    total as int,
                );
                assert(sheet.pixels@.len() == 4 * width * size);
                lemma_fundamental_div_mod_converse(
                    row * (4 * size) + k,
                    4 * size as int,
                    row as int,
                    k as int,
                );
            }
            let ghost at = row * (4 * size) + k;
            assert(all[at] == sheet.pixels@[base + k]);
            assert(base + k < room);
            pixels.push(sheet.pixels[base + k]);
            assert(all.take(at + 1) =~= all.take(at).push(all[at]));
            k = k + 1;
        }
        row = row + 1;
    }
    assert(side * (4 * size) == all.len()) by (nonlinear_arith)
        requires
            side == size,
            all.len() == 4 * size * size,
    ;
    assert(pixels@ =~= all);
    Frame { width: size, height: size, pixels }
}

impl SpriteSheet {
    /// The sheet, given what was read from its directory: the frame map and the
    /// bytes of the PNG file.
    pub fn load_from_dir(map: FrameMap, sheet: &Result<Vec<u8>, String>) -> (r: Result<
        SpriteSheet,
        GremlinError,
    >)
        requires
            map matches FrameMap::Read(meta) ==> expected_width(meta) <= u32::MAX,
        ensures
            match map {
                FrameMap::Unread(e) => r matches Err(err) && err@ == ErrorView::Tool(
                    "Failed to read frame map: "@ + e@,
                ),
                FrameMap::Malformed(e) => r matches Err(err) && err@ == ErrorView::Tool(
                    "Failed to parse frame map JSON: "@ + e@,
                ),
                FrameMap::Read(meta) => is_loaded(
                    r,
                    meta,
                    match *sheet {
                        Ok(bytes) => png_picture(bytes@),
                        Err(e) => Err(e@),
                    },
                ),
            },
    {
        match map {
            FrameMap::Unread(e) => Err(
                GremlinError::tool("Failed to read frame map: ", e.as_str()),
            ),
            FrameMap::Malformed(e) => Err(
                GremlinError::tool("Failed to parse frame map JSON: ", e.as_str()),
            ),
            FrameMap::Read(meta) => match sheet {
                Ok(bytes) => SpriteSheet::from_picture(meta, load_png(bytes.as_slice())),
                Err(e) => SpriteSheet::from_picture(meta, Err(e.clone())),
            },
        }
    }

    /// The sheet, given its frame map and what reading its picture gave.
    pub fn from_picture(meta: SpriteSheetMeta, picture: Result<Frame, String>) -> (r: Result<
        SpriteSheet,
        GremlinError,
    >)
        requires
            expected_width(meta) <= u32::MAX,
            picture matches Ok(p) ==> well_formed(p@),
        ensures
            is_loaded(r, meta, frame_result(picture)),
    {
        let sheet = match picture {
            Ok(p) => p,
            Err(e) => {
                return Err(GremlinError::tool("Failed to load sprite sheet: ", e.as_str()));
            },
        };
        let wide: u64 = meta.frame_size as u64;
        proof {
            assert(meta.frame_size > 0 ==> meta.total_frames <= u32::MAX) by (nonlinear_arith)
                requires
                    meta.frame_size * meta.total_frames <= u32::MAX,
            ;
            assert(meta.frame_size == 0 ==> meta.frame_size * meta.total_frames == 0)
                by (nonlinear_arith);
        }
        let expected: u64 = if wide == 0 {
            0
        } else {
            wide * (meta.total_frames as u64)
        };
        if sheet.width as u64 != expected || sheet.height != meta.frame_size {
            let mut words = "Sprite sheet dimensions mismatch: got ".to_owned();
            words.append(decimal_text(sheet.width as u64).as_str());
            words.append("x");
            words.append(decimal_text(sheet.height as u64).as_str());
            words.append(", expected ");
            words.append(decimal_text(expected).as_str());
            words.append("x");
            words.append(decimal_text(meta.frame_size as u64).as_str());
            return Err(GremlinError::Tool(words));
        }
        let total: usize = meta.total_frames;
        let mut s: usize = 0;
        while s < meta.states.len()
            invariant
                s <= meta.states@.len(),
                total == meta.total_frames,
                first_fault(meta.states@, total, 0) == first_fault(meta.states@, total, s as int),
                forall|j: int|
                    0 <= j < s ==> sound_state(#[trigger] meta.states@[j], meta.total_frames),
                frame_result(picture) == Ok::<FrameView, Seq<char>>(sheet@),
                sheet.width == expected_width(meta),
                sheet.height == meta.frame_size,
            decreases meta.states@.len() - s,
        {
            if let Some(words) = fault_of(&meta.states[s], total) {
                return Err(GremlinError::Tool(words));
            }
            s = s + 1;
        }
        let mut frames: Vec<Frame> = Vec::new();
        let mut i: usize = 0;
        while i < total
            invariant
                i <= total,
                total == meta.total_frames,
                well_formed(sheet@),
                sheet.width == meta.frame_size * total,
                sheet.height == meta.frame_size,
                frames@.len() == i,
                forall|j: int|
                    0 <= j < i ==> (#[trigger] frames@[j])@ == cut_frame(
                        sheet@,
                        meta.frame_size,
                        j,
                    ) && well_formed(frames@[j]@),
            decreases total - i,
        {
            let frame = cut(&sheet, meta.frame_size, i, total);
            frames.push(frame);
            i = i + 1;
        }
        assert(frames_view(frames@) =~= cut_frames(sheet@, meta));
        let frame_size: u32 = meta.frame_size;
        Ok(SpriteSheet { meta, frames, frame_size })
    }

    /// The frame at a position of the sheet.
    pub fn frame(&self, index: usize) -> (r: Option<&Frame>)
        ensures
            match r {
                Some(f) => index < self.frames@.len() && *f == self.frames@[index as int],
                None => index >= self.frames@.len(),
            },
    {
        if index < self.frames.len() {
            Some(&self.frames[index])
        } else {
            None
        }
    }

    /// The frame at a position of an animation.
    pub fn frame_by_state(&self, state_name: &str, local_index: usize) -> (r: Option<&Frame>)
        ensures
            match r {
                Some(f) => state_frame(*self, state_name@, local_index) == Some(*f),
                None => state_frame(*self, state_name@, local_index) is None,
            },
    {
        let state = self.state(state_name)?;
        if local_index < state.frames.len() {
            self.frame(state.frames[local_index])
        } else {
            None
        }
    }

    /// The animation of this name.
    pub fn state(&self, name: &str) -> (r: Option<&AnimationState>)
        ensures
            match r {
                Some(state) => find_state(*self, name@) == Some(*state) && state.name@ == name@,
                None => find_state(*self, name@) is None,
            },
    {
        let mut i: usize = 0;
        while i < self.meta.states.len()
            invariant
                i <= self.meta.states@.len(),
                state_index(self.meta.states@, name@, 0) == state_index(
                    self.meta.states@,
                    name@,
                    i as int,
                ),
            decreases self.meta.states@.len() - i,
        {
            if same(self.meta.states[i].name.as_str(), name) {
                return Some(&self.meta.states[i]);
            }
            i = i + 1;
        }
        None
    }

    /// The names of all animations.
    pub fn state_names(&self) -> (r: Vec<String>)
        ensures
            texts(r@) == state_names_of(self.meta.states@),
    {
        let mut r: Vec<String> = Vec::new();
        let mut i: usize = 0;
        while i < self.meta.states.len()
            invariant
                i <= self.meta.states@.len(),
                texts(r@) =~= state_names_of(self.meta.states@).take(i as int),
            decreases self.meta.states@.len() - i,
        {
            let ghost before = r@;
            r.push(self.meta.states[i].name.clone());
            i = i + 1;
            assert(texts(r@) =~= texts(before).push(self.meta.states@[i - 1].name@));
        }
        assert(texts(r@) =~= state_names_of(self.meta.states@));
        r
    }
}

/// What shows the animations. Times are in nanoseconds from some fixed moment.
#[derive(Debug)]
pub struct AnimationController {
    sheet: Arc<SpriteSheet>,
    current_state: String,
    /// The position within the animation.
    frame_index: usize,
    last_update: u64,
    paused: bool,
    /// When an animation that is shown once is over.
    override_until: Option<u64>,
}

/// The content of an `AnimationController`.
pub struct ControllerView {
    pub sheet: SpriteSheet,
    pub state: Seq<char>,
    pub index: usize,
    pub last_update: u64,
    pub paused: bool,
    pub until: Option<u64>,
}

impl View for AnimationController {
    type V = ControllerView;

    closed spec fn view(&self) -> ControllerView {
        ControllerView {
            sheet: *self.sheet,
            state: self.current_state@,
            index: self.frame_index,
            last_update: self.last_update,
            paused: self.paused,
            until: self.override_until,
        }
    }
}

/// The animation that is shown.
pub open spec fn shown_state(c: ControllerView) -> AnimationState {
    find_state(c.sheet, c.state)->0
}

/// The controller shows a frame of an animation of a sound sheet.
pub open spec fn valid(c: ControllerView) -> bool {
    &&& sound_sheet(c.sheet)
    &&& find_state(c.sheet, c.state) is Some
    &&& c.index < shown_state(c).frames@.len()
}

/// How long a frame of an animation is shown, in whole milliseconds.
pub open spec fn frame_duration(state: AnimationState) -> int {
    (1000int / state.fps as int) * 1_000_000
}

/// The frame that is shown.
pub open spec fn shown_frame(c: ControllerView) -> Frame {
    c.sheet.frames@[shown_state(c).frames@[c.index as int] as int]
}

/// Why an animation cannot be shown.
pub open spec fn unknown_state(prefix: Seq<char>, name: Seq<char>, sheet: SpriteSheet) -> ErrorView {
    ErrorView::Tool(
        prefix + name + "'. Valid: "@ + debug_list(state_names_of(sheet.meta.states@)),
    )
}

/// A new controller.
pub open spec fn started(sheet: SpriteSheet, state: Seq<char>, now: u64) -> ControllerView {
    ControllerView { sheet, state, index: 0, last_update: now, paused: false, until: None }
}

/// After a change to another animation, which is shown once where `until` says so.
pub open spec fn switched(c: ControllerView, name: Seq<char>, until: Option<u64>) -> ControllerView {
    ControllerView { state: name, index: 0, paused: false, until, ..c }
}

/// An animation that was to be shown once is over, and gives way to the idle one
/// where there is one.
pub open spec fn expired(c: ControllerView, now: u64) -> ControllerView {
    if c.until is Some && now >= c.until->0 && c.state != "idle"@ {
        if find_state(c.sheet, "idle"@) is Some {
            ControllerView { state: "idle"@, index: 0, until: None, ..c }
        } else {
            ControllerView { until: None, ..c }
        }
    } else {
        c
    }
}

/// How many whole frames have passed.
pub open spec fn frames_passed(c: ControllerView, duration: int, now: u64) -> int {
    if now >= c.last_update {
        (now - c.last_update) / duration
    } else {
        0
    }
}

/// After the frames that have passed: an animation that starts over has gone round;
/// another one has stopped on its last frame.
pub open spec fn advanced(c: ControllerView, duration: int, now: u64) -> ControllerView {
    let k = frames_passed(c, duration, now);
    let len = shown_state(c).frames@.len();
    let last_update = (c.last_update + k * duration) as u64;
    if shown_state(c).loop_anim {
        ControllerView { index: ((c.index + k) % len as int) as usize, last_update, ..c }
    } else if c.index + k < len {
        ControllerView { index: (c.index + k) as usize, last_update, ..c }
    } else {
        ControllerView { index: (len - 1) as usize, last_update, paused: true, ..c }
    }
}

/// After a tick. The frames pass at the pace of the animation that was shown before.
pub open spec fn ticked(c: ControllerView, now: u64) -> ControllerView {
    let e = expired(c, now);
    if c.paused {
        e
    } else {
        advanced(e, frame_duration(shown_state(c)), now)
    }
}

/// An animation of a sound sheet is sound.
pub proof fn lemma_found_is_sound(sheet: &SpriteSheet, name: Seq<char>)
    requires
        sound_sheet(*sheet),
        find_state(*sheet, name) is Some,
    ensures
        sound_state(find_state(*sheet, name)->0, sheet.meta.total_frames),
        find_state(*sheet, name)->0.name@ == name,
{
    lemma_state_index(sheet.meta.states@, name, 0);
}

proof fn lemma_rotate(index: int, k: int, len: int)
    requires
        0 <= index < len,
        0 <= k,
    ensures
        (index + k) % len == (if k % len < len - index {
            index + k % len
        } else {
            k % len - (len - index)
        }),
{
    let q = k / len;
    let m = k % len;
    vstd::arithmetic::div_mod::lemma_fundamental_div_mod(k, len);
    assert(k == q * len + m) by {
        assert(len * q == q * len) by (nonlinear_arith);
    }
    vstd::arithmetic::div_mod::lemma_mod_bound(k, len);
    if m < len - index {
        lemma_fundamental_div_mod_converse(index + k, len, q, index + m);
    } else {
        assert((q + 1) * len == q * len + len) by (nonlinear_arith);
        lemma_fundamental_div_mod_converse(index + k, len, q + 1, m - (len - index));
    }
}

impl AnimationController {
    /// A controller that shows this animation from its first frame on.
    pub fn new(sheet: Arc<SpriteSheet>, initial_state: &str, now: u64) -> (r: Result<
        AnimationController,
        GremlinError,
    >)
        requires
            sound_sheet(*sheet),
        ensures
            match r {
                Ok(c) => find_state(*sheet, initial_state@) is Some && c@ == started(
                    *sheet,
                    initial_state@,
                    now,
                ) && valid(c@),
                Err(e) => find_state(*sheet, initial_state@) is None && e@ == unknown_state(
                    "Unknown initial state '"@,
                    initial_state@,
                    *sheet,
                ),
            },
    {
        if sheet.state(initial_state).is_none() {
            return Err(refuse("Unknown initial state '", initial_state, &sheet));
        }
        proof {
            lemma_found_is_sound(&*sheet, initial_state@);
        }
        Ok(
            AnimationController {
                sheet,
                current_state: initial_state.to_owned(),
                frame_index: 0,
                last_update: now,
                paused: false,
                override_until: None,
            },
        )
    }

    /// Changes to another animation. One that is shown once is given the
    /// milliseconds that it takes, and gives way to the idle one after them. An
    /// animation that the sheet does not have changes nothing.
    pub fn set_state(&mut self, state_name: &str, one_shot: Option<u64>, now: u64) -> (r: Result<
        (),
        GremlinError,
    >)
        requires
            valid(old(self)@),
            one_shot matches Some(ms) ==> now + ms * 1_000_000 <= u64::MAX,
        ensures
            valid(final(self)@),
            match r {
                Ok(_) => find_state(old(self)@.sheet, state_name@) is Some && final(self)@
                    == switched(
                    old(self)@,
                    state_name@,
                    match one_shot {
                        Some(ms) => Some((now + ms * 1_000_000) as u64),
                        None => None,
                    },
                ),
                Err(e) => find_state(old(self)@.sheet, state_name@) is None && final(self)@ == old(
                    self,
                )@ && e@ == unknown_state("Unknown state '"@, state_name@, old(self)@.sheet),
            },
    {
        if self.sheet.state(state_name).is_none() {
            return Err(refuse("Unknown state '", state_name, &self.sheet));
        }
        proof {
            lemma_found_is_sound(&*self.sheet, state_name@);
        }
        self.current_state = state_name.to_owned();
        self.frame_index = 0;
        self.paused = false;
        self.override_until = match one_shot {
            Some(ms) => Some(now + ms * 1_000_000),
            None => None,
        };
        Ok(())
    }

    /// Moves on to the frame that is due, and gives it.
    pub fn tick(&mut self, now: u64) -> (f: &Frame)
        requires
            valid(old(self)@),
            old(self)@.paused || shown_state(old(self)@).fps <= 1000,
        ensures
            final(self)@ == ticked(old(self)@, now),
            valid(final(self)@),
            *f == shown_frame(final(self)@),
            final(self)@.state == old(self)@.state && !old(self)@.paused && !shown_state(
                old(self)@,
            ).loop_anim ==> old(self)@.index <= final(self)@.index <= old(self)@.index
                + frames_passed(old(self)@, frame_duration(shown_state(old(self)@)), now),
    {
        let ghost before = self@;
        proof {
            lemma_found_is_sound(&*self.sheet, self.current_state@);
            if find_state(before.sheet, "idle"@) is Some {
                lemma_found_is_sound(&*self.sheet, "idle"@);
            }
        }
        let fps: u32 = match self.sheet.state(self.current_state.as_str()) {
            Some(state) => state.fps,
            None => 1,
        };
        if let Some(until) = self.override_until {
            if now >= until && !same(self.current_state.as_str(), "idle") {
                if self.sheet.state("idle").is_some() {
                    self.current_state = "idle".to_owned();
                    self.frame_index = 0;
                }
                self.override_until = None;
            }
        }
        assert(self@ == expired(before, now));
        let ghost middle = self@;
        if !self.paused {
            let (len, looping): (usize, bool) = match self.sheet.state(self.current_state.as_str()) {
                Some(state) => (state.frames.len(), state.loop_anim),
                None => (1, false),
            };
            proof {
                assert(1000int / fps as int >= 1) by (nonlinear_arith)
                    requires
                        1 <= fps <= 1000,
                ;
                assert(1000int / fps as int <= 1000) by (nonlinear_arith)
                    requires
                        1 <= fps <= 1000,
                ;
            }
            let duration: u64 = (1000 / fps as u64) * 1_000_000;
            if now >= self.last_update {
                let elapsed: u64 = now - self.last_update;
                let k: u64 = elapsed / duration;
                proof {
                    vstd::arithmetic::div_mod::lemma_fundamental_div_mod(
                        elapsed as int,
                        duration as int,
                    );
                    assert(k * duration == duration * k) by (nonlinear_arith);
                    lemma_rotate(self.frame_index as int, k as int, len as int);
                }
                self.last_update = self.last_update + k * duration;
                let room: u64 = (len - self.frame_index) as u64;
                if looping {
                    let m: u64 = k % (len as u64);
                    self.frame_index = if m < room {
                        self.frame_index + m as usize
                    } else {
                        (m - room) as usize
                    };
                } else if k < room {
                    self.frame_index = self.frame_index + k as usize;
                } else {
                    self.frame_index = len - 1;
                    self.paused = true;
                }
            } else {
                assert(0 * duration == 0);
                assert(middle.index as int % len as int == middle.index) by {
                    lemma_rotate(middle.index as int, 0, len as int);
                }
            }
        }
        assert(self@ == ticked(before, now));
        self.current_frame()
    }

    /// The frame that is shown.
    pub fn current_frame(&self) -> (f: &Frame)
        requires
            valid(self@),
        ensures
            *f == shown_frame(self@),
            well_formed(f@),
    {
        proof {
            lemma_found_is_sound(&*self.sheet, self.current_state@);
        }
        let index: usize = match self.sheet.state(self.current_state.as_str()) {
            Some(state) => state.frames[self.frame_index],
            None => 0,
        };
        &self.sheet.frames[index]
    }

    /// Stops the animation, or lets it go on.
    pub fn set_paused(&mut self, paused: bool)
        ensures
            final(self)@ == (ControllerView { paused, ..old(self)@ }),
    {
        self.paused = paused;
    }

    /// The name of the animation that is shown.
    pub fn current_state(&self) -> (r: &str)
        ensures
            r@ == self@.state,
    {
        self.current_state.as_str()
    }

    /// The position within the animation.
    pub fn current_frame_index(&self) -> (r: usize)
        ensures
            r == self@.index,
    {
        self.frame_index
    }

    /// The sheet.
    pub fn sheet(&self) -> (r: &SpriteSheet)
        ensures
            *r == self@.sheet,
    {
        &self.sheet
    }
}

/// The refusal to show an animation that the sheet does not have.
fn refuse(prefix: &str, name: &str, sheet: &SpriteSheet) -> (e: GremlinError)
    ensures
        e@ == unknown_state(prefix@, name@, *sheet),
{
    let mut words = prefix.to_owned();
    words.append(name);
    words.append("'. Valid: ");
    words.append(debug_strings(&sheet.state_names()).as_str());
    GremlinError::Tool(words)
}

/// A command to the sprite.
#[derive(Debug)]
pub enum SpriteCommand {
    /// Change to an animation, which is shown once or goes on.
    SetState { state: String, one_shot: bool },
    /// Say which frame is shown.
    Status,
    /// Give a frame of an animation.
    Frame { state: String, frame: u64 },
    /// Give the frame that is shown.
    CurrentFrame,
    /// Say which animations there are.
    ListStates,
}

/// The content of a `SpriteCommand`.
pub enum SpriteCommandView {
    SetState { state: Seq<char>, one_shot: bool },
    Status,
    Frame { state: Seq<char>, frame: u64 },
    CurrentFrame,
    ListStates,
}

impl View for SpriteCommand {
    type V = SpriteCommandView;

    open spec fn view(&self) -> SpriteCommandView {
        match self {
            SpriteCommand::SetState { state, one_shot } => SpriteCommandView::SetState {
                state: state@,
                one_shot: *one_shot,
            },
            SpriteCommand::Status => SpriteCommandView::Status,
            SpriteCommand::Frame { state, frame } => SpriteCommandView::Frame {
                state: state@,
                frame: *frame,
            },
            SpriteCommand::CurrentFrame => SpriteCommandView::CurrentFrame,
            SpriteCommand::ListStates => SpriteCommandView::ListStates,
        }
    }
}

/// What stands before a picture that is sent as text.
pub const PICTURE_PREFIX: &'static str = "data:image/png;base64,";

/// A truth value in words.
pub open spec fn truth(b: bool) -> Seq<char> {
    if b {
        "true"@
    } else {
        "false"@
    }
}

/// A PNG file as text, or why there is none.
pub open spec fn encoded_answer(encoded: Result<Seq<u8>, Seq<char>>) -> Answer {
    match encoded {
        Ok(bytes) => Ok(base64_text(bytes)),
        Err(e) => refusal("PNG encode failed: "@ + e),
    }
}

/// The answer is a picture that is sent as text.
pub open spec fn sends_picture(a: Answer, f: FrameView) -> bool {
    a matches Ok(text) && exists|sent: Seq<char>|
        text == PICTURE_PREFIX@ + sent && #[trigger] picture_in(sent) == Some(f)
}

/// A frame of an animation as text, where there is one.
pub open spec fn frame_text(sheet: SpriteSheet, state: Seq<char>, local: usize) -> Option<Seq<char>> {
    match state_frame(sheet, state, local) {
        Some(f) => match png_file(f@) {
            Ok(bytes) => Some(base64_text(bytes)),
            Err(_) => None,
        },
        None => None,
    }
}

/// The line for an animation.
pub open spec fn state_line(s: AnimationState) -> Seq<char> {
    "  "@ + s.name@ + ": "@ + decimal(s.frames@.len()) + " frames @ "@ + decimal(s.fps as nat)
        + "fps, loop="@ + truth(s.loop_anim) + ", "@ + s.desc@
}

/// The lines for animations.
pub open spec fn state_lines(states: Seq<AnimationState>) -> Seq<Seq<char>> {
    states.map_values(|s: AnimationState| state_line(s))
}

/// The controller after a command. The time and the milliseconds that an animation
/// takes matter only where it is shown once.
pub open spec fn commanded(
    c: ControllerView,
    command: SpriteCommandView,
    one_shot_ms: u64,
    now: u64,
) -> ControllerView {
    match command {
        SpriteCommandView::SetState { state, one_shot } if find_state(c.sheet, state) is Some => {
            switched(
                c,
                state,
                if one_shot {
                    Some((now + one_shot_ms * 1_000_000) as u64)
                } else {
                    None
                },
            )
        },
        _ => c,
    }
}

/// What the sprite says to a command.
pub open spec fn command_answer(c: ControllerView, command: SpriteCommandView) -> Answer {
    match command {
        SpriteCommandView::SetState { state, one_shot } => if find_state(c.sheet, state) is Some {
            Ok("Sprite state set to '"@ + state + "' (one_shot="@ + truth(one_shot) + ")"@)
        } else {
            Err(unknown_state("Unknown state '"@, state, c.sheet))
        },
        SpriteCommandView::Status => Ok(
            "State: "@ + c.state + ", Frame: "@ + decimal(c.index as nat),
        ),
        SpriteCommandView::Frame { state, frame } => match frame_text(
            c.sheet,
            state,
            frame as usize,
        ) {
            Some(text) => Ok(PICTURE_PREFIX@ + text),
            None => refusal("invalid state/frame"@),
        },
        SpriteCommandView::CurrentFrame => match encoded_answer(png_file(shown_frame(c)@)) {
            Ok(text) => Ok(PICTURE_PREFIX@ + text),
            Err(e) => Err(e),
        },
        SpriteCommandView::ListStates => Ok(
            "Available states:\n"@ + joined(state_lines(c.sheet.meta.states@), "\n"@),
        ),
    }
}

/// A PNG file as text, or why there is none.
pub fn encoded_text(encoded: &Result<Vec<u8>, String>) -> (r: Result<String, GremlinError>)
    ensures
        answer(r) == encoded_answer(bytes_result(*encoded)),
        (*encoded matches Ok(bytes)) ==> (r matches Ok(text) && recovered(
            base64_bytes(text@),
            encoded->Ok_0@,
        )),
{
    match encoded {
        Ok(bytes) => Ok(encode_standard(bytes.as_slice())),
        Err(e) => Err(GremlinError::tool("PNG encode failed: ", e.as_str())),
    }
}

fn truth_text(b: bool) -> (r: &'static str)
    ensures
        r@ == truth(b),
{
    if b {
        "true"
    } else {
        "false"
    }
}

fn states_text(states: &Vec<AnimationState>) -> (r: String)
    ensures
        r@ == "Available states:\n"@ + joined(state_lines(states@), "\n"@),
{
    let mut lines: Vec<String> = Vec::new();
    let mut i: usize = 0;
    while i < states.len()
        invariant
            i <= states@.len(),
            texts(lines@) =~= state_lines(states@).take(i as int),
        decreases states@.len() - i,
    {
        let ghost before = lines@;
        let s = &states[i];
        let mut line = "  ".to_owned();
        line.append(s.name.as_str());
        line.append(": ");
        line.append(decimal_text(s.frames.len() as u64).as_str());
        line.append(" frames @ ");
        line.append(decimal_text(s.fps as u64).as_str());
        line.append("fps, loop=");
        line.append(truth_text(s.loop_anim));
        line.append(", ");
        line.append(s.desc.as_str());
        assert(line@ == state_line(states@[i as int]));
        lines.push(line);
        i = i + 1;
        assert(texts(lines@) =~= texts(before).push(state_line(states@[i - 1])));
    }
    assert(texts(lines@) =~= state_lines(states@));
    let mut r = "Available states:\n".to_owned();
    r.append(join(&lines, "\n").as_str());
    r
}

fn picture_text(text: &str) -> (r: String)
    ensures
        r@ == PICTURE_PREFIX@ + text@,
{
    let mut r = PICTURE_PREFIX.to_owned();
    r.append(text);
    r
}

impl AnimationController {
    /// The frame that is shown, as the text of a PNG file.
    pub fn current_frame_base64(&self) -> (r: Result<String, GremlinError>)
        requires
            valid(self@),
        ensures
            answer(r) == encoded_answer(png_file(shown_frame(self@)@)),
            modest(shown_frame(self@)@) ==> (r matches Ok(text) && picture_in(text@) == Some(
                shown_frame(self@)@,
            )),
    {
        encoded_text(&save_png(self.current_frame()))
    }

    /// A frame of an animation as the text of a PNG file, where there is one.
    pub fn frame_base64(&self, state: &str, local_idx: usize) -> (r: Option<String>)
        requires
            valid(self@),
        ensures
            text_view(r) == frame_text(self@.sheet, state@, local_idx),
            (state_frame(self@.sheet, state@, local_idx) matches Some(f) && modest(f@)) ==> (
            r matches Some(text) && picture_in(text@) == Some(
                state_frame(self@.sheet, state@, local_idx)->0@,
            )),
    {
        let frame = self.sheet.frame_by_state(state, local_idx)?;
        match save_png(frame) {
            Ok(bytes) => Some(encode_standard(bytes.as_slice())),
            Err(_) => None,
        }
    }

    /// Obeys a command. `one_shot_ms` is how many milliseconds the animation that it
    /// names takes, where the command is to show it once.
    pub fn obey(&mut self, command: &SpriteCommand, one_shot_ms: u64, now: u64) -> (r: Result<
        String,
        GremlinError,
    >)
        requires
            valid(old(self)@),
            now + one_shot_ms * 1_000_000 <= u64::MAX,
        ensures
            final(self)@ == commanded(old(self)@, command@, one_shot_ms, now),
            valid(final(self)@),
            answer(r) == command_answer(old(self)@, command@),
            command@ is CurrentFrame && modest(shown_frame(old(self)@)@) ==> sends_picture(
                answer(r),
                shown_frame(old(self)@)@,
            ),
            command@ matches SpriteCommandView::Frame { state, frame } ==> (state_frame(
                old(self)@.sheet,
                state,
                frame as usize,
            ) matches Some(f) ==> (modest(f@) ==> sends_picture(answer(r), f@))),
    {
        match command {
            SpriteCommand::SetState { state, one_shot } => {
                let once: Option<u64> = if *one_shot {
                    Some(one_shot_ms)
                } else {
                    None
                };
                match self.set_state(state.as_str(), once, now) {
                    Ok(()) => {
                        let mut r = "Sprite state set to '".to_owned();
                        r.append(state.as_str());
                        r.append("' (one_shot=");
                        r.append(truth_text(*one_shot));
                        r.append(")");
                        Ok(r)
                    },
                    Err(e) => Err(e),
                }
            },
            SpriteCommand::Status => {
                let mut r = "State: ".to_owned();
                r.append(self.current_state());
                r.append(", Frame: ");
                r.append(decimal_text(self.current_frame_index() as u64).as_str());
                Ok(r)
            },
            SpriteCommand::Frame { state, frame } => {
                match self.frame_base64(state.as_str(), *frame as usize) {
                    Some(text) => Ok(picture_text(text.as_str())),
                    None => Err(GremlinError::says("invalid state/frame")),
                }
            },
            SpriteCommand::CurrentFrame => {
                match self.current_frame_base64() {
                    Ok(text) => Ok(picture_text(text.as_str())),
                    Err(e) => Err(e),
                }
            },
            SpriteCommand::ListStates => Ok(states_text(&self.sheet().meta.states)),
        }
    }
}

/// The sprite of the daemon.
#[derive(Debug)]
pub struct SpriteSystem {
    pub controller: AnimationController,
}

impl SpriteSystem {
    /// The sprite, given what was read from the directory of its sheet.
    pub fn new(
        map: FrameMap,
        sheet: &Result<Vec<u8>, String>,
        initial_state: &str,
        now: u64,
    ) -> (r: Result<SpriteSystem, GremlinError>)
        requires
            map matches FrameMap::Read(meta) ==> expected_width(meta) <= u32::MAX,
        ensures
            match r {
                Ok(system) => {
                    let c = system.controller@;
                    &&& valid(c)
                    &&& c == started(c.sheet, initial_state@, now)
                    &&& map matches FrameMap::Read(meta)
                    &&& *sheet matches Ok(bytes)
                    &&& is_loaded(Ok(c.sheet), meta, png_picture(bytes@))
                },
                Err(e) => match (map, *sheet) {
                    (FrameMap::Unread(d), _) => e@ == ErrorView::Tool(
                        "Failed to read frame map: "@ + d@,
                    ),
                    (FrameMap::Malformed(d), _) => e@ == ErrorView::Tool(
                        "Failed to parse frame map JSON: "@ + d@,
                    ),
                    (FrameMap::Read(meta), Err(d)) => e@ == ErrorView::Tool(
                        "Failed to load sprite sheet: "@ + d@,
                    ),
                    (FrameMap::Read(meta), Ok(bytes)) => match sheet_fault(
                        meta,
                        png_picture(bytes@),
                    ) {
                        Some(words) => e@ == ErrorView::Tool(words),
                        None => state_index(meta.states@, initial_state@, 0) is None && e@
                            == ErrorView::Tool(
                            "Unknown initial state '"@ + initial_state@ + "'. Valid: "@
                                + debug_list(state_names_of(meta.states@)),
                        ),
                    },
                },
            },
    {
        match SpriteSheet::load_from_dir(map, sheet) {
            Ok(loaded) => match AnimationController::new(Arc::new(loaded), initial_state, now) {
                Ok(controller) => Ok(SpriteSystem { controller }),
                Err(e) => Err(e),
            },
            Err(e) => Err(e),
        }
    }
}

/// The tools for the sprite.
pub open spec fn sprite_handlers() -> Seq<Handler> {
    seq![
        Handler::SpriteState,
        Handler::SpriteStatus,
        Handler::SpriteFrame,
        Handler::SpriteCurrentFrame,
        Handler::SpriteListStates,
    ]
}

/// Adds the tools for the sprite to a registry.
pub fn register_sprite_tools(registry: &mut ToolRegistry)
    ensures
        old(registry).all_writable() ==> final(registry).all_writable(),
        final(registry)@ == with_tools(old(registry)@, sprite_handlers(), sprite_handlers().len()),
{
    let mut all: Vec<Handler> = Vec::new();
    all.push(Handler::SpriteState);
    all.push(Handler::SpriteStatus);
    all.push(Handler::SpriteFrame);
    all.push(Handler::SpriteCurrentFrame);
    all.push(Handler::SpriteListStates);
    assert(all@ =~= sprite_handlers());
    registry.register_all(&all);
}

/// Every position of every animation of a sound sheet has its frame.
pub proof fn law_every_position_has_a_frame(sheet: SpriteSheet, name: Seq<char>, local: usize)
    requires
        sound_sheet(sheet),
        find_state(sheet, name) matches Some(state) && local < state.frames@.len(),
    ensures
        state_frame(sheet, name, local) is Some,
{
    lemma_found_is_sound(&sheet, name);
}

/// The frames hold every byte of the sheet: byte `b` of the pixel in column `x` and row
/// `y` stands in the frame that covers the column, at the place of that pixel in it.
pub proof fn law_frames_cover_the_sheet(sheet: FrameView, size: u32, x: int, y: int, b: int)
    requires
        0 < size,
        0 <= x,
        0 <= y < size,
        0 <= b < 4,
    ensures
        cut_frame(sheet, size, x / size as int).pixels[y * (4 * size) + 4 * (x % size as int) + b]
            == sheet.pixels[y * (4 * sheet.width) + 4 * x + b],
{
    let i = x / size as int;
    let c = x % size as int;
    let k = y * (4 * size) + 4 * c + b;
    vstd::arithmetic::div_mod::lemma_fundamental_div_mod(x, size as int);
    vstd::arithmetic::div_mod::lemma_mod_bound(x, size as int);
    lemma_fundamental_div_mod_converse(k, 4 * size as int, y, 4 * c + b);
    assert(0 <= y * (4 * size)) by (nonlinear_arith)
        requires
            0 <= y,
            0 < size,
    ;
    assert(y * (4 * size) + 4 * size <= 4 * size * size) by (nonlinear_arith)
        requires
            y + 1 <= size,
            0 < size,
    ;
    assert(i * (4 * size) + 4 * c == 4 * x) by (nonlinear_arith)
        requires
            x == size * i + c,
    ;
}

/// For an animation that goes round, it does not matter how often it is ticked: two
/// ticks leave what the second alone leaves.
pub proof fn law_ticks_compose(c: ControllerView, first: u64, second: u64)
    requires
        valid(c),
        c.until is None,
        !c.paused,
        shown_state(c).loop_anim,
        shown_state(c).fps <= 1000,
        c.last_update <= first <= second,
    ensures
        ticked(ticked(c, first), second) == ticked(c, second),
{
    lemma_found_is_sound(&c.sheet, c.state);
    let fps = shown_state(c).fps;
    assert(1000int / fps as int >= 1) by (nonlinear_arith)
        requires
            1 <= fps <= 1000,
    ;
    let d = frame_duration(shown_state(c));
    let len = shown_state(c).frames@.len() as int;
    assert(len == shown_state(c).frames.len());
    let k = (first - c.last_update) / d;
    let mid = c.last_update + k * d;
    vstd::arithmetic::div_mod::lemma_fundamental_div_mod(first - c.last_update, d);
    vstd::arithmetic::div_mod::lemma_mod_bound(first - c.last_update, d);
    assert(d * k == k * d) by (nonlinear_arith);
    assert(k >= 0) by {
        vstd::arithmetic::div_mod::lemma_div_pos_is_pos(first - c.last_update, d);
    }
    assert(k * d >= 0) by (nonlinear_arith)
        requires
            k >= 0,
            d >= 1,
    ;
    assert(c.last_update <= mid <= first);
    let m = (second - mid) / d;
    let r = (second - mid) % d;
    vstd::arithmetic::div_mod::lemma_fundamental_div_mod(second - mid, d);
    vstd::arithmetic::div_mod::lemma_mod_bound(second - mid, d);
    assert(second - c.last_update == (k + m) * d + r) by (nonlinear_arith)
        requires
            second - mid == d * m + r,
            mid == c.last_update + k * d,
    ;
    lemma_fundamental_div_mod_converse(second - c.last_update, d, k + m, r);
    assert(mid + m * d == c.last_update + (k + m) * d) by (nonlinear_arith)
        requires
            mid == c.last_update + k * d,
    ;
    assert(m >= 0) by {
        vstd::arithmetic::div_mod::lemma_div_pos_is_pos(second - mid, d);
    }
    vstd::arithmetic::div_mod::lemma_add_mod_noop(c.index + k, m, len);
    vstd::arithmetic::div_mod::lemma_mod_twice(c.index + k, len);
    vstd::arithmetic::div_mod::lemma_add_mod_noop((c.index + k) % len, m, len);
    vstd::arithmetic::div_mod::lemma_mod_bound(c.index + k, len);
    assert(((c.index + k) % len + m) % len == (c.index + (k + m)) % len);
    assert(ticked(c, first).index == (c.index + k) % len);
}

/// An animation that does not go round comes to a stop on its last frame once all its
/// frames have passed.
pub proof fn law_animation_stops_on_its_last_frame(c: ControllerView, now: u64)
    requires
        valid(c),
        c.until is None,
        !c.paused,
        !shown_state(c).loop_anim,
        shown_state(c).fps <= 1000,
        c.last_update + shown_state(c).frames@.len() * frame_duration(shown_state(c)) <= now,
    ensures
        ticked(c, now).paused,
        ticked(c, now).index == shown_state(c).frames@.len() - 1,
{
    lemma_found_is_sound(&c.sheet, c.state);
    let fps = shown_state(c).fps;
    assert(1000int / fps as int >= 1) by (nonlinear_arith)
        requires
            1 <= fps <= 1000,
    ;
    let d = frame_duration(shown_state(c));
    let len = shown_state(c).frames@.len() as int;
    assert(len == shown_state(c).frames.len());
    assert(0 <= len * d) by (nonlinear_arith)
        requires
            0 <= len,
            0 <= d,
    ;
    assert((now - c.last_update) / d >= len) by {
        vstd::arithmetic::div_mod::lemma_div_is_ordered(len * d, now - c.last_update, d);
        vstd::arithmetic::div_mod::lemma_div_multiples_vanish(len, d);
        assert(d * len == len * d) by (nonlinear_arith);
    }
}

/// What has stopped stays as it is.
pub proof fn law_stopped_animation_stays(c: ControllerView, now: u64)
    requires
        c.paused,
        c.until is None,
    ensures
        ticked(c, now) == c,
{
}

/// An animation that is shown once gives way to the idle one when it is over, and not
/// before.
pub proof fn law_one_shot_returns_to_idle(
    c: ControllerView,
    name: Seq<char>,
    until: u64,
    now: u64,
)
    requires
        find_state(c.sheet, "idle"@) is Some,
        name != "idle"@,
    ensures
        now >= until ==> ticked(switched(c, name, Some(until)), now).state == "idle"@,
        now >= until ==> ticked(switched(c, name, Some(until)), now).until is None,
        now < until ==> ticked(switched(c, name, Some(until)), now).state == name,
{
}

} // verus!
