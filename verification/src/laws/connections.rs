//! The daemon and those who talk to it: requests and answers, the viewer and its window, the
//! dialogs, the service.
use vstd::prelude::*;
use vstd::utf8::{decode_utf8, valid_utf8};

use crate::daemon::{path_in, socket_name};
use crate::desktop::hyprland::raw_answer;
use crate::dialog::{detection, entered, question_in, DetectionView, DialogBackend};
use crate::effect::{Reply, RequestView, StepView};
use crate::error::{error_message, ErrorView};
use crate::json::{json_slice_document, member, JsonView};
use crate::laws::calls::{makes, makes_none};
use crate::laws::memories::{refuses, tells};
use crate::laws::services::succeeded_with;
use crate::laws::toolbox::{found, wants};
use crate::laws::words::{law_every_occurrence_is_replaced, law_what_trimming_leaves};
use crate::process::{lossy_text, InvocationView, Outcome, Output};
use crate::protocol::{
    answer_document, call_document, line_answer, question_document, request_in,
    request_of_document, response_of_document, result_document, DaemonRequestView, LineRead,
};
use crate::service::{
    binary_step, unit_view, uninstall_view, BinaryView, UninstallView, NO_BINARY,
};
use crate::text::{decimal, occurs_at, replaced, trimmed, white_space};
use crate::toolcall::{result_line, CallView, Document};
use crate::tools::handlers::handler_step;
use crate::tools::schema::Handler;
use crate::tools::shell::focused_cwd;
use crate::tools::{reported, ExecutionView, ToolResultView};
use crate::viewer::{
    delay_after, dispatch_error, geometry_view, next_delay, reply_after, viewer_socket_name,
    Dispatch, ReplyView, CONNECT_PATIENCE_MS, DEFAULT_SCALE, FRAME_SIZE,
};
use crate::window::{
    green, passed, placeholder_view, roomy, start_at, MOVE_MS, POLL_MS, RECONNECT_MS,
};

verus! {

/// A document that names a tool is a request for it, with the document's arguments. Any other
/// is a question, whose words stand under their key.
pub proof fn law_requests_are_understood(json: JsonView, call: CallView, words: Seq<char>)
    ensures
        makes(json, call) ==> request_in(json) == DaemonRequestView::Tool(call),
        makes_none(json) && member(json, "message"@) == Some(JsonView::Text(words))
            ==> request_in(json) == DaemonRequestView::Message(words),
        makes_none(json) && !(member(json, "message"@) matches Some(JsonView::Text(_)))
            ==> request_in(json) == DaemonRequestView::Message("(empty)"@),
{
}

/// What cannot be read is no request and no answer, and it is said why.
pub proof fn law_what_cannot_be_read_is_refused(json: JsonView, e: Seq<char>)
    ensures
        request_of_document(Document::Ok(json)) == Ok::<_, ErrorView>(request_in(json)),
        request_of_document(Document::Err(e)) == Err::<DaemonRequestView, _>(ErrorView::Json(e)),
        response_of_document(Document::Err(e)) == Err::<Seq<char>, _>(ErrorView::Json(e)),
{
}

/// The words of an answer stand under their key; without them it is said that there are none.
pub proof fn law_answers_are_understood(json: JsonView, words: Seq<char>)
    ensures
        member(json, "response"@) == Some(JsonView::Text(words)) ==> response_of_document(
            Document::Ok(json),
        ) == Ok::<_, ErrorView>(words),
        !(member(json, "response"@) matches Some(JsonView::Text(_))) ==> response_of_document(
            Document::Ok(json),
        ) == Ok::<_, ErrorView>("(no response)"@),
{
}

/// What one side sends, the other understands: a question as a question with its words, a
/// call as a call of its tool without arguments, an answer as its words.
pub proof fn law_both_sides_understand_each_other(words: Seq<char>, success: bool)
    ensures
        request_in(question_document(words)) == DaemonRequestView::Message(words),
        request_in(call_document(words)) == DaemonRequestView::Tool(
            CallView { name: words, args: JsonView::Object(Map::empty()) },
        ),
        response_of_document(Document::Ok(answer_document(words))) == Ok::<_, ErrorView>(words),
        response_of_document(Document::Ok(result_document(words, success))) == Ok::<_, ErrorView>(
            words,
        ),
        member(result_document(words, success), "success"@) == Some(JsonView::Bool(success)),
{
    reveal_strlit("tool");
    reveal_strlit("args");
    reveal_strlit("message");
    reveal_strlit("response");
    reveal_strlit("success");
    assert("tool"@.len() != "message"@.len());
    assert("tool"@[0] != "args"@[0]);
    assert("response"@.len() != "success"@.len());
}

/// A line is handed on as it came; where none came, it is said why.
pub proof fn law_lines_are_waited_for(line: String, e: String)
    ensures
        line_answer(LineRead::Line(line)) == Ok::<_, ErrorView>(line@),
        line_answer(LineRead::Failed(e)) == Err::<Seq<char>, _>(ErrorView::Io(e@)),
        line_answer(LineRead::Closed) == Err::<Seq<char>, _>(
            ErrorView::Tool("client disconnected before sending a request"@),
        ),
        line_answer(LineRead::TimedOut) == Err::<Seq<char>, _>(
            ErrorView::Tool("client did not send a request within 30s"@),
        ),
{
}

/// What a tool gave is reported under its name: its output where it succeeded, and the
/// words of the error where it did not. What it asks for is asked for.
pub proof fn law_outcomes_are_reported(
    name: Seq<char>,
    request: RequestView,
    output: Seq<char>,
    e: ErrorView,
)
    ensures
        reported(name, StepView::Perform(request)) == ExecutionView::Perform(request),
        reported(name, StepView::Finish(Ok(output))) == ExecutionView::Done(
            ToolResultView { tool: name, success: true, output },
        ),
        reported(name, StepView::Finish(Err(e))) == ExecutionView::Done(
            ToolResultView { tool: name, success: false, output: error_message(e) },
        ),
{
}

/// The model is told which tool it was, whether it succeeded, and what it said.
pub proof fn law_results_in_words(tool: Seq<char>, output: Seq<char>)
    ensures
        result_line(tool, true, output) == "Tool `"@ + tool + "` returned:\n"@ + output,
        result_line(tool, false, output) == "Tool `"@ + tool + "` failed:\n"@ + output,
{
}

/// The daemon listens in the runtime directory, or else in a place that names the user; a
/// slash at the end of the directory is not doubled.
pub proof fn law_the_daemon_listens(dir: Seq<char>, uid: u32)
    ensures
        socket_name(None, uid) == "/tmp/gremlin-"@ + decimal(uid as nat) + ".sock"@,
        socket_name(Some(dir + "/"@), uid) == dir + "/gremlin.sock"@,
        dir.len() > 0 && dir.last() != '/' ==> socket_name(Some(dir), uid) == dir
            + "/gremlin.sock"@,
        viewer_socket_name(Some(dir), uid) == dir + "/gremlin.sock"@,
        viewer_socket_name(None, uid) == socket_name(None, uid),
{
    reveal_strlit("/");
    reveal_strlit("gremlin.sock");
    reveal_strlit("/gremlin.sock");
    assert("/gremlin.sock"@ =~= "/"@ + "gremlin.sock"@);
    assert((dir + "/"@).last() == '/');
    assert(dir + "/"@ + "gremlin.sock"@ =~= dir + "/gremlin.sock"@);
}

/// A reply is a line of bytes. Without its end the reader asks for more, up to eight
/// mebibytes, and gives up beyond.
pub proof fn law_replies_are_lines(bytes: Seq<u8>, after: Seq<u8>)
    requires
        !bytes.contains(10u8),
    ensures
        reply_after(bytes + seq![10u8] + after) == ReplyView::Line(bytes),
        bytes.len() <= 8_388_608 ==> reply_after(bytes) == ReplyView::More,
        bytes.len() > 8_388_608 ==> reply_after(bytes) == ReplyView::Broken,
{
    assert forall|i: int| 0 <= i < bytes.len() implies #[trigger] bytes[i] != 10 by {
        assert(bytes.contains(bytes[i]));
    }
    let all = bytes + seq![10u8] + after;
    lemma_end_of_line(all, 0, bytes.len() as int);
    lemma_end_of_line(bytes, 0, bytes.len() as int);
    assert(all.take(bytes.len() as int) =~= bytes);
}

proof fn lemma_end_of_line(bytes: Seq<u8>, i: int, end: int)
    requires
        0 <= i <= end <= bytes.len(),
        forall|j: int| i <= j < end ==> #[trigger] bytes[j] != 10,
        end < bytes.len() ==> bytes[end] == 10,
    ensures
        crate::viewer::line_end(bytes, i) == (if end < bytes.len() {
            Some(end)
        } else {
            None
        }),
    decreases end - i,
{
    if i < end {
        lemma_end_of_line(bytes, i + 1, end);
    }
}

/// The viewer waits half a second before its second attempt, and then twice as long each
/// time, up to five seconds.
pub proof fn law_delays_double(n: nat, delay: u64)
    ensures
        delay_after(0) == 500,
        delay_after(n + 1) == (if 2 * delay_after(n) < 5_000 {
            2 * delay_after(n)
        } else {
            5_000
        }),
        next_delay(delay) <= 5_000,
        delay <= 2_500 ==> next_delay(delay) == 2 * delay,
{
}

/// The window is made to float, gets its size and is pinned, in this order.
pub proof fn law_window_gets_its_place(side: u32)
    ensures
        geometry_view(side).len() == 3,
        geometry_view(side)[0] == "dispatch setfloating "@ + "class:^(gremlin-sprite)$"@,
        geometry_view(side)[1] == "dispatch resizewindowpixel exact "@ + decimal(side as nat) + " "@
            + decimal(side as nat) + ","@ + "class:^(gremlin-sprite)$"@,
        geometry_view(side)[2] == "dispatch pin "@ + "class:^(gremlin-sprite)$"@,
{
}

/// A command that was not sent is told with the reason.
pub proof fn law_commands_that_fail(socket: Seq<char>, e: String)
    ensures
        dispatch_error(socket, Dispatch::NoConnection(e)) == Some(
            "cannot connect to "@ + socket + ": "@ + e@,
        ),
        dispatch_error(socket, Dispatch::NotSent(e)) == Some(
            "cannot send Hyprland command: "@ + e@,
        ),
        dispatch_error(socket, Dispatch::NotClosed(e)) == Some(
            "cannot close Hyprland IPC socket: "@ + e@,
        ),
        dispatch_error(socket, Dispatch::Sent) is None,
{
}

/// The window keeps its distance from the end of the screen, or starts at the beginning where
/// there is no room; the screen is taken to be as large as the window needs.
pub proof fn law_window_starts_near_the_end(screen: u32, side: u32)
    ensures
        screen >= side + 32 ==> start_at(screen, side) + side + 32 == screen,
        screen < side + 32 ==> start_at(screen, side) == 0,
        roomy(screen, side) >= screen,
        roomy(screen, side) >= side + 64,
        roomy(screen, side) == screen || roomy(screen, side) == side + 64,
{
}

/// The viewer asks for a frame every sixteen milliseconds, connects again after two seconds,
/// moves the window every thirty-three milliseconds, gives up its first attempts after a
/// minute, and shows frames of forty-eight pixels four times as large.
pub proof fn law_paces_of_the_viewer(since: u64, now: u64, ms: u64)
    ensures
        POLL_MS == 16,
        RECONNECT_MS == 2_000,
        MOVE_MS == 33,
        CONNECT_PATIENCE_MS == 60_000,
        FRAME_SIZE == 48,
        DEFAULT_SCALE == 4,
        passed(since, now, ms) <==> since + ms <= now,
{
}

/// What `hyprctl` wrote is told without the white space around it, where it succeeded, and
/// refused with what went to its error output where it did not.
pub proof fn law_hyprctl_in_words(output: Output, e: String)
    ensures
        output.success ==> raw_answer(Outcome::Ok(output)) == Ok::<_, ErrorView>(
            trimmed(lossy_text(output.stdout@)),
        ),
        !output.success ==> raw_answer(Outcome::Ok(output)) == Err::<Seq<char>, _>(
            ErrorView::Tool("hyprctl error: "@ + lossy_text(output.stderr@)),
        ),
        raw_answer(Outcome::Err(e)) == Err::<Seq<char>, _>(
            ErrorView::Tool("hyprctl not available: "@ + e@),
        ),
{
}

/// Where the colours of a pixel of the first picture start.
pub open spec fn pixel_at(x: int, y: int) -> int {
    4 * (48 * y + x)
}

/// The first picture is opaque and has neither red nor blue; its green is the greatest that
/// the distance of the pixel from the middle leaves, as it fades evenly from forty there to
/// none at half the side.
pub proof fn law_first_picture(x: int, y: int)
    requires
        0 <= x < 48,
        0 <= y < 48,
    ensures
        ({
            let p = placeholder_view();
            let g = p.pixels[pixel_at(x, y) + 1] as int;
            let square = (x - 24) * (x - 24) + (y - 24) * (y - 24);
            &&& p.width == 48 && p.height == 48 && p.pixels.len() == 48 * 48 * 4
            &&& p.pixels[pixel_at(x, y)] == 0
            &&& p.pixels[pixel_at(x, y) + 2] == 0
            &&& p.pixels[pixel_at(x, y) + 3] == 255
            &&& 0 <= g <= 40
            &&& g > 0 ==> 25 * square <= 9 * ((40 - g) * (40 - g))
            &&& g < 40 ==> 25 * square > 9 * ((39 - g) * (39 - g))
        }),
{
    let pixel = 48 * y + x;
    assert(pixel_at(x, y) / 4 == pixel && pixel_at(x, y) % 4 == 0);
    assert((pixel_at(x, y) + 1) / 4 == pixel && (pixel_at(x, y) + 1) % 4 == 1);
    assert((pixel_at(x, y) + 2) / 4 == pixel && (pixel_at(x, y) + 2) % 4 == 2);
    assert((pixel_at(x, y) + 3) / 4 == pixel && (pixel_at(x, y) + 3) % 4 == 3);
    assert(pixel % 48 == x && pixel / 48 == y);
    assert(crate::window::apart(x, 24) * crate::window::apart(x, 24) == (x - 24) * (x - 24))
        by (nonlinear_arith)
        requires
            crate::window::apart(x, 24) == x - 24 || crate::window::apart(x, 24) == 24 - x,
    ;
    assert(crate::window::apart(y, 24) * crate::window::apart(y, 24) == (y - 24) * (y - 24))
        by (nonlinear_arith)
        requires
            crate::window::apart(y, 24) == y - 24 || crate::window::apart(y, 24) == 24 - y,
    ;
    lemma_greatest(crate::window::off_centre(x, y), 40);
    assert(green(x, y) == crate::window::green_up_to(crate::window::off_centre(x, y), 40));
}

proof fn lemma_greatest(square: int, top: int)
    requires
        0 <= top <= 40,
    ensures
        ({
            let g = crate::window::green_up_to(square, top);
            &&& 0 <= g <= top
            &&& g > 0 ==> 25 * square <= 9 * ((40 - g) * (40 - g))
            &&& g < top ==> 25 * square > 9 * ((39 - g) * (39 - g))
        }),
    decreases top,
{
    if top > 0 && !crate::window::green_at_least(square, top) {
        lemma_greatest(square, top - 1);
        if crate::window::green_up_to(square, top - 1) == top - 1 {
            assert(40 - top == 39 - (top - 1));
        }
    }
}

/// A program for dialogs is looked for by name, in this order, and the first that is there is
/// taken.
pub proof fn law_dialog_programs(no: Outcome, yes: Output)
    requires
        no matches Ok(o) ==> !o.success,
        yes.success,
    ensures
        ({
            let found = Outcome::Ok(yes);
            let none = Seq::<Outcome>::empty();
            &&& looks_for(detection(none, 0), "zenity"@)
            &&& looks_for(detection(seq![no], 0), "rofi"@)
            &&& looks_for(detection(seq![no, no], 0), "wofi"@)
            &&& detection(seq![no, no, no], 0) == DetectionView::Done(None)
            &&& detection(seq![found], 0) == DetectionView::Done(Some(DialogBackend::Zenity))
            &&& detection(seq![no, found], 0) == DetectionView::Done(Some(DialogBackend::Rofi))
            &&& detection(seq![no, no, found], 0) == DetectionView::Done(Some(DialogBackend::Wofi))
        }),
{
    reveal_with_fuel(detection, 4);
}

/// The search goes on with this program.
pub open spec fn looks_for(d: DetectionView, program: Seq<char>) -> bool {
    d == DetectionView::Run(InvocationView { program: "which"@, args: seq![program] })
}

/// One argument stands right behind another.
pub open spec fn follows(args: Seq<Seq<char>>, flag: Seq<char>, value: Seq<char>) -> bool {
    exists|i: int| 0 <= i < args.len() - 1 && #[trigger] args[i] == flag && args[i + 1] == value
}

/// Each program is run under its name, and is handed what it is to ask, and its title where
/// it shows one.
pub proof fn law_dialogs_ask(title: Seq<char>, prompt: Seq<char>)
    ensures
        DialogBackend::Zenity.entry_view(title, prompt).program == "zenity"@,
        DialogBackend::Rofi.entry_view(title, prompt).program == "rofi"@,
        DialogBackend::Wofi.entry_view(title, prompt).program == "wofi"@,
        DialogBackend::Zenity.entry_view(title, prompt).args.contains("--entry"@),
        follows(DialogBackend::Zenity.entry_view(title, prompt).args, "--title"@, title),
        follows(DialogBackend::Zenity.entry_view(title, prompt).args, "--text"@, prompt),
        DialogBackend::Zenity.entry_view(title, prompt).args.contains("--width=400"@),
        DialogBackend::Rofi.entry_view(title, prompt).args.contains("-dmenu"@),
        follows(DialogBackend::Rofi.entry_view(title, prompt).args, "-p"@, prompt),
        follows(
            DialogBackend::Rofi.entry_view(title, prompt).args,
            "-theme-str"@,
            "window {width: 400;}"@,
        ),
        DialogBackend::Wofi.entry_view(title, prompt).args.contains("--dmenu"@),
        follows(DialogBackend::Wofi.entry_view(title, prompt).args, "-p"@, prompt),
        follows(DialogBackend::Wofi.entry_view(title, prompt).args, "--width"@, "400"@),
{
    let z = DialogBackend::Zenity.entry_view(title, prompt).args;
    let r = DialogBackend::Rofi.entry_view(title, prompt).args;
    let w = DialogBackend::Wofi.entry_view(title, prompt).args;
    assert(z[0] == "--entry"@ && z[1] == "--title"@ && z[2] == title && z[3] == "--text"@ && z[4]
        == prompt && z[5] == "--width=400"@);
    assert(r[0] == "-dmenu"@ && r[1] == "-p"@ && r[2] == prompt && r[3] == "-theme-str"@);
    assert(w[0] == "--dmenu"@ && w[1] == "-p"@ && w[2] == prompt && w[3] == "--width"@);
}

/// Each program is run under its name to show a text, and is handed the title where it shows
/// one; the first is handed the text as well, and the others read it from their input.
pub proof fn law_dialogs_tell(title: Seq<char>, text: Seq<char>)
    ensures
        DialogBackend::Zenity.info_view(title, text).program == "zenity"@,
        DialogBackend::Rofi.info_view(title, text).program == "rofi"@,
        DialogBackend::Wofi.info_view(title, text).program == "wofi"@,
        DialogBackend::Zenity.info_view(title, text).args.contains("--info"@),
        follows(DialogBackend::Zenity.info_view(title, text).args, "--title"@, title),
        follows(DialogBackend::Zenity.info_view(title, text).args, "--text"@, text),
        DialogBackend::Zenity.info_view(title, text).args.contains("--width=500"@),
        DialogBackend::Rofi.info_view(title, text).args == seq![
            "-e"@,
            "-no-fixed-num-lines"@,
            "-theme-str"@,
            "window {width: 500;}"@,
        ],
        follows(DialogBackend::Wofi.info_view(title, text).args, "--show"@, "dmenu"@),
        follows(DialogBackend::Wofi.info_view(title, text).args, "-p"@, title),
{
    let z = DialogBackend::Zenity.info_view(title, text).args;
    let w = DialogBackend::Wofi.info_view(title, text).args;
    assert(z[0] == "--info"@ && z[1] == "--title"@ && z[2] == title && z[3] == "--text"@ && z[4]
        == text && z[5] == "--width=500"@);
    assert(w[0] == "--show"@ && w[1] == "dmenu"@ && w[2] == "-p"@ && w[3] == title);
}

/// What was entered is what the dialog wrote, without the white space around it, where the
/// dialog was confirmed and wrote text. It is a question where something is left of it.
pub proof fn law_what_was_entered(output: Output, e: String, text: Seq<char>)
    ensures
        output.success && valid_utf8(output.stdout@) ==> entered(Outcome::Ok(output)) == Some(
            trimmed(decode_utf8(output.stdout@)),
        ),
        !output.success || !valid_utf8(output.stdout@) ==> entered(Outcome::Ok(output)) is None,
        entered(Outcome::Err(e)) is None,
        question_in(None) is None,
        question_in(Some(text)) is None <==> forall|i: int|
            0 <= i < text.len() ==> white_space(#[trigger] text[i]),
        question_in(Some(text)) matches Some(q) ==> q == trimmed(text),
{
    law_what_trimming_leaves(text);
}

/// The places of the binary are looked at in their order, and the first that has it is taken;
/// after them `which` is asked, and what it names is taken, or it is said that there is none.
pub proof fn law_the_binary_is_looked_for(home: Seq<char>, output: Output, e: String)
    ensures
        ({
            let cargo = path_in(home, ".cargo/bin/gremlin"@);
            let none = Seq::<bool>::empty();
            let path = trimmed(lossy_text(output.stdout@));
            let nowhere = seq![false, false, false];
            let missing = BinaryView::Done(Err(ErrorView::Tool(NO_BINARY@)));
            &&& binary_step(home, none, None, 0) == BinaryView::Look(cargo)
            &&& binary_step(home, seq![true], None, 0) == BinaryView::Done(Ok(cargo))
            &&& binary_step(home, seq![false], None, 0) == BinaryView::Look(
                "/usr/local/bin/gremlin"@,
            )
            &&& binary_step(home, seq![false, true], None, 0) == BinaryView::Done(
                Ok("/usr/local/bin/gremlin"@),
            )
            &&& binary_step(home, seq![false, false], None, 0) == BinaryView::Look(
                "/usr/bin/gremlin"@,
            )
            &&& binary_step(home, seq![false, false, true], None, 0) == BinaryView::Done(
                Ok("/usr/bin/gremlin"@),
            )
            &&& binary_step(home, nowhere, None, 0) == BinaryView::Run(
                InvocationView { program: "which"@, args: seq!["gremlin"@] },
            )
            &&& output.success && path.len() > 0 ==> binary_step(
                home,
                nowhere,
                Some(Outcome::Ok(output)),
                0,
            ) == BinaryView::Done(Ok(path))
            &&& !output.success || path.len() == 0 ==> binary_step(
                home,
                nowhere,
                Some(Outcome::Ok(output)),
                0,
            ) == missing
            &&& binary_step(home, nowhere, Some(Outcome::Err(e)), 0) == missing
        }),
{
    reveal_with_fuel(binary_step, 4);
}

/// In the unit file the binary stands where the template names its usual place, and the home
/// directory wherever the template has its sign; the rest is as in the template.
pub proof fn law_unit_file(before: Seq<char>, after: Seq<char>, binary: Seq<char>, home: Seq<char>)
    requires
        forall|i: int| !(#[trigger] occurs_at(before + binary + after, "%h"@, i)),
        forall|i: int|
            0 <= i < before.len() ==> !(#[trigger] occurs_at(
                before + "%h/.cargo/bin/gremlin"@ + after,
                "%h/.cargo/bin/gremlin"@,
                i,
            )),
        forall|i: int| !(#[trigger] occurs_at(after, "%h/.cargo/bin/gremlin"@, i)),
    ensures
        unit_view(before + "%h/.cargo/bin/gremlin"@ + after, binary, home) == before + binary
            + after,
{
    reveal_strlit("%h/.cargo/bin/gremlin");
    reveal_strlit("%h");
    let pat = "%h/.cargo/bin/gremlin"@;
    law_every_occurrence_is_replaced(before, pat, after, binary, after);
    let filled = before + binary + after;
    assert(replaced(before + pat + after, pat, binary) == filled);
    lemma_left(filled, "%h"@, home);
}

proof fn lemma_left(s: Seq<char>, pat: Seq<char>, with: Seq<char>)
    requires
        pat.len() > 0,
        forall|i: int| !(#[trigger] occurs_at(s, pat, i)),
    ensures
        replaced(s, pat, with) == s,
{
    let none = Seq::<char>::empty();
    law_every_occurrence_is_replaced(none, pat, none, with, s);
}

/// The home directory stands in the unit file wherever the template has its sign.
pub proof fn law_unit_file_names_the_home(
    before: Seq<char>,
    after: Seq<char>,
    binary: Seq<char>,
    home: Seq<char>,
)
    requires
        forall|i: int|
            !(#[trigger] occurs_at(before + "%h"@ + after, "%h/.cargo/bin/gremlin"@, i)),
        forall|i: int|
            0 <= i < before.len() ==> !(#[trigger] occurs_at(before + "%h"@ + after, "%h"@, i)),
        forall|i: int| !(#[trigger] occurs_at(after, "%h"@, i)),
    ensures
        unit_view(before + "%h"@ + after, binary, home) == before + home + after,
{
    reveal_strlit("%h/.cargo/bin/gremlin");
    reveal_strlit("%h");
    lemma_left(before + "%h"@ + after, "%h/.cargo/bin/gremlin"@, binary);
    law_every_occurrence_is_replaced(before, "%h"@, after, home, after);
}

/// The service is disabled first. Where its unit file is there it is removed, and then systemd
/// reads its files again; where it is not, nothing is left to do.
pub proof fn law_the_service_is_removed(
    removed: Option<Result<(), String>>,
    reloaded: bool,
    e: String,
)
    ensures
        uninstall_view(None, removed, reloaded) == UninstallView::Disable(
            InvocationView {
                program: "systemctl"@,
                args: seq!["--user"@, "disable"@, "--now"@, "gremlin.service"@],
            },
        ),
        uninstall_view(Some(false), removed, reloaded) == UninstallView::Done(Ok(())),
        uninstall_view(Some(true), None, reloaded) == UninstallView::Remove,
        uninstall_view(Some(true), Some(Ok(())), false) == UninstallView::Reload(
            InvocationView { program: "systemctl"@, args: seq!["--user"@, "daemon-reload"@] },
        ),
        uninstall_view(Some(true), Some(Ok(())), true) == UninstallView::Done(Ok(())),
        uninstall_view(Some(true), Some(Err(e)), reloaded) == UninstallView::Done(
            Err(ErrorView::Io(e@)),
        ),
{
    assert(seq!["--user"@] + seq!["disable"@, "--now"@, "gremlin.service"@] =~= seq![
        "--user"@,
        "disable"@,
        "--now"@,
        "gremlin.service"@,
    ]);
    assert(seq!["--user"@] + seq!["daemon-reload"@] =~= seq!["--user"@, "daemon-reload"@]);
}

/// The terminal's directory is told where the terminal answers and a tab has the focus; what
/// it wrote otherwise is refused with the reason. Where it does not answer, the working
/// directory is asked for and told.
pub proof fn law_terminal_directory_is_told(
    args: JsonView,
    first: Reply,
    output: Output,
    json: JsonView,
    e: Seq<char>,
    path: String,
    detail: String,
)
    ensures
        ({
            let h = Handler::KittyCwd;
            let answered = handler_step(h, args, seq![first]);
            &&& succeeded_with(first, output) && json_slice_document(output.stdout@)
                == Document::Ok(json) ==> (match focused_cwd(json) {
                Some(cwd) => tells(answered, cwd),
                None => refuses(answered, "Could not find focused Kitty tab cwd"@),
            })
            &&& succeeded_with(first, output) && json_slice_document(output.stdout@)
                == Document::Err(e) ==> refuses(answered, "kitty JSON parse error: "@ + e)
            &&& found(first, false) ==> wants(answered, RequestView::CurrentDir)
            &&& found(first, false) ==> tells(
                handler_step(h, args, seq![first, Reply::Content(Ok(path))]),
                path@,
            )
            &&& found(first, false) ==> refuses(
                handler_step(h, args, seq![first, Reply::Content(Err(detail))]),
                "cwd detection failed: "@ + detail@,
            )
        }),
{
}

} // verus!
