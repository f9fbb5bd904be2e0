//! The sprite viewer: how it finds the daemon and the desktop, what it asks and what it
//! shows.
use vstd::prelude::*;
use vstd::utf8::encode_utf8;

use crate::daemon::socket_name;
use crate::json::{
    json_slice_document, member_text, parse_bytes, result_view, text_view, Json, JsonView,
};
use crate::picture::{
    any_picture, base64_bytes, decode_standard, load_any, picture_in, well_formed, Frame, FrameView,
};
use crate::protocol::{carries, lemma_encode_concat, lemma_no_newline_byte, result_document};
use crate::sprite::PICTURE_PREFIX;
use crate::text::{
    decimal, decimal_text, occurs_at, signed_decimal, signed_decimal_text, slice, starts_with,
    texts,
};
use crate::toolcall::Document;

verus! {

/// The side of a frame, in pixels.
pub const FRAME_SIZE: u32 = 48;

/// How many times larger a frame is shown.
pub const DEFAULT_SCALE: u32 = 4;

/// Which window a command to Hyprland is for.
pub const WINDOW_SELECTOR: &'static str = "class:^(gremlin-sprite)$";

/// Where the viewer looks for the daemon.
pub open spec fn viewer_socket_name(runtime_dir: Option<Seq<char>>, uid: u32) -> Seq<char> {
    match runtime_dir {
        Some(dir) => dir + "/gremlin.sock"@,
        None => "/tmp/gremlin-"@ + decimal(uid as nat) + ".sock"@,
    }
}

/// Where the viewer looks for the daemon.
pub fn socket_path(runtime_dir: &Option<String>, uid: u32) -> (r: String)
    ensures
        r@ == viewer_socket_name(text_view(*runtime_dir), uid),
{
    match runtime_dir {
        Some(dir) => {
            let mut r = dir.clone();
            r.append("/gremlin.sock");
            r
        },
        None => {
            let mut r = "/tmp/gremlin-".to_owned();
            r.append(decimal_text(uid as u64).as_str());
            r.append(".sock");
            r
        },
    }
}

/// The viewer looks where the daemon listens, where the runtime directory has a name that
/// does not end in a slash, and where there is none.
pub proof fn law_viewer_finds_the_daemon(runtime_dir: Option<Seq<char>>, uid: u32)
    requires
        runtime_dir matches Some(dir) ==> dir.len() > 0 && dir.last() != '/',
    ensures
        viewer_socket_name(runtime_dir, uid) == socket_name(runtime_dir, uid),
{
    if let Some(dir) = runtime_dir {
        reveal_strlit("/");
        reveal_strlit("gremlin.sock");
        reveal_strlit("/gremlin.sock");
        assert("/gremlin.sock"@ =~= "/"@ + "gremlin.sock"@);
        assert(dir + "/gremlin.sock"@ =~= dir + "/"@ + "gremlin.sock"@);
    }
}

/// Where Hyprland takes commands, or which part of the environment is missing.
pub fn hyprland_socket(runtime_dir: &Option<String>, instance: &Option<String>) -> (r: Result<
    String,
    String,
>)
    ensures
        match (text_view(*runtime_dir), text_view(*instance)) {
            (None, _) => r matches Err(e) && e@ == "XDG_RUNTIME_DIR is not set"@,
            (Some(_), None) => r matches Err(e) && e@ == "HYPRLAND_INSTANCE_SIGNATURE is not set"@,
            (Some(dir), Some(name)) => r matches Ok(s) && s@ == dir + "/hypr/"@ + name
                + "/.socket.sock"@,
        },
{
    let dir = match runtime_dir {
        Some(dir) => dir,
        None => {
            return Err("XDG_RUNTIME_DIR is not set".to_owned());
        },
    };
    let name = match instance {
        Some(name) => name,
        None => {
            return Err("HYPRLAND_INSTANCE_SIGNATURE is not set".to_owned());
        },
    };
    let mut r = dir.clone();
    r.append("/hypr/");
    r.append(name.as_str());
    r.append("/.socket.sock");
    Ok(r)
}

/// What came of sending a command to Hyprland.
#[derive(Debug)]
pub enum Dispatch {
    /// There was no connection, for this reason.
    NoConnection(String),
    /// The command could not be sent, for this reason.
    NotSent(String),
    /// The connection could not be closed, for this reason.
    NotClosed(String),
    /// The command was sent.
    Sent,
}

/// What is said of a command to Hyprland that was not sent.
pub open spec fn dispatch_error(socket: Seq<char>, d: Dispatch) -> Option<Seq<char>> {
    match d {
        Dispatch::NoConnection(e) => Some("cannot connect to "@ + socket + ": "@ + e@),
        Dispatch::NotSent(e) => Some("cannot send Hyprland command: "@ + e@),
        Dispatch::NotClosed(e) => Some("cannot close Hyprland IPC socket: "@ + e@),
        Dispatch::Sent => None,
    }
}

/// What is said of a command to Hyprland, given what came of sending it.
pub fn hyprland_dispatch(socket: &str, d: &Dispatch) -> (r: Result<(), String>)
    ensures
        match r {
            Ok(_) => dispatch_error(socket@, *d) is None,
            Err(e) => dispatch_error(socket@, *d) == Some(e@),
        },
{
    match d {
        Dispatch::NoConnection(e) => {
            let mut words = "cannot connect to ".to_owned();
            words.append(socket);
            words.append(": ");
            words.append(e.as_str());
            Err(words)
        },
        Dispatch::NotSent(e) => {
            let mut words = "cannot send Hyprland command: ".to_owned();
            words.append(e.as_str());
            Err(words)
        },
        Dispatch::NotClosed(e) => {
            let mut words = "cannot close Hyprland IPC socket: ".to_owned();
            words.append(e.as_str());
            Err(words)
        },
        Dispatch::Sent => Ok(()),
    }
}

/// The command that moves the window.
pub fn move_command(x: i32, y: i32) -> (r: String)
    ensures
        r@ == "dispatch movewindowpixel exact "@ + signed_decimal(x as int) + " "@ + signed_decimal(
            y as int,
        ) + ","@ + WINDOW_SELECTOR@,
{
    let mut r = "dispatch movewindowpixel exact ".to_owned();
    r.append(signed_decimal_text(x as i64).as_str());
    r.append(" ");
    r.append(signed_decimal_text(y as i64).as_str());
    r.append(",");
    r.append(WINDOW_SELECTOR);
    r
}

/// The commands that give the window its place and size where it was tiled.
pub open spec fn geometry_view(side: u32) -> Seq<Seq<char>> {
    seq![
        "dispatch setfloating "@ + WINDOW_SELECTOR@,
        "dispatch resizewindowpixel exact "@ + decimal(side as nat) + " "@ + decimal(side as nat)
            + ","@ + WINDOW_SELECTOR@,
        "dispatch pin "@ + WINDOW_SELECTOR@,
    ]
}

/// The commands that give the window its place and size where it was tiled, to be sent one
/// after the other as long as they succeed.
pub fn geometry_commands(side: u32) -> (r: Vec<String>)
    ensures
        texts(r@) == geometry_view(side),
{
    let mut float = "dispatch setfloating ".to_owned();
    float.append(WINDOW_SELECTOR);
    let mut resize = "dispatch resizewindowpixel exact ".to_owned();
    resize.append(decimal_text(side as u64).as_str());
    resize.append(" ");
    resize.append(decimal_text(side as u64).as_str());
    resize.append(",");
    resize.append(WINDOW_SELECTOR);
    let mut pin = "dispatch pin ".to_owned();
    pin.append(WINDOW_SELECTOR);
    let mut r: Vec<String> = Vec::new();
    r.push(float);
    r.push(resize);
    r.push(pin);
    assert(texts(r@) =~= geometry_view(side));
    r
}

/// How long the viewer waits for the daemon at most, in milliseconds.
pub const CONNECT_PATIENCE_MS: u64 = 60_000;

/// How long it waits before the second attempt, in milliseconds.
pub const FIRST_DELAY_MS: u64 = 500;

/// How long it waits between two attempts at most, in milliseconds.
pub const LONGEST_DELAY_MS: u64 = 5_000;

/// The attempts to connect to the daemon. Times are in milliseconds from some fixed
/// moment.
#[derive(Debug)]
pub struct Backoff {
    pub deadline: u64,
    pub delay: u64,
}

/// The delay after a delay: twice as long, up to a limit.
pub open spec fn next_delay(delay: u64) -> u64 {
    if delay >= 2_500 {
        LONGEST_DELAY_MS
    } else {
        (delay * 2) as u64
    }
}

impl Backoff {
    /// The first attempt is made now.
    pub fn new(now: u64) -> (b: Backoff)
        requires
            now + CONNECT_PATIENCE_MS <= u64::MAX,
        ensures
            b.deadline == now + CONNECT_PATIENCE_MS,
            b.delay == FIRST_DELAY_MS,
    {
        Backoff { deadline: now + CONNECT_PATIENCE_MS, delay: FIRST_DELAY_MS }
    }

    /// An attempt failed: how long to wait before the next one, or that there is none.
    pub fn failed(&mut self, now: u64, detail: &str) -> (r: Result<u64, String>)
        ensures
            now < old(self).deadline ==> r == Result::<u64, String>::Ok(old(self).delay),
            now < old(self).deadline ==> *final(self) == (Backoff {
                deadline: old(self).deadline,
                delay: next_delay(old(self).delay),
            }),
            now >= old(self).deadline ==> (r matches Err(e) && e@
                == "cannot connect to daemon after 60s: "@ + detail@) && *final(self) == *old(self),
    {
        if now < self.deadline {
            let wait: u64 = self.delay;
            self.delay = if wait >= 2_500 {
                LONGEST_DELAY_MS
            } else {
                wait * 2
            };
            Ok(wait)
        } else {
            let mut words = "cannot connect to daemon after 60s: ".to_owned();
            words.append(detail);
            Err(words)
        }
    }
}

/// The delay before attempt `n + 2`.
pub open spec fn delay_after(n: nat) -> u64
    decreases n,
{
    if n == 0 {
        FIRST_DELAY_MS
    } else {
        next_delay(delay_after((n - 1) as nat))
    }
}

/// The delays never become shorter, and stay between half a second and five seconds.
pub proof fn law_delays_grow(n: nat)
    ensures
        FIRST_DELAY_MS <= delay_after(n) <= delay_after(n + 1) <= LONGEST_DELAY_MS,
    decreases n,
{
    if n > 0 {
        law_delays_grow((n - 1) as nat);
    }
}

/// What is said of an attempt to connect that failed.
pub fn connect_error(socket: &str, detail: &str) -> (r: String)
    ensures
        r@ == socket@ + ": "@ + detail@,
{
    let mut r = socket.to_owned();
    r.append(": ");
    r.append(detail);
    r
}

/// How many bytes a reply may take before its line ends.
pub const REPLY_LIMIT: usize = 8_388_608;

/// The position of the first line feed.
pub open spec fn line_end(bytes: Seq<u8>, i: int) -> Option<int>
    decreases bytes.len() - i,
{
    if i < 0 || i >= bytes.len() {
        None
    } else if bytes[i] == 10 {
        Some(i)
    } else {
        line_end(bytes, i + 1)
    }
}

/// What is known of a reply after some bytes.
pub enum ReplyView {
    /// The line has not ended.
    More,
    /// The line.
    Line(Seq<u8>),
    /// The line does not end.
    Broken,
}

/// What is known of a reply after some bytes: the bytes before the first line feed, or
/// that there are too many without one.
pub open spec fn reply_after(bytes: Seq<u8>) -> ReplyView {
    match line_end(bytes, 0) {
        Some(end) => ReplyView::Line(bytes.take(end)),
        None => if bytes.len() > REPLY_LIMIT {
            ReplyView::Broken
        } else {
            ReplyView::More
        },
    }
}

/// What is known of a reply.
#[derive(Debug)]
pub enum ReplyStep {
    More,
    Line(Vec<u8>),
    Broken,
}

impl View for ReplyStep {
    type V = ReplyView;

    open spec fn view(&self) -> ReplyView {
        match self {
            ReplyStep::More => ReplyView::More,
            ReplyStep::Line(line) => ReplyView::Line(line@),
            ReplyStep::Broken => ReplyView::Broken,
        }
    }
}

/// A reply that comes in pieces.
#[derive(Debug)]
pub struct ReplyReader {
    pub buf: Vec<u8>,
}

impl ReplyReader {
    /// Nothing has come yet.
    pub fn new() -> (r: ReplyReader)
        ensures
            r.buf@ == Seq::<u8>::empty(),
    {
        ReplyReader { buf: Vec::new() }
    }

    /// Takes the next piece.
    pub fn feed(&mut self, piece: &Vec<u8>) -> (step: ReplyStep)
        ensures
            final(self).buf@ == old(self).buf@ + piece@,
            step@ == reply_after(final(self).buf@),
    {
        let ghost before = self.buf@;
        let mut k: usize = 0;
        assert(self.buf@ =~= before + piece@.take(0));
        while k < piece.len()
            invariant
                k <= piece@.len(),
                self.buf@ == before + piece@.take(k as int),
            decreases piece@.len() - k,
        {
            self.buf.push(piece[k]);
            k = k + 1;
            assert(self.buf@ =~= before + piece@.take(k as int));
        }
        assert(piece@.take(k as int) =~= piece@);
        let mut line: Vec<u8> = Vec::new();
        let mut i: usize = 0;
        while i < self.buf.len()
            invariant
                i <= self.buf@.len(),
                before == old(self).buf@,
                self.buf@ == before + piece@,
                line@ == self.buf@.take(i as int),
                line_end(self.buf@, 0) == line_end(self.buf@, i as int),
            decreases self.buf@.len() - i,
        {
            if self.buf[i] == 10 {
                return ReplyStep::Line(line);
            }
            line.push(self.buf[i]);
            i = i + 1;
            assert(line@ =~= self.buf@.take(i as int));
        }
        if self.buf.len() > REPLY_LIMIT {
            ReplyStep::Broken
        } else {
            ReplyStep::More
        }
    }
}

proof fn lemma_line_end(bytes: Seq<u8>, i: int, end: int)
    requires
        0 <= i <= end < bytes.len(),
        bytes[end] == 10,
        forall|j: int| i <= j < end ==> bytes[j] != 10,
    ensures
        line_end(bytes, i) == Some(end),
    decreases end - i,
{
    if i < end {
        lemma_line_end(bytes, i + 1, end);
    }
}

proof fn lemma_no_line_end(bytes: Seq<u8>, i: int)
    requires
        0 <= i,
        forall|j: int| i <= j < bytes.len() ==> bytes[j] != 10,
    ensures
        line_end(bytes, i) is None,
    decreases bytes.len() - i,
{
    if i < bytes.len() {
        lemma_no_line_end(bytes, i + 1);
    }
}

/// In whatever pieces a reply comes, its line is read: with less than the whole line the
/// reader asks for more, and with all of it, whatever follows, it gives the line.
pub proof fn law_replies_are_read_in_pieces(line: Seq<u8>, after: Seq<u8>, n: int)
    requires
        !line.contains(10u8),
        line.len() <= REPLY_LIMIT,
        0 <= n,
    ensures
        n <= line.len() ==> reply_after(line.take(n)) is More,
        reply_after(line.push(10u8) + after) == ReplyView::Line(line),
{
    assert forall|j: int| 0 <= j < line.len() implies line[j] != 10 by {
        assert(line.contains(line[j]));
    }
    if n <= line.len() {
        lemma_no_line_end(line.take(n), 0);
    }
    let all = line.push(10u8) + after;
    lemma_line_end(all, 0, line.len() as int);
    assert(all.take(line.len() as int) =~= line);
}

/// The bytes of the picture in a reply, where there is one.
pub open spec fn picture_bytes(json: JsonView) -> Option<Seq<u8>> {
    match member_text(json, "response"@) {
        Some(text) => if occurs_at(text, PICTURE_PREFIX@, 0) {
            match base64_bytes(text.skip(PICTURE_PREFIX@.len() as int)) {
                Ok(bytes) => Some(bytes),
                Err(_) => None,
            }
        } else {
            None
        },
        None => None,
    }
}

/// The bytes of the picture in a reply that was read.
pub open spec fn polled(document: Document) -> Option<Seq<u8>> {
    match document {
        Ok(json) => picture_bytes(json),
        Err(_) => None,
    }
}

/// Bytes that may be there.
pub open spec fn optional_bytes(b: Option<Vec<u8>>) -> Option<Seq<u8>> {
    match b {
        Some(bytes) => Some(bytes@),
        None => None,
    }
}

/// The bytes of the picture in a reply, given what reading the reply gave.
pub fn frame_from(document: &Result<Json, String>) -> (r: Option<Vec<u8>>)
    ensures
        optional_bytes(r) == polled(result_view(*document)),
{
    let json = match document {
        Ok(json) => json,
        Err(_) => {
            return None;
        },
    };
    let text = json.get_text("response")?;
    if !starts_with(text.as_str(), PICTURE_PREFIX) {
        return None;
    }
    let from: usize = PICTURE_PREFIX.unicode_len();
    let to: usize = text.as_str().unicode_len();
    let encoded = slice(text.as_str(), from, to);
    assert(encoded@ =~= text@.skip(from as int));
    match decode_standard(encoded.as_str()) {
        Ok(bytes) => Some(bytes),
        Err(_) => None,
    }
}

/// The bytes of the picture in the line of a reply.
pub fn poll_frame(line: &Vec<u8>) -> (r: Option<Vec<u8>>)
    ensures
        optional_bytes(r) == polled(json_slice_document(line@)),
{
    frame_from(&parse_bytes(line.as_slice()))
}

/// The picture in a file, where it is one.
pub fn decode_png(data: &Vec<u8>) -> (r: Option<Frame>)
    ensures
        match r {
            Some(f) => any_picture(data@) == Result::<_, Seq<char>>::Ok(f@) && well_formed(f@),
            None => any_picture(data@) is Err,
        },
{
    match load_any(data.as_slice()) {
        Ok(f) => Some(f),
        Err(_) => None,
    }
}

/// The answer in a reply that was read.
pub open spec fn reply_text(document: Document) -> Option<Seq<char>> {
    match document {
        Ok(json) => member_text(json, "response"@),
        Err(_) => None,
    }
}

/// The answer in a reply, given what reading the reply gave.
pub fn answer_from(document: &Result<Json, String>) -> (r: Option<String>)
    ensures
        text_view(r) == reply_text(result_view(*document)),
{
    match document {
        Ok(json) => json.get_text("response"),
        Err(_) => None,
    }
}

/// The answer in the line of a reply.
pub fn ask_daemon(line: &Vec<u8>) -> (r: Option<String>)
    ensures
        text_view(r) == reply_text(json_slice_document(line@)),
{
    answer_from(&parse_bytes(line.as_slice()))
}

/// The viewer sees the frame that the sprite shows: from the bytes of the line by which
/// the daemon answers with a picture, the viewer gets that picture.
pub proof fn law_viewer_sees_the_frame(
    line: Seq<char>,
    sent: Seq<char>,
    success: bool,
    after: Seq<u8>,
    f: FrameView,
)
    requires
        carries(line, result_document(PICTURE_PREFIX@ + sent, success)),
        picture_in(sent) == Some(f),
    ensures
        reply_after(encode_utf8(line) + after) == ReplyView::Line(encode_utf8(line.drop_last())),
        polled(json_slice_document(encode_utf8(line.drop_last()))) matches Some(bytes)
            && any_picture(bytes) == Result::<_, Seq<char>>::Ok(f),
{
    let text = line.drop_last();
    lemma_bytes_of_line(line, after);
    let output = PICTURE_PREFIX@ + sent;
    let json = result_document(output, success);
    reveal_strlit("response");
    reveal_strlit("success");
    assert("response"@.len() != "success"@.len());
    assert(member_text(json, "response"@) == Some(output));
    assert(output.subrange(0, PICTURE_PREFIX@.len() as int) =~= PICTURE_PREFIX@);
    assert(output.skip(PICTURE_PREFIX@.len() as int) =~= sent);
}

proof fn lemma_bytes_of_line(line: Seq<char>, after: Seq<u8>)
    requires
        line.len() > 0,
        line.last() == '\n',
        !line.drop_last().contains('\n'),
    ensures
        reply_after(encode_utf8(line) + after) == ReplyView::Line(encode_utf8(line.drop_last())),
{
    let text = line.drop_last();
    lemma_no_newline_byte(text);
    assert(line =~= text + seq!['\n']);
    lemma_encode_concat(text, seq!['\n']);
    assert(encode_utf8(seq!['\n']) =~= seq![10u8]) by {
        reveal_with_fuel(encode_utf8, 2);
        assert(('\n' as u32) == 10);
        assert((10u32 & 0x7F) as u8 == 10u8) by (bit_vector);
        assert(seq!['\n'].drop_first() =~= Seq::<char>::empty());
    }
    let bytes = encode_utf8(text);
    assert(encode_utf8(line) =~= bytes.push(10u8));
    let all = bytes.push(10u8) + after;
    assert forall|j: int| 0 <= j < bytes.len() implies bytes[j] != 10 by {
        assert(bytes.contains(bytes[j]));
    }
    lemma_line_end(all, 0, bytes.len() as int);
    assert(all.take(bytes.len() as int) =~= bytes);
}

/// The viewer reads the answer that the daemon sends.
pub proof fn law_viewer_reads_the_answer(line: Seq<char>, response: Seq<char>, after: Seq<u8>)
    requires
        carries(line, crate::protocol::answer_document(response)),
    ensures
        reply_after(encode_utf8(line) + after) == ReplyView::Line(encode_utf8(line.drop_last())),
        reply_text(json_slice_document(encode_utf8(line.drop_last()))) == Some(response),
{
    lemma_bytes_of_line(line, after);
}

} // verus!
