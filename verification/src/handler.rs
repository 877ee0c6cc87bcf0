//! One connection: lines come in, reply lines go out.
//!
//! The caller owns the socket. It reads a line, hands it to [`handle`], writes
//! the lines it gets back in their order, and reads again while the
//! connection is [`Connection::Reading`].

use vstd::prelude::*;
use crate::message::{
    law_decoding_undoes_encoding, message_json, message_of, DecodeError, Message, MessageView,
    Origin, OriginView,
};
use crate::routing::{
    build_dst, canned_reply, destination, messages_view, replies, reply, shown,
};
use crate::wire::{json_parse, json_text, parse, render, Unwritable};

verus! {

/// The state of a connection.
#[derive(Debug, Clone, Copy, PartialEq, Eq)]
pub enum Connection {
    /// Waiting for the next line.
    Reading,
    /// Done: the peer closed the stream, or the connection failed.
    Closed,
}

/// What a read on the socket, or the writes before it, came to.
#[derive(Debug, PartialEq, Eq)]
pub enum Event {
    /// A line was read, with its delimiter if the stream did not end first.
    Line(String),
    /// The read gave no bytes: the peer closed the stream.
    End,
    /// The read or a write failed.
    Broken,
}

/// What there is to report of a step.
#[derive(Debug, PartialEq, Eq)]
pub enum Notice {
    /// Nothing.
    Quiet,
    /// The line gave no message and was dropped.
    Rejected(DecodeError),
    /// No reply can be routed to this sender.
    Unroutable(Origin),
    /// A reply could not be written as JSON.
    Unwritable,
}

/// What the caller does next.
#[derive(Debug, PartialEq, Eq)]
pub struct Step {
    /// The state after the step.
    pub next: Connection,
    /// The lines to write, in order, before the next read.
    pub output: Vec<String>,
    /// What to log.
    pub notice: Notice,
}

/// What an [`Event`] denotes.
pub ghost enum EventView {
    Line(Seq<char>),
    End,
    Broken,
}

/// What a [`Notice`] denotes.
pub ghost enum NoticeView {
    Quiet,
    Rejected(DecodeError),
    Unroutable(OriginView),
    Unwritable,
}

/// What a [`Step`] denotes.
pub ghost struct StepView {
    pub next: Connection,
    pub output: Seq<Seq<char>>,
    pub notice: NoticeView,
}

/// The text of each of `lines`, in order.
pub open spec fn lines_view(lines: Seq<String>) -> Seq<Seq<char>> {
    lines.map_values(|line: String| line@)
}

impl View for Event {
    type V = EventView;

    open spec fn view(&self) -> EventView {
        match self {
            Event::Line(line) => EventView::Line(line@),
            Event::End => EventView::End,
            Event::Broken => EventView::Broken,
        }
    }
}

impl View for Notice {
    type V = NoticeView;

    open spec fn view(&self) -> NoticeView {
        match self {
            Notice::Quiet => NoticeView::Quiet,
            Notice::Rejected(error) => NoticeView::Rejected(*error),
            Notice::Unroutable(from) => NoticeView::Unroutable(from@),
            Notice::Unwritable => NoticeView::Unwritable,
        }
    }
}

impl View for Step {
    type V = StepView;

    open spec fn view(&self) -> StepView {
        StepView { next: self.next, output: lines_view(self.output@), notice: self.notice@ }
    }
}

/// A line without the newline that ends it, if one does.
pub open spec fn stripped(line: Seq<char>) -> Seq<char> {
    if line.len() > 0 && line.last() == '\n' {
        line.drop_last()
    } else {
        line
    }
}

/// The message on a line.
pub open spec fn line_message(line: Seq<char>) -> Result<MessageView, DecodeError> {
    match json_parse(stripped(line)) {
        Some(value) => message_of(value),
        None => Err(DecodeError::Syntax),
    }
}

/// The line that carries `message`: its JSON text and a newline; `None`
/// where the text cannot be written.
pub open spec fn framed(message: MessageView) -> Option<Seq<char>> {
    match json_text(message_json(message)) {
        Some(text) => Some(text.push('\n')),
        None => None,
    }
}

/// The lines that carry `messages`, in order, up to the first that cannot be
/// written, and whether all could.
pub open spec fn frames(messages: Seq<MessageView>) -> (Seq<Seq<char>>, bool)
    decreases messages.len(),
{
    if messages.len() == 0 {
        (Seq::empty(), true)
    } else {
        let (lines, complete) = frames(messages.drop_last());
        match framed(messages.last()) {
            Some(line) if complete => (lines.push(line), true),
            _ => (lines, false),
        }
    }
}

/// What a line leads to on a connection that is reading. A line that gives
/// no message is dropped, and so is a message whose sender has no
/// destination. The replies to any other are written out, each on its line;
/// where one cannot be written the connection closes.
pub open spec fn line_step(line: Seq<char>) -> StepView {
    match line_message(line) {
        Err(error) => StepView {
            next: Connection::Reading,
            output: Seq::empty(),
            notice: NoticeView::Rejected(error),
        },
        Ok(message) => match (destination(message.from), replies(message)) {
            (None, _) => StepView {
                next: Connection::Reading,
                output: Seq::empty(),
                notice: NoticeView::Unroutable(message.from),
            },
            (Some(_), Some(answers)) => if frames(answers).1 {
                StepView {
                    next: Connection::Reading,
                    output: frames(answers).0,
                    notice: NoticeView::Quiet,
                }
            } else {
                StepView {
                    next: Connection::Closed,
                    output: frames(answers).0,
                    notice: NoticeView::Unwritable,
                }
            },
            (Some(_), None) => StepView {
                next: Connection::Closed,
                output: Seq::empty(),
                notice: NoticeView::Unwritable,
            },
        },
    }
}

/// What an event leads to. A line is worked on while reading; the end of the
/// stream and a failure close the connection; once closed it stays closed.
pub open spec fn step(state: Connection, event: EventView) -> StepView {
    match (state, event) {
        (Connection::Reading, EventView::Line(line)) => line_step(line),
        _ => StepView {
            next: Connection::Closed,
            output: Seq::empty(),
            notice: NoticeView::Quiet,
        },
    }
}

/// Once the lines of a beginning stop short, those of the whole are the same.
pub proof fn lemma_frames_stop(messages: Seq<MessageView>, upto: int)
    requires
        0 <= upto <= messages.len(),
        !frames(messages.take(upto)).1,
    ensures
        frames(messages) == frames(messages.take(upto)),
    decreases messages.len() - upto,
{
    if upto == messages.len() {
        assert(messages.take(upto) =~= messages);
    } else {
        assert(messages.drop_last().take(upto) =~= messages.take(upto));
        lemma_frames_stop(messages.drop_last(), upto);
    }
}

/// The lines are no more than the messages, and each ends in a newline.
pub proof fn lemma_frames_shape(messages: Seq<MessageView>)
    ensures
        frames(messages).0.len() <= messages.len(),
        frames(messages).1 ==> frames(messages).0.len() == messages.len(),
        forall|i: int|
            0 <= i < frames(messages).0.len() ==> (#[trigger] frames(messages).0[i]).len() > 0
                && frames(messages).0[i].last() == '\n',
    decreases messages.len(),
{
    if messages.len() > 0 {
        lemma_frames_shape(messages.drop_last());
    }
}

/// A line that gives no message is dropped: nothing is written, and the
/// connection goes on reading.
pub proof fn law_bad_line_is_skipped(line: Seq<char>)
    requires
        line_message(line) is Err,
    ensures
        step(Connection::Reading, EventView::Line(line)).next == Connection::Reading,
        step(Connection::Reading, EventView::Line(line)).output.len() == 0,
        step(Connection::Reading, EventView::Line(line)).notice == NoticeView::Rejected(
            line_message(line)->Err_0,
        ),
{
}

/// A line that gives no message leaves no trace: the line after it is worked
/// on as if it had come first.
pub proof fn law_line_after_bad_line_is_worked_on(bad: Seq<char>, after: Seq<char>)
    requires
        line_message(bad) is Err,
    ensures
        step(step(Connection::Reading, EventView::Line(bad)).next, EventView::Line(after))
            == step(Connection::Reading, EventView::Line(after)),
{
}

/// A message whose sender has no destination is not answered: nothing is
/// written, and the connection goes on reading.
pub proof fn law_unroutable_line_is_not_answered(line: Seq<char>)
    requires
        line_message(line) matches Ok(message) && destination(message.from) is None,
    ensures
        step(Connection::Reading, EventView::Line(line)).next == Connection::Reading,
        step(Connection::Reading, EventView::Line(line)).output.len() == 0,
        step(Connection::Reading, EventView::Line(line)).notice == NoticeView::Unroutable(
            line_message(line)->Ok_0.from,
        ),
{
}

/// A message from a private chat whose reply can be written is answered with
/// one line, the canned reply to that chat, and the connection goes on
/// reading.
pub proof fn law_private_chat_gets_one_line(
    line: Seq<char>,
    message: MessageView,
    chat_id: i64,
    text: Seq<char>,
    answer: Seq<char>,
)
    requires
        line_message(line) == Ok::<MessageView, DecodeError>(message),
        message.from == (OriginView::Tg { chat_id, user_id: Some(chat_id) }),
        shown(message.text) == Some(text),
        framed(canned_reply(OriginView::Tg { chat_id, user_id: None }, text)) == Some(answer),
    ensures
        step(Connection::Reading, EventView::Line(line)) == (StepView {
            next: Connection::Reading,
            output: seq![answer],
            notice: NoticeView::Quiet,
        }),
{
    let answers = replies(message)->0;
    assert(answers.drop_last() =~= Seq::<MessageView>::empty());
    assert(frames(answers.drop_last()) == (Seq::<Seq<char>>::empty(), true));
    assert(frames(answers).0 =~= seq![answer]);
}

/// Where the JSON text written for a message reads back as the value it was
/// written for, the message is read back from its line.
pub proof fn law_line_is_read_back(message: MessageView, text: Seq<char>)
    requires
        json_text(message_json(message)) == Some(text),
        json_parse(text) == Some(message_json(message)),
    ensures
        framed(message) == Some(text.push('\n')),
        line_message(text.push('\n')) == Ok::<MessageView, DecodeError>(message),
{
    assert(stripped(text.push('\n')) =~= text);
    law_decoding_undoes_encoding(message);
}

/// A line is answered with one line at most, and every line written ends in
/// a newline.
pub proof fn law_output_is_at_most_one_line(state: Connection, event: EventView)
    ensures
        step(state, event).output.len() <= 1,
        forall|i: int|
            0 <= i < step(state, event).output.len() ==> (#[trigger] step(
                state,
                event,
            ).output[i]).len() > 0 && step(state, event).output[i].last() == '\n',
{
    if let (Connection::Reading, EventView::Line(line)) = (state, event) {
        if let Ok(message) = line_message(line) {
            if let Some(answers) = replies(message) {
                lemma_frames_shape(answers);
            }
        }
    }
}

/// The connection closes when the stream ends or fails, and a closed
/// connection stays closed and writes nothing.
pub proof fn law_closed_is_final(state: Connection, event: EventView)
    requires
        state == Connection::Closed || !(event is Line),
    ensures
        step(state, event).next == Connection::Closed,
        step(state, event).output.len() == 0,
{
}

/// The line without the newline that ends it, if one does.
pub fn strip_delimiter(line: &str) -> (r: &str)
    ensures
        r@ == stripped(line@),
{
    let n = line.unicode_len();
    if n > 0 && line.get_char(n - 1) == '\n' {
        let r = line.substring_char(0, n - 1);
        assert(r@ =~= line@.drop_last());
        r
    } else {
        line
    }
}

/// Reads the message on a line.
pub fn decode_line(line: &str) -> (r: Result<Message, DecodeError>)
    ensures
        r matches Ok(message) ==> line_message(line@) == Ok::<MessageView, DecodeError>(
            message@,
        ),
        r matches Err(error) ==> line_message(line@) == Err::<MessageView, DecodeError>(error),
{
    match parse(strip_delimiter(line)) {
        Ok(json) => Message::decode(&json),
        Err(_) => Err(DecodeError::Syntax),
    }
}

/// Ends `text` with a newline.
pub fn frame(text: String) -> (line: String)
    ensures
        line@ == text@.push('\n'),
{
    let mut line = text;
    line.append("\n");
    proof {
        reveal_strlit("\n");
        assert(line@ =~= text@.push('\n'));
    }
    line
}

/// Writes the line that carries `message`.
pub fn encode_line(message: &Message) -> (r: Result<String, Unwritable>)
    ensures
        r matches Ok(line) ==> framed(message@) == Some(line@),
        r is Err ==> framed(message@) is None,
{
    match render(&message.encode()) {
        Ok(text) => Ok(frame(text)),
        Err(error) => Err(error),
    }
}

/// Writes the lines that carry `messages`, in order, and stops at the first
/// that cannot be written.
pub fn encode_lines(messages: &Vec<Message>) -> (r: (Vec<String>, bool))
    ensures
        (lines_view(r.0@), r.1) == frames(messages_view(messages@)),
{
    let mut lines: Vec<String> = Vec::new();
    let mut i: usize = 0;
    assert(lines_view(lines@) =~= Seq::<Seq<char>>::empty());
    assert(messages_view(messages@).take(0) =~= Seq::<MessageView>::empty());
    while i < messages.len()
        invariant
            i <= messages.len(),
            (lines_view(lines@), true) == frames(messages_view(messages@).take(i as int)),
        decreases messages.len() - i,
    {
        let ghost all = messages_view(messages@);
        proof {
            assert(all.take(i + 1).drop_last() =~= all.take(i as int));
            assert(all.take(i + 1).last() == messages@[i as int]@);
        }
        match encode_line(&messages[i]) {
            Ok(line) => {
                proof {
                    assert(lines_view(lines@.push(line)) =~= lines_view(lines@).push(line@));
                }
                lines.push(line);
            },
            Err(_) => {
                proof {
                    lemma_frames_stop(all, i + 1);
                }
                return (lines, false);
            },
        }
        i = i + 1;
    }
    proof {
        assert(messages_view(messages@).take(i as int) =~= messages_view(messages@));
    }
    (lines, true)
}

/// Works on one line of a connection that is reading.
pub fn handle_line(line: &str) -> (taken: Step)
    ensures
        taken@ == line_step(line@),
{
    let quiet: Vec<String> = Vec::new();
    assert(lines_view(quiet@) =~= Seq::<Seq<char>>::empty());
    match decode_line(line) {
        Err(error) => Step {
            next: Connection::Reading,
            output: quiet,
            notice: Notice::Rejected(error),
        },
        Ok(message) => match reply(&message) {
            Err(_) => Step { next: Connection::Closed, output: quiet, notice: Notice::Unwritable },
            Ok(answers) => match build_dst(&message.from) {
                None => Step {
                    next: Connection::Reading,
                    output: quiet,
                    notice: Notice::Unroutable(message.from),
                },
                Some(_) => {
                    let (output, complete) = encode_lines(&answers);
                    if complete {
                        Step { next: Connection::Reading, output, notice: Notice::Quiet }
                    } else {
                        Step { next: Connection::Closed, output, notice: Notice::Unwritable }
                    }
                },
            },
        },
    }
}

/// Takes one step of a connection.
pub fn handle(state: Connection, event: Event) -> (taken: Step)
    ensures
        taken@ == step(state, event@),
{
    match (state, event) {
        (Connection::Reading, Event::Line(line)) => handle_line(line.as_str()),
        _ => {
            let output: Vec<String> = Vec::new();
            assert(lines_view(output@) =~= Seq::<Seq<char>>::empty());
            Step { next: Connection::Closed, output, notice: Notice::Quiet }
        },
    }
}

} // verus!
