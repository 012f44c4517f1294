//! The transcript of a conversation and the decisions of the turn loop.
//!
//! A turn appends the user's message, hands the transcript to the completion
//! client, and then records the reply, if one came, and says what to print.

use vstd::prelude::*;
use crate::chat::{describes, fallback_model, fallback_text, assistant_role, reply_for, CustomError, Message, MessageModel};
use crate::text::{trim_input, trimmed};

verus! {

pub open spec fn system_role() -> Seq<char> {
    "system"@
}

pub open spec fn user_role() -> Seq<char> {
    "user"@
}

pub open spec fn preamble_text() -> Seq<char> {
    "You are ChatGPT, a large language model trained by OpenAI."@
}

/// The system message that opens every transcript.
pub open spec fn preamble_model() -> MessageModel {
    MessageModel { role: system_role(), content: preamble_text() }
}

pub open spec fn user_model(text: Seq<char>) -> MessageModel {
    MessageModel { role: user_role(), content: text }
}

pub open spec fn transcript_view(v: Seq<Message>) -> Seq<MessageModel> {
    v.map_values(|m: Message| m@)
}

/// A transcript opens with the system preamble.
pub open spec fn well_formed(t: Seq<MessageModel>) -> bool {
    t.len() >= 1 && t[0] == preamble_model()
}

/// The transcript once the user's message `text` is appended.
pub open spec fn after_user(t: Seq<MessageModel>, text: Seq<char>) -> Seq<MessageModel> {
    t.push(user_model(text))
}

/// The reply that a completion outcome records, if any.
pub open spec fn outcome_model(r: Result<Message, CustomError>) -> Option<MessageModel> {
    match r {
        Ok(m) => Some(m@),
        Err(_) => None,
    }
}

/// The transcript once the outcome of a request is recorded.
pub open spec fn after_reply(t: Seq<MessageModel>, reply: Option<MessageModel>) -> Seq<MessageModel> {
    match reply {
        Some(m) => t.push(m),
        None => t,
    }
}

/// One whole turn: the user's message, then the outcome of the request.
pub open spec fn after_turn(
    t: Seq<MessageModel>,
    text: Seq<char>,
    reply: Option<MessageModel>,
) -> Seq<MessageModel> {
    after_reply(after_user(t, text), reply)
}

/// Any number of turns, each an input and the outcome of its request.
pub open spec fn after_turns(
    t: Seq<MessageModel>,
    turns: Seq<(Seq<char>, Option<MessageModel>)>,
) -> Seq<MessageModel>
    decreases turns.len(),
{
    if turns.len() == 0 {
        t
    } else {
        after_turns(after_turn(t, turns[0].0, turns[0].1), turns.drop_first())
    }
}

/// What a completion outcome writes to standard output.
pub open spec fn printed_line(r: Result<Message, CustomError>) -> Option<Seq<char>> {
    match r {
        Ok(m) => Some(m.content@),
        Err(_) => None,
    }
}

pub open spec fn text_of(o: Option<String>) -> Option<Seq<char>> {
    match o {
        Some(s) => Some(s@),
        None => None,
    }
}

/// A fresh transcript: the system preamble alone.
pub fn new_transcript() -> (r: Vec<Message>)
    ensures
        transcript_view(r@) == seq![preamble_model()],
        well_formed(transcript_view(r@)),
{
    let preamble = Message {
        role: String::from_str("system"),
        content: String::from_str("You are ChatGPT, a large language model trained by OpenAI."),
    };
    let r = vec![preamble];
    assert(transcript_view(r@) =~= seq![preamble_model()]);
    r
}

/// Appends the user's message `input` to the transcript.
pub fn begin_turn(messages: &mut Vec<Message>, input: &str)
    ensures
        transcript_view(final(messages)@) == after_user(transcript_view(old(messages)@), input@),
{
    let m = Message { role: String::from_str("user"), content: String::from_str(input) };
    messages.push(m);
    assert(transcript_view(final(messages)@) =~= after_user(transcript_view(old(messages)@), input@));
}

/// What a turn writes: the reply to standard output, or an error line to the error stream.
pub struct TurnReport {
    pub stdout: Option<String>,
    pub stderr: Option<String>,
}

/// Records the outcome of a request: a reply is appended to the transcript and
/// printed; a failure leaves the transcript as it is and is reported on the
/// error stream.
pub fn finish_turn(messages: &mut Vec<Message>, reply: Result<Message, CustomError>) -> (r: TurnReport)
    ensures
        transcript_view(final(messages)@) == after_reply(transcript_view(old(messages)@), outcome_model(reply)),
        text_of(r.stdout) == printed_line(reply),
        match reply {
            Ok(_) => r.stderr is None,
            Err(e) => r.stderr is Some && exists|d: Seq<char>|
                #[trigger] describes(e, d) && r.stderr->Some_0@ == "Error: "@ + d,
        },
{
    match reply {
        Ok(m) => {
            let out = m.content.clone();
            messages.push(m);
            assert(transcript_view(final(messages)@) =~= after_reply(transcript_view(old(messages)@), outcome_model(reply)));
            TurnReport { stdout: Some(out), stderr: None }
        },
        Err(e) => {
            let d = e.describe();
            let line = String::from_str("Error: ").concat(d.as_str());
            assert(describes(e, d@));
            TurnReport { stdout: None, stderr: Some(line) }
        },
    }
}

/// What the interactive loop does with a line it has read.
pub enum LoopStep {
    /// The sentinel was typed: stop without sending anything.
    Exit,
    /// Send this text, the line without its surrounding whitespace.
    Send(String),
}

/// The line ends the interactive loop: once trimmed, it is exactly "exit".
pub open spec fn is_sentinel(line: Seq<char>) -> bool {
    trimmed(line) == "exit"@
}

/// Decides what the interactive loop does with what it read: `None` is the end
/// of the input, which ends the loop as the sentinel does.
pub fn next_step(line: Option<&str>) -> (r: LoopStep)
    ensures
        match line {
            None => r is Exit,
            Some(l) => {
                &&& is_sentinel(l@) ==> r is Exit
                &&& !is_sentinel(l@) ==> r is Send && r->Send_0@ == trimmed(l@)
            },
        },
{
    match line {
        None => LoopStep::Exit,
        Some(l) => {
            let input = trim_input(l);
            let sentinel = String::from_str("exit");
            if input == sentinel {
                LoopStep::Exit
            } else {
                LoopStep::Send(input)
            }
        },
    }
}

/// A turn whose request succeeds with `reply` leaves the transcript as it was,
/// then the user's message, then the reply, in that order.
pub proof fn lemma_successful_turn(t: Seq<MessageModel>, text: Seq<char>, reply: MessageModel)
    ensures
        after_turn(t, text, Some(reply)) == t + seq![user_model(text), reply],
{
    assert(after_turn(t, text, Some(reply)) =~= t + seq![user_model(text), reply]);
}

/// A response with no choices gives the assistant's fallback reply, and the
/// turn records it after the user's message.
pub proof fn lemma_empty_choices_turn(t: Seq<MessageModel>, text: Seq<char>)
    ensures
        reply_for(Seq::empty()).role == assistant_role(),
        reply_for(Seq::empty()).content == fallback_text(),
        after_turn(t, text, Some(reply_for(Seq::empty())))
            == t + seq![user_model(text), fallback_model()],
{
    lemma_successful_turn(t, text, fallback_model());
}

/// A turn whose request fails leaves the user's message unanswered at the end
/// of the transcript, and prints nothing to standard output.
pub proof fn lemma_failed_turn(t: Seq<MessageModel>, text: Seq<char>, e: CustomError)
    ensures
        after_turn(t, text, outcome_model(Err(e))) == t.push(user_model(text)),
        printed_line(Err(e)) is None,
{
}

/// However many turns are taken, whatever their outcomes, the transcript keeps
/// everything it held before, so it still opens with the system preamble.
pub proof fn lemma_preamble_kept(t: Seq<MessageModel>, turns: Seq<(Seq<char>, Option<MessageModel>)>)
    requires
        well_formed(t),
    ensures
        well_formed(after_turns(t, turns)),
        after_turns(t, turns).len() >= t.len(),
        after_turns(t, turns).subrange(0, t.len() as int) == t,
    decreases turns.len(),
{
    if turns.len() > 0 {
        let next = after_turn(t, turns[0].0, turns[0].1);
        assert(next.subrange(0, t.len() as int) =~= t);
        lemma_preamble_kept(next, turns.drop_first());
        let last = after_turns(next, turns.drop_first());
        assert(last.subrange(0, t.len() as int) =~= last.subrange(0, next.len() as int).subrange(0, t.len() as int));
    }
}

} // verus!
