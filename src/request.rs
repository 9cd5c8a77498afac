//! A completion request and the prompt it makes.

use vstd::prelude::*;
use vstd::string::*;
use crate::entities::ApiCaller;

verus! {

/// One message of a conversation; `content` is absent where the message
/// carries no text.
#[derive(Debug)]
pub struct ChatMessage {
    pub role: String,
    pub content: Option<String>,
}

/// A chat-completion request, with its defaults already applied.
#[derive(Debug)]
pub struct CompletionRequest {
    pub model: String,
    pub messages: Vec<ChatMessage>,
    pub n: u32,
    pub caller: ApiCaller,
}

/// The texts of the messages that carry one, in order.
pub open spec fn message_texts(m: Seq<ChatMessage>) -> Seq<Seq<char>>
    decreases m.len(),
{
    if m.len() == 0 {
        Seq::empty()
    } else {
        match m.last().content {
            Some(c) => message_texts(m.drop_last()).push(c@),
            None => message_texts(m.drop_last()),
        }
    }
}

/// Texts joined by newlines.
pub open spec fn join_lines(s: Seq<Seq<char>>) -> Seq<char>
    decreases s.len(),
{
    if s.len() == 0 {
        Seq::empty()
    } else if s.len() == 1 {
        s[0]
    } else {
        join_lines(s.drop_last()) + "\n"@ + s.last()
    }
}

/// The prompt of a conversation: the texts of its messages, joined by newlines.
pub open spec fn prompt_of(m: Seq<ChatMessage>) -> Seq<char> {
    join_lines(message_texts(m))
}

/// Builds the prompt of a conversation.
pub fn build_prompt(messages: &Vec<ChatMessage>) -> (p: String)
    ensures
        p@ == prompt_of(messages@),
{
    let mut p = String::new();
    let mut any: bool = false;
    let mut i: usize = 0;
    while i < messages.len()
        invariant
            i <= messages.len(),
            any == (message_texts(messages@.subrange(0, i as int)).len() > 0),
            p@ == join_lines(message_texts(messages@.subrange(0, i as int))),
        decreases messages.len() - i,
    {
        let ghost s = messages@.subrange(0, i as int + 1);
        assert(s.drop_last() =~= messages@.subrange(0, i as int));
        assert(s.last() == messages@[i as int]);
        match &messages[i].content {
            Some(c) => {
                if any {
                    p.append("\n");
                }
                p.append(c.as_str());
                proof {
                    let t = message_texts(s);
                    assert(t.drop_last() =~= message_texts(messages@.subrange(0, i as int)));
                    if !any {
                        assert(t.len() == 1);
                    }
                }
                any = true;
            },
            None => {},
        }
        i = i + 1;
    }
    assert(messages@.subrange(0, messages.len() as int) =~= messages@);
    p
}

} // verus!
