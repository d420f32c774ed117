//! Message endpoints: recent messages, and sending one.
use vstd::prelude::*;
use crate::database::MessageDoc;
use crate::message::Message;

verus! {

/// Messages API module.
pub struct Messages;

/// The query of the recent-messages endpoint.
#[derive(Debug)]
pub struct GetMessagesQuery {
    pub since: Option<i64>,
}

impl Messages {
    /// The time from which messages are returned: the query's, else one hour before `now`.
    pub fn since(query: &GetMessagesQuery, now: i64) -> (since: i64)
        requires
            query.since is None ==> now >= i64::MIN + 3600,
        ensures
            since == match query.since { Some(s) => s as int, None => now - 3600 },
    {
        match query.since {
            Some(s) => s,
            None => now - 3600,
        }
    }

    /// The stored messages as chat messages, in the same order.
    pub fn get_recent_messages(messages: Vec<MessageDoc>) -> (r: Vec<Message>)
        ensures
            r@.len() == messages@.len(),
            forall|i: int| 0 <= i < messages@.len() ==> #[trigger] r@[i] == (Message::Chat { content: messages@[i].content }),
    {
        let ghost all = messages@;
        let mut rest = messages;
        let mut r: Vec<Message> = Vec::new();
        let n = rest.len();
        let mut i: usize = 0;
        while i < n
            invariant
                n == all.len(),
                i <= n,
                rest@ == all.skip(i as int),
                r@.len() == i,
                forall|j: int| 0 <= j < i ==> #[trigger] r@[j] == (Message::Chat { content: all[j].content }),
            decreases n - i,
        {
            let m = rest.remove(0);
            assert(m == all[i as int]);
            r.push(Message::Chat { content: m.content });
            assert(rest@ =~= all.skip(i + 1));
            i = i + 1;
        }
        r
    }

    /// What a sent message stores: a chat message's content; other messages store nothing.
    pub fn send_message(message: &Message) -> (content: Option<String>)
        ensures
            match *message {
                Message::Chat { content: c } => content == Some(c),
                _ => content is None,
            },
    {
        match message {
            Message::Chat { content } => Some(content.clone()),
            _ => None,
        }
    }
}

} // verus!
