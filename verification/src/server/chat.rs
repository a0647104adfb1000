//! Chat messages of events: posting one counts it on its event, deleting
//! one hides it.

use vstd::prelude::*;

use crate::server::events::{count_chat_message, event_at};
use crate::server::records::{Keyed, find_keyed, key_at};
use crate::server::restream::{ChatMessage, Event, clone_opt};
use crate::server::api_v1::{csv_cell, csv_escape};
use crate::text::{decimal, decimal_string, owned};

verus! {

impl Keyed for ChatMessage {
    open spec fn key(&self) -> Seq<char> {
        self.id@
    }

    fn key_str(&self) -> (r: &str) {
        self.id.as_str()
    }
}


impl ChatMessage {
    /// A copy with the same fields.
    pub fn duplicate(&self) -> (r: ChatMessage)
        ensures
            r == *self,
    {
        ChatMessage {
            id: self.id.clone(),
            event_id: self.event_id.clone(),
            destination_id: clone_opt(&self.destination_id),
            author_name: self.author_name.clone(),
            author_id: clone_opt(&self.author_id),
            message: self.message.clone(),
            kind: self.kind.clone(),
            reply_to: clone_opt(&self.reply_to),
            created_at: self.created_at,
            deleted: self.deleted,
        }
    }
}

/// Posts message `id` to an event's chat at `now` and counts it on the
/// event (a count at its maximum stays there). An event that does not exist
/// gets no message: `event not found`.
pub fn add_chat_message(
    chat: &mut Vec<ChatMessage>,
    events: &mut Vec<Event>,
    id: &str,
    now: u64,
    event_id: String,
    destination_id: Option<String>,
    author_name: String,
    author_id: Option<String>,
    message: String,
    kind: String,
    reply_to: Option<String>,
) -> (r: Result<ChatMessage, String>)
    ensures
        ({
            let es = old(events)@;
            let k = event_at(es, event_id@, 0);
            if k == -1 {
                &&& r matches Err(e) && e@ == "event not found"@
                &&& final(chat)@ == old(chat)@
                &&& final(events)@ == es
            } else {
                &&& r matches Ok(m) && {
                    &&& m.id@ == id@
                    &&& m.event_id == event_id
                    &&& m.destination_id == destination_id
                    &&& m.author_name == author_name
                    &&& m.author_id == author_id
                    &&& m.message == message
                    &&& m.kind == kind
                    &&& m.reply_to == reply_to
                    &&& m.created_at == now
                    &&& !m.deleted
                    &&& final(chat)@ == old(chat)@.push(m)
                }
                &&& final(events)@ == if es[k].chat_message_count == u64::MAX {
                    es
                } else {
                    es.update(k, (Event { chat_message_count: (es[k].chat_message_count + 1) as u64, updated_at: now, ..es[k] }))
                }
            }
        }),
{
    if crate::server::events::event_index(events, event_id.as_str()).is_none() {
        return Err(owned("event not found"));
    }
    let m = ChatMessage {
        id: owned(id),
        event_id,
        destination_id,
        author_name,
        author_id,
        message,
        kind,
        reply_to,
        created_at: now,
        deleted: false,
    };
    chat.push(m.duplicate());
    count_chat_message(events, m.event_id.as_str(), now);
    Ok(m)
}

/// Hides the first message with identifier `message_id`; a copy, or `None`
/// when there is none.
pub fn delete_chat_message(chat: &mut Vec<ChatMessage>, message_id: &str) -> (r: Option<ChatMessage>)
    ensures
        ({
            let ms = old(chat)@;
            let k = key_at(ms, message_id@, 0);
            if k == -1 {
                r.is_none() && final(chat)@ == ms
            } else {
                let m = ChatMessage { deleted: true, ..ms[k] };
                final(chat)@ == ms.update(k, m) && r == Some(m)
            }
        }),
{
    let k = match find_keyed(chat, message_id) {
        Some(k) => k,
        None => {
            return None;
        },
    };
    chat[k].deleted = true;
    Some(chat[k].duplicate())
}

/// The CSV line of one message.
pub open spec fn csv_row(m: ChatMessage) -> Seq<char> {
    m.id@ + ","@ + m.event_id@ + ","@ + (match m.destination_id {
        Some(d) => d@,
        None => Seq::empty(),
    }) + ","@ + csv_cell(m.author_name@) + ","@ + csv_cell(m.message@) + ","@ + decimal(m.created_at as nat) + "\n"@
}

/// The CSV lines of messages, in order.
pub open spec fn csv_rows(ms: Seq<ChatMessage>) -> Seq<char>
    decreases ms.len(),
{
    if ms.len() == 0 {
        Seq::empty()
    } else {
        csv_rows(ms.drop_last()) + csv_row(ms.last())
    }
}

/// The header of the chat export.
pub open spec fn csv_header() -> Seq<char> {
    "id,eventId,destinationId,authorName,message,createdAt\n"@
}

fn push_row(out: &mut String, m: &ChatMessage)
    ensures
        final(out)@ == old(out)@ + csv_row(*m),
{
    let ghost start = out@;
    out.append(m.id.as_str());
    out.append(",");
    out.append(m.event_id.as_str());
    out.append(",");
    match &m.destination_id {
        Some(d) => out.append(d.as_str()),
        None => {},
    }
    out.append(",");
    let ghost mid = out@;
    let author = csv_escape(m.author_name.as_str());
    out.append(author.as_str());
    out.append(",");
    let text = csv_escape(m.message.as_str());
    out.append(text.as_str());
    out.append(",");
    let when = decimal_string(m.created_at);
    out.append(when.as_str());
    out.append("\n");
    proof {
        let dest = match &m.destination_id {
            Some(d) => d@,
            None => Seq::<char>::empty(),
        };
        assert(mid =~= start + m.id@ + ","@ + m.event_id@ + ","@ + dest + ","@);
        assert(out@ =~= mid + csv_cell(m.author_name@) + ","@ + csv_cell(m.message@) + ","@ + decimal(
            m.created_at as nat,
        ) + "\n"@);
        assert(out@ =~= start + csv_row(*m));
    }
}

/// The chat of an event as CSV: a header, then a line per message.
pub fn chat_csv(messages: &Vec<ChatMessage>) -> (r: String)
    ensures
        r@ == csv_header() + csv_rows(messages@),
{
    let mut out = owned("id,eventId,destinationId,authorName,message,createdAt\n");
    for i in 0..messages.len()
        invariant
            out@ == csv_header() + csv_rows(messages@.take(i as int)),
    {
        push_row(&mut out, &messages[i]);
        proof {
            let t = messages@.take(i + 1);
            assert(t.drop_last() =~= messages@.take(i as int));
            assert(t.last() == messages@[i as int]);
        }
    }
    proof {
        assert(messages@.take(messages@.len() as int) =~= messages@);
    }
    out
}

} // verus!
