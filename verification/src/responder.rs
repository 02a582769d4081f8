//! Reading worker responses from this instance's response stream and routing
//! them to the clients they answer.
use vstd::prelude::*;
use vstd::string::*;
use crate::commands::{ClientMessage, StreamingResponse};
use crate::control::LoopControl;

verus! {

/// Key prefix of the response streams; the instance id completes it.
pub const RESPONSE_STREAM_PREFIX: &'static str = "streaming_tasks_queue:responses:";

/// Read cursor that asks for entries added after the read starts.
pub const LATEST_ENTRY_CURSOR: &'static str = "$";

/// The entry field that holds a response document.
pub const RESPONSE_FIELD: &'static str = "json";

/// How long one read waits for new entries, in milliseconds.
pub const READ_BLOCK_MS: usize = 500;

/// The most entries one read returns per stream.
pub const READ_COUNT: usize = 20;

/// One stream entry: its id and, for each field, the field's name and the
/// text of its value (`None` where the value is not text).
#[derive(Debug, PartialEq, Eq)]
pub struct StreamEntry {
    pub id: String,
    pub fields: Vec<(String, Option<String>)>,
}

/// The entries read from one stream.
#[derive(Debug, PartialEq, Eq)]
pub struct StreamKey {
    pub key: String,
    pub ids: Vec<StreamEntry>,
}

/// The result of one read over one or more streams.
#[derive(Debug, PartialEq, Eq)]
pub struct StreamReadReply {
    pub keys: Vec<StreamKey>,
}

/// The text of an optional value.
pub open spec fn text_of(o: Option<String>) -> Option<Seq<char>> {
    match o {
        Some(s) => Some(s@),
        None => None,
    }
}

/// The value of the first field named `name`.
pub open spec fn field_value(fields: Seq<(String, Option<String>)>, name: Seq<char>) -> Option<Seq<char>>
    decreases fields.len(),
{
    if fields.len() == 0 {
        None
    } else if fields[0].0@ == name {
        text_of(fields[0].1)
    } else {
        field_value(fields.drop_first(), name)
    }
}

/// All entries of a reply: those of each stream in turn, each stream's in order.
pub open spec fn entries_of(keys: Seq<StreamKey>) -> Seq<StreamEntry>
    decreases keys.len(),
{
    if keys.len() == 0 {
        Seq::empty()
    } else {
        entries_of(keys.drop_last()) + keys.last().ids@
    }
}

/// The id of the last entry of the first stream of a reply, if it has one.
pub open spec fn last_message_id(reply: StreamReadReply) -> Option<Seq<char>> {
    if reply.keys@.len() == 0 || reply.keys@[0].ids@.len() == 0 {
        None
    } else {
        Some(reply.keys@[0].ids@.last().id@)
    }
}

/// The read cursor that follows `cursor` once `reply` has been handled.
pub open spec fn next_cursor(cursor: Seq<char>, reply: StreamReadReply) -> Seq<char> {
    match last_message_id(reply) {
        Some(id) => id,
        None => cursor,
    }
}

/// The entries of the first stream open the entries of the whole reply.
proof fn lemma_first_stream_leads(keys: Seq<StreamKey>)
    requires
        keys.len() > 0,
    ensures
        entries_of(keys).len() >= keys[0].ids@.len(),
        entries_of(keys).subrange(0, keys[0].ids@.len() as int) == keys[0].ids@,
    decreases keys.len(),
{
    if keys.len() == 1 {
        assert(keys.drop_last().len() == 0);
        assert(entries_of(keys.drop_last()) == Seq::<StreamEntry>::empty());
        assert(keys.last() == keys[0]);
        assert(entries_of(keys) == entries_of(keys.drop_last()) + keys.last().ids@);
        assert(entries_of(keys) =~= keys[0].ids@);
    } else {
        let front = keys.drop_last();
        lemma_first_stream_leads(front);
        assert(front[0] == keys[0]);
        let n = keys[0].ids@.len() as int;
        assert(entries_of(keys).subrange(0, n) =~= entries_of(front).subrange(0, n));
    }
}

/// After a reply the read cursor either stays where it was or names an entry
/// of that reply, and a reply without entries leaves it where it was.
pub proof fn law_cursor_names_read_entry(cursor: Seq<char>, reply: StreamReadReply)
    ensures
        next_cursor(cursor, reply) == cursor || exists|i: int|
            0 <= i < entries_of(reply.keys@).len() && #[trigger] entries_of(reply.keys@)[i].id@
                == next_cursor(cursor, reply),
        entries_of(reply.keys@).len() == 0 ==> next_cursor(cursor, reply) == cursor,
{
    if reply.keys@.len() > 0 {
        lemma_first_stream_leads(reply.keys@);
        let ids = reply.keys@[0].ids@;
        if ids.len() > 0 {
            let i = ids.len() - 1;
            assert(entries_of(reply.keys@).subrange(0, ids.len() as int)[i] == ids[i]);
            assert(entries_of(reply.keys@)[i].id@ == next_cursor(cursor, reply));
        }
    }
}

/// The entries of a reply are those of its streams in turn: no streams give no
/// entries, and one more stream adds its entries, in order, at the end.
pub proof fn law_entries_of_streams(keys: Seq<StreamKey>, key: StreamKey)
    ensures
        entries_of(Seq::<StreamKey>::empty()).len() == 0,
        entries_of(keys.push(key)) == entries_of(keys) + key.ids@,
{
    assert(keys.push(key).drop_last() =~= keys);
    assert(keys.push(key).last() == key);
}

/// The value of a field is that of the first field with its name: its text
/// exactly, whatever it holds, or nothing where that value is not text.
pub proof fn law_field_value_first_match(fields: Seq<(String, Option<String>)>, name: Seq<char>, k: int)
    requires
        0 <= k < fields.len(),
        fields[k].0@ == name,
        forall|j: int| 0 <= j < k ==> #[trigger] fields[j].0@ != name,
    ensures
        match fields[k].1 {
            Some(t) => field_value(fields, name) == Some(t@),
            None => field_value(fields, name) == None::<Seq<char>>,
        },
    decreases k,
{
    if k > 0 {
        let rest = fields.drop_first();
        assert(fields[0].0@ != name);
        assert forall|j: int| 0 <= j < k - 1 implies #[trigger] rest[j].0@ != name by {
            assert(rest[j] == fields[j + 1]);
        }
        assert(rest[k - 1] == fields[k]);
        law_field_value_first_match(rest, name, k - 1);
    }
}

/// An entry without a field named `name` has no value for it.
pub proof fn law_field_value_absent(fields: Seq<(String, Option<String>)>, name: Seq<char>)
    requires
        forall|j: int| 0 <= j < fields.len() ==> #[trigger] fields[j].0@ != name,
    ensures
        field_value(fields, name) == None::<Seq<char>>,
    decreases fields.len(),
{
    if fields.len() > 0 {
        let rest = fields.drop_first();
        assert(fields[0].0@ != name);
        assert forall|j: int| 0 <= j < rest.len() implies #[trigger] rest[j].0@ != name by {
            assert(rest[j] == fields[j + 1]);
        }
        law_field_value_absent(rest, name);
    }
}

/// The last message id of a reply is the id of the last entry of its first
/// stream whenever that stream has an entry, and there is none otherwise; the
/// read cursor moves to it, and stays where it was only when there is none.
pub proof fn law_last_message_id(cursor: Seq<char>, reply: StreamReadReply)
    ensures
        reply.keys@.len() > 0 && reply.keys@[0].ids@.len() > 0 ==> {
            &&& last_message_id(reply) == Some(
                reply.keys@[0].ids@[reply.keys@[0].ids@.len() - 1].id@,
            )
            &&& next_cursor(cursor, reply) == reply.keys@[0].ids@[reply.keys@[0].ids@.len() - 1].id@
        },
        !(reply.keys@.len() > 0 && reply.keys@[0].ids@.len() > 0) ==> {
            &&& last_message_id(reply) == None::<Seq<char>>
            &&& next_cursor(cursor, reply) == cursor
        },
{
}

/// A response read from an entry that has a response field goes, as it is,
/// to the client it names; an entry without a response field, or whose
/// response did not parse, is reported by its id.
pub proof fn law_reply_action(entry: StreamEntry, parsed: Option<StreamingResponse>)
    ensures
        (parsed is Some && field_value(entry.fields@, RESPONSE_FIELD@) is Some) ==>
            reply_action_for(entry, parsed) == (ReplyAction::Deliver {
                client_id: parsed->0.client_id,
                message: ClientMessage::SendTextResponse(parsed->0.translated),
            }),
        (parsed is None || field_value(entry.fields@, RESPONSE_FIELD@) is None) ==>
            reply_action_for(entry, parsed) == (ReplyAction::Unreadable { entry_id: entry.id }),
{
}

fn clone_text(o: &Option<String>) -> (r: Option<String>)
    ensures
        text_of(r) == text_of(*o),
{
    match o {
        Some(s) => Some(s.clone()),
        None => None,
    }
}

impl StreamEntry {
    /// The text of the field `name`, where the entry has it as text.
    pub fn field(&self, name: &String) -> (value: Option<String>)
        ensures
            text_of(value) == field_value(self.fields@, name@),
            forall|k: int|
                0 <= k < self.fields@.len() && #[trigger] self.fields@[k].0@ == name@ && (forall|j: int|
                    0 <= j < k ==> self.fields@[j].0@ != name@) ==> match self.fields@[k].1 {
                    Some(t) => value is Some && value->0@ == t@,
                    None => value is None,
                },
            (forall|k: int| 0 <= k < self.fields@.len() ==> #[trigger] self.fields@[k].0@ != name@)
                ==> value is None,
    {
        let value = self.first_field(name);
        proof {
            assert forall|k: int|
                0 <= k < self.fields@.len() && #[trigger] self.fields@[k].0@ == name@ && (forall|j: int|
                    0 <= j < k ==> self.fields@[j].0@ != name@) implies field_value(self.fields@, name@)
                == (match self.fields@[k].1 {
                    Some(t) => Some(t@),
                    None => None::<Seq<char>>,
                }) by {
                law_field_value_first_match(self.fields@, name@, k);
            }
            if forall|k: int| 0 <= k < self.fields@.len() ==> #[trigger] self.fields@[k].0@ != name@ {
                law_field_value_absent(self.fields@, name@);
            }
        }
        value
    }

    fn first_field(&self, name: &String) -> (value: Option<String>)
        ensures
            text_of(value) == field_value(self.fields@, name@),
    {
        let n = self.fields.len();
        let mut i: usize = 0;
        assert(self.fields@.skip(0) =~= self.fields@);
        while i < n
            invariant
                n == self.fields@.len(),
                i <= n,
                field_value(self.fields@, name@) == field_value(self.fields@.skip(i as int), name@),
            decreases n - i,
        {
            let ghost rest = self.fields@.skip(i as int);
            assert(rest[0] == self.fields@[i as int]);
            assert(rest.drop_first() =~= self.fields@.skip(i + 1));
            if self.fields[i].0 == *name {
                return clone_text(&self.fields[i].1);
            }
            i = i + 1;
        }
        assert(self.fields@.skip(i as int).len() == 0);
        None
    }
}

/// The entries of a reply, in order.
fn flatten_entries(reply: &StreamReadReply) -> (entries: Vec<&StreamEntry>)
    ensures
        entries@.len() == entries_of(reply.keys@).len(),
        forall|i: int| 0 <= i < entries@.len() ==> *#[trigger] entries@[i] == entries_of(reply.keys@)[i],
{
    let mut entries: Vec<&StreamEntry> = Vec::new();
    let nk = reply.keys.len();
    let mut k: usize = 0;
    while k < nk
        invariant
            nk == reply.keys@.len(),
            k <= nk,
            entries@.len() == entries_of(reply.keys@.take(k as int)).len(),
            forall|i: int|
                0 <= i < entries@.len() ==> *#[trigger] entries@[i] == entries_of(
                    reply.keys@.take(k as int),
                )[i],
        decreases nk - k,
    {
        let ghost done = entries_of(reply.keys@.take(k as int));
        let ids = &reply.keys[k].ids;
        let ni = ids.len();
        let mut j: usize = 0;
        while j < ni
            invariant
                ni == ids@.len(),
                j <= ni,
                entries@.len() == done.len() + j,
                forall|i: int|
                    0 <= i < entries@.len() ==> *#[trigger] entries@[i] == (done + ids@.take(
                        j as int,
                    ))[i],
            decreases ni - j,
        {
            entries.push(&ids[j]);
            assert(done + ids@.take(j + 1) =~= (done + ids@.take(j as int)).push(ids@[j as int]));
            j = j + 1;
        }
        assert(reply.keys@.take(k + 1).drop_last() =~= reply.keys@.take(k as int));
        assert(ids@.take(ni as int) =~= ids@);
        assert(entries_of(reply.keys@.take(k + 1)) == done + ids@);
        k = k + 1;
    }
    assert(reply.keys@.take(nk as int) =~= reply.keys@);
    entries
}

/// For each entry of the reply, in order, the text of its response field.
pub fn response_payloads(reply: &StreamReadReply) -> (payloads: Vec<Option<String>>)
    ensures
        payloads@.len() == entries_of(reply.keys@).len(),
        forall|i: int|
            0 <= i < payloads@.len() ==> #[trigger] text_of(payloads@[i]) == field_value(
                entries_of(reply.keys@)[i].fields@,
                RESPONSE_FIELD@,
            ),
{
    let name = RESPONSE_FIELD.to_owned();
    let entries = flatten_entries(reply);
    let mut payloads: Vec<Option<String>> = Vec::new();
    let n = entries.len();
    let mut i: usize = 0;
    while i < n
        invariant
            n == entries@.len(),
            n == entries_of(reply.keys@).len(),
            i <= n,
            name@ == RESPONSE_FIELD@,
            forall|k: int| 0 <= k < n ==> *#[trigger] entries@[k] == entries_of(reply.keys@)[k],
            payloads@.len() == i,
            forall|k: int|
                0 <= k < i ==> #[trigger] text_of(payloads@[k]) == field_value(
                    entries_of(reply.keys@)[k].fields@,
                    RESPONSE_FIELD@,
                ),
        decreases n - i,
    {
        let value = entries[i].field(&name);
        payloads.push(value);
        i = i + 1;
    }
    payloads
}

/// What to do with one entry of a reply.
#[derive(Debug, PartialEq, Eq)]
pub enum ReplyAction {
    /// Send `message` to the client `client_id`.
    Deliver { client_id: String, message: ClientMessage },
    /// The entry `entry_id` held no readable response: report it.
    Unreadable { entry_id: String },
}

/// The action for the entry `entry`, given what its response field parsed
/// as: an entry without a response field, or whose field did not parse, is
/// reported; any other goes to the client its response names.
pub open spec fn reply_action_for(entry: StreamEntry, parsed: Option<StreamingResponse>) -> ReplyAction {
    match field_value(entry.fields@, RESPONSE_FIELD@) {
        None => ReplyAction::Unreadable { entry_id: entry.id },
        Some(_) => match parsed {
            Some(r) => ReplyAction::Deliver {
                client_id: r.client_id,
                message: ClientMessage::SendTextResponse(r.translated),
            },
            None => ReplyAction::Unreadable { entry_id: entry.id },
        },
    }
}

/// The actions for the entries of a reply, in order, given what the response
/// field of each entry parsed as (`None` where it did not parse): each
/// readable response goes to the client it names as a text response, and
/// each entry without a readable response is reported by its id. An entry
/// with no response field is reported whatever `responses` holds for it.
pub fn plan_deliveries(reply: &StreamReadReply, responses: &Vec<Option<StreamingResponse>>) -> (actions: Vec<ReplyAction>)
    requires
        responses@.len() == entries_of(reply.keys@).len(),
    ensures
        actions@.len() == responses@.len(),
        forall|i: int|
            0 <= i < actions@.len() ==> #[trigger] actions@[i] == reply_action_for(
                entries_of(reply.keys@)[i],
                responses@[i],
            ),
        forall|i: int|
            0 <= i < actions@.len() && #[trigger] responses@[i] is Some && field_value(
                entries_of(reply.keys@)[i].fields@,
                RESPONSE_FIELD@,
            ) is Some ==> actions@[i] == (ReplyAction::Deliver {
                client_id: responses@[i]->0.client_id,
                message: ClientMessage::SendTextResponse(responses@[i]->0.translated),
            }),
        forall|i: int|
            0 <= i < actions@.len() && (#[trigger] responses@[i] is None || field_value(
                entries_of(reply.keys@)[i].fields@,
                RESPONSE_FIELD@,
            ) is None) ==> actions@[i] == (ReplyAction::Unreadable {
                entry_id: entries_of(reply.keys@)[i].id,
            }),
{
    let name = RESPONSE_FIELD.to_owned();
    let entries = flatten_entries(reply);
    let mut actions: Vec<ReplyAction> = Vec::new();
    let n = entries.len();
    let mut i: usize = 0;
    while i < n
        invariant
            n == entries@.len(),
            n == responses@.len(),
            i <= n,
            name@ == RESPONSE_FIELD@,
            forall|k: int| 0 <= k < n ==> *#[trigger] entries@[k] == entries_of(reply.keys@)[k],
            actions@.len() == i,
            forall|k: int|
                0 <= k < i ==> #[trigger] actions@[k] == reply_action_for(
                    entries_of(reply.keys@)[k],
                    responses@[k],
                ),
        decreases n - i,
    {
        let has_payload = entries[i].field(&name).is_some();
        let action = match &responses[i] {
            Some(r) if has_payload => {
                let (client_id, message) = response_delivery(
                    StreamingResponse { client_id: r.client_id.clone(), translated: r.translated.clone() },
                );
                ReplyAction::Deliver { client_id, message }
            },
            _ => ReplyAction::Unreadable { entry_id: entries[i].id.clone() },
        };
        actions.push(action);
        i = i + 1;
    }
    actions
}

/// The id of the last entry read from the first stream of the reply.
pub fn get_last_message_id(reply: &StreamReadReply) -> (id: Option<String>)
    ensures
        text_of(id) == last_message_id(*reply),
        reply.keys@.len() > 0 && reply.keys@[0].ids@.len() > 0 ==> id is Some && id->0@
            == reply.keys@[0].ids@[reply.keys@[0].ids@.len() - 1].id@,
        !(reply.keys@.len() > 0 && reply.keys@[0].ids@.len() > 0) ==> id is None,
{
    if reply.keys.len() == 0 {
        return None;
    }
    let ids = &reply.keys[0].ids;
    if ids.len() == 0 {
        return None;
    }
    Some(ids[ids.len() - 1].id.clone())
}

/// The client a response goes to and the message that carries it there.
pub fn response_delivery(response: StreamingResponse) -> (delivery: (String, ClientMessage))
    ensures
        delivery.0 == response.client_id,
        delivery.1 == ClientMessage::SendTextResponse(response.translated),
{
    (response.client_id, ClientMessage::SendTextResponse(response.translated))
}

/// The key of the stream that carries the responses for `instance_id`.
pub fn response_stream_id(instance_id: &String) -> (stream_id: String)
    ensures
        stream_id@ == RESPONSE_STREAM_PREFIX@ + instance_id@,
{
    let mut stream_id = RESPONSE_STREAM_PREFIX.to_owned();
    stream_id.append(instance_id.as_str());
    stream_id
}

/// What the response loop learns while it waits.
pub enum ResponderEvent {
    /// A read returned these entries.
    Replied(StreamReadReply),
    /// A read failed.
    ReadFailed,
    /// The shutdown channel closed.
    ShutdownClosed,
}

/// The state of the response loop of one instance.
pub struct ResponderLoop {
    /// The stream the loop reads.
    pub stream_id: String,
    /// Where the next read starts.
    pub read_cursor: String,
}

impl ResponderLoop {
    /// The loop of `instance_id`, before its first read.
    pub fn new(instance_id: &String) -> (r: Self)
        ensures
            r.stream_id@ == RESPONSE_STREAM_PREFIX@ + instance_id@,
            r.read_cursor@ == LATEST_ENTRY_CURSOR@,
    {
        ResponderLoop {
            stream_id: response_stream_id(instance_id),
            read_cursor: LATEST_ENTRY_CURSOR.to_owned(),
        }
    }

    /// Handles one event: a reply moves the cursor past its entries and the
    /// loop goes on; a failed read or a closed shutdown channel ends it.
    pub fn step(&mut self, event: &ResponderEvent) -> (control: LoopControl)
        ensures
            final(self).stream_id@ == old(self).stream_id@,
            match event {
                ResponderEvent::Replied(reply) => {
                    &&& control == LoopControl::Continue
                    &&& final(self).read_cursor@ == next_cursor(old(self).read_cursor@, *reply)
                    &&& reply.keys@.len() > 0 && reply.keys@[0].ids@.len() > 0 ==> final(self).read_cursor@
                        == reply.keys@[0].ids@[reply.keys@[0].ids@.len() - 1].id@
                    &&& !(reply.keys@.len() > 0 && reply.keys@[0].ids@.len() > 0)
                        ==> final(self).read_cursor@ == old(self).read_cursor@
                },
                _ => {
                    &&& control == LoopControl::Stop
                    &&& final(self).read_cursor@ == old(self).read_cursor@
                },
            },
    {
        match event {
            ResponderEvent::Replied(reply) => {
                if let Some(last_read_id) = get_last_message_id(reply) {
                    self.read_cursor = last_read_id;
                }
                LoopControl::Continue
            },
            _ => LoopControl::Stop,
        }
    }
}

} // verus!
