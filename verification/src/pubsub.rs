//! The publish/subscribe protocol of the engine's WebSocket hub.
//!
//! Clients send text commands (`register-name:`, `subscribe:`, `unsubscribe:`,
//! `publish-json:`). Each connection is known by a numeric id; the host keeps the
//! channel behind each id and delivers the messages this module decides on.
use vstd::prelude::*;
use crate::text::{concat2, has_prefix, owned, str_eq, strip_prefix, trim, trim_str};
use crate::store::KeyedStore;

verus! {

/// A command a client sent.
pub enum ClientCommand {
    /// `register-name:{name}`: the client's display name (trimmed).
    RegisterName(String),
    /// `subscribe:{topic}` (trimmed).
    Subscribe(String),
    /// `unsubscribe:{topic}` (trimmed).
    Unsubscribe(String),
    /// `publish-json:{json}`: the JSON text, untrimmed.
    PublishJson(String),
    /// Any other text.
    Unrecognized,
}

/// The view of a command: its kind and its text.
pub open spec fn command_named(text: Seq<char>) -> (int, Seq<char>) {
    if has_prefix(text, "register-name:"@) {
        (0, trim(text.subrange("register-name:"@.len() as int, text.len() as int)))
    } else if has_prefix(text, "subscribe:"@) {
        (1, trim(text.subrange("subscribe:"@.len() as int, text.len() as int)))
    } else if has_prefix(text, "unsubscribe:"@) {
        (2, trim(text.subrange("unsubscribe:"@.len() as int, text.len() as int)))
    } else if has_prefix(text, "publish-json:"@) {
        (3, text.subrange("publish-json:"@.len() as int, text.len() as int))
    } else {
        (4, Seq::empty())
    }
}

/// The kind and text of a parsed command.
pub open spec fn command_view(c: ClientCommand) -> (int, Seq<char>) {
    match c {
        ClientCommand::RegisterName(s) => (0, s@),
        ClientCommand::Subscribe(s) => (1, s@),
        ClientCommand::Unsubscribe(s) => (2, s@),
        ClientCommand::PublishJson(s) => (3, s@),
        ClientCommand::Unrecognized => (4, Seq::empty()),
    }
}

/// Reads one text message from a client.
pub fn parse_client_command(text: &str) -> (r: ClientCommand)
    ensures
        command_view(r) == command_named(text@),
{
    if let Some(rest) = strip_prefix(text, "register-name:") {
        return ClientCommand::RegisterName(trim_str(rest.as_str()));
    }
    if let Some(rest) = strip_prefix(text, "subscribe:") {
        return ClientCommand::Subscribe(trim_str(rest.as_str()));
    }
    if let Some(rest) = strip_prefix(text, "unsubscribe:") {
        return ClientCommand::Unsubscribe(trim_str(rest.as_str()));
    }
    if let Some(rest) = strip_prefix(text, "publish-json:") {
        return ClientCommand::PublishJson(rest);
    }
    ClientCommand::Unrecognized
}

/// The string fields `topic`, `payload`, `publisher_name` and `timestamp` of a
/// published JSON object (each `None` when absent or not a string).
pub struct PublishFields {
    pub topic: Option<String>,
    pub payload: Option<String>,
    pub publisher_name: Option<String>,
    pub timestamp: Option<String>,
}

/// The view of optional text.
pub open spec fn opt_text(s: Option<String>) -> Option<Seq<char>> {
    match s {
        Some(x) => Some(x@),
        None => None,
    }
}

/// The fields as plain text.
pub open spec fn fields_view(f: PublishFields) -> (Option<Seq<char>>, Option<Seq<char>>, Option<Seq<char>>, Option<Seq<char>>) {
    (opt_text(f.topic), opt_text(f.payload), opt_text(f.publisher_name), opt_text(f.timestamp))
}

/// What `serde_json::from_str::<serde_json::Value>` finds in `text`: `None` when
/// it is not JSON, else the string values under `topic`, `payload`,
/// `publisher_name` and `timestamp` (each `None` when missing or not a string).
pub uninterp spec fn json_publish_fields(text: Seq<char>) -> Option<(Option<Seq<char>>, Option<Seq<char>>, Option<Seq<char>>, Option<Seq<char>>)>;

/// Parses `text` with `serde_json::from_str` into a `serde_json::Value` and reads
/// four of its fields with `Value`'s indexing and `as_str`. The contract names
/// the result by `json_publish_fields` and says nothing of what JSON is accepted.
#[verifier::external_body]
fn decode_publish_fields(text: &str) -> (r: Option<PublishFields>)
    ensures
        match r {
            Some(f) => json_publish_fields(text@) == Some(fields_view(f)),
            None => json_publish_fields(text@) is None,
        },
{
    let v: serde_json::Value = serde_json::from_str(text).ok()?;
    Some(PublishFields {
        topic: v["topic"].as_str().map(String::from),
        payload: v["payload"].as_str().map(String::from),
        publisher_name: v["publisher_name"].as_str().map(String::from),
        timestamp: v["timestamp"].as_str().map(String::from),
    })
}

/// The hexadecimal digit for `n` (below 16), in lower case.
pub open spec fn hex_digit(n: int) -> char {
    seq!['0', '1', '2', '3', '4', '5', '6', '7', '8', '9', 'a', 'b', 'c', 'd', 'e', 'f'][n]
}

/// One character as `serde_json` writes it inside a JSON string: the quote and
/// the backslash behind a backslash, the five usual control characters by
/// their short escapes, the other controls below `0x20` as `\u00` and two hex
/// digits, everything else as it is.
pub open spec fn json_escaped_char(c: char) -> Seq<char> {
    if c == '"' {
        seq!['\\', '"']
    } else if c == '\\' {
        seq!['\\', '\\']
    } else if c == '\u{8}' {
        seq!['\\', 'b']
    } else if c == '\t' {
        seq!['\\', 't']
    } else if c == '\n' {
        seq!['\\', 'n']
    } else if c == '\u{c}' {
        seq!['\\', 'f']
    } else if c == '\r' {
        seq!['\\', 'r']
    } else if (c as int) < 0x20 {
        seq!['\\', 'u', '0', '0', hex_digit((c as int) / 16), hex_digit((c as int) % 16)]
    } else {
        seq![c]
    }
}

/// The characters of `s`, each escaped.
pub open spec fn json_escaped(s: Seq<char>) -> Seq<char>
    decreases s.len(),
{
    if s.len() == 0 {
        Seq::empty()
    } else {
        json_escaped(s.drop_last()) + json_escaped_char(s.last())
    }
}

/// `s` as a JSON string literal.
pub open spec fn json_string(s: Seq<char>) -> Seq<char> {
    seq!['"'] + json_escaped(s) + seq!['"']
}

/// The compact JSON text of the object with these four string values, its keys
/// in alphabetical order: `payload`, `publisher_name`, `timestamp`, `topic`.
pub open spec fn publish_message_json(publisher: Seq<char>, topic: Seq<char>, payload: Seq<char>, timestamp: Seq<char>) -> Seq<char> {
    "{\"payload\":"@ + json_string(payload) + ",\"publisher_name\":"@ + json_string(publisher)
        + ",\"timestamp\":"@ + json_string(timestamp) + ",\"topic\":"@ + json_string(topic) + "}"@
}

/// Builds the object in a `serde_json::Map`, inserting the keys in alphabetical
/// order (so the text is the same whether or not the map keeps insertion
/// order), and renders it with `Value::to_string`, the compact form of
/// `serde_json`'s `Display`. The contract claims that this text is
/// `publish_message_json` of the four values: `{`, each key and value as a JSON
/// string joined by `:`, the pairs joined by `,`, then `}`, with the escapes of
/// `serde_json`'s string formatter.
#[verifier::external_body]
fn encode_publish_message(publisher: &str, topic: &str, payload: &str, timestamp: &str) -> (r: String)
    ensures
        r@ == publish_message_json(publisher@, topic@, payload@, timestamp@),
{
    let mut m = serde_json::Map::new();
    m.insert("payload".to_string(), serde_json::Value::from(payload));
    m.insert("publisher_name".to_string(), serde_json::Value::from(publisher));
    m.insert("timestamp".to_string(), serde_json::Value::from(timestamp));
    m.insert("topic".to_string(), serde_json::Value::from(topic));
    serde_json::Value::Object(m).to_string()
}

/// The `publish-json:` command that publishes `payload` to `topic` as
/// `publisher`, stamped with `timestamp`.
pub fn publish_command(publisher: &str, topic: &str, payload: &str, timestamp: &str) -> (r: String)
    ensures
        r@ == "publish-json:"@ + publish_message_json(publisher@, topic@, payload@, timestamp@),
{
    let body = encode_publish_message(publisher, topic, payload, timestamp);
    concat2("publish-json:", body.as_str())
}

/// The topic of a message the hub delivered: its string field `topic`, or
/// `None` when the text is not JSON or has no such string.
pub fn delivered_topic(message: &str) -> (r: Option<String>)
    ensures
        opt_text(r) == match json_publish_fields(message@) {
            None => None,
            Some(f) => f.0,
        },
{
    match decode_publish_fields(message) {
        None => None,
        Some(f) => f.topic,
    }
}

/// `Some` text, else the default.
pub open spec fn or_default(s: Option<Seq<char>>, d: Seq<char>) -> Seq<char> {
    match s {
        Some(x) => x,
        None => d,
    }
}

fn text_or(s: Option<String>, d: &str) -> (r: String)
    ensures
        r@ == or_default(opt_text(s), d@),
{
    match s {
        Some(x) => x,
        None => owned(d),
    }
}

/// Subscriber ids, by topic.
pub struct Subscribers {
    topics: KeyedStore<Vec<u64>>,
}

/// `s` without the entries equal to `id`.
pub open spec fn without(s: Seq<u64>, id: u64) -> Seq<u64>
    decreases s.len(),
{
    if s.len() == 0 {
        s
    } else if s.last() == id {
        without(s.drop_last(), id)
    } else {
        without(s.drop_last(), id).push(s.last())
    }
}

/// The entries of `s` whose flag in `mask` is set.
pub open spec fn kept(s: Seq<u64>, mask: Seq<bool>) -> Seq<u64>
    decreases s.len(),
{
    if s.len() == 0 || mask.len() == 0 {
        Seq::empty()
    } else if mask[s.len() - 1] {
        kept(s.drop_last(), mask).push(s.last())
    } else {
        kept(s.drop_last(), mask)
    }
}

/// The subscribers of `topic` in `m` (none when the topic is unknown).
pub open spec fn subscribers_in(m: Map<Seq<char>, Seq<u64>>, topic: Seq<char>) -> Seq<u64> {
    if m.contains_key(topic) {
        m[topic]
    } else {
        Seq::empty()
    }
}

/// `m` with `id` taken off `topic`'s list, when the topic is known.
pub open spec fn unsubscribed(m: Map<Seq<char>, Seq<u64>>, topic: Seq<char>, id: u64) -> Map<Seq<char>, Seq<u64>> {
    if m.contains_key(topic) {
        m.insert(topic, without(m[topic], id))
    } else {
        m
    }
}

fn vec_without(v: &Vec<u64>, id: u64) -> (r: Vec<u64>)
    ensures
        r@ == without(v@, id),
{
    let mut out: Vec<u64> = Vec::new();
    let mut i: usize = 0;
    while i < v.len()
        invariant
            i <= v@.len(),
            out@ == without(v@.take(i as int), id),
        decreases v@.len() - i,
    {
        assert(v@.take(i + 1).drop_last() =~= v@.take(i as int));
        if v[i] != id {
            out.push(v[i]);
        }
        i += 1;
    }
    assert(v@.take(v@.len() as int) =~= v@);
    out
}

fn vec_kept(v: &Vec<u64>, mask: &Vec<bool>) -> (r: Vec<u64>)
    requires
        mask@.len() == v@.len(),
    ensures
        r@ == kept(v@, mask@),
{
    let mut out: Vec<u64> = Vec::new();
    let mut i: usize = 0;
    while i < v.len()
        invariant
            mask@.len() == v@.len(),
            i <= v@.len(),
            out@ == kept(v@.take(i as int), mask@),
        decreases v@.len() - i,
    {
        assert(v@.take(i + 1).drop_last() =~= v@.take(i as int));
        if mask[i] {
            out.push(v[i]);
        }
        i += 1;
    }
    assert(v@.take(v@.len() as int) =~= v@);
    out
}

impl Subscribers {
    /// Subscriber ids by topic.
    pub closed spec fn view(&self) -> Map<Seq<char>, Seq<u64>> {
        Map::new(|t: Seq<char>| self.topics@.contains_key(t), |t: Seq<char>| self.topics@[t]@)
    }

    pub closed spec fn wf(&self) -> bool {
        self.topics.wf()
    }

    /// No subscribers.
    pub fn new() -> (r: Subscribers)
        ensures
            r.wf(),
            r.view() == Map::<Seq<char>, Seq<u64>>::empty(),
    {
        let r = Subscribers { topics: KeyedStore::new() };
        assert(r.view() =~= Map::<Seq<char>, Seq<u64>>::empty());
        r
    }

    /// The subscribers of `topic`, in subscription order.
    pub fn subscribers_of(&self, topic: &str) -> (r: Vec<u64>)
        ensures
            r@ == subscribers_in(self.view(), topic@),
    {
        match self.topics.get(topic) {
            Some(v) => v.clone(),
            None => Vec::new(),
        }
    }

    /// Adds `id` at the end of `topic`'s list.
    pub fn subscribe(&mut self, topic: &str, id: u64)
        requires
            old(self).wf(),
        ensures
            final(self).wf(),
            final(self).view() == old(self).view().insert(topic@, subscribers_in(old(self).view(), topic@).push(id)),
    {
        let mut list = self.subscribers_of(topic);
        list.push(id);
        self.topics.insert(owned(topic), list);
        assert(self.view() =~= old(self).view().insert(topic@, subscribers_in(old(self).view(), topic@).push(id)));
    }

    /// Takes `id` off `topic`'s list.
    pub fn unsubscribe(&mut self, topic: &str, id: u64)
        requires
            old(self).wf(),
        ensures
            final(self).wf(),
            final(self).view() == unsubscribed(old(self).view(), topic@, id),
    {
        let list = match self.topics.get(topic) {
            Some(v) => vec_without(v, id),
            None => {
                assert(self.view() =~= unsubscribed(old(self).view(), topic@, id));
                return;
            },
        };
        self.topics.insert(owned(topic), list);
        assert(self.view() =~= unsubscribed(old(self).view(), topic@, id));
    }

    /// After a publication to `topic`, keeps the subscribers the message reached
    /// (`delivered[i]` for the i-th subscriber) and drops the others.
    pub fn retain_delivered(&mut self, topic: &str, delivered: &Vec<bool>)
        requires
            old(self).wf(),
            delivered@.len() == subscribers_in(old(self).view(), topic@).len(),
        ensures
            final(self).wf(),
            final(self).view() == (if old(self).view().contains_key(topic@) {
                old(self).view().insert(topic@, kept(old(self).view()[topic@], delivered@))
            } else {
                old(self).view()
            }),
    {
        let list = match self.topics.get(topic) {
            Some(v) => vec_kept(v, delivered),
            None => {
                assert(self.view() =~= old(self).view());
                return;
            },
        };
        self.topics.insert(owned(topic), list);
        assert(self.view() =~= old(self).view().insert(topic@, kept(old(self).view()[topic@], delivered@)));
    }
}

/// One client connection.
pub struct Connection {
    /// The host's id for the connection's channel.
    pub id: u64,
    /// The name the client registered (`<unknown>` until it does).
    pub client_name: String,
    /// The topics the client subscribed to, in order.
    pub topics: Vec<String>,
}

/// The texts of a list of topics.
pub open spec fn topics_view(ts: Seq<String>) -> Seq<Seq<char>> {
    ts.map_values(|t: String| t@)
}

/// `ts` without the entries equal to `t`.
pub open spec fn topics_without(ts: Seq<Seq<char>>, t: Seq<char>) -> Seq<Seq<char>>
    decreases ts.len(),
{
    if ts.len() == 0 {
        ts
    } else if ts.last() == t {
        topics_without(ts.drop_last(), t)
    } else {
        topics_without(ts.drop_last(), t).push(ts.last())
    }
}

/// What the host does after a client message.
pub enum ConnectionAction {
    /// Nothing to send.
    Nothing,
    /// The published text was not JSON: nothing is sent.
    BadJson,
    /// Send `message` to each of `recipients` (the subscribers of `topic`, in
    /// order), then report which were reached with `retain_delivered`.
    Publish { topic: String, message: String, recipients: Vec<u64> },
}

impl Connection {
    /// A new connection with channel id `id`.
    pub fn new(id: u64) -> (r: Connection)
        ensures
            r.id == id,
            r.client_name@ == "<unknown>"@,
            r.topics@.len() == 0,
    {
        Connection { id, client_name: owned("<unknown>"), topics: Vec::new() }
    }

    /// Handles one text message from the client.
    pub fn handle_text(&mut self, subs: &mut Subscribers, text: &str) -> (r: ConnectionAction)
        requires
            old(subs).wf(),
        ensures
            final(subs).wf(),
            final(self).id == old(self).id,
            ({
                let (kind, arg) = command_named(text@);
                let id = old(self).id;
                if kind == 0 {
                    &&& final(self).client_name@ == arg
                    &&& final(self).topics == old(self).topics
                    &&& final(subs).view() == old(subs).view()
                    &&& r is Nothing
                } else if kind == 1 {
                    &&& final(self).client_name == old(self).client_name
                    &&& topics_view(final(self).topics@) == topics_view(old(self).topics@).push(arg)
                    &&& final(subs).view() == old(subs).view().insert(arg, subscribers_in(old(subs).view(), arg).push(id))
                    &&& r is Nothing
                } else if kind == 2 {
                    &&& final(self).client_name == old(self).client_name
                    &&& topics_view(final(self).topics@) == topics_without(topics_view(old(self).topics@), arg)
                    &&& final(subs).view() == unsubscribed(old(subs).view(), arg, id)
                    &&& r is Nothing
                } else if kind == 3 {
                    &&& final(self).client_name == old(self).client_name
                    &&& final(self).topics == old(self).topics
                    &&& final(subs).view() == old(subs).view()
                    &&& match json_publish_fields(arg) {
                        None => r is BadJson,
                        Some((topic, payload, publisher, timestamp)) => {
                            let t = or_default(topic, "<none>"@);
                            &&& r matches ConnectionAction::Publish { topic: rt, message, recipients }
                            &&& rt@ == t
                            &&& message@ == publish_message_json(
                                or_default(publisher, "<unknown>"@),
                                t,
                                or_default(payload, ""@),
                                or_default(timestamp, ""@),
                            )
                            &&& recipients@ == subscribers_in(old(subs).view(), t)
                        },
                    }
                } else {
                    &&& final(self).client_name == old(self).client_name
                    &&& final(self).topics == old(self).topics
                    &&& final(subs).view() == old(subs).view()
                    &&& r is Nothing
                }
            }),
    {
        match parse_client_command(text) {
            ClientCommand::RegisterName(name) => {
                self.client_name = name;
                ConnectionAction::Nothing
            },
            ClientCommand::Subscribe(topic) => {
                subs.subscribe(topic.as_str(), self.id);
                let ghost before = self.topics@;
                self.topics.push(topic);
                assert(topics_view(self.topics@) =~= topics_view(before).push(self.topics@.last()@));
                ConnectionAction::Nothing
            },
            ClientCommand::Unsubscribe(topic) => {
                subs.unsubscribe(topic.as_str(), self.id);
                let kept_topics = topics_without_vec(&self.topics, topic.as_str());
                self.topics = kept_topics;
                ConnectionAction::Nothing
            },
            ClientCommand::PublishJson(json) => match decode_publish_fields(json.as_str()) {
                None => ConnectionAction::BadJson,
                Some(f) => {
                    let topic = text_or(f.topic, "<none>");
                    let payload = text_or(f.payload, "");
                    let publisher = text_or(f.publisher_name, "<unknown>");
                    let timestamp = text_or(f.timestamp, "");
                    let message = encode_publish_message(
                        publisher.as_str(),
                        topic.as_str(),
                        payload.as_str(),
                        timestamp.as_str(),
                    );
                    let recipients = subs.subscribers_of(topic.as_str());
                    ConnectionAction::Publish { topic, message, recipients }
                },
            },
            ClientCommand::Unrecognized => ConnectionAction::Nothing,
        }
    }

    /// When the client disconnects: takes its id off every topic it subscribed to.
    pub fn close(&self, subs: &mut Subscribers)
        requires
            old(subs).wf(),
        ensures
            final(subs).wf(),
            final(subs).view() == unsubscribed_all(old(subs).view(), topics_view(self.topics@), self.id),
    {
        let n = self.topics.len();
        let mut i: usize = 0;
        while i < n
            invariant
                n == self.topics@.len(),
                i <= n,
                subs.wf(),
                subs.view() == unsubscribed_all(old(subs).view(), topics_view(self.topics@).take(i as int), self.id),
            decreases n - i,
        {
            subs.unsubscribe(self.topics[i].as_str(), self.id);
            assert(topics_view(self.topics@).take(i + 1).drop_last() =~= topics_view(self.topics@).take(i as int));
            i += 1;
        }
        assert(topics_view(self.topics@).take(n as int) =~= topics_view(self.topics@));
    }
}

/// `m` with `id` taken off each topic of `ts`, in order.
pub open spec fn unsubscribed_all(m: Map<Seq<char>, Seq<u64>>, ts: Seq<Seq<char>>, id: u64) -> Map<Seq<char>, Seq<u64>>
    decreases ts.len(),
{
    if ts.len() == 0 {
        m
    } else {
        unsubscribed(unsubscribed_all(m, ts.drop_last(), id), ts.last(), id)
    }
}

fn topics_without_vec(ts: &Vec<String>, t: &str) -> (r: Vec<String>)
    ensures
        topics_view(r@) == topics_without(topics_view(ts@), t@),
{
    let mut out: Vec<String> = Vec::new();
    let mut i: usize = 0;
    while i < ts.len()
        invariant
            i <= ts@.len(),
            topics_view(out@) == topics_without(topics_view(ts@).take(i as int), t@),
        decreases ts@.len() - i,
    {
        assert(topics_view(ts@).take(i + 1).drop_last() =~= topics_view(ts@).take(i as int));
        if !str_eq(ts[i].as_str(), t) {
            let ghost before = out@;
            out.push(ts[i].clone());
            assert(topics_view(out@) =~= topics_view(before).push(ts@[i as int]@));
        }
        i += 1;
    }
    assert(topics_view(ts@).take(ts@.len() as int) =~= topics_view(ts@));
    out
}

proof fn lemma_push_contains(q: Seq<u64>, a: u64, x: u64)
    ensures
        q.push(a).contains(x) <==> (q.contains(x) || x == a),
{
    if q.push(a).contains(x) && x != a {
        let i = choose|i: int| 0 <= i < q.push(a).len() && q.push(a)[i] == x;
        assert(q[i] == x);
    }
    if q.contains(x) {
        let i = choose|i: int| 0 <= i < q.len() && q[i] == x;
        assert(q.push(a)[i] == x);
    }
    if x == a {
        assert(q.push(a)[q.len() as int] == x);
    }
}

proof fn lemma_without_contains(s: Seq<u64>, id: u64, x: u64)
    ensures
        without(s, id).contains(x) <==> (s.contains(x) && x != id),
    decreases s.len(),
{
    if s.len() > 0 {
        let q = s.drop_last();
        lemma_without_contains(q, id, x);
        assert(s =~= q.push(s.last()));
        lemma_push_contains(q, s.last(), x);
        if s.last() != id {
            lemma_push_contains(without(q, id), s.last(), x);
        }
    }
}

/// A subscription is heard: after `subscribe(topic, id)`, `id` is among the
/// subscribers a publication to `topic` goes to, after those already there,
/// and no other topic's subscribers change.
pub proof fn law_subscribe_then_publish(m: Map<Seq<char>, Seq<u64>>, topic: Seq<char>, id: u64, other: Seq<char>)
    requires
        other != topic,
    ensures
        ({
            let after = m.insert(topic, subscribers_in(m, topic).push(id));
            &&& subscribers_in(after, topic).contains(id)
            &&& subscribers_in(after, topic).take(subscribers_in(m, topic).len() as int) == subscribers_in(m, topic)
            &&& subscribers_in(after, other) == subscribers_in(m, other)
        }),
{
    let after = m.insert(topic, subscribers_in(m, topic).push(id));
    assert(subscribers_in(after, topic)[subscribers_in(m, topic).len() as int] == id);
    assert(subscribers_in(after, topic).take(subscribers_in(m, topic).len() as int) =~= subscribers_in(m, topic));
}

/// An unsubscribed client is not published to: after `unsubscribe(topic, id)`,
/// `id` is not among the subscribers of `topic`, and every other subscriber of
/// `topic` still is.
pub proof fn law_unsubscribe_stops_delivery(m: Map<Seq<char>, Seq<u64>>, topic: Seq<char>, id: u64, x: u64)
    ensures
        !subscribers_in(unsubscribed(m, topic, id), topic).contains(id),
        x != id ==> (subscribers_in(unsubscribed(m, topic, id), topic).contains(x)
            <==> subscribers_in(m, topic).contains(x)),
{
    lemma_without_contains(subscribers_in(m, topic), id, id);
    lemma_without_contains(subscribers_in(m, topic), id, x);
}

/// A closed connection is not published to: after `close`, the connection's id
/// is among the subscribers of none of the topics it had subscribed to.
pub proof fn law_closed_connection_unreachable(m: Map<Seq<char>, Seq<u64>>, ts: Seq<Seq<char>>, id: u64, t: Seq<char>)
    requires
        ts.contains(t),
    ensures
        !subscribers_in(unsubscribed_all(m, ts, id), t).contains(id),
    decreases ts.len(),
{
    let prev = unsubscribed_all(m, ts.drop_last(), id);
    lemma_without_contains(subscribers_in(prev, ts.last()), id, id);
    if t != ts.last() {
        let i = choose|i: int| 0 <= i < ts.len() && ts[i] == t;
        assert(ts.drop_last()[i] == t);
        law_closed_connection_unreachable(m, ts.drop_last(), id, t);
    }
}

proof fn lemma_without_absent(s: Seq<u64>, id: u64)
    requires
        !s.contains(id),
    ensures
        without(s, id) == s,
    decreases s.len(),
{
    if s.len() > 0 {
        assert(!s.drop_last().contains(id)) by {
            if s.drop_last().contains(id) {
                let i = choose|i: int| 0 <= i < s.drop_last().len() && s.drop_last()[i] == id;
                assert(s[i] == id);
            }
        }
        lemma_without_absent(s.drop_last(), id);
        assert(s.last() != id) by {
            assert(s[s.len() - 1] == s.last());
        }
        assert(s.drop_last().push(s.last()) =~= s);
    }
}

proof fn lemma_without_is_filter(s: Seq<u64>, id: u64)
    ensures
        without(s, id) == s.filter(|x: u64| x != id),
    decreases s.len(),
{
    reveal_with_fuel(Seq::filter, 1);
    if s.len() > 0 {
        lemma_without_is_filter(s.drop_last(), id);
    }
}

proof fn lemma_without_twice(s: Seq<u64>, id: u64)
    ensures
        without(without(s, id), id) == without(s, id),
{
    lemma_without_contains(s, id, id);
    lemma_without_absent(without(s, id), id);
}

/// Unsubscribing keeps the other subscribers in their order: the list becomes
/// the old list without `id`. A client that subscribes and then unsubscribes,
/// with no other change to the topic in between, leaves its list as it was.
pub proof fn law_unsubscribe_keeps_order(m: Map<Seq<char>, Seq<u64>>, topic: Seq<char>, id: u64)
    ensures
        subscribers_in(unsubscribed(m, topic, id), topic) == subscribers_in(m, topic).filter(|x: u64| x != id),
        !subscribers_in(m, topic).contains(id) ==> subscribers_in(
            unsubscribed(m.insert(topic, subscribers_in(m, topic).push(id)), topic, id),
            topic,
        ) == subscribers_in(m, topic),
{
    lemma_without_is_filter(subscribers_in(m, topic), id);
    let s = subscribers_in(m, topic);
    assert(without(s.push(id), id) == without(s.push(id).drop_last(), id));
    assert(s.push(id).drop_last() =~= s);
    if !s.contains(id) {
        lemma_without_absent(s, id);
    }
}

proof fn lemma_unsubscribed_all_at(m: Map<Seq<char>, Seq<u64>>, ts: Seq<Seq<char>>, id: u64, t: Seq<char>)
    ensures
        subscribers_in(unsubscribed_all(m, ts, id), t) == if ts.contains(t) {
            without(subscribers_in(m, t), id)
        } else {
            subscribers_in(m, t)
        },
    decreases ts.len(),
{
    if ts.len() > 0 {
        let q = ts.drop_last();
        lemma_unsubscribed_all_at(m, q, id, t);
        let prev = unsubscribed_all(m, q, id);
        assert(ts =~= q.push(ts.last()));
        if ts.contains(t) && !q.contains(t) {
            let i = choose|i: int| 0 <= i < ts.len() && ts[i] == t;
            if i < q.len() {
                assert(q[i] == t);
            }
        }
        if q.contains(t) {
            let i = choose|i: int| 0 <= i < q.len() && q[i] == t;
            assert(ts[i] == t);
        }
        if t == ts.last() {
            assert(ts[ts.len() - 1] == t);
            if q.contains(t) {
                lemma_without_twice(subscribers_in(m, t), id);
            }
        }
    } else {
        assert(!ts.contains(t));
    }
}

/// Closing a connection touches only its own entries: on each topic it had
/// subscribed to, the list becomes the old one without its id, the other
/// subscribers keeping their order; every other topic is unchanged.
pub proof fn law_close_keeps_others(m: Map<Seq<char>, Seq<u64>>, ts: Seq<Seq<char>>, id: u64, t: Seq<char>)
    ensures
        ts.contains(t) ==> subscribers_in(unsubscribed_all(m, ts, id), t) == subscribers_in(m, t).filter(
            |x: u64| x != id,
        ),
        !ts.contains(t) ==> subscribers_in(unsubscribed_all(m, ts, id), t) == subscribers_in(m, t),
{
    lemma_unsubscribed_all_at(m, ts, id, t);
    lemma_without_is_filter(subscribers_in(m, t), id);
}

/// Each command is its keyword followed by its argument, and the argument is
/// read the same way whatever the command: the name and the topics of
/// `register-name:`, `subscribe:` and `unsubscribe:` are trimmed of surrounding
/// whitespace, the JSON of `publish-json:` is kept as it is. So the topic a
/// client unsubscribes from is the topic the same text subscribed it to.
pub proof fn law_commands_read_their_argument(t: Seq<char>)
    ensures
        command_named("register-name:"@ + t) == (0int, trim(t)),
        command_named("subscribe:"@ + t) == (1int, trim(t)),
        command_named("unsubscribe:"@ + t) == (2int, trim(t)),
        command_named("publish-json:"@ + t) == (3int, t),
        command_named("unsubscribe:"@ + t).1 == command_named("subscribe:"@ + t).1,
{
    reveal_strlit("register-name:");
    reveal_strlit("subscribe:");
    reveal_strlit("unsubscribe:");
    reveal_strlit("publish-json:");
    let r = "register-name:"@ + t;
    let s = "subscribe:"@ + t;
    let u = "unsubscribe:"@ + t;
    let p = "publish-json:"@ + t;
    assert(r.subrange(0, 14) =~= "register-name:"@);
    assert(r.subrange(14, r.len() as int) =~= t);
    assert(s[0] == 's' && "register-name:"@[0] == 'r');
    assert(s.subrange(0, 10) =~= "subscribe:"@);
    assert(s.subrange(10, s.len() as int) =~= t);
    assert(u[0] == 'u');
    assert(u.subrange(0, 12) =~= "unsubscribe:"@);
    assert(u.subrange(12, u.len() as int) =~= t);
    assert(p[0] == 'p');
    assert(p.subrange(0, 13) =~= "publish-json:"@);
    assert(p.subrange(13, p.len() as int) =~= t);
    assert(!has_prefix(s, "register-name:"@)) by {
        if has_prefix(s, "register-name:"@) {
            assert(s.subrange(0, 14)[0] == s[0]);
        }
    }
    assert(!has_prefix(u, "register-name:"@)) by {
        if has_prefix(u, "register-name:"@) {
            assert(u.subrange(0, 14)[0] == u[0]);
        }
    }
    assert(!has_prefix(u, "subscribe:"@)) by {
        if has_prefix(u, "subscribe:"@) {
            assert(u.subrange(0, 10)[0] == u[0]);
        }
    }
    assert(!has_prefix(p, "register-name:"@)) by {
        if has_prefix(p, "register-name:"@) {
            assert(p.subrange(0, 14)[0] == p[0]);
        }
    }
    assert(!has_prefix(p, "subscribe:"@)) by {
        if has_prefix(p, "subscribe:"@) {
            assert(p.subrange(0, 10)[0] == p[0]);
        }
    }
    assert(!has_prefix(p, "unsubscribe:"@)) by {
        if has_prefix(p, "unsubscribe:"@) {
            assert(p.subrange(0, 12)[0] == p[0]);
        }
    }
}

/// Subscribing with `subscribe:` and some text, then unsubscribing with
/// `unsubscribe:` and the same text, stops delivery: in the subscriptions
/// `handle_text` leaves after the two commands, the connection is not among the
/// subscribers of the (trimmed) topic.
pub proof fn law_subscribe_then_unsubscribe_same_text(m: Map<Seq<char>, Seq<u64>>, t: Seq<char>, id: u64)
    ensures
        ({
            let sub = command_named("subscribe:"@ + t).1;
            let after_sub = m.insert(sub, subscribers_in(m, sub).push(id));
            let after_unsub = unsubscribed(after_sub, command_named("unsubscribe:"@ + t).1, id);
            !subscribers_in(after_unsub, trim(t)).contains(id)
        }),
{
    law_commands_read_their_argument(t);
    let sub = command_named("subscribe:"@ + t).1;
    let after_sub = m.insert(sub, subscribers_in(m, sub).push(id));
    law_unsubscribe_stops_delivery(after_sub, trim(t), id, id);
}

} // verus!
