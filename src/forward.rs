use vstd::prelude::*;

verus! {

/// The event-sink topics the launcher publishes on.
#[derive(PartialEq, Eq, Structural, Clone, Copy, Debug)]
pub enum Topic {
    SetupStatus,
    InstallStatus,
    InstallError,
    NodeOutput,
    NodeError,
}

pub open spec fn topic_name(t: Topic) -> Seq<char> {
    match t {
        Topic::SetupStatus => "setup-status"@,
        Topic::InstallStatus => "install-status"@,
        Topic::InstallError => "install-error"@,
        Topic::NodeOutput => "node-output"@,
        Topic::NodeError => "node-error"@,
    }
}

impl Topic {
    /// The name under which the sink publishes this topic.
    pub fn name(&self) -> (r: &'static str)
        ensures
            r@ == topic_name(*self),
    {
        match self {
            Topic::SetupStatus => "setup-status",
            Topic::InstallStatus => "install-status",
            Topic::InstallError => "install-error",
            Topic::NodeOutput => "node-output",
            Topic::NodeError => "node-error",
        }
    }
}

/// What a read from a child's output stream produced.
pub enum StreamEvent {
    /// One newline-delimited line, without its terminator.
    Line(String),
    /// End of input.
    Closed,
    /// The read failed; forwarding stops, and the failure is dropped on purpose.
    ReadFailed,
}

/// A message for the event sink.
pub struct SinkMessage {
    pub topic: Topic,
    pub line: String,
}

/// Relays the lines of one output stream to one topic until the stream ends.
pub struct StreamForwarder {
    topic: Topic,
    open: bool,
}

/// The forwarder's response to one event, given whether it is still open:
/// whether it stays open, and the line it forwards, if any.
pub open spec fn forward_step(open: bool, ev: StreamEvent) -> (bool, Option<Seq<char>>) {
    if !open {
        (false, None)
    } else {
        match ev {
            StreamEvent::Line(l) => (true, Some(l@)),
            _ => (false, None),
        }
    }
}

/// The lines forwarded, in order, when the events `evs` arrive one after
/// another at a forwarder that is open or not.
pub open spec fn forwarded(open: bool, evs: Seq<StreamEvent>) -> Seq<Seq<char>>
    decreases evs.len(),
{
    if evs.len() == 0 {
        Seq::empty()
    } else {
        let (still_open, out) = forward_step(open, evs[0]);
        let rest = forwarded(still_open, evs.drop_first());
        match out {
            Some(l) => seq![l] + rest,
            None => rest,
        }
    }
}

impl StreamForwarder {
    pub fn new(topic: Topic) -> (r: Self)
        ensures
            r.topic() == topic,
            r.is_open_spec(),
    {
        StreamForwarder { topic, open: true }
    }

    pub closed spec fn topic(&self) -> Topic {
        self.topic
    }

    pub closed spec fn is_open_spec(&self) -> bool {
        self.open
    }

    /// Whether the stream has neither ended nor failed yet.
    pub fn is_open(&self) -> (r: bool)
        ensures
            r == self.is_open_spec(),
    {
        self.open
    }

    /// Handles one event: a line while open becomes a message on the
    /// forwarder's topic; the end of the stream or a read failure closes the
    /// forwarder; nothing is forwarded once closed.
    pub fn on_event(&mut self, ev: StreamEvent) -> (r: Option<SinkMessage>)
        ensures
            final(self).topic() == old(self).topic(),
            final(self).is_open_spec() == forward_step(old(self).is_open_spec(), ev).0,
            forward_step(old(self).is_open_spec(), ev).1 matches Some(l) ==> (r matches Some(m) && m.topic == old(self).topic() && m.line@ == l),
            forward_step(old(self).is_open_spec(), ev).1 is None ==> r is None,
    {
        if !self.open {
            return None;
        }
        match ev {
            StreamEvent::Line(line) => Some(SinkMessage { topic: self.topic, line }),
            _ => {
                self.open = false;
                None
            },
        }
    }
}

/// The events of a stream that yields `lines` and then ends.
pub open spec fn lines_then(lines: Seq<Seq<char>>, evs: Seq<StreamEvent>) -> bool {
    &&& evs.len() > lines.len()
    &&& forall|i: int| 0 <= i < lines.len() ==> ((#[trigger] evs[i]) matches StreamEvent::Line(l) && l@ == lines[i])
    &&& !(evs[lines.len() as int] is Line)
}

/// A stream that yields some lines and then ends (or fails) has exactly
/// those lines forwarded, in the order produced, and nothing that arrives
/// after the end.
pub proof fn lemma_forwards_lines_in_order(lines: Seq<Seq<char>>, evs: Seq<StreamEvent>)
    requires
        lines_then(lines, evs),
    ensures
        forwarded(true, evs) == lines,
    decreases lines.len(),
{
    if lines.len() == 0 {
        lemma_closed_forwards_nothing(evs.drop_first());
        assert(forwarded(true, evs) =~= lines);
    } else {
        let rest = lines.drop_first();
        let revs = evs.drop_first();
        assert forall|i: int| 0 <= i < rest.len() implies ((#[trigger] revs[i]) matches StreamEvent::Line(l) && l@ == rest[i]) by {
            assert(revs[i] == evs[i + 1]);
        }
        assert(revs[rest.len() as int] == evs[lines.len() as int]);
        lemma_forwards_lines_in_order(rest, revs);
        assert(evs[0] matches StreamEvent::Line(l) && l@ == lines[0]);
        assert(forwarded(true, evs) =~= lines);
    }
}

/// A closed forwarder forwards nothing more.
pub proof fn lemma_closed_forwards_nothing(evs: Seq<StreamEvent>)
    ensures
        forwarded(false, evs) == Seq::<Seq<char>>::empty(),
    decreases evs.len(),
{
    if evs.len() > 0 {
        lemma_closed_forwards_nothing(evs.drop_first());
    }
}

} // verus!
