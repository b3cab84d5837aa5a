use vstd::prelude::*;

use crate::corpus::{Corpus, Testcase};
use crate::sink::{format_log_line, log_line, TextSink};

verus! {

/// How the broker disposed of an event.
pub enum BrokerEventResult {
    /// The broker handled this; no need to pass it on.
    Handled,
    /// Pass this message along to the clients.
    Forward,
}

/// The error that the dispatch protocol reports.
pub enum AflError {
    /// A message that only the broker should see reached a client.
    IllegalMessage,
}

/// The variant of an event, without its payload.
#[derive(PartialEq, Eq, Structural, Clone, Copy)]
pub enum EventKind {
    LoadInitial,
    NewTestcase,
    UpdateStats,
    Crash,
    Timeout,
    Log,
    Noop,
}

/// Events sent around in the library.
pub enum Event {
    LoadInitial { sender_id: u64 },
    NewTestcase { sender_id: u64, testcase: Testcase },
    UpdateStats { sender_id: u64, new_execs: usize },
    Crash { sender_id: u64, input: Vec<u8> },
    Timeout { sender_id: u64, input: Vec<u8> },
    Log { sender_id: u64, severity_level: u8, message: String },
    Noop,
}

/// The name of each variant, as `Event::name` gives it.
pub open spec fn kind_name(k: EventKind) -> Seq<char> {
    match k {
        EventKind::LoadInitial => seq!['I', 'n', 'i', 't', 'i', 'a', 'l'],
        EventKind::NewTestcase => seq!['N', 'e', 'w', ' ', 'T', 'e', 's', 't', 'c', 'a', 's', 'e'],
        EventKind::UpdateStats => seq!['S', 't', 'a', 't', 's'],
        EventKind::Crash => seq!['C', 'r', 'a', 's', 'h'],
        EventKind::Timeout => seq!['T', 'i', 'm', 'e', 'o', 'u', 't'],
        EventKind::Log => seq!['L', 'o', 'g'],
        EventKind::Noop => seq!['N', 'o', 'n', 'e'],
    }
}

impl Event {
    pub open spec fn kind(&self) -> EventKind {
        match self {
            Event::LoadInitial { .. } => EventKind::LoadInitial,
            Event::NewTestcase { .. } => EventKind::NewTestcase,
            Event::UpdateStats { .. } => EventKind::UpdateStats,
            Event::Crash { .. } => EventKind::Crash,
            Event::Timeout { .. } => EventKind::Timeout,
            Event::Log { .. } => EventKind::Log,
            Event::Noop => EventKind::Noop,
        }
    }

    pub open spec fn spec_name(&self) -> Seq<char> {
        kind_name(self.kind())
    }

    /// Whether the broker passes this event on to the clients.
    pub open spec fn is_forwarded(&self) -> bool {
        self.kind() == EventKind::NewTestcase
    }

    /// The lines that handling this event in the broker writes to the sink.
    pub open spec fn broker_lines(&self) -> Seq<Seq<char>> {
        match self {
            Event::Log { sender_id, severity_level, message } => seq![
                log_line(*sender_id, *severity_level, message@),
            ],
            _ => Seq::empty(),
        }
    }

    /// The testcases that handling this event in a client adds to the corpus.
    pub open spec fn client_additions(&self) -> Seq<Seq<u8>> {
        match self {
            Event::NewTestcase { testcase, .. } => seq![testcase@],
            _ => Seq::empty(),
        }
    }

    /// A stable tag for the variant, for logs and metrics.
    pub fn name(&self) -> (r: &'static str)
        ensures
            r@ == self.spec_name(),
    {
        match self {
            Event::LoadInitial { .. } => {
                proof { reveal_strlit("Initial"); }
                "Initial"
            },
            Event::NewTestcase { .. } => {
                proof { reveal_strlit("New Testcase"); }
                "New Testcase"
            },
            Event::UpdateStats { .. } => {
                proof { reveal_strlit("Stats"); }
                "Stats"
            },
            Event::Crash { .. } => {
                proof { reveal_strlit("Crash"); }
                "Crash"
            },
            Event::Timeout { .. } => {
                proof { reveal_strlit("Timeout"); }
                "Timeout"
            },
            Event::Log { .. } => {
                proof { reveal_strlit("Log"); }
                "Log"
            },
            Event::Noop => {
                proof { reveal_strlit("None"); }
                "None"
            },
        }
    }

    /// Decides, once per event, whether the broker keeps it or forwards it.
    /// Log messages are written to `sink`; nothing else is touched.
    pub fn handle_in_broker<S>(&self, state: &mut S, corpus: &mut Corpus, sink: &mut TextSink) -> (r:
        Result<BrokerEventResult, AflError>)
        ensures
            r == (if self.is_forwarded() {
                Ok::<BrokerEventResult, AflError>(BrokerEventResult::Forward)
            } else {
                Ok::<BrokerEventResult, AflError>(BrokerEventResult::Handled)
            }),
            *final(state) == *old(state),
            final(corpus)@ == old(corpus)@,
            final(sink)@ == old(sink)@ + self.broker_lines(),
    {
        match self {
            Event::NewTestcase { .. } => Ok(BrokerEventResult::Forward),
            Event::Log { sender_id, severity_level, message } => {
                let line = format_log_line(*sender_id, *severity_level, message);
                sink.write_line(line);
                assert(sink@ =~= old(sink)@ + self.broker_lines());
                Ok(BrokerEventResult::Handled)
            },
            Event::LoadInitial { .. } | Event::UpdateStats { .. } | Event::Crash { .. }
            | Event::Timeout { .. } | Event::Noop => {
                assert(sink@ =~= old(sink)@ + self.broker_lines());
                Ok(BrokerEventResult::Handled)
            },
        }
    }

    /// Applies a forwarded event in a client. Only a new testcase may be
    /// forwarded: it is added to the corpus; any other event is refused.
    pub fn handle_in_client<S>(&self, state: &mut S, corpus: &mut Corpus) -> (r: Result<(), AflError>)
        ensures
            r == (if self.is_forwarded() {
                Ok::<(), AflError>(())
            } else {
                Err::<(), AflError>(AflError::IllegalMessage)
            }),
            *final(state) == *old(state),
            final(corpus)@ == old(corpus)@ + self.client_additions(),
    {
        match self {
            Event::NewTestcase { testcase, .. } => {
                corpus.add(testcase.duplicate());
                assert(corpus@ =~= old(corpus)@ + self.client_additions());
                Ok(())
            },
            Event::LoadInitial { .. } | Event::UpdateStats { .. } | Event::Crash { .. }
            | Event::Timeout { .. } | Event::Log { .. } | Event::Noop => {
                assert(corpus@ =~= old(corpus)@ + self.client_additions());
                Err(AflError::IllegalMessage)
            },
        }
    }
}

/// Names are never empty, and two events share a name exactly when they are
/// of the same variant.
pub proof fn name_identifies_variant(a: &Event, b: &Event)
    ensures
        a.spec_name().len() > 0,
        (a.spec_name() == b.spec_name()) == (a.kind() == b.kind()),
{
    let (na, nb) = (a.spec_name(), b.spec_name());
    if a.kind() != b.kind() {
        if na.len() == nb.len() {
            assert(na[0] != nb[0]);
        }
        assert(na != nb);
    }
}

} // verus!
