//! The command processor: what the background process does with the
//! channels on each tick. The process itself sleeps, reads and writes the
//! channels and talks to the store; what it decides is decided here.

use crate::analytics::whole_seconds;
use crate::channel::{Channels, ChannelsView};
use crate::clock::Clock;
use crate::command::{command_of, Command};
use crate::database::{SessionRecord, SessionRecordView};
use crate::error::TimerError;
use crate::laws::law_refresh_is_idempotent;
use crate::session::{session_record, Session, SessionView};
use crate::text::{decimal, decimal_string, first_token, hhmmss, parse_amount, parse_minutes};
use vstd::prelude::*;
use vstd::string::*;

verus! {

/// What the process has to do after a tick.
#[derive(Debug)]
pub enum Action {
    /// Nothing but to wait for the next tick.
    Continue,
    /// The command was skipped, or the summary could not be computed, for
    /// the reason given; go on with the next tick.
    Rejected(TimerError),
    /// Write this record to the store; once it is written, report so
    /// with `session_saved`.
    Persist(SessionRecord),
    /// End the process.
    Exit,
}

/// An action, with its record as a view.
#[verifier::ext_equal]
pub enum ActionView {
    Continue,
    Rejected(TimerError),
    Persist(SessionRecordView),
    Exit,
}

impl View for Action {
    type V = ActionView;

    open spec fn view(&self) -> ActionView {
        match self {
            Action::Continue => ActionView::Continue,
            Action::Rejected(e) => ActionView::Rejected(*e),
            Action::Persist(record) => ActionView::Persist(record@),
            Action::Exit => ActionView::Exit,
        }
    }
}

/// The tag that a tag channel holds: none when the channel is empty.
pub open spec fn channel_tag(content: Seq<char>) -> Option<Seq<char>> {
    if content.len() == 0 {
        None
    } else {
        Some(content)
    }
}

/// The outcome of carrying out one command.
#[verifier::ext_equal]
pub struct Dispatched {
    pub session: SessionView,
    pub channels: ChannelsView,
    pub error: Option<TimerError>,
    pub persist: bool,
}

/// A command that was skipped: nothing changes.
pub open spec fn skipped(s: SessionView, c: ChannelsView, e: TimerError) -> Dispatched {
    Dispatched { session: s, channels: c, error: Some(e), persist: false }
}

/// What carrying out `command` at `now` makes of the session and the
/// channels.
///
/// A toggle starts an interval under the tag in the tag channel, or
/// closes the open one. An addition or a subtraction reads the amount
/// channel, records the amount and empties that channel. A completion
/// computes the summary, gives the session the tag in the tag channel,
/// and asks for the session to be persisted; it is refused while an
/// interval is open. A command that is refused changes nothing.
pub open spec fn dispatch(s: SessionView, c: ChannelsView, command: Command, now: nat) -> Dispatched {
    match command {
        Command::Toggle => if s.toggle_ok(now) {
            Dispatched {
                session: s.toggled(channel_tag(c.tag), now),
                channels: c,
                error: None,
                persist: false,
            }
        } else {
            skipped(s, c, TimerError::ClockWentBackward)
        },
        Command::Add => match parse_amount(c.amount) {
            Some(minutes) => match s.with_addition(minutes as nat).total(now) {
                Ok(_) => Dispatched {
                    session: s.with_addition(minutes as nat),
                    channels: ChannelsView { amount: Seq::empty(), ..c },
                    error: None,
                    persist: false,
                },
                Err(e) => skipped(s, c, e),
            },
            None => skipped(s, c, TimerError::InvalidAmount),
        },
        Command::Subtract => match parse_amount(c.amount) {
            Some(minutes) => match s.with_subtraction(minutes as nat).total(now) {
                Ok(_) => Dispatched {
                    session: s.with_subtraction(minutes as nat),
                    channels: ChannelsView { amount: Seq::empty(), ..c },
                    error: None,
                    persist: false,
                },
                Err(e) => skipped(s, c, e),
            },
            None => skipped(s, c, TimerError::InvalidAmount),
        },
        Command::Complete => match s.total(now) {
            Ok(_) => if s.active {
                skipped(s, c, TimerError::StillTracking)
            } else if s.refreshed(now).analytics.count() > u32::MAX {
                skipped(s, c, TimerError::Overflow)
            } else {
                Dispatched {
                    session: SessionView { tag: channel_tag(c.tag), ..s.refreshed(now) },
                    channels: c,
                    error: None,
                    persist: true,
                }
            },
            Err(e) => skipped(s, c, e),
        },
        Command::Exit => Dispatched { session: s, channels: c, error: None, persist: false },
        Command::Noop => Dispatched { session: s, channels: c, error: None, persist: false },
    }
}

/// The session with its summary computed anew at `now`, or as it is
/// where the total is refused.
pub open spec fn refreshed_or_kept(s: SessionView, now: nat) -> SessionView {
    if s.total(now) is Ok {
        s.refreshed(now)
    } else {
        s
    }
}

/// The channels after the summary of `s` was published and the command
/// was consumed.
pub open spec fn published(c: ChannelsView, s: SessionView) -> ChannelsView {
    ChannelsView {
        command: Seq::empty(),
        time_gained: hhmmss(whole_seconds(s.analytics.time_gained)),
        durations_count: decimal(s.analytics.count()),
        durations_average: match s.analytics.duration_avg {
            Some(a) => a,
            None => hhmmss(0),
        },
        ..c
    }
}

/// The outcome of one tick.
#[verifier::ext_equal]
pub struct Stepped {
    pub session: SessionView,
    pub channels: ChannelsView,
    pub action: ActionView,
}

/// One tick at `now`: the command in the command channel is carried out,
/// the summary is computed anew and published, and the command channel
/// is emptied, so that each command is carried out once. The command to
/// exit ends the process at once and touches nothing.
pub open spec fn step_model(s: SessionView, c: ChannelsView, now: nat) -> Stepped {
    let command = command_of(first_token(c.command));
    if command == Command::Exit {
        Stepped { session: s, channels: c, action: ActionView::Exit }
    } else {
        let d = dispatch(s, c, command, now);
        let session = refreshed_or_kept(d.session, now);
        Stepped {
            session,
            channels: published(d.channels, session),
            action: if d.error is Some {
                ActionView::Rejected(d.error->0)
            } else if d.session.total(now) is Err {
                ActionView::Rejected(d.session.total(now)->Err_0)
            } else if d.persist {
                ActionView::Persist(session_record(session))
            } else {
                ActionView::Continue
            },
        }
    }
}

/// The command processor of one timer: the session it owns and the clock
/// it reads.
pub struct Daemon {
    session: Session,
    clock: Clock,
}

impl Daemon {
    /// The session as the processor holds it.
    pub closed spec fn ledger(&self) -> SessionView {
        self.session@
    }

    /// Whether the session keeps its invariant.
    pub open spec fn wf(&self) -> bool {
        self.ledger().wf()
    }

    /// A processor for the session to which the store gave `id`.
    pub fn new(id: u64) -> (r: Daemon)
        ensures
            r.ledger() == SessionView::fresh(id),
            r.wf(),
    {
        Daemon { session: Session::new(id), clock: Clock::new() }
    }

    /// The session.
    pub fn session(&self) -> (r: &Session)
        ensures
            r@ == self.ledger(),
    {
        &self.session
    }

    /// The tag that the tag channel holds.
    fn read_tag(channels: &Channels) -> (r: Option<String>)
        ensures
            crate::pt_duration::tag_view(r) == channel_tag(channels@.tag),
    {
        if channels.tag.is_empty() {
            None
        } else {
            Some(String::from_str(channels.tag.read()))
        }
    }

    /// Carries out an addition or a subtraction.
    fn adjust(&mut self, channels: &mut Channels, command: Command, now: u128) -> (r: Option<
        TimerError,
    >)
        requires
            old(self).wf(),
            command == Command::Add || command == Command::Subtract,
        ensures
            final(self).wf(),
            (Dispatched {
                session: final(self).ledger(),
                channels: final(channels)@,
                error: r,
                persist: false,
            }) == dispatch(old(self).ledger(), old(channels)@, command, now as nat),
    {
        let minutes = match parse_minutes(channels.amount.read()) {
            Some(minutes) => minutes,
            None => {
                return Some(TimerError::InvalidAmount);
            },
        };
        let recorded = match command {
            Command::Add => self.session.record_addition(minutes, now),
            _ => self.session.record_subtraction(minutes, now),
        };
        match recorded {
            Ok(()) => {
                channels.amount.clear();
                None
            },
            Err(e) => Some(e),
        }
    }

    /// Carries out a completion.
    fn complete(&mut self, channels: &Channels, now: u128) -> (r: Result<
        SessionRecord,
        TimerError,
    >)
        requires
            old(self).wf(),
        ensures
            final(self).wf(),
            (Dispatched {
                session: final(self).ledger(),
                channels: channels@,
                error: match r {
                    Ok(_) => None,
                    Err(e) => Some(e),
                },
                persist: r is Ok,
            }) == dispatch(old(self).ledger(), channels@, Command::Complete, now as nat),
            r is Ok ==> r->Ok_0@ == session_record(final(self).ledger()),
            r is Ok ==> final(self).ledger().total(now as nat) is Ok,
            r is Ok ==> final(self).ledger().refreshed(now as nat) == final(self).ledger(),
    {
        let ghost before = self.session@;
        if let Err(e) = self.session.total(now) {
            return Err(e);
        }
        if self.session.is_active() {
            return Err(TimerError::StillTracking);
        }
        if self.session.completed() > u32::MAX as u64 {
            return Err(TimerError::Overflow);
        }
        let refreshed = self.session.update_time_gained(now);
        assert(refreshed is Ok);
        self.session.set_tag(Self::read_tag(channels));
        proof {
            law_refresh_is_idempotent(before, now as nat);
            assert(self.session@.refreshed(now as nat) =~= self.session@);
        }
        let record = self.session.save_session();
        assert(record is Ok);
        record
    }

    /// Carries out `command`.
    fn carry_out(&mut self, channels: &mut Channels, command: Command, now: u128) -> (r: (
        Option<TimerError>,
        Option<SessionRecord>,
    ))
        requires
            old(self).wf(),
        ensures
            final(self).wf(),
            (Dispatched {
                session: final(self).ledger(),
                channels: final(channels)@,
                error: r.0,
                persist: r.1 is Some,
            }) == dispatch(old(self).ledger(), old(channels)@, command, now as nat),
            r.1 is Some ==> r.1->0@ == session_record(final(self).ledger()),
            r.1 is Some ==> final(self).ledger().total(now as nat) is Ok,
            r.1 is Some ==> final(self).ledger().refreshed(now as nat) == final(self).ledger(),
    {
        match command {
            Command::Toggle => {
                let tag = Self::read_tag(channels);
                match self.session.start_or_pause(tag, now) {
                    Ok(()) => (None, None),
                    Err(e) => (Some(e), None),
                }
            },
            Command::Add => (self.adjust(channels, command, now), None),
            Command::Subtract => (self.adjust(channels, command, now), None),
            Command::Complete => match self.complete(channels, now) {
                Ok(record) => (None, Some(record)),
                Err(e) => (Some(e), None),
            },
            Command::Exit => (None, None),
            Command::Noop => (None, None),
        }
    }

    /// Writes the summary into the outbound channels and empties the
    /// command channel.
    fn publish(&self, channels: &mut Channels)
        ensures
            final(channels)@ == published(old(channels)@, self.ledger()),
    {
        let summary = self.session.analytics();
        channels.time_gained.write(summary.get_time_gained_formatted());
        channels.durations_count.write(decimal_string(summary.get_duration_count() as u128));
        channels.durations_average.write(summary.get_duration_avg());
        channels.command.clear();
    }

    /// One tick when the clock reads `now`.
    pub fn step(&mut self, channels: &mut Channels, now: u128) -> (r: Action)
        requires
            old(self).wf(),
        ensures
            final(self).wf(),
            (Stepped { session: final(self).ledger(), channels: final(channels)@, action: r@ })
                == step_model(old(self).ledger(), old(channels)@, now as nat),
    {
        let command = Command::parse(channels.command.read());
        if command == Command::Exit {
            return Action::Exit;
        }
        let (error, record) = self.carry_out(channels, command, now);
        let refreshed = self.session.update_time_gained(now);
        self.publish(channels);
        match error {
            Some(e) => Action::Rejected(e),
            None => match refreshed {
                Err(e) => Action::Rejected(e),
                Ok(()) => match record {
                    Some(record) => Action::Persist(record),
                    None => Action::Continue,
                },
            },
        }
    }

    /// One tick: reads the clock and steps with what it reads. When the
    /// clock cannot be read nothing is done, and the process has to end.
    pub fn tick(&mut self, channels: &mut Channels) -> (r: Result<Action, TimerError>)
        requires
            old(self).wf(),
        ensures
            final(self).wf(),
            match r {
                Ok(action) => exists|now: nat| #[trigger]
                    step_model(old(self).ledger(), old(channels)@, now) == (Stepped {
                        session: final(self).ledger(),
                        channels: final(channels)@,
                        action: action@,
                    }),
                Err(e) => {
                    &&& e == TimerError::ClockUnavailable
                    &&& final(self).ledger() == old(self).ledger()
                    &&& final(channels)@ == old(channels)@
                },
            },
    {
        match self.clock.now() {
            Ok(now) => {
                let action = self.step(channels, now);
                Ok(action)
            },
            Err(e) => Err(e),
        }
    }

    /// The store has written the record of the session: the session is
    /// dropped, the next one goes by `id`, and its empty summary is
    /// published.
    pub fn session_saved(&mut self, id: u64, channels: &mut Channels)
        ensures
            final(self).wf(),
            final(self).ledger() == SessionView::fresh(id),
            final(channels)@ == published(old(channels)@, SessionView::fresh(id)),
    {
        self.session.reset(id);
        self.publish(channels);
    }
}

} // verus!
