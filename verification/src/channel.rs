//! Single-slot channels between the command line and the background
//! process. A channel holds one value; writing replaces it, so of two
//! writes before a read only the second is ever seen.

use crate::command::{code_of, Request, RequestView};
use vstd::prelude::*;
use vstd::string::*;

verus! {

/// One slot of text.
#[derive(Debug)]
pub struct Channel {
    content: String,
}

impl View for Channel {
    type V = Seq<char>;

    closed spec fn view(&self) -> Seq<char> {
        self.content@
    }
}

impl Channel {
    /// An empty channel.
    pub fn new() -> (r: Channel)
        ensures
            r@ == Seq::<char>::empty(),
    {
        Channel { content: String::new() }
    }

    /// Puts `value` into the channel in place of what it held.
    pub fn write(&mut self, value: String)
        ensures
            final(self)@ == value@,
    {
        self.content = value;
    }

    /// What the channel holds.
    pub fn read(&self) -> (r: &str)
        ensures
            r@ == self@,
    {
        self.content.as_str()
    }

    /// Empties the channel.
    pub fn clear(&mut self)
        ensures
            final(self)@ == Seq::<char>::empty(),
    {
        self.content = String::new();
    }

    /// Whether the channel holds nothing.
    pub fn is_empty(&self) -> (r: bool)
        ensures
            r == (self@.len() == 0),
    {
        self.content.as_str().unicode_len() == 0
    }
}

/// The channels of one timer: three that the command line writes and the
/// background process reads, three that go the other way.
#[derive(Debug)]
pub struct Channels {
    /// The one-letter command.
    pub command: Channel,
    /// The tag for the next interval, or for the session at completion.
    pub tag: Channel,
    /// The minutes to add or to subtract.
    pub amount: Channel,
    /// The total, as `HH:MM:SS`.
    pub time_gained: Channel,
    /// The number of completed intervals.
    pub durations_count: Channel,
    /// The average length of a completed interval, as `HH:MM:SS`.
    pub durations_average: Channel,
}

/// What the channels hold.
#[verifier::ext_equal]
pub struct ChannelsView {
    pub command: Seq<char>,
    pub tag: Seq<char>,
    pub amount: Seq<char>,
    pub time_gained: Seq<char>,
    pub durations_count: Seq<char>,
    pub durations_average: Seq<char>,
}

impl View for Channels {
    type V = ChannelsView;

    open spec fn view(&self) -> ChannelsView {
        ChannelsView {
            command: self.command@,
            tag: self.tag@,
            amount: self.amount@,
            time_gained: self.time_gained@,
            durations_count: self.durations_count@,
            durations_average: self.durations_average@,
        }
    }
}

impl ChannelsView {
    /// These channels after `request` was written into them: the letter
    /// of the command replaces the command, and the tag and the amount
    /// replace theirs if the request carries one.
    pub open spec fn sent(self, request: RequestView) -> ChannelsView {
        ChannelsView {
            command: code_of(request.command),
            tag: match request.tag {
                Some(t) => t,
                None => self.tag,
            },
            amount: match request.amount {
                Some(a) => a,
                None => self.amount,
            },
            ..self
        }
    }
}

impl Channels {
    /// Six empty channels.
    pub fn new() -> (r: Channels)
        ensures
            r@ == (ChannelsView {
                command: Seq::empty(),
                tag: Seq::empty(),
                amount: Seq::empty(),
                time_gained: Seq::empty(),
                durations_count: Seq::empty(),
                durations_average: Seq::empty(),
            }),
    {
        Channels {
            command: Channel::new(),
            tag: Channel::new(),
            amount: Channel::new(),
            time_gained: Channel::new(),
            durations_count: Channel::new(),
            durations_average: Channel::new(),
        }
    }

    /// Writes `request` into the channels, over whatever command was
    /// waiting there.
    pub fn send(&mut self, request: Request)
        ensures
            final(self)@ == old(self)@.sent(request@),
    {
        self.command.write(String::from_str(request.command.code()));
        match request.tag {
            Some(t) => {
                self.tag.write(t);
            },
            None => {},
        }
        match request.amount {
            Some(a) => {
                self.amount.write(a);
            },
            None => {},
        }
    }
}

/// Of two requests sent before the channels are read, the command of the
/// first is lost: the channels are as if only the second had been sent,
/// but for a tag or an amount that only the first carried.
pub proof fn law_last_write_wins(c: ChannelsView, first: RequestView, second: RequestView)
    ensures
        c.sent(first).sent(second).command == code_of(second.command),
        c.sent(first).sent(second).command == c.sent(second).command,
        second.tag is Some ==> c.sent(first).sent(second).tag == c.sent(second).tag,
        second.amount is Some ==> c.sent(first).sent(second).amount == c.sent(second).amount,
{
}

} // verus!
