//! A counter with two buttons.
use vstd::prelude::*;

verus! {

/// What the two buttons of the counter send.
#[derive(Debug, Clone, Copy, PartialEq, Eq, Structural)]
pub enum CounterMessage {
    Increment,
    Decrement,
}

/// A number that the user counts up and down.
#[derive(Debug, Clone, Copy)]
pub struct Counter {
    value: i32,
}

/// The counter's number after a message. The number wraps around at the
/// ends of its range.
pub open spec fn spec_count(value: i32, message: CounterMessage) -> i32 {
    match message {
        CounterMessage::Increment => if value == i32::MAX {
            i32::MIN
        } else {
            (value + 1) as i32
        },
        CounterMessage::Decrement => if value == i32::MIN {
            i32::MAX
        } else {
            (value - 1) as i32
        },
    }
}

impl View for Counter {
    type V = i32;

    closed spec fn view(&self) -> i32 {
        self.value
    }
}

impl Default for Counter {
    fn default() -> (counter: Self)
        ensures
            counter@ == 0,
    {
        Counter { value: 0 }
    }
}

impl Counter {
    /// The number shown.
    pub fn value(&self) -> (value: i32)
        ensures
            value == self@,
    {
        self.value
    }

    /// Counts one up or one down.
    pub fn update(&mut self, message: CounterMessage)
        ensures
            final(self)@ == spec_count(old(self)@, message),
    {
        match message {
            CounterMessage::Increment => {
                if self.value == i32::MAX {
                    self.value = i32::MIN;
                } else {
                    self.value = self.value + 1;
                }
            },
            CounterMessage::Decrement => {
                if self.value == i32::MIN {
                    self.value = i32::MAX;
                } else {
                    self.value = self.value - 1;
                }
            },
        }
    }
}

/// Counting up and then down, or down and then up, leaves the number as it
/// was.
pub proof fn lemma_count_back(value: i32)
    ensures
        spec_count(spec_count(value, CounterMessage::Increment), CounterMessage::Decrement) == value,
        spec_count(spec_count(value, CounterMessage::Decrement), CounterMessage::Increment) == value,
{
}

} // verus!
