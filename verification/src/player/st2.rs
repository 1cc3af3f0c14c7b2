//! The Scream Tracker 2.21 replayer state, after st2play by Sergei "x0r"
//! Kolzun: the channels are kept, the replay itself does nothing yet.

use vstd::prelude::*;

verus! {

/// The state of a Scream Tracker 2 channel.
#[derive(Clone, Copy, Debug)]
pub struct ST2Channel {
    pub on: bool,
    pub empty: bool,
    pub row: u16,
    pub pattern_data_offs: usize,
    pub event_note: u16,
    pub event_volume: u8,
    pub event_smp: u16,
    pub event_cmd: u16,
    pub event_infobyte: u16,
    pub last_note: u16,
    pub period_current: u16,
    pub period_target: u16,
    pub vibrato_current: u16,
    pub tremor_counter: u16,
    pub tremor_state: u16,
    pub volume_current: u16,
}

/// A channel at rest: off, every value zero.
pub open spec fn st2_rest_channel() -> ST2Channel {
    ST2Channel {
        on: false,
        empty: false,
        row: 0,
        pattern_data_offs: 0,
        event_note: 0,
        event_volume: 0,
        event_smp: 0,
        event_cmd: 0,
        event_infobyte: 0,
        last_note: 0,
        period_current: 0,
        period_target: 0,
        vibrato_current: 0,
        tremor_counter: 0,
        tremor_state: 0,
        volume_current: 0,
    }
}

impl ST2Channel {
    /// A channel at rest.
    pub fn new() -> (r: Self)
        ensures
            r == st2_rest_channel(),
    {
        ST2Channel {
            on: false,
            empty: false,
            row: 0,
            pattern_data_offs: 0,
            event_note: 0,
            event_volume: 0,
            event_smp: 0,
            event_cmd: 0,
            event_infobyte: 0,
            last_note: 0,
            period_current: 0,
            period_target: 0,
            vibrato_current: 0,
            tremor_counter: 0,
            tremor_state: 0,
            volume_current: 0,
        }
    }
}

/// The Scream Tracker 2 replayer: one channel state per module channel.
pub struct St2Play {
    pub state: Vec<ST2Channel>,
}

impl St2Play {
    /// A replayer for a module of `channels` channels, all at rest.
    pub fn new(channels: usize) -> (r: Self)
        ensures
            r.state@.len() == channels,
            forall|i: int| 0 <= i < channels ==> #[trigger] r.state@[i] == st2_rest_channel(),
    {
        let mut state: Vec<ST2Channel> = Vec::new();
        let mut i: usize = 0;
        while i < channels
            invariant
                i <= channels,
                state@.len() == i,
                forall|j: int| 0 <= j < i ==> #[trigger] state@[j] == st2_rest_channel(),
            decreases channels - i,
        {
            state.push(ST2Channel::new());
            i = i + 1;
        }
        St2Play { state }
    }

    /// A tick: the replay does nothing yet.
    pub fn play(&mut self)
        ensures
            final(self).state@ == old(self).state@,
    {
    }

    /// Back to the start: nothing to change yet.
    pub fn reset(&mut self)
        ensures
            final(self).state@ == old(self).state@,
    {
    }
}

} // verus!
