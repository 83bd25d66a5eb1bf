use vstd::prelude::*;

verus! {

/// One sound channel. Sound is not synthesised: a channel holds no state.
#[derive(Clone, Copy, Debug, PartialEq, Eq, Structural)]
pub struct SoundChannel {}

/// The sound unit: four channels.
pub struct Sound {
    pub channels: [SoundChannel; 4],
}

impl SoundChannel {
    pub fn new() -> (r: SoundChannel)
        ensures
            r == (SoundChannel {}),
    {
        SoundChannel {  }
    }

    /// Advances the channel; there is nothing to advance.
    pub fn step(&mut self)
        ensures
            *final(self) == *old(self),
    {
    }
}

impl Sound {
    pub fn new() -> (r: Sound)
        ensures
            r.channels@ == seq![SoundChannel {}, SoundChannel {}, SoundChannel {}, SoundChannel {}],
    {
        let r = Sound {
            channels: [SoundChannel::new(), SoundChannel::new(), SoundChannel::new(), SoundChannel::new()],
        };
        assert(r.channels@ =~= seq![SoundChannel {}, SoundChannel {}, SoundChannel {}, SoundChannel {}]);
        r
    }

    /// Advances every channel.
    pub fn step(&mut self)
        ensures
            final(self).channels@ == old(self).channels@,
    {
        let mut i: usize = 0;
        while i < 4
            invariant
                i <= 4,
                self.channels@ == old(self).channels@,
            decreases 4 - i,
        {
            let mut channel = self.channels[i];
            channel.step();
            self.channels[i] = channel;
            assert(self.channels@ =~= old(self).channels@);
            i = i + 1;
        }
    }

    /// Sound registers read as 0.
    pub fn read_register(&self, _addr: u16) -> (r: u8)
        ensures
            r == 0,
    {
        0
    }

    /// Writes to sound registers are ignored.
    pub fn write_register(&mut self, _addr: u16, _value: u8)
        ensures
            final(self).channels@ == old(self).channels@,
    {
    }
}

} // verus!
