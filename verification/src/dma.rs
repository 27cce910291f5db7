//! DMA channel manager: register-transfer models of the request router
//! and of the per-channel circular-transfer bookkeeping.
//!
//! Each physical channel is bound once to a peripheral-memory address
//! pair, started in circular 16-bit mode, and from then on only its
//! transfer-complete flag is read and cleared once per buffer pass.

use vstd::prelude::*;

verus! {

/// Request router: maps each of sixteen logical channel slots to a
/// physical DMA request-source ID. It has no runtime state beyond the
/// one-time mapping.
pub struct DMAMux {
    /// Request-source ID programmed into each channel slot (CxCR.DMAREQ_ID).
    pub req_id: Vec<u8>,
}

impl DMAMux {
    /// All sixteen slots exist and are individually programmed.
    pub open spec fn wf(self) -> bool {
        self.req_id@.len() == 16
    }

    /// Take ownership of the router with every slot at its reset value.
    pub fn new() -> (mux: DMAMux)
        ensures
            mux.wf(),
            forall|i: int| 0 <= i < 16 ==> mux.req_id@[i] == 0,
    {
        let mut req_id: Vec<u8> = Vec::new();
        let mut i: usize = 0;
        while i < 16
            invariant
                i <= 16,
                req_id@.len() == i,
                forall|j: int| 0 <= j < i ==> req_id@[j] == 0,
            decreases 16 - i,
        {
            req_id.push(0);
            i = i + 1;
        }
        DMAMux { req_id }
    }

    /// Route the requested DMAREQ ID to the requested channel slot, which
    /// must be one of the sixteen that exist. No other slot changes.
    pub fn set(&mut self, channel: u8, id: u8)
        requires
            old(self).wf(),
            channel < 16,
        ensures
            final(self).wf(),
            final(self).req_id@ == old(self).req_id@.update(channel as int, id),
    {
        self.req_id.set(channel as usize, id);
    }
}

/// Register-transfer model of one DMA channel: its own configuration
/// registers and its four bits of the shared interrupt-status register.
pub struct DMAChannel {
    /// Which physical channel this is, 1 through 8.
    pub channel: u8,
    /// Global, transfer-complete, half-transfer and transfer-error flags:
    /// this channel's group in the interrupt status register.
    pub gif: bool,
    pub tc: bool,
    pub htif: bool,
    pub teif: bool,
    /// Channel enable (CCR.EN).
    pub en: bool,
    /// Memory and peripheral transfer sizes (CCR.MSIZE, CCR.PSIZE);
    /// 1 selects 16-bit.
    pub msize: u8,
    pub psize: u8,
    /// Memory increment and circular modes, transfer-complete interrupt
    /// enable (CCR.MINC, CCR.CIRC, CCR.TCIE).
    pub minc: bool,
    pub circ: bool,
    pub tcie: bool,
    /// Peripheral (source) address: the ADC data register (CPAR).
    pub cpar: u32,
    /// Memory (destination) address: the stream buffer (CMAR).
    pub cmar: u32,
    /// Transfer length in items (CNDTR).
    pub cndtr: u16,
}

impl DMAChannel {
    /// The channel number is one of the eight that exist.
    pub open spec fn wf(self) -> bool {
        1 <= self.channel <= 8
    }

    /// This channel's four flags at their positions in the shared
    /// interrupt status register: bits `4 * (channel - 1)` upward, in the
    /// order global, transfer-complete, half-transfer, transfer-error.
    pub open spec fn spec_flag_word(self) -> u32 {
        ((if self.gif {
            1u32
        } else {
            0u32
        }) | (if self.tc {
            2u32
        } else {
            0u32
        }) | (if self.htif {
            4u32
        } else {
            0u32
        }) | (if self.teif {
            8u32
        } else {
            0u32
        })) << ((4 * (self.channel - 1)) as u32)
    }

    /// Take ownership of one channel of the DMA block, in reset state.
    pub fn new(channel: u8) -> (chan: DMAChannel)
        requires
            1 <= channel <= 8,
        ensures
            chan.wf(),
            chan.channel == channel,
            !chan.gif && !chan.tc && !chan.htif && !chan.teif,
            !chan.en,
    {
        DMAChannel {
            channel,
            gif: false,
            tc: false,
            htif: false,
            teif: false,
            en: false,
            msize: 0,
            psize: 0,
            minc: false,
            circ: false,
            tcie: false,
            cpar: 0,
            cmar: 0,
            cndtr: 0,
        }
    }

    /// Bind the channel to its peripheral address: 16-bit-to-16-bit,
    /// memory-increment, circular, transfer-complete-interrupt-enabled
    /// transfer from the fixed peripheral address. The channel must not
    /// be running.
    pub fn bind(&mut self, peripheral_address: u32)
        requires
            !old(self).en,
        ensures
            *final(self) == (DMAChannel {
                msize: 1,
                psize: 1,
                minc: true,
                circ: true,
                tcie: true,
                cpar: peripheral_address,
                ..*old(self)
            }),
    {
        self.msize = 1;
        self.psize = 1;
        self.minc = true;
        self.circ = true;
        self.tcie = true;
        self.cpar = peripheral_address;
    }

    /// Start the bound transfer into the buffer at `memory_address` of
    /// `len` items: clear every pending flag, program destination and
    /// length, then set the enable bit. In circular mode the transfer
    /// re-arms at the end of each pass without software intervention.
    pub fn start(&mut self, memory_address: u32, len: u16)
        requires
            !old(self).en,
            len > 0,
        ensures
            *final(self) == (DMAChannel {
                gif: false,
                tc: false,
                htif: false,
                teif: false,
                cmar: memory_address,
                cndtr: len,
                en: true,
                ..*old(self)
            }),
    {
        self.clear_flags();
        self.cmar = memory_address;
        self.cndtr = len;
        self.en = true;
    }

    /// Stop the channel by clearing its enable bit. The shell then polls,
    /// bounded, until the hardware confirms the channel is idle.
    pub fn stop(&mut self)
        ensures
            *final(self) == (DMAChannel { en: false, ..*old(self) }),
    {
        self.en = false;
    }

    /// A completed buffer pass: hardware raises this channel's
    /// transfer-complete and global flags; in circular mode the transfer
    /// keeps running.
    pub fn transfer_complete_event(&mut self)
        ensures
            *final(self) == (DMAChannel { gif: true, tc: true, ..*old(self) }),
    {
        self.gif = true;
        self.tc = true;
    }

    /// Read the transfer-complete flag for this channel.
    pub fn tcif(&self) -> (set: bool)
        ensures
            set == self.tc,
    {
        self.tc
    }

    /// This channel's view of the interrupt status register: its own four
    /// flags at their hardware positions; other channels' bits read as
    /// zero here, since each channel owns only its own group.
    pub fn flags(&self) -> (word: u32)
        requires
            self.wf(),
        ensures
            word == self.spec_flag_word(),
    {
        let group: u32 = (if self.gif {
            1u32
        } else {
            0u32
        }) | (if self.tc {
            2u32
        } else {
            0u32
        }) | (if self.htif {
            4u32
        } else {
            0u32
        }) | (if self.teif {
            8u32
        } else {
            0u32
        });
        group << (4 * ((self.channel - 1) as u32))
    }

    /// Clear the transfer-complete flag for this channel: the one
    /// steady-state write per completed buffer pass.
    pub fn clear_tcif(&mut self)
        ensures
            *final(self) == (DMAChannel { tc: false, ..*old(self) }),
    {
        self.tc = false;
    }

    /// Clear all four flags for this channel, done once at start.
    pub fn clear_flags(&mut self)
        ensures
            *final(self) == (DMAChannel {
                gif: false,
                tc: false,
                htif: false,
                teif: false,
                ..*old(self)
            }),
    {
        self.gif = false;
        self.tc = false;
        self.htif = false;
        self.teif = false;
    }
}

/// Safe construction of all 8 channels of the DMA block.
pub struct DMA {
    pub c1: DMAChannel,
    pub c2: DMAChannel,
    pub c3: DMAChannel,
    pub c4: DMAChannel,
    pub c5: DMAChannel,
    pub c6: DMAChannel,
    pub c7: DMAChannel,
    pub c8: DMAChannel,
}

impl DMA {
    /// Create the set of channels for the DMA block, each owning exactly
    /// its own channel registers and flag group.
    pub fn new() -> (dma: DMA)
        ensures
            dma.c1.channel == 1 && !dma.c1.en,
            dma.c2.channel == 2 && !dma.c2.en,
            dma.c3.channel == 3 && !dma.c3.en,
            dma.c4.channel == 4 && !dma.c4.en,
            dma.c5.channel == 5 && !dma.c5.en,
            dma.c6.channel == 6 && !dma.c6.en,
            dma.c7.channel == 7 && !dma.c7.en,
            dma.c8.channel == 8 && !dma.c8.en,
    {
        DMA {
            c1: DMAChannel::new(1),
            c2: DMAChannel::new(2),
            c3: DMAChannel::new(3),
            c4: DMAChannel::new(4),
            c5: DMAChannel::new(5),
            c6: DMAChannel::new(6),
            c7: DMAChannel::new(7),
            c8: DMAChannel::new(8),
        }
    }
}

} // verus!
