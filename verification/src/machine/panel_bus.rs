//! The S-100 signals the front panel shows, and the electrical duty of its
//! lamps over a frame.
//!
//! The status lamps follow the MITS 8212 status latch, the data lamps follow
//! DI (never the CPU's DO or status byte), and each sample adds its weight to
//! the duty counters of every lamp line that was on.

use vstd::prelude::*;
use crate::machine::panel_duty::{
    PanelLampIntegrator, bit_set, counter, spec_cleared, spec_integrator_wf, spec_sampled,
    spec_two_phase_sampled,
};

verus! {

pub const LAMP_INTE: usize = 0;
pub const LAMP_PROT: usize = 1;
pub const LAMP_MEMR: usize = 2;
pub const LAMP_INP: usize = 3;
pub const LAMP_M1: usize = 4;
pub const LAMP_OUT: usize = 5;
pub const LAMP_HLTA: usize = 6;
pub const LAMP_STACK: usize = 7;
pub const LAMP_WO: usize = 8;
pub const LAMP_INT: usize = 9;
pub const LAMP_WAIT: usize = 10;
pub const LAMP_HLDA: usize = 11;
pub const LAMP_COUNT: usize = 12;
/// Packed lamp activity: address in bits 0-15, panel data in 16-23, the
/// status lamps from bit 24 up.
pub const PACKED_DATA_SHIFT: usize = 16;
pub const PACKED_LAMP_SHIFT: usize = 24;
pub const STATUS_INSTRUCTION_FETCH: u8 = 0xa2;

/// The instruction-fetch status word raises MEMR, M1 and WO and nothing
/// else.
pub proof fn lemma_fetch_status_lines()
    ensures
        STATUS_INSTRUCTION_FETCH & 0x80 != 0,
        STATUS_INSTRUCTION_FETCH & 0x40 == 0,
        STATUS_INSTRUCTION_FETCH & 0x20 != 0,
        STATUS_INSTRUCTION_FETCH & 0x10 == 0,
        STATUS_INSTRUCTION_FETCH & 0x08 == 0,
        STATUS_INSTRUCTION_FETCH & 0x04 == 0,
        STATUS_INSTRUCTION_FETCH & 0x02 != 0,
        STATUS_INSTRUCTION_FETCH & 0x01 == 0,
{
    assert(0xa2u8 & 0x80u8 != 0 && 0xa2u8 & 0x40u8 == 0 && 0xa2u8 & 0x20u8 != 0 && 0xa2u8 & 0x10u8 == 0
        && 0xa2u8 & 0x08u8 == 0 && 0xa2u8 & 0x04u8 == 0 && 0xa2u8 & 0x02u8 != 0 && 0xa2u8 & 0x01u8 == 0)
        by (bit_vector);
}

/// Who drives the address and data lines.
#[derive(Clone, Copy, Debug, PartialEq, Eq, Structural)]
pub enum BusOwner {
    NoOwner,
    Cpu,
    FrontPanel,
}

#[derive(Clone, Copy, Debug, PartialEq, Eq, Structural)]
pub struct S100Signals {
    pub address: u16,
    pub data_in: Option<u8>,
    pub data_out: Option<u8>,
    pub cpu_data: Option<u8>,
    pub panel_data: u8,
    pub phi1: Option<bool>,
    pub phi2: Option<bool>,
    pub cloc: Option<bool>,
    pub psync: bool,
    pub pwr_n: bool,
    pub pdbin: bool,
    pub memr: bool,
    pub inp: bool,
    pub m1: bool,
    pub out: bool,
    pub hlta: bool,
    pub stack: bool,
    pub wo: bool,
    pub int_ack: bool,
    pub inte: bool,
    pub prot: bool,
    pub run: bool,
    pub ready: bool,
    pub front_panel_ready: bool,
    pub memory_ready: bool,
    pub wait: bool,
    pub interrupt: bool,
    pub hold: bool,
    pub hlda: bool,
    pub reset: bool,
    pub ext_clear: bool,
    pub owner: BusOwner,
}

/// A powered-down backplane: nothing driven, /PWR inactive, memory ready.
pub open spec fn spec_default_signals() -> S100Signals {
    S100Signals {
        address: 0,
        data_in: None,
        data_out: None,
        cpu_data: None,
        panel_data: 0,
        phi1: None,
        phi2: None,
        cloc: None,
        psync: false,
        pwr_n: true,
        pdbin: false,
        memr: false,
        inp: false,
        m1: false,
        out: false,
        hlta: false,
        stack: false,
        wo: false,
        int_ack: false,
        inte: false,
        prot: false,
        run: false,
        ready: false,
        front_panel_ready: false,
        memory_ready: true,
        wait: false,
        interrupt: false,
        hold: false,
        hlda: false,
        reset: false,
        ext_clear: false,
        owner: BusOwner::NoOwner,
    }
}

pub open spec fn spec_clear_status(s: S100Signals) -> S100Signals {
    S100Signals {
        memr: false,
        inp: false,
        m1: false,
        out: false,
        hlta: false,
        stack: false,
        wo: false,
        int_ack: false,
        ..s
    }
}

/// The eight status lines take the eight bits of the 8080 status word.
pub open spec fn spec_apply_status(s: S100Signals, word: u8) -> S100Signals {
    S100Signals {
        memr: word & 0x80 != 0,
        inp: word & 0x40 != 0,
        m1: word & 0x20 != 0,
        out: word & 0x10 != 0,
        hlta: word & 0x08 != 0,
        stack: word & 0x04 != 0,
        wo: word & 0x02 != 0,
        int_ack: word & 0x01 != 0,
        ..s
    }
}

pub open spec fn spec_lamp_states(s: S100Signals) -> Seq<bool> {
    seq![s.inte, s.prot, s.memr, s.inp, s.m1, s.out, s.hlta, s.stack, s.wo, s.int_ack, s.wait, s.hlda]
}

/// Status lamp `k`, in panel order.
pub open spec fn spec_lamp(s: S100Signals, k: int) -> bool {
    if k == 0 {
        s.inte
    } else if k == 1 {
        s.prot
    } else if k == 2 {
        s.memr
    } else if k == 3 {
        s.inp
    } else if k == 4 {
        s.m1
    } else if k == 5 {
        s.out
    } else if k == 6 {
        s.hlta
    } else if k == 7 {
        s.stack
    } else if k == 8 {
        s.wo
    } else if k == 9 {
        s.int_ack
    } else if k == 10 {
        s.wait
    } else {
        s.hlda
    }
}

pub open spec fn flag(on: bool, value: u16) -> u16 {
    if on {
        value
    } else {
        0
    }
}

pub open spec fn mask_of(
    i0: bool,
    i1: bool,
    i2: bool,
    i3: bool,
    i4: bool,
    i5: bool,
    i6: bool,
    i7: bool,
    i8: bool,
    i9: bool,
    i10: bool,
    i11: bool,
) -> u16 {
    flag(i0, 0x001) | flag(i1, 0x002) | flag(i2, 0x004) | flag(i3, 0x008) | flag(i4, 0x010) | flag(
        i5,
        0x020,
    ) | flag(i6, 0x040) | flag(i7, 0x080) | flag(i8, 0x100) | flag(i9, 0x200) | flag(i10, 0x400)
        | flag(i11, 0x800)
}

/// The status lamps as a 12-bit mask, lamp `k` in bit `k`.
pub open spec fn spec_lamp_mask(s: S100Signals) -> u16 {
    mask_of(
        s.inte,
        s.prot,
        s.memr,
        s.inp,
        s.m1,
        s.out,
        s.hlta,
        s.stack,
        s.wo,
        s.int_ack,
        s.wait,
        s.hlda,
    )
}

pub open spec fn spec_packed(s: S100Signals) -> u64 {
    (s.address as u64) | ((s.panel_data as u64) << 16u64) | ((spec_lamp_mask(s) as u64) << 24u64)
}

impl Default for S100Signals {
    fn default() -> (r: Self)
        ensures
            r == spec_default_signals(),
    {
        S100Signals {
            address: 0,
            data_in: None,
            data_out: None,
            cpu_data: None,
            panel_data: 0,
            phi1: None,
            phi2: None,
            cloc: None,
            psync: false,
            pwr_n: true,
            pdbin: false,
            memr: false,
            inp: false,
            m1: false,
            out: false,
            hlta: false,
            stack: false,
            wo: false,
            int_ack: false,
            inte: false,
            prot: false,
            run: false,
            ready: false,
            front_panel_ready: false,
            memory_ready: true,
            wait: false,
            interrupt: false,
            hold: false,
            hlda: false,
            reset: false,
            ext_clear: false,
            owner: BusOwner::NoOwner,
        }
    }
}

impl S100Signals {
    pub fn clear_status(&mut self)
        ensures
            *final(self) == spec_clear_status(*old(self)),
    {
        self.memr = false;
        self.inp = false;
        self.m1 = false;
        self.out = false;
        self.hlta = false;
        self.stack = false;
        self.wo = false;
        self.int_ack = false;
    }

    pub fn apply_status_word(&mut self, word: u8)
        ensures
            *final(self) == spec_apply_status(*old(self), word),
    {
        self.memr = word & 0x80 != 0;
        self.inp = word & 0x40 != 0;
        self.m1 = word & 0x20 != 0;
        self.out = word & 0x10 != 0;
        self.hlta = word & 0x08 != 0;
        self.stack = word & 0x04 != 0;
        self.wo = word & 0x02 != 0;
        self.int_ack = word & 0x01 != 0;
    }

    pub fn lamp_states(&self) -> (r: [bool; 12])
        ensures
            r@ == spec_lamp_states(*self),
            forall|k: int| 0 <= k < 12 ==> #[trigger] r@[k] == spec_lamp(*self, k),
    {
        let r = [
            self.inte,
            self.prot,
            self.memr,
            self.inp,
            self.m1,
            self.out,
            self.hlta,
            self.stack,
            self.wo,
            self.int_ack,
            self.wait,
            self.hlda,
        ];
        assert(r@ =~= spec_lamp_states(*self));
        r
    }

    pub fn lamp_mask(&self) -> (r: u16)
        ensures
            r == spec_lamp_mask(*self),
    {
        (if self.inte {
            0x001u16
        } else {
            0
        }) | (if self.prot {
            0x002u16
        } else {
            0
        }) | (if self.memr {
            0x004u16
        } else {
            0
        }) | (if self.inp {
            0x008u16
        } else {
            0
        }) | (if self.m1 {
            0x010u16
        } else {
            0
        }) | (if self.out {
            0x020u16
        } else {
            0
        }) | (if self.hlta {
            0x040u16
        } else {
            0
        }) | (if self.stack {
            0x080u16
        } else {
            0
        }) | (if self.wo {
            0x100u16
        } else {
            0
        }) | (if self.int_ack {
            0x200u16
        } else {
            0
        }) | (if self.wait {
            0x400u16
        } else {
            0
        }) | (if self.hlda {
            0x800u16
        } else {
            0
        })
    }

    pub fn packed_lamp_activity(&self) -> (r: u64)
        ensures
            r == spec_packed(*self),
    {
        (self.address as u64) | ((self.panel_data as u64) << 16u64) | ((self.lamp_mask() as u64) << 24u64)
    }
}

proof fn lemma_packed_word_fields(a: u16, d: u8, m: u16, k: u64)
    requires
        m < 0x1000,
    ensures
        k < 16 ==> ((((a as u64) | ((d as u64) << 16u64) | ((m as u64) << 24u64)) & (1u64 << k)) != 0
            <==> (a & (1u16 << (k as u16))) != 0),
        k < 8 ==> ((((a as u64) | ((d as u64) << 16u64) | ((m as u64) << 24u64)) & (1u64 << ((16 + k) as u64)))
            != 0 <==> (d & (1u8 << (k as u8))) != 0),
        k < 12 ==> ((((a as u64) | ((d as u64) << 16u64) | ((m as u64) << 24u64)) & (1u64 << ((24
            + k) as u64))) != 0 <==> (m & (1u16 << (k as u16))) != 0),
{
    assert(k < 16 ==> ((((a as u64) | ((d as u64) << 16u64) | ((m as u64) << 24u64)) & (1u64 << k)) != 0
        <==> (a & (1u16 << (k as u16))) != 0)) by (bit_vector);
    assert(k < 8 ==> ((((a as u64) | ((d as u64) << 16u64) | ((m as u64) << 24u64)) & (1u64 << ((16
        + k) as u64))) != 0 <==> (d & (1u8 << (k as u8))) != 0)) by (bit_vector);
    assert(k < 12 && m < 0x1000 ==> ((((a as u64) | ((d as u64) << 16u64) | ((m as u64) << 24u64)) & (1u64
        << ((24 + k) as u64))) != 0 <==> (m & (1u16 << (k as u16))) != 0)) by (bit_vector);
}

/// The packed activity word carries exactly the address, the panel data and
/// the status lamps: line `k` of each field is bit `k` of that field's base.
pub proof fn lemma_packed_lines(s: S100Signals, k: u64)
    ensures
        k < 16 ==> (bit_set(spec_packed(s), k as nat) <==> (s.address & (1u16 << (k as u16))) != 0),
        k < 8 ==> (bit_set(spec_packed(s), (16 + k) as nat) <==> (s.panel_data & (1u8 << (k as u8))) != 0),
        k < 12 ==> (bit_set(spec_packed(s), (24 + k) as nat) <==> spec_lamp(s, k as int)),
{
    let packed = spec_packed(s);
    let m = spec_lamp_mask(s);
    assert(packed == (s.address as u64) | ((s.panel_data as u64) << 16u64) | ((m as u64) << 24u64));
    lemma_lamp_mask_bits(
        s.inte,
        s.prot,
        s.memr,
        s.inp,
        s.m1,
        s.out,
        s.hlta,
        s.stack,
        s.wo,
        s.int_ack,
        s.wait,
        s.hlda,
        k,
    );
    lemma_packed_word_fields(s.address, s.panel_data, spec_lamp_mask(s), k);
}

proof fn lemma_lamp_mask_bits(
    i0: bool,
    i1: bool,
    i2: bool,
    i3: bool,
    i4: bool,
    i5: bool,
    i6: bool,
    i7: bool,
    i8: bool,
    i9: bool,
    i10: bool,
    i11: bool,
    k: u64,
)
    ensures
        mask_of(i0, i1, i2, i3, i4, i5, i6, i7, i8, i9, i10, i11) < 0x1000,
        k < 12 ==> ((mask_of(i0, i1, i2, i3, i4, i5, i6, i7, i8, i9, i10, i11) & (1u16 << (k as u16))) != 0
            <==> if k == 0 {
            i0
        } else if k == 1 {
            i1
        } else if k == 2 {
            i2
        } else if k == 3 {
            i3
        } else if k == 4 {
            i4
        } else if k == 5 {
            i5
        } else if k == 6 {
            i6
        } else if k == 7 {
            i7
        } else if k == 8 {
            i8
        } else if k == 9 {
            i9
        } else if k == 10 {
            i10
        } else {
            i11
        }),
{
    let kk = k as u16;
    assert(mask_of(i0, i1, i2, i3, i4, i5, i6, i7, i8, i9, i10, i11) < 0x1000) by (bit_vector);
    assert(k < 12 ==> ((mask_of(i0, i1, i2, i3, i4, i5, i6, i7, i8, i9, i10, i11) & (1u16 << (k as u16)))
        != 0 <==> if k == 0 {
        i0
    } else if k == 1 {
        i1
    } else if k == 2 {
        i2
    } else if k == 3 {
        i3
    } else if k == 4 {
        i4
    } else if k == 5 {
        i5
    } else if k == 6 {
        i6
    } else if k == 7 {
        i7
    } else if k == 8 {
        i8
    } else if k == 9 {
        i9
    } else if k == 10 {
        i10
    } else {
        i11
    })) by (bit_vector);
}

pub open spec fn spec_recompute_ready(s: S100Signals) -> S100Signals {
    S100Signals { ready: s.front_panel_ready && s.memory_ready, ..s }
}

/// The front panel's RUN/STOP READY: memory READY is released, and WAIT
/// follows a low READY unless RESET is held.
pub open spec fn spec_set_ready(s: S100Signals, ready: bool) -> S100Signals {
    S100Signals {
        front_panel_ready: ready,
        memory_ready: true,
        ready,
        wait: !ready && !s.reset,
        ..s
    }
}

/// The CPU-driven lines common to a reconstructed machine cycle, before its
/// status word is latched.
pub open spec fn spec_cpu_cycle_lines(
    s: S100Signals,
    address: u16,
    protected: bool,
    inte: bool,
    ready: bool,
    wait: bool,
) -> S100Signals {
    S100Signals {
        reset: false,
        inte,
        ready,
        wait,
        hlda: false,
        owner: BusOwner::Cpu,
        address,
        prot: protected,
        ..s
    }
}

/// The data bus after a cycle: a read shows the byte on DI and the panel
/// lamps, a write shows it on DO, an internal cycle drives nothing.
pub open spec fn spec_cycle_data(s: S100Signals, data: u8, reads: bool, writes: bool) -> S100Signals {
    S100Signals {
        cpu_data: if reads || writes {
            Some(data)
        } else {
            None
        },
        data_in: if reads {
            Some(data)
        } else {
            None
        },
        data_out: if !reads && writes {
            Some(data)
        } else {
            None
        },
        panel_data: if reads {
            data
        } else {
            s.panel_data
        },
        ..s
    }
}

pub open spec fn spec_common_mask(s: S100Signals) -> u64 {
    (s.address as u64) | ((spec_lamp_mask(s) as u64) << 24u64)
}

/// One T-state driven by the CPU board. A granted hold floats the CPU's
/// lines and clears status; otherwise the address and status update when
/// they are driven. DI always refreshes the panel data lamps.
pub open spec fn spec_cpu_t_state(
    s: S100Signals,
    address: Option<u16>,
    cpu_data: Option<u8>,
    data_in: Option<u8>,
    data_out: Option<u8>,
    status_word: Option<u8>,
    protected: bool,
    inte: bool,
    ready: bool,
    wait: bool,
    hlda: bool,
) -> S100Signals {
    let panel_data = match data_in {
        Some(d) => d,
        None => s.panel_data,
    };
    if hlda {
        S100Signals {
            reset: false,
            inte,
            ready,
            wait,
            hlda,
            cpu_data: None,
            data_in: None,
            data_out: None,
            panel_data,
            owner: BusOwner::NoOwner,
            prot: false,
            memr: false,
            inp: false,
            m1: false,
            out: false,
            hlta: false,
            stack: false,
            wo: false,
            int_ack: false,
            ..s
        }
    } else {
        let driven = S100Signals {
            reset: false,
            inte,
            ready,
            wait,
            hlda,
            cpu_data,
            data_in,
            data_out,
            panel_data,
            owner: BusOwner::Cpu,
            address: match address {
                Some(a) => a,
                None => s.address,
            },
            prot: match address {
                Some(_) => protected,
                None => s.prot,
            },
            ..s
        };
        match status_word {
            Some(w) => spec_apply_status(driven, w),
            None => driven,
        }
    }
}

/// Front-panel RESET held: the panel drives address and data high, status
/// clears, and RUN decides READY.
pub open spec fn spec_assert_reset(s: S100Signals, run: bool) -> S100Signals {
    S100Signals {
        reset: true,
        owner: BusOwner::FrontPanel,
        address: 0xffff,
        data_in: Some(0xff),
        data_out: None,
        cpu_data: None,
        panel_data: 0xff,
        inte: false,
        prot: false,
        psync: false,
        pdbin: false,
        pwr_n: true,
        memr: false,
        inp: false,
        m1: false,
        out: false,
        hlta: false,
        stack: false,
        wo: false,
        int_ack: false,
        run,
        front_panel_ready: run,
        memory_ready: true,
        ready: run,
        wait: false,
        hlda: false,
        ..s
    }
}

/// The CPU's first fetch after RESET or power-up: the address and the byte
/// on DI, an instruction-fetch status when stopped (and after RESET), and
/// READY and WAIT from RUN.
pub open spec fn spec_fetch_start(
    s: S100Signals,
    address: u16,
    data: u8,
    protected: bool,
    inte: bool,
    run: bool,
    fetch_status: bool,
    wait: bool,
    clear_hlda: bool,
) -> S100Signals {
    S100Signals {
        reset: false,
        owner: BusOwner::Cpu,
        address,
        data_in: Some(data),
        data_out: None,
        cpu_data: if !run {
            Some(data)
        } else {
            None
        },
        panel_data: data,
        prot: protected,
        inte,
        run,
        psync: false,
        pdbin: !run,
        pwr_n: true,
        memr: fetch_status,
        inp: false,
        m1: fetch_status,
        out: false,
        hlta: false,
        stack: false,
        wo: fetch_status,
        int_ack: false,
        front_panel_ready: run,
        memory_ready: true,
        ready: run,
        wait,
        hlda: if clear_hlda {
            false
        } else {
            s.hlda
        },
        ..s
    }
}

pub open spec fn spec_release_reset(s: S100Signals, address: u16, data: u8, protected: bool, inte: bool, run: bool) -> S100Signals {
    spec_fetch_start(s, address, data, protected, inte, run, true, !run, true)
}

/// At power-up a running machine starts with READY high and status clear;
/// a stopped one waits in an instruction fetch.
pub open spec fn spec_power_on(s: S100Signals, address: u16, data: u8, protected: bool, inte: bool, run: bool) -> S100Signals {
    spec_fetch_start(s, address, data, protected, inte, run, !run, !run, false)
}

/// DEPOSIT: the panel drives the byte onto the package bus and DO; the DI
/// lamps keep what they showed.
pub open spec fn spec_deposit(s: S100Signals, address: u16, data: u8, protected: bool, inte: bool) -> S100Signals {
    S100Signals {
        reset: false,
        owner: BusOwner::FrontPanel,
        address,
        cpu_data: Some(data),
        data_in: None,
        data_out: Some(data),
        prot: protected,
        inte,
        psync: false,
        pdbin: false,
        pwr_n: true,
        memr: false,
        inp: false,
        m1: false,
        out: false,
        hlta: false,
        stack: false,
        wo: false,
        int_ack: false,
        front_panel_ready: false,
        memory_ready: true,
        ready: false,
        wait: true,
        ..s
    }
}

} // verus!
