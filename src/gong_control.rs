//! The pulse train of a fixed-code radio chime transmitter.
//!
//! A burst is sixteen identical frames.  A frame is a start pulse, the 26
//! address bits most significant first, two set function bits, the 4 unit
//! bits most significant first, and a stop pulse.  Every duration is a
//! multiple of the timing unit `p`, in microseconds.
use vstd::prelude::*;

verus! {

/// The output line held at one level for a number of microseconds.
#[derive(Clone, Copy, Debug, PartialEq, Eq, Structural)]
pub struct Pulse {
    pub high: bool,
    pub micros: u32,
}

/// Frames in one burst.
pub const FRAMES_PER_BURST: usize = 16;

/// Width of the address field.
pub const ADDRESS_BITS: u32 = 26;

/// Width of the unit field.
pub const UNIT_BITS: u8 = 4;

/// Pulses in one frame: two each for the start and stop pulses, four for
/// each of the 32 bit slots.
pub const PULSES_PER_FRAME: usize = 132;

pub open spec fn high_for(micros: int) -> Pulse {
    Pulse { high: true, micros: micros as u32 }
}

pub open spec fn low_for(micros: int) -> Pulse {
    Pulse { high: false, micros: micros as u32 }
}

/// High for `p`, low for ten and a half `p`.
pub open spec fn start_pulses(p: u8) -> Seq<Pulse> {
    seq![high_for(p as int), low_for(10 * p + p / 2)]
}

/// High for `p`, low for forty `p`.
pub open spec fn stop_pulses(p: u8) -> Seq<Pulse> {
    seq![high_for(p as int), low_for(40 * p)]
}

/// One bit slot: a one is a long gap then a short one, a zero the reverse.
pub open spec fn bit_pulses(bit: bool, p: u8) -> Seq<Pulse> {
    if bit {
        seq![high_for(p as int), low_for(5 * p), high_for(p as int), low_for(p as int)]
    } else {
        seq![high_for(p as int), low_for(p as int), high_for(p as int), low_for(5 * p)]
    }
}

/// The bit slots of `bits`, in order.
pub open spec fn slot_pulses(bits: Seq<bool>, p: u8) -> Seq<Pulse>
    decreases bits.len(),
{
    if bits.len() == 0 {
        Seq::empty()
    } else {
        slot_pulses(bits.drop_last(), p) + bit_pulses(bits.last(), p)
    }
}

/// The low 26 bits of `address`, most significant first.
pub open spec fn address_bits(address: u32) -> Seq<bool> {
    Seq::new(26, |i: int| (address >> ((25 - i) as u32)) & 1 == 1)
}

/// The low 4 bits of `unit`, most significant first.
pub open spec fn unit_bits(unit: u8) -> Seq<bool> {
    Seq::new(4, |i: int| (unit >> ((3 - i) as u8)) & 1 == 1)
}

/// The 32 bits that one frame carries.
pub open spec fn frame_bits(address: u32, unit: u8) -> Seq<bool> {
    address_bits(address) + seq![true, true] + unit_bits(unit)
}

pub open spec fn frame_pulses(address: u32, unit: u8, p: u8) -> Seq<Pulse> {
    start_pulses(p) + slot_pulses(frame_bits(address, unit), p) + stop_pulses(p)
}

/// `n` copies of `s`, one after the other.
pub open spec fn repeated(s: Seq<Pulse>, n: nat) -> Seq<Pulse>
    decreases n,
{
    if n == 0 {
        Seq::empty()
    } else {
        repeated(s, (n - 1) as nat) + s
    }
}

pub open spec fn burst_pulses(address: u32, unit: u8, p: u8) -> Seq<Pulse> {
    repeated(frame_pulses(address, unit, p), 16)
}

proof fn lemma_slots_push(bits: Seq<bool>, bit: bool, p: u8)
    ensures
        slot_pulses(bits.push(bit), p) == slot_pulses(bits, p) + bit_pulses(bit, p),
{
    assert(bits.push(bit).drop_last() =~= bits);
}

proof fn lemma_slots_append(a: Seq<bool>, b: Seq<bool>, p: u8)
    ensures
        slot_pulses(a + b, p) == slot_pulses(a, p) + slot_pulses(b, p),
    decreases b.len(),
{
    if b.len() == 0 {
        assert(a + b =~= a);
        assert(slot_pulses(a, p) + slot_pulses(b, p) =~= slot_pulses(a, p));
    } else {
        lemma_slots_append(a, b.drop_last(), p);
        assert((a + b).drop_last() =~= a + b.drop_last());
        assert((a + b).last() == b.last());
        assert(slot_pulses(a, p) + slot_pulses(b, p) =~= slot_pulses(a, p) + slot_pulses(
            b.drop_last(),
            p,
        ) + bit_pulses(b.last(), p));
    }
}

proof fn lemma_slot_levels(bits: Seq<bool>, p: u8)
    ensures
        slot_pulses(bits, p).len() == 4 * bits.len(),
        forall|k: int|
            0 <= k < 4 * bits.len() ==> (#[trigger] slot_pulses(bits, p)[k]).high == (k % 2 == 0),
    decreases bits.len(),
{
    if bits.len() > 0 {
        let init = bits.drop_last();
        lemma_slot_levels(init, p);
        let m = init.len();
        assert forall|k: int| 0 <= k < 4 * bits.len() implies (#[trigger] slot_pulses(
            bits,
            p,
        )[k]).high == (k % 2 == 0) by {
            if k >= 4 * m {
                let r = k - 4 * m;
                assert(k % 2 == r % 2) by (nonlinear_arith)
                    requires
                        r == k - 4 * m,
                        0 <= r < 4,
                ;
            }
        }
    }
}

proof fn lemma_repeated_index(s: Seq<Pulse>, n: nat)
    ensures
        repeated(s, n).len() == n * s.len(),
        forall|f: int, k: int|
            0 <= f < n && 0 <= k < s.len() ==> #[trigger] repeated(s, n)[f * s.len() + k] == s[k],
    decreases n,
{
    if n > 0 {
        let m = (n - 1) as nat;
        lemma_repeated_index(s, m);
        assert(repeated(s, n).len() == n * s.len()) by (nonlinear_arith)
            requires
                repeated(s, n).len() == m * s.len() + s.len(),
                m == n - 1,
        ;
        assert forall|f: int, k: int| 0 <= f < n && 0 <= k < s.len() implies #[trigger] repeated(
            s,
            n,
        )[f * s.len() + k] == s[k] by {
            let len = s.len() as int;
            if f < m {
                assert(f * len + k < m * len) by (nonlinear_arith)
                    requires
                        0 <= f < m,
                        0 <= k < len,
                ;
                assert(repeated(s, m)[f * len + k] == s[k]);
            } else {
                assert(f * len == m * len);
            }
        }
    } else {
        assert(n * s.len() == 0) by (nonlinear_arith)
            requires
                n == 0,
        ;
    }
}

/// Whatever the address and unit, a burst holds sixteen frames of 132
/// pulses each, and every frame is the same alternation of high and low
/// levels starting high: 32 bit slots between a start and a stop pulse.
/// Only the durations depend on the address and unit.
pub proof fn burst_shape(address: u32, unit: u8, p: u8)
    ensures
        frame_bits(address, unit).len() == 32,
        frame_pulses(address, unit, p).len() == 132,
        forall|k: int|
            0 <= k < 132 ==> (#[trigger] frame_pulses(address, unit, p)[k]).high == (k % 2 == 0),
        burst_pulses(address, unit, p).len() == 16 * 132,
        forall|f: int, k: int|
            0 <= f < 16 && 0 <= k < 132 ==> #[trigger] burst_pulses(address, unit, p)[f * 132 + k]
                == frame_pulses(address, unit, p)[k],
{
    let bits = frame_bits(address, unit);
    let frame = frame_pulses(address, unit, p);
    lemma_slot_levels(bits, p);
    let slots = slot_pulses(bits, p);
    assert forall|k: int| 0 <= k < 132 implies (#[trigger] frame[k]).high == (k % 2 == 0) by {
        if 2 <= k < 130 {
            assert(frame[k] == slots[k - 2]);
        }
    }
    lemma_repeated_index(frame, 16);
}

/// Encoding one address, unit and timing unit twice gives the same pulses,
/// duration for duration.
pub proof fn encoding_is_deterministic(
    address: u32,
    unit: u8,
    p: u8,
    first: Seq<Pulse>,
    second: Seq<Pulse>,
)
    requires
        first == burst_pulses(address, unit, p),
        second == burst_pulses(address, unit, p),
    ensures
        first == second,
{
}

/// The gap after the first high phase of a one slot lasts five times that
/// of a zero slot: five timing units against one.
pub proof fn one_gap_is_five_zero_gaps(p: u8)
    ensures
        bit_pulses(true, p)[1].micros == 5 * p,
        bit_pulses(false, p)[1].micros == p,
        bit_pulses(true, p)[1].micros == 5 * bit_pulses(false, p)[1].micros,
{
}

/// The encoder of one chime transmitter: its address, its timing unit and
/// its switch type.  A burst always addresses unit 0.
pub struct Gongcontrol {
    address: u32,
    period: u8,
    switch_type: u8,
}

impl Gongcontrol {
    pub closed spec fn address(&self) -> u32 {
        self.address
    }

    pub closed spec fn period(&self) -> u8 {
        self.period
    }

    pub closed spec fn switch_type(&self) -> u8 {
        self.switch_type
    }

    pub fn new(address: u32, period: u8, switch_type: u8) -> (r: Gongcontrol)
        ensures
            r.address() == address,
            r.period() == period,
            r.switch_type() == switch_type,
    {
        Gongcontrol { address, period, switch_type }
    }

    pub fn set_address(&mut self, address: u32)
        ensures
            final(self).address() == address,
            final(self).period() == old(self).period(),
            final(self).switch_type() == old(self).switch_type(),
    {
        self.address = address;
    }

    pub fn set_period(&mut self, period: u8)
        ensures
            final(self).address() == old(self).address(),
            final(self).period() == period,
            final(self).switch_type() == old(self).switch_type(),
    {
        self.period = period;
    }

    pub fn set_switch_type(&mut self, switch_type: u8)
        ensures
            final(self).address() == old(self).address(),
            final(self).period() == old(self).period(),
            final(self).switch_type() == switch_type,
    {
        self.switch_type = switch_type;
    }

    /// The burst that rings the chime: every pulse in order, for the
    /// caller to play out on the data line.
    pub fn ring(&self) -> (r: Vec<Pulse>)
        ensures
            r@ == burst_pulses(self.address(), 0, self.period()),
    {
        encode_burst(self.address, 0, self.period)
    }
}

/// The burst for `address` and `unit` with timing unit `period`.  Bits of
/// either value beyond its field are not sent.
pub fn encode_burst(address: u32, unit: u8, period: u8) -> (r: Vec<Pulse>)
    ensures
        r@ == burst_pulses(address, unit, period),
{
    let mut out: Vec<Pulse> = Vec::new();
    let mut n: usize = 0;
    while n < FRAMES_PER_BURST
        invariant
            n <= FRAMES_PER_BURST,
            out@ == repeated(frame_pulses(address, unit, period), n as nat),
        decreases FRAMES_PER_BURST - n,
    {
        send_frame(&mut out, address, unit, period);
        n = n + 1;
    }
    out
}

fn send_frame(out: &mut Vec<Pulse>, address: u32, unit: u8, period: u8)
    ensures
        final(out)@ == old(out)@ + frame_pulses(address, unit, period),
{
    let ghost start = out@;
    send_start_pulse(out, period);
    send_address(out, address, period);
    send_bit(out, true, period);
    send_bit(out, true, period);
    send_unit(out, unit, period);
    send_stop_pulse(out, period);
    proof {
        let a = address_bits(address);
        let u = unit_bits(unit);
        lemma_slots_push(a, true, period);
        lemma_slots_push(a.push(true), true, period);
        lemma_slots_append(a.push(true).push(true), u, period);
        assert(frame_bits(address, unit) =~= a.push(true).push(true) + u);
        assert(out@ =~= start + frame_pulses(address, unit, period));
    }
}

fn send_start_pulse(out: &mut Vec<Pulse>, period: u8)
    ensures
        final(out)@ == old(out)@ + start_pulses(period),
{
    let p = period as u32;
    out.push(Pulse { high: true, micros: p });
    out.push(Pulse { high: false, micros: p * 10 + p / 2 });
    assert(out@ =~= old(out)@ + start_pulses(period));
}

fn send_stop_pulse(out: &mut Vec<Pulse>, period: u8)
    ensures
        final(out)@ == old(out)@ + stop_pulses(period),
{
    let p = period as u32;
    out.push(Pulse { high: true, micros: p });
    out.push(Pulse { high: false, micros: p * 40 });
    assert(out@ =~= old(out)@ + stop_pulses(period));
}

fn send_bit(out: &mut Vec<Pulse>, bit: bool, period: u8)
    ensures
        final(out)@ == old(out)@ + bit_pulses(bit, period),
{
    let p = period as u32;
    if bit {
        out.push(Pulse { high: true, micros: p });
        out.push(Pulse { high: false, micros: p * 5 });
        out.push(Pulse { high: true, micros: p });
        out.push(Pulse { high: false, micros: p });
    } else {
        out.push(Pulse { high: true, micros: p });
        out.push(Pulse { high: false, micros: p });
        out.push(Pulse { high: true, micros: p });
        out.push(Pulse { high: false, micros: p * 5 });
    }
    assert(out@ =~= old(out)@ + bit_pulses(bit, period));
}

fn send_address(out: &mut Vec<Pulse>, address: u32, period: u8)
    ensures
        final(out)@ == old(out)@ + slot_pulses(address_bits(address), period),
{
    let ghost start = out@;
    let ghost bits = address_bits(address);
    let mut j: u32 = 0;
    while j < ADDRESS_BITS
        invariant
            j <= ADDRESS_BITS,
            bits == address_bits(address),
            out@ == start + slot_pulses(bits.take(j as int), period),
        decreases ADDRESS_BITS - j,
    {
        let i: u32 = ADDRESS_BITS - 1 - j;
        let bit = (address >> i) & 1 != 0;
        send_bit(out, bit, period);
        proof {
            assert(((address >> i) & 1u32 != 0u32) == ((address >> i) & 1u32 == 1u32))
                by (bit_vector);
            assert(bits[j as int] == bit);
            assert(bits.take(j + 1) =~= bits.take(j as int).push(bit));
            lemma_slots_push(bits.take(j as int), bit, period);
        }
        j = j + 1;
    }
    assert(bits.take(26) =~= bits);
}

fn send_unit(out: &mut Vec<Pulse>, unit: u8, period: u8)
    ensures
        final(out)@ == old(out)@ + slot_pulses(unit_bits(unit), period),
{
    let ghost start = out@;
    let ghost bits = unit_bits(unit);
    let mut j: u8 = 0;
    while j < UNIT_BITS
        invariant
            j <= UNIT_BITS,
            bits == unit_bits(unit),
            out@ == start + slot_pulses(bits.take(j as int), period),
        decreases UNIT_BITS - j,
    {
        let i: u8 = UNIT_BITS - 1 - j;
        let bit = (unit >> i) & 1 != 0;
        send_bit(out, bit, period);
        proof {
            assert(((unit >> i) & 1u8 != 0u8) == ((unit >> i) & 1u8 == 1u8)) by (bit_vector);
            assert(bits[j as int] == bit);
            assert(bits.take(j + 1) =~= bits.take(j as int).push(bit));
            lemma_slots_push(bits.take(j as int), bit, period);
        }
        j = j + 1;
    }
    assert(bits.take(4) =~= bits);
}

} // verus!
