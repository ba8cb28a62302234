//! One additive-synthesis oscillator voice, in integer fixed point.
//!
//! All continuous quantities are fixed-point integers: frequencies in
//! millihertz, volumes and loudness weights scaled by `VOLUME_SCALE`,
//! overtone frequency ratios scaled by `RATIO_SCALE`.  The waveform is
//! a rational approximation of the sine, so every sample a voice mixes
//! into a buffer is a provable function of the voice's state.

use vstd::prelude::*;

verus! {

/// Samples per second of the synthesis engine.
pub const SAMPLE_RATE: u32 = 48000;

/// Preferred frames per audio callback.
pub const BUFFER_SIZE: u32 = 1024;

/// Overtones per instrument.
pub const NUM_OVERTONES: usize = 5;

/// Fixed-point scale: this value stands for 1.0 in volumes, loudness
/// weights and decay coefficients.
pub const VOLUME_SCALE: u32 = 65536;

/// Fixed-point scale for overtone frequency ratios: this value stands
/// for a ratio of 1.0 to the fundamental.
pub const RATIO_SCALE: u32 = 65536;

/// Largest accepted overtone frequency ratio: 16 times the fundamental.
pub const MAX_RATIO: u32 = 1048576;

/// Largest volume a voice can hold: the pressure map's image of 255.
pub const MAX_VOLUME: u32 = 131588;

/// Amplitude of the sine approximation: `sine_fp` ranges over
/// `[-SINE_SCALE, SINE_SCALE]`.
pub const SINE_SCALE: u32 = 32768;

/// Fixed output gain applied to every overtone.
pub const GAIN: u32 = 3000;

/// Millihertz-samples per full oscillator turn: 1000 * SAMPLE_RATE.
/// A voice's sample counter is kept below this period, which leaves
/// every overtone's phase unchanged.
pub const TICK_PERIOD: u64 = 48000000;

/// Largest fundamental frequency `get_midi_note_frequency` can return,
/// in millihertz.
pub const MAX_FREQ_MILLIHZ: u64 = 28835840000;

/// One overtone of an instrument: a frequency ratio to the fundamental
/// (`RATIO_SCALE` fixed point) and a loudness weight (`VOLUME_SCALE`
/// fixed point, at most 1.0).
#[derive(Clone, Copy, Debug, PartialEq, Eq, Structural)]
pub struct SynthInstrumentOvertone {
    pub frequency: u32,
    pub loudness: u32,
}

/// An immutable timbre: a fixed set of overtones plus a per-buffer
/// volume decay coefficient in (0, 1).
#[derive(Clone, Copy, Debug, PartialEq, Eq)]
pub struct SynthInstrument {
    pub overtones: [SynthInstrumentOvertone; 5],
    pub decay: u32,
}

impl SynthInstrument {
    /// Well-formed: the decay is a coefficient strictly inside (0, 1),
    /// ratios are bounded, and loudness weights are at most 1.0.
    pub open spec fn wf(&self) -> bool {
        &&& 0 < self.decay < VOLUME_SCALE
        &&& forall|i: int|
            0 <= i < 5 ==> (#[trigger] self.overtones[i]).frequency <= MAX_RATIO
        &&& forall|i: int| 0 <= i < 5 ==> (#[trigger] self.overtones[i]).loudness <= VOLUME_SCALE
    }
}

/// A bright, percussive preset with a full overtone series.
pub open spec fn spec_piano() -> SynthInstrument {
    SynthInstrument {
        decay: 64881,
        overtones: [
            SynthInstrumentOvertone { frequency: 65536, loudness: 65536 },
            SynthInstrumentOvertone { frequency: 131072, loudness: 32768 },
            SynthInstrumentOvertone { frequency: 196608, loudness: 52429 },
            SynthInstrumentOvertone { frequency: 262144, loudness: 6554 },
            SynthInstrumentOvertone { frequency: 327680, loudness: 19661 },
        ],
    }
}

/// A bright, percussive preset with a full overtone series.
pub fn piano() -> (r: SynthInstrument)
    ensures
        r == spec_piano(),
        r.wf(),
{
    SynthInstrument {
        decay: 64881,
        overtones: [
            SynthInstrumentOvertone { frequency: 65536, loudness: 65536 },
            SynthInstrumentOvertone { frequency: 131072, loudness: 32768 },
            SynthInstrumentOvertone { frequency: 196608, loudness: 52429 },
            SynthInstrumentOvertone { frequency: 262144, loudness: 6554 },
            SynthInstrumentOvertone { frequency: 327680, loudness: 19661 },
        ],
    }
}

/// A sustained preset sounding only the first and fourth partials.
pub open spec fn spec_vibraphone() -> SynthInstrument {
    SynthInstrument {
        decay: 64225,
        overtones: [
            SynthInstrumentOvertone { frequency: 65536, loudness: 52429 },
            SynthInstrumentOvertone { frequency: 131072, loudness: 0 },
            SynthInstrumentOvertone { frequency: 196608, loudness: 0 },
            SynthInstrumentOvertone { frequency: 262144, loudness: 52429 },
            SynthInstrumentOvertone { frequency: 327680, loudness: 0 },
        ],
    }
}

/// A sustained preset sounding only the first and fourth partials.
pub fn vibraphone() -> (r: SynthInstrument)
    ensures
        r == spec_vibraphone(),
        r.wf(),
{
    SynthInstrument {
        decay: 64225,
        overtones: [
            SynthInstrumentOvertone { frequency: 65536, loudness: 52429 },
            SynthInstrumentOvertone { frequency: 131072, loudness: 0 },
            SynthInstrumentOvertone { frequency: 196608, loudness: 0 },
            SynthInstrumentOvertone { frequency: 262144, loudness: 52429 },
            SynthInstrumentOvertone { frequency: 327680, loudness: 0 },
        ],
    }
}

/// A bell-like preset with inharmonic overtone ratios.
pub open spec fn spec_bell() -> SynthInstrument {
    SynthInstrument {
        decay: 64881,
        overtones: [
            SynthInstrumentOvertone { frequency: 65536, loudness: 65536 },
            SynthInstrumentOvertone { frequency: 144179, loudness: 39322 },
            SynthInstrumentOvertone { frequency: 216269, loudness: 58982 },
            SynthInstrumentOvertone { frequency: 288358, loudness: 6554 },
            SynthInstrumentOvertone { frequency: 360448, loudness: 19661 },
        ],
    }
}

/// A bell-like preset with inharmonic overtone ratios.
pub fn bell() -> (r: SynthInstrument)
    ensures
        r == spec_bell(),
        r.wf(),
{
    SynthInstrument {
        decay: 64881,
        overtones: [
            SynthInstrumentOvertone { frequency: 65536, loudness: 65536 },
            SynthInstrumentOvertone { frequency: 144179, loudness: 39322 },
            SynthInstrumentOvertone { frequency: 216269, loudness: 58982 },
            SynthInstrumentOvertone { frequency: 288358, loudness: 6554 },
            SynthInstrumentOvertone { frequency: 360448, loudness: 19661 },
        ],
    }
}

/// 2^(m/12) in 2^32 fixed point, for one semitone step m in 0..12.
pub open spec fn spec_semitone_ratio(m: int) -> int {
    if m == 0 {
        4294967296
    } else if m == 1 {
        4550359342
    } else if m == 2 {
        4820937788
    } else if m == 3 {
        5107605667
    } else if m == 4 {
        5411319705
    } else if m == 5 {
        5733093519
    } else if m == 6 {
        6074001000
    } else if m == 7 {
        6435179895
    } else if m == 8 {
        6817835604
    } else if m == 9 {
        7223245206
    } else if m == 10 {
        7652761717
    } else {
        8107818609
    }
}

/// 2^k.
pub open spec fn spec_pow2(k: nat) -> nat
    decreases k,
{
    if k == 0 {
        1
    } else {
        2 * spec_pow2((k - 1) as nat)
    }
}

/// Equal-tempered tuning referenced to A4 = 440 Hz at MIDI note 69,
/// in millihertz: 440000 * 2^((note - 69) / 12).  The note is split
/// into an octave and a semitone step; the semitone factor comes from
/// a fixed-point table and the octave shifts the result by powers of
/// two.
pub open spec fn spec_midi_note_frequency(note: u8) -> int {
    let t = note + 51;
    let q = t / 12;
    let m = t % 12;
    let base = 440000 * spec_semitone_ratio(m) / 4294967296;
    if q >= 10 {
        base * spec_pow2((q - 10) as nat)
    } else {
        base / (spec_pow2((10 - q) as nat) as int)
    }
}

fn semitone_ratio(m: u32) -> (r: u64)
    requires
        m < 12,
    ensures
        r == spec_semitone_ratio(m as int),
        r <= 8107818609,
{
    match m {
        0 => 4294967296,
        1 => 4550359342,
        2 => 4820937788,
        3 => 5107605667,
        4 => 5411319705,
        5 => 5733093519,
        6 => 6074001000,
        7 => 6435179895,
        8 => 6817835604,
        9 => 7223245206,
        10 => 7652761717,
        _ => 8107818609,
    }
}

fn pow2_u64(k: u32) -> (r: u64)
    requires
        k <= 32,
    ensures
        r == spec_pow2(k as nat),
        1 <= r <= 4294967296,
{
    proof {
        assert(spec_pow2(32) == 4294967296) by {
            reveal_with_fuel(spec_pow2, 33);
        }
    }
    let mut r: u64 = 1;
    let mut i: u32 = 0;
    while i < k
        invariant
            i <= k <= 32,
            r == spec_pow2(i as nat),
            spec_pow2(32) == 4294967296,
        decreases k - i,
    {
        proof {
            lemma_pow2_bound(i as nat, 31);
            assert(spec_pow2(31) == 2147483648) by {
                reveal_with_fuel(spec_pow2, 32);
            }
        }
        r = r * 2;
        i = i + 1;
    }
    proof {
        lemma_pow2_bound(k as nat, 32);
    }
    r
}

/// 2^k grows monotonically: k <= b implies 2^k <= 2^b.
proof fn lemma_pow2_bound(k: nat, b: nat)
    requires
        k <= b,
    ensures
        spec_pow2(k) <= spec_pow2(b),
        spec_pow2(k) >= 1,
    decreases b,
{
    if b > 0 {
        if k == b {
            lemma_pow2_bound((b - 1) as nat, (b - 1) as nat);
        } else {
            lemma_pow2_bound(k, (b - 1) as nat);
        }
    }
}

/// Equal temperament doubles the frequency across an octave.  From
/// A4 upward the tuning computes the octave shift as an exact
/// multiplication, so the law is exact there; below A4 the shift is
/// a flooring division and can lose a millihertz.
pub proof fn lemma_octave_doubles(note: u8)
    requires
        69 <= note,
        note + 12 <= 255,
    ensures
        spec_midi_note_frequency((note + 12) as u8) == 2 * spec_midi_note_frequency(note),
{
    let t = note + 51;
    assert((t + 12) / 12 == t / 12 + 1);
    assert((t + 12) % 12 == t % 12);
    let q = t / 12;
    let base = 440000 * spec_semitone_ratio(t % 12) / 4294967296;
    assert(spec_pow2((q - 9) as nat) == 2 * spec_pow2((q - 10) as nat));
    assert(base * (2 * spec_pow2((q - 10) as nat)) == 2 * (base * spec_pow2((q - 10) as nat)))
        by (nonlinear_arith);
}

/// The fundamental frequency of a MIDI note, in millihertz.
pub fn get_midi_note_frequency(note: u8) -> (r: u64)
    ensures
        r == spec_midi_note_frequency(note),
        r <= MAX_FREQ_MILLIHZ,
{
    let t: u32 = note as u32 + 51;
    let q: u32 = t / 12;
    let m: u32 = t % 12;
    let ratio: u64 = semitone_ratio(m);
    let num: u64 = 440000u64 * ratio;
    let base: u64 = num / 4294967296;
    proof {
        assert(base <= 880000) by (nonlinear_arith)
            requires
                num <= 3567440187960000u64,
                base == num / 4294967296u64,
        ;
    }
    if q >= 10 {
        let p: u64 = pow2_u64(q - 10);
        proof {
            lemma_pow2_bound((q - 10) as nat, 15);
            assert(spec_pow2(15) == 32768) by {
                reveal_with_fuel(spec_pow2, 16);
            }
            assert(base * p <= 28835840000u64) by (nonlinear_arith)
                requires
                    base <= 880000u64,
                    p <= 32768u64,
            ;
        }
        base * p
    } else {
        let p: u64 = pow2_u64(10 - q);
        let r = base / p;
        proof {
            assert(r <= 880000) by (nonlinear_arith)
                requires
                    base <= 880000u64,
                    p >= 1,
                    r == base / p,
            ;
        }
        r
    }
}

/// Magnitude of the sine approximation over one half turn, in
/// `SINE_SCALE` fixed point.  `x` is the position inside the half
/// turn, scaled so that 2^31 is the full half turn.  The formula is a
/// rational approximation of sin over [0, pi]: with xh = x / 2^31,
/// sin(pi * xh) is close to 16 * xh * (1 - xh) / (5 - 4 * xh * (1 - xh)).
pub open spec fn spec_sine_mag(x: int) -> int {
    let n = x * (2147483648 - x);
    16 * n * 32768 / (23058430092136939520 - 4 * n)
}

/// The signed sine approximation over one full turn, in `SINE_SCALE`
/// fixed point.  `phase` is the fraction of a turn scaled so that 2^32
/// is a full turn; the second half turn is the negated first.
pub open spec fn spec_sine(phase: int) -> int {
    if phase < 2147483648 {
        spec_sine_mag(phase)
    } else {
        -spec_sine_mag(phase - 2147483648)
    }
}

/// The sine approximation: `phase` is a turn fraction scaled by 2^32.
pub fn sine_fp(phase: u32) -> (r: i32)
    ensures
        r == spec_sine(phase as int),
        -32768 <= r <= 32768,
{
    let (neg, x) = if phase < 0x80000000 {
        (false, phase)
    } else {
        (true, phase - 0x80000000)
    };
    let xl: u64 = x as u64;
    proof {
        assert(xl * (2147483648 - xl) <= 0x1000000000000000) by (nonlinear_arith)
            requires
                xl < 2147483648u64,
        ;
    }
    let n: u64 = xl * (2147483648 - xl);
    let num: u128 = 16u128 * (n as u128) * 32768;
    let den: u128 = 23058430092136939520u128 - 4 * (n as u128);
    let mag128: u128 = num / den;
    proof {
        assert(num <= 32768 * den) by (nonlinear_arith)
            requires
                num == 16u128 * (n as u128) * 32768,
                den == 23058430092136939520u128 - 4 * (n as u128),
                n <= 0x1000000000000000u64,
        ;
        assert(mag128 <= 32768) by (nonlinear_arith)
            requires
                num <= 32768 * den,
                den > 0,
                mag128 == num / den,
        ;
    }
    let mag: i32 = mag128 as i32;
    if neg {
        -mag
    } else {
        mag
    }
}

/// The turn fraction (scaled by 2^32) an overtone of frequency `freq`
/// millihertz has reached after `tick` samples.
pub open spec fn spec_phase(tick: int, freq: int) -> int {
    let cycle = ((tick % 48000000) * (freq % 48000000)) % 48000000;
    cycle * 4294967296 / 48000000
}

fn phase_index(t: u64, freq: u64) -> (r: u32)
    requires
        t < 48000000,
    ensures
        r == spec_phase(t as int, freq as int),
{
    let fr: u64 = freq % 48000000;
    proof {
        assert(t * fr <= 2304000000000000) by (nonlinear_arith)
            requires
                t < 48000000u64,
                fr < 48000000u64,
        ;
    }
    let prod: u64 = t * fr;
    let cycle: u64 = prod % 48000000;
    let scaled: u64 = cycle * 4294967296;
    let r64: u64 = scaled / 48000000;
    proof {
        assert(r64 < 4294967296) by (nonlinear_arith)
            requires
                cycle < 48000000u64,
                scaled == cycle * 4294967296u64,
                r64 == scaled / 48000000u64,
        ;
    }
    r64 as u32
}

/// What one derived overtone of a voice must hold: the absolute
/// frequency in millihertz (ratio times fundamental) and the loudness
/// weight copied from the instrument.
pub open spec fn spec_derived_overtone(instrument: SynthInstrument, freq: int, i: int) -> (
    u64,
    u32,
) {
    (
        ((instrument.overtones[i].frequency * freq) / 65536) as u64,
        instrument.overtones[i].loudness,
    )
}

/// One oscillator voice.  `freq` is the fundamental in millihertz,
/// `volume` is `VOLUME_SCALE` fixed point, `tick` counts samples
/// modulo `TICK_PERIOD`, and `overtones` caches each overtone's
/// absolute frequency and loudness.
#[derive(Clone, Copy, Debug)]
pub struct SynthVoice {
    pub active: bool,
    pub stopping: bool,
    pub key: u8,
    pub freq: u64,
    pub volume: u32,
    pub tick: u64,
    pub instrument: SynthInstrument,
    pub overtones: [(u64, u32); 5],
}

impl SynthVoice {
    /// Well-formed: bounded fields and overtones derived from the
    /// instrument and the fundamental.
    pub open spec fn wf(&self) -> bool {
        &&& self.instrument.wf()
        &&& self.tick < TICK_PERIOD
        &&& self.volume <= MAX_VOLUME
        &&& self.freq <= MAX_FREQ_MILLIHZ
        &&& forall|i: int|
            0 <= i < 5 ==> (#[trigger] self.overtones[i]) == spec_derived_overtone(
                self.instrument,
                self.freq as int,
                i,
            )
    }

    /// An inactive voice ready for reuse, carrying the default timbre.
    pub fn empty() -> (r: SynthVoice)
        ensures
            r.wf(),
            !r.active,
            !r.stopping,
            r.key == 0,
            r.freq == 0,
            r.volume == 0,
            r.tick == 0,
            r.instrument == spec_piano(),
    {
        let instrument = piano();
        let mut voice = SynthVoice {
            active: false,
            stopping: false,
            key: 0,
            freq: 0,
            volume: 0,
            tick: 0,
            instrument,
            overtones: [(0, 0), (0, 0), (0, 0), (0, 0), (0, 0)],
        };
        voice.update_overtones();
        voice
    }

    /// Rederives each overtone's absolute frequency and loudness from
    /// the current instrument and fundamental.
    fn update_overtones(&mut self)
        requires
            old(self).instrument.wf(),
            old(self).freq <= MAX_FREQ_MILLIHZ,
        ensures
            final(self).active == old(self).active,
            final(self).stopping == old(self).stopping,
            final(self).key == old(self).key,
            final(self).freq == old(self).freq,
            final(self).volume == old(self).volume,
            final(self).tick == old(self).tick,
            final(self).instrument == old(self).instrument,
            forall|i: int|
                0 <= i < 5 ==> (#[trigger] final(self).overtones[i]) == spec_derived_overtone(
                    old(self).instrument,
                    old(self).freq as int,
                    i,
                ),
    {
        let mut i: usize = 0;
        while i < 5
            invariant
                i <= 5,
                self.instrument.wf(),
                self.freq <= MAX_FREQ_MILLIHZ,
                self.active == old(self).active,
                self.stopping == old(self).stopping,
                self.key == old(self).key,
                self.freq == old(self).freq,
                self.volume == old(self).volume,
                self.tick == old(self).tick,
                self.instrument == old(self).instrument,
                forall|j: int|
                    0 <= j < i ==> (#[trigger] self.overtones[j]) == spec_derived_overtone(
                        self.instrument,
                        self.freq as int,
                        j,
                    ),
            decreases 5 - i,
        {
            let ratio: u64 = self.instrument.overtones[i].frequency as u64;
            proof {
                assert(ratio * self.freq <= 1048576 * 28835840000) by (nonlinear_arith)
                    requires
                        ratio <= 1048576u64,
                        self.freq <= 28835840000u64,
                ;
            }
            let abs_freq: u64 = ratio * self.freq / 65536;
            let loudness: u32 = self.instrument.overtones[i].loudness;
            self.overtones[i] = (abs_freq, loudness);
            i = i + 1;
        }
    }

    /// What `start` does to a voice: it becomes active and not
    /// stopping, remembers the key, maps the pressure linearly onto
    /// the volume, resets the phase, tunes the fundamental to the key
    /// and rederives the overtones.
    pub open spec fn spec_started(pre: SynthVoice, post: SynthVoice, key: u8, pressure: u8) -> bool {
        &&& post.active
        &&& !post.stopping
        &&& post.key == key
        &&& post.tick == 0
        &&& post.volume == pressure * 65536 / 127
        &&& post.freq == spec_midi_note_frequency(key)
        &&& post.instrument == pre.instrument
        &&& forall|i: int|
            0 <= i < 5 ==> (#[trigger] post.overtones[i]) == spec_derived_overtone(
                post.instrument,
                post.freq as int,
                i,
            )
    }

    /// Starts (or restarts) the voice on a key with a strike pressure.
    pub fn start(&mut self, key: u8, pressure: u8)
        requires
            old(self).instrument.wf(),
        ensures
            SynthVoice::spec_started(*old(self), *final(self), key, pressure),
            final(self).wf(),
    {
        self.key = key;
        self.active = true;
        self.stopping = false;
        self.tick = 0;
        self.volume = pressure as u32 * 65536 / 127;
        self.freq = get_midi_note_frequency(key);
        self.update_overtones();
    }

    /// Marks the voice as releasing; it keeps sounding and ramps to
    /// silence over its next buffer.
    pub fn stop(&mut self)
        ensures
            *final(self) == (SynthVoice { stopping: true, ..*old(self) }),
    {
        self.stopping = true;
    }

    /// What `set_instrument` does to a voice: the timbre is replaced
    /// and the overtones are rederived from the current fundamental;
    /// everything else is untouched.
    pub open spec fn spec_instrument_set(
        pre: SynthVoice,
        post: SynthVoice,
        instrument: SynthInstrument,
    ) -> bool {
        &&& post.active == pre.active
        &&& post.stopping == pre.stopping
        &&& post.key == pre.key
        &&& post.freq == pre.freq
        &&& post.volume == pre.volume
        &&& post.tick == pre.tick
        &&& post.instrument == instrument
        &&& forall|i: int|
            0 <= i < 5 ==> (#[trigger] post.overtones[i]) == spec_derived_overtone(
                instrument,
                pre.freq as int,
                i,
            )
    }

    /// Replaces the timbre, rederiving overtone frequencies from the
    /// current fundamental (an audible retuning is expected).
    pub fn set_instrument(&mut self, instrument: SynthInstrument)
        requires
            instrument.wf(),
            old(self).freq <= MAX_FREQ_MILLIHZ,
        ensures
            SynthVoice::spec_instrument_set(*old(self), *final(self), instrument),
            old(self).wf() ==> final(self).wf(),
    {
        self.instrument = instrument;
        self.update_overtones();
    }
}

/// Clamps to the signed 16-bit sample range.
pub open spec fn spec_clamp_i16(x: int) -> int {
    if x < -32768 {
        -32768
    } else if x > 32767 {
        32767
    } else {
        x
    }
}

/// Saturating addition of two 16-bit samples.
pub open spec fn spec_sat_add_i16(a: int, b: int) -> int {
    spec_clamp_i16(a + b)
}

/// One overtone's contribution to one sample: the sine of its phase,
/// weighted by loudness, the momentary volume and the fixed gain,
/// with the three fixed-point scales divided back out.
pub open spec fn spec_overtone_term(freq: int, loudness: int, tick: int, vol: int) -> int {
    let s = spec_sine(spec_phase(tick, freq));
    if s >= 0 {
        s * loudness * vol * 3000 / 140737488355328
    } else {
        -((-s) * loudness * vol * 3000 / 140737488355328)
    }
}

/// The summed contribution of the first `k` overtones.
pub open spec fn spec_sum_up_to(overtones: Seq<(u64, u32)>, k: int, tick: int, vol: int) -> int
    decreases k,
{
    if k <= 0 {
        0
    } else {
        spec_sum_up_to(overtones, k - 1, tick, vol) + spec_overtone_term(
            overtones[k - 1].0 as int,
            overtones[k - 1].1 as int,
            tick,
            vol,
        )
    }
}

/// The raw (unclamped) sample all overtones of a voice produce.
pub open spec fn spec_sample_sum(overtones: Seq<(u64, u32)>, tick: int, vol: int) -> int {
    spec_sum_up_to(overtones, overtones.len() as int, tick, vol)
}

/// The per-sample volume step of a releasing voice's linear ramp.
pub open spec fn spec_ramp_step(volume: int, len: int) -> int {
    if len > 0 {
        volume / len
    } else {
        0
    }
}

/// The momentary volume at sample `i` of a buffer of length `len`: a
/// releasing voice ramps linearly towards zero across the buffer,
/// any other holds its volume.
pub open spec fn spec_volume_at(v: SynthVoice, len: int, i: int) -> int {
    if v.stopping {
        v.volume - i * spec_ramp_step(v.volume as int, len)
    } else {
        v.volume as int
    }
}

/// The clamped sample a voice mixes into position `i` of a buffer of
/// length `len`.
pub open spec fn spec_voice_sample(v: SynthVoice, len: int, i: int) -> int {
    spec_clamp_i16(spec_sample_sum(v.overtones@, v.tick + i, spec_volume_at(v, len, i)))
}

/// How `gen_samples` advances a voice's bookkeeping: the sample
/// counter moves by the buffer length (modulo the phase period); a
/// releasing voice deactivates, any other multiplies its volume by
/// the instrument's decay coefficient once per buffer.
pub open spec fn spec_advanced(pre: SynthVoice, post: SynthVoice, len: int) -> bool {
    &&& post.tick == (pre.tick + len) % (TICK_PERIOD as int)
    &&& post.active == (if pre.stopping {
        false
    } else {
        pre.active
    })
    &&& post.stopping == pre.stopping
    &&& post.volume == (if pre.stopping {
        pre.volume as int
    } else {
        pre.volume * pre.instrument.decay / 65536
    })
    &&& post.key == pre.key
    &&& post.freq == pre.freq
    &&& post.instrument == pre.instrument
    &&& post.overtones == pre.overtones
}

fn overtone_term(freq: u64, loudness: u32, t: u64, vol: u32) -> (r: i32)
    requires
        t < TICK_PERIOD,
        loudness <= VOLUME_SCALE,
        vol <= MAX_VOLUME,
    ensures
        r == spec_overtone_term(freq as int, loudness as int, t as int, vol as int),
        -6100 <= r <= 6100,
{
    let ph: u32 = phase_index(t, freq);
    let s: i32 = sine_fp(ph);
    let mag: u64 = if s < 0 {
        (-s) as u64
    } else {
        s as u64
    };
    proof {
        assert(mag * (loudness as u64) <= 32768 * 65536 && mag * (loudness as u64) * (vol as u64)
            <= 32768 * 65536 * 131588 && mag * (loudness as u64) * (vol as u64) * 3000 <= 32768
            * 65536 * 131588 * 3000) by (nonlinear_arith)
            requires
                mag <= 32768u64,
                loudness <= 65536u32,
                vol <= 131588u32,
        ;
    }
    let prod: u64 = mag * (loudness as u64) * (vol as u64) * 3000;
    let term: u64 = prod / 140737488355328;
    proof {
        assert(term <= 6100) by (nonlinear_arith)
            requires
                prod <= 32768u64 * 65536 * 131588 * 3000,
                term == prod / 140737488355328u64,
        ;
    }
    if s < 0 {
        -(term as i32)
    } else {
        term as i32
    }
}

/// The overtone sum only reads the sample counter modulo the phase
/// period, so counters equal modulo the period sum alike.
proof fn lemma_sum_tick_mod(overtones: Seq<(u64, u32)>, k: int, t1: int, t2: int, vol: int)
    requires
        t1 % 48000000 == t2 % 48000000,
    ensures
        spec_sum_up_to(overtones, k, t1, vol) == spec_sum_up_to(overtones, k, t2, vol),
    decreases k,
{
    if k > 0 {
        lemma_sum_tick_mod(overtones, k - 1, t1, t2, vol);
    }
}

impl SynthVoice {
    /// The raw sample this voice produces at sample counter `t` with
    /// momentary volume `vol`.
    fn sample_at(&self, t: u64, vol: u32) -> (r: i32)
        requires
            self.wf(),
            t < TICK_PERIOD,
            vol <= MAX_VOLUME,
        ensures
            r == spec_sample_sum(self.overtones@, t as int, vol as int),
            -30500 <= r <= 30500,
    {
        let mut acc: i32 = 0;
        let mut j: usize = 0;
        while j < 5
            invariant
                j <= 5,
                self.wf(),
                t < TICK_PERIOD,
                vol <= MAX_VOLUME,
                acc == spec_sum_up_to(self.overtones@, j as int, t as int, vol as int),
                -6100 * j <= acc <= 6100 * j,
            decreases 5 - j,
        {
            let (freq, loudness) = self.overtones[j];
            let term: i32 = overtone_term(freq, loudness, t, vol);
            acc = acc + term;
            j = j + 1;
        }
        acc
    }

    /// Mixes this voice's next samples additively (with saturation)
    /// into the buffer, then advances the envelope: a releasing voice
    /// ramps linearly to silence across exactly this buffer and
    /// deactivates at its end.  Callers silence the buffer themselves;
    /// voices only add into it.
    pub fn gen_samples(&mut self, data: &mut Vec<i16>)
        requires
            old(self).wf(),
        ensures
            final(self).wf(),
            spec_advanced(*old(self), *final(self), old(data)@.len() as int),
            final(data)@.len() == old(data)@.len(),
            forall|i: int|
                0 <= i < old(data)@.len() ==> final(data)@[i] == spec_sat_add_i16(
                    old(data)@[i] as int,
                    spec_voice_sample(*old(self), old(data)@.len() as int, i),
                ),
    {
        let len: usize = data.len();
        let stopping = self.stopping;
        let start_volume: u32 = self.volume;
        let step: u32 = if len > 0 {
            (start_volume as u64 / len as u64) as u32
        } else {
            0
        };
        proof {
            assert(step == spec_ramp_step(start_volume as int, len as int));
        }
        let mut t: u64 = self.tick;
        let mut vol: u32 = start_volume;
        let mut i: usize = 0;
        while i < len
            invariant
                i <= len,
                len == old(data)@.len(),
                data@.len() == len,
                *self == *old(self),
                self.wf(),
                stopping == self.stopping,
                start_volume == self.volume,
                step == spec_ramp_step(start_volume as int, len as int),
                t == (self.tick + i) % 48000000,
                vol == if stopping {
                    spec_volume_at(*self, len as int, i as int)
                } else {
                    start_volume as int
                },
                vol <= MAX_VOLUME,
                forall|j: int|
                    0 <= j < i ==> data@[j] == spec_sat_add_i16(
                        old(data)@[j] as int,
                        spec_voice_sample(*self, len as int, j),
                    ),
                forall|j: int| i <= j < len ==> data@[j] == old(data)@[j],
            decreases len - i,
        {
            let sum: i32 = self.sample_at(t, vol);
            proof {
                lemma_sum_tick_mod(
                    self.overtones@,
                    self.overtones@.len() as int,
                    t as int,
                    self.tick + i,
                    vol as int,
                );
            }
            let clamped: i32 = if sum > 32767 {
                32767
            } else if sum < -32768 {
                -32768
            } else {
                sum
            };
            let mixed32: i32 = data[i] as i32 + clamped;
            let mixed: i16 = if mixed32 > 32767 {
                32767
            } else if mixed32 < -32768 {
                -32768
            } else {
                mixed32 as i16
            };
            data[i] = mixed;
            t = if t + 1 == 48000000 {
                0
            } else {
                t + 1
            };
            proof {
                if stopping {
                    assert((i + 1) * step <= start_volume && i * step + step == (i + 1) * step)
                        by (nonlinear_arith)
                        requires
                            step == start_volume as int / len as int,
                            0 <= i,
                            i + 1 <= len,
                            0 < len,
                    ;
                }
            }
            if stopping {
                vol = vol - step;
            }
            i = i + 1;
        }
        self.tick = t;
        if stopping {
            self.active = false;
        } else {
            proof {
                assert(start_volume as u64 * self.instrument.decay as u64 / 65536
                    <= start_volume) by (nonlinear_arith)
                    requires
                        self.instrument.decay < 65536u64,
                ;
            }
            let decayed: u64 = start_volume as u64 * self.instrument.decay as u64 / 65536;
            self.volume = decayed as u32;
        }
    }
}

/// Replacing an instrument twice with the same timbre changes nothing
/// the second time: the derived overtone frequencies (and every other
/// field) come out identical.
pub proof fn lemma_set_instrument_idempotent(
    v0: SynthVoice,
    v1: SynthVoice,
    v2: SynthVoice,
    instrument: SynthInstrument,
)
    requires
        SynthVoice::spec_instrument_set(v0, v1, instrument),
        SynthVoice::spec_instrument_set(v1, v2, instrument),
    ensures
        v2.overtones@ =~= v1.overtones@,
        v2 == v1,
{
    broadcast use vstd::array::group_array_axioms;

    assert(v2.overtones =~= v1.overtones);
}

} // verus!
