//! The polyphonic voice pool: a fixed set of voices, per-key state,
//! and round-robin voice allocation with stealing.
//!
//! Every key of the 88-key range is `Off`, `Playing` a voice, or had
//! its voice stolen.  The pool invariant ties a playing key to a live
//! voice sounding that key; key state and voice activity decouple the
//! moment a stop is issued.

use vstd::prelude::*;

use crate::synth_voice::{
    spec_advanced, spec_sat_add_i16, spec_voice_sample, SynthInstrument, SynthVoice,
};

verus! {

/// Voices in the pool.
pub const MAX_VOICES: usize = 8;

/// Keys on the keyboard.
pub const NUM_KEYS: usize = 88;

/// Initial master volume, `VOLUME_SCALE` fixed point (0.7).
pub const DEFAULT_VOLUME: u32 = 45875;

/// An index into the voice pool.
#[derive(Clone, Copy, Debug, PartialEq, Eq, Structural)]
pub struct SynthVoiceIndex(pub usize);

/// One key's state: silent, sounding through a voice, or robbed of
/// its voice by a newer note.
#[derive(Clone, Copy, Debug, PartialEq, Eq, Structural)]
pub enum SynthKeyState {
    Off,
    Playing(SynthVoiceIndex),
    VoiceStolen,
}

/// The mathematical shadow of a pool: the voices, the key states,
/// the allocation cursor, and the two shared knobs.
pub struct SynthView {
    pub voices: Seq<SynthVoice>,
    pub keys: Seq<SynthKeyState>,
    pub next_voice: int,
    pub midi_connected: bool,
    pub volume: u32,
}

/// A playing key must point at a live, non-releasing voice sounding
/// exactly that key.
pub open spec fn playing_link(voices: Seq<SynthVoice>, st: SynthKeyState, k: int) -> bool {
    match st {
        SynthKeyState::Playing(idx) => {
            &&& idx.0 < 8
            &&& voices[idx.0 as int].active
            &&& !voices[idx.0 as int].stopping
            &&& voices[idx.0 as int].key == k
        },
        _ => true,
    }
}

impl SynthView {
    /// The pool invariant.
    pub open spec fn wf(&self) -> bool {
        &&& self.voices.len() == 8
        &&& self.keys.len() == 88
        &&& 0 <= self.next_voice < 8
        &&& forall|i: int| 0 <= i < 8 ==> (#[trigger] self.voices[i]).wf()
        &&& forall|i: int|
            0 <= i < 8 ==> ((#[trigger] self.voices[i]).active ==> self.voices[i].key < 88)
        &&& forall|k: int| 0 <= k < 88 ==> playing_link(self.voices, #[trigger] self.keys[k], k)
    }
}

/// The polyphonic synthesizer state shared by the event consumer and
/// the real-time sample generator.
pub struct SynthKeyboard {
    pub voices: Vec<SynthVoice>,
    pub keys: Vec<SynthKeyState>,
    pub next_voice: usize,
    pub midi_connected: bool,
    pub volume: u32,
}

impl View for SynthKeyboard {
    type V = SynthView;

    open spec fn view(&self) -> SynthView {
        SynthView {
            voices: self.voices@,
            keys: self.keys@,
            next_voice: self.next_voice as int,
            midi_connected: self.midi_connected,
            volume: self.volume,
        }
    }
}

/// The offset (from `start`, cyclically) of the first free voice
/// among offsets `j..8`, or 0 when every voice is busy.
pub open spec fn spec_pick_offset(voices: Seq<SynthVoice>, start: int, j: int) -> int
    decreases 8 - j,
{
    if j < 0 || j >= 8 {
        0
    } else if !voices[(start + j) % 8].active {
        j
    } else {
        spec_pick_offset(voices, start, j + 1)
    }
}

/// The voice `play_key` allocates: the first inactive voice scanning
/// cyclically from the cursor, or the cursor's own voice when every
/// voice is busy.
pub open spec fn spec_pick_voice(voices: Seq<SynthVoice>, start: int) -> int {
    (start + spec_pick_offset(voices, start, 0)) % 8
}

/// When every voice is busy the scan wraps and the cursor's own
/// voice is picked.
pub proof fn lemma_pick_all_active(voices: Seq<SynthVoice>, start: int, j: int)
    requires
        0 <= start < 8,
        0 <= j <= 8,
        forall|i: int| 0 <= i < 8 ==> (#[trigger] voices[i]).active,
    ensures
        spec_pick_offset(voices, start, j) == 0,
    decreases 8 - j,
{
    if j < 8 {
        assert(voices[(start + j) % 8].active);
        lemma_pick_all_active(voices, start, j + 1);
    }
}

/// What `play_key` does.  An out-of-range key changes nothing.  A key
/// already playing restarts its own voice in place.  Any other key
/// allocates by `spec_pick_voice`; when the allocated voice was busy,
/// its previous key is first marked `VoiceStolen`, then the new key
/// takes the voice.
pub open spec fn play_key_rel(pre: SynthView, post: SynthView, key: u8, pressure: u8) -> bool {
    if key >= 88 {
        post == pre
    } else {
        match pre.keys[key as int] {
            SynthKeyState::Playing(idx) => {
                &&& post.keys == pre.keys
                &&& post.next_voice == pre.next_voice
                &&& post.midi_connected == pre.midi_connected
                &&& post.volume == pre.volume
                &&& post.voices == pre.voices.update(idx.0 as int, post.voices[idx.0 as int])
                &&& SynthVoice::spec_started(
                    pre.voices[idx.0 as int],
                    post.voices[idx.0 as int],
                    key,
                    pressure,
                )
            },
            _ => {
                let i = spec_pick_voice(pre.voices, pre.next_voice);
                let keys1 = if pre.voices[i].active {
                    pre.keys.update(pre.voices[i].key as int, SynthKeyState::VoiceStolen)
                } else {
                    pre.keys
                };
                &&& post.next_voice == (i + 1) % 8
                &&& post.midi_connected == pre.midi_connected
                &&& post.volume == pre.volume
                &&& post.voices == pre.voices.update(i, post.voices[i])
                &&& SynthVoice::spec_started(pre.voices[i], post.voices[i], key, pressure)
                &&& post.keys == keys1.update(
                    key as int,
                    SynthKeyState::Playing(SynthVoiceIndex(i as usize)),
                )
            },
        }
    }
}

/// What `stop_key` does.  An out-of-range key changes nothing; any
/// other key goes `Off` at once, and if it was playing, its voice is
/// marked releasing but stays active until its ramp ends.
pub open spec fn stop_key_rel(pre: SynthView, post: SynthView, key: u8) -> bool {
    if key >= 88 {
        post == pre
    } else {
        &&& post.next_voice == pre.next_voice
        &&& post.midi_connected == pre.midi_connected
        &&& post.volume == pre.volume
        &&& post.keys == pre.keys.update(key as int, SynthKeyState::Off)
        &&& match pre.keys[key as int] {
            SynthKeyState::Playing(idx) => post.voices == pre.voices.update(
                idx.0 as int,
                (SynthVoice { stopping: true, ..pre.voices[idx.0 as int] }),
            ),
            _ => post.voices == pre.voices,
        }
    }
}

impl SynthKeyboard {
    pub open spec fn wf(&self) -> bool {
        self@.wf()
    }

    /// A fresh pool: every voice idle, every key `Off`, the cursor at
    /// the first voice, MIDI disconnected, the volume at its default.
    pub fn new() -> (r: SynthKeyboard)
        ensures
            r.wf(),
            r@.next_voice == 0,
            !r@.midi_connected,
            r@.volume == DEFAULT_VOLUME,
            forall|i: int| 0 <= i < 8 ==> !(#[trigger] r@.voices[i]).active,
            forall|k: int| 0 <= k < 88 ==> (#[trigger] r@.keys[k]) == SynthKeyState::Off,
    {
        let blank = SynthVoice::empty();
        let voices: Vec<SynthVoice> = vec![blank; 8];
        let keys: Vec<SynthKeyState> = vec![SynthKeyState::Off; 88];
        SynthKeyboard { voices, keys, next_voice: 0, midi_connected: false, volume: DEFAULT_VOLUME }
    }

    /// Whether a hardware MIDI source is currently connected.
    pub fn is_midi_connected(&self) -> (r: bool)
        ensures
            r == self@.midi_connected,
    {
        self.midi_connected
    }

    /// Records the connection state the manager reported.
    pub fn set_midi_connected(&mut self, connected: bool)
        ensures
            final(self)@ == (SynthView { midi_connected: connected, ..old(self)@ }),
    {
        self.midi_connected = connected;
    }

    /// The master volume, `VOLUME_SCALE` fixed point.
    pub fn get_volume(&self) -> (r: u32)
        ensures
            r == self@.volume,
    {
        self.volume
    }

    /// Sets the master volume, `VOLUME_SCALE` fixed point.
    pub fn set_volume(&mut self, volume: u32)
        ensures
            final(self)@ == (SynthView { volume: volume, ..old(self)@ }),
    {
        self.volume = volume;
    }

    /// Copies the key states into a caller's buffer of the right
    /// length; a buffer of any other length is left untouched.
    pub fn copy_keys(&self, keys: &mut Vec<SynthKeyState>)
        requires
            self.wf(),
        ensures
            final(keys)@ == (if old(keys)@.len() == 88 {
                self@.keys
            } else {
                old(keys)@
            }),
    {
        if keys.len() != 88 {
            return ;
        }
        let mut k: usize = 0;
        while k < 88
            invariant
                self.wf(),
                k <= 88,
                keys@.len() == 88,
                forall|j: int| 0 <= j < k ==> keys@[j] == self@.keys[j],
                forall|j: int| k <= j < 88 ==> keys@[j] == old(keys)@[j],
            decreases 88 - k,
        {
            keys[k] = self.keys[k];
            k = k + 1;
        }
        proof {
            assert(keys@ =~= self@.keys);
        }
    }

    /// Allocates a voice round-robin with preference: the first free
    /// voice from the cursor on, or the cursor's voice when none is
    /// free.  The cursor always advances past the allocated voice.
    fn get_new_voice(&mut self) -> (r: usize)
        requires
            old(self).wf(),
        ensures
            final(self).wf(),
            r < 8,
            r == spec_pick_voice(old(self)@.voices, old(self)@.next_voice),
            final(self)@ == (SynthView { next_voice: ((r + 1) % 8) as int, ..old(self)@ }),
    {
        let start = self.next_voice;
        let mut j: usize = 0;
        while j < 8
            invariant
                old(self).wf(),
                *self == *old(self),
                start == self.next_voice,
                start < 8,
                j <= 8,
                spec_pick_offset(self@.voices, start as int, 0) == spec_pick_offset(
                    self@.voices,
                    start as int,
                    j as int,
                ),
                forall|m: int| 0 <= m < j ==> (#[trigger] self@.voices[(start + m) % 8]).active,
            decreases 8 - j,
        {
            let cand = (start + j) % 8;
            if !self.voices[cand].active {
                self.next_voice = (cand + 1) % 8;
                return cand;
            }
            j = j + 1;
        }
        self.next_voice = (start + 1) % 8;
        proof {
            assert forall|i: int| 0 <= i < 8 implies (#[trigger] self@.voices[i]).active by {
                let m = if i >= start as int {
                    i - start
                } else {
                    i + 8 - start
                };
                assert(0 <= m < 8);
                assert((start + m) % 8 == i);
                assert(self@.voices[(start + m) % 8].active);
            }
            lemma_pick_all_active(self@.voices, start as int, 0);
        }
        start
    }

    /// Starts a note.  A key already sounding restarts its own voice
    /// with the new pressure; any other key gets a voice from the
    /// round-robin allocator, stealing (and marking) a busy voice's
    /// key when the pool is full.
    pub fn play_key(&mut self, key: u8, pressure: u8)
        requires
            old(self).wf(),
        ensures
            final(self).wf(),
            play_key_rel(old(self)@, final(self)@, key, pressure),
    {
        let key_index = key as usize;
        if key_index >= 88 {
            return ;
        }
        match self.keys[key_index] {
            SynthKeyState::Playing(SynthVoiceIndex(voice_index)) => {
                let mut v = self.voices[voice_index];
                v.start(key, pressure);
                self.voices[voice_index] = v;
                proof {
                    assert(self@.voices =~= old(self)@.voices.update(
                        voice_index as int,
                        self@.voices[voice_index as int],
                    ));
                }
            },
            _ => {
                let voice_index = self.get_new_voice();
                if self.voices[voice_index].active {
                    let stolen_key = self.voices[voice_index].key as usize;
                    self.keys[stolen_key] = SynthKeyState::VoiceStolen;
                }
                let mut v = self.voices[voice_index];
                v.start(key, pressure);
                self.voices[voice_index] = v;
                self.keys[key_index] = SynthKeyState::Playing(SynthVoiceIndex(voice_index));
            },
        }
    }

    /// Releases a note: the key goes `Off` at once; a voice it was
    /// playing starts its release ramp and fades out on its own
    /// schedule.
    pub fn stop_key(&mut self, key: u8)
        requires
            old(self).wf(),
        ensures
            final(self).wf(),
            stop_key_rel(old(self)@, final(self)@, key),
    {
        let key_index = key as usize;
        if key_index >= 88 {
            return ;
        }
        match self.keys[key_index] {
            SynthKeyState::Playing(SynthVoiceIndex(voice_index)) => {
                let mut v = self.voices[voice_index];
                v.stop();
                self.voices[voice_index] = v;
            },
            _ => {},
        }
        self.keys[key_index] = SynthKeyState::Off;
    }

    /// Hands the timbre to every voice, busy or idle; active voices
    /// retune audibly.
    pub fn set_instrument(&mut self, instrument: SynthInstrument)
        requires
            old(self).wf(),
            instrument.wf(),
        ensures
            final(self).wf(),
            final(self)@.keys == old(self)@.keys,
            final(self)@.next_voice == old(self)@.next_voice,
            final(self)@.midi_connected == old(self)@.midi_connected,
            final(self)@.volume == old(self)@.volume,
            final(self)@.voices.len() == 8,
            forall|i: int|
                0 <= i < 8 ==> SynthVoice::spec_instrument_set(
                    old(self)@.voices[i],
                    #[trigger] final(self)@.voices[i],
                    instrument,
                ),
    {
        let mut i: usize = 0;
        while i < 8
            invariant
                i <= 8,
                instrument.wf(),
                self@.voices.len() == 8,
                self@.keys == old(self)@.keys,
                self@.next_voice == old(self)@.next_voice,
                self@.midi_connected == old(self)@.midi_connected,
                self@.volume == old(self)@.volume,
                old(self).wf(),
                forall|j: int|
                    i <= j < 8 ==> (#[trigger] self@.voices[j]) == old(self)@.voices[j],
                forall|j: int|
                    0 <= j < i ==> SynthVoice::spec_instrument_set(
                        old(self)@.voices[j],
                        #[trigger] self@.voices[j],
                        instrument,
                    ),
            decreases 8 - i,
        {
            let mut v = self.voices[i];
            v.set_instrument(instrument);
            self.voices[i] = v;
            i = i + 1;
        }
    }
}

/// The buffer contents after the first `j` voices of the pool mixed
/// into `data`: inactive voices leave it alone, active voices add
/// their samples with saturation.
pub open spec fn spec_mix_voices(voices: Seq<SynthVoice>, j: int, data: Seq<i16>) -> Seq<i16>
    decreases j,
{
    if j <= 0 {
        data
    } else {
        let d = spec_mix_voices(voices, j - 1, data);
        if voices[j - 1].active {
            Seq::new(
                d.len(),
                |i: int|
                    spec_sat_add_i16(
                        d[i] as int,
                        spec_voice_sample(voices[j - 1], data.len() as int, i),
                    ) as i16,
            )
        } else {
            d
        }
    }
}

impl SynthKeyboard {
    /// The real-time entry point: mixes every active voice additively
    /// into the buffer and advances each one's envelope.  The caller
    /// silences the buffer first; voices only add into it.
    pub fn gen_samples(&mut self, data: &mut Vec<i16>)
        requires
            old(self).wf(),
        ensures
            final(self).wf(),
            final(data)@.len() == old(data)@.len(),
            final(data)@ == spec_mix_voices(old(self)@.voices, 8, old(data)@),
            final(self)@.keys == old(self)@.keys,
            final(self)@.next_voice == old(self)@.next_voice,
            final(self)@.midi_connected == old(self)@.midi_connected,
            final(self)@.volume == old(self)@.volume,
            forall|i: int|
                0 <= i < 8 ==> (if old(self)@.voices[i].active {
                    spec_advanced(
                        old(self)@.voices[i],
                        #[trigger] final(self)@.voices[i],
                        old(data)@.len() as int,
                    )
                } else {
                    final(self)@.voices[i] == old(self)@.voices[i]
                }),
    {
        let ghost data0 = data@;
        let mut j: usize = 0;
        while j < 8
            invariant
                j <= 8,
                old(self).wf(),
                self@.voices.len() == 8,
                self@.keys == old(self)@.keys,
                self@.next_voice == old(self)@.next_voice,
                self@.midi_connected == old(self)@.midi_connected,
                self@.volume == old(self)@.volume,
                data@.len() == data0.len(),
                data@ == spec_mix_voices(old(self)@.voices, j as int, data0),
                forall|i: int|
                    j <= i < 8 ==> (#[trigger] self@.voices[i]) == old(self)@.voices[i],
                forall|i: int|
                    0 <= i < j ==> (if old(self)@.voices[i].active {
                        spec_advanced(
                            old(self)@.voices[i],
                            #[trigger] self@.voices[i],
                            data0.len() as int,
                        )
                    } else {
                        self@.voices[i] == old(self)@.voices[i]
                    }),
                forall|i: int| 0 <= i < 8 ==> (#[trigger] self@.voices[i]).wf(),
                forall|i: int|
                    0 <= i < 8 ==> ((#[trigger] self@.voices[i]).active ==> old(
                        self,
                    )@.voices[i].active),
                forall|i: int|
                    0 <= i < 8 ==> ((#[trigger] self@.voices[i]).active ==> self@.voices[i].key
                        == old(self)@.voices[i].key),
                forall|i: int|
                    0 <= i < 8 ==> ((#[trigger] self@.voices[i]).stopping == old(
                        self,
                    )@.voices[i].stopping),
            decreases 8 - j,
        {
            if self.voices[j].active {
                let ghost d_before = data@;
                let mut v = self.voices[j];
                v.gen_samples(data);
                self.voices[j] = v;
                proof {
                    assert(data@ =~= Seq::new(
                        d_before.len(),
                        |i: int|
                            spec_sat_add_i16(
                                d_before[i] as int,
                                spec_voice_sample(
                                    old(self)@.voices[j as int],
                                    data0.len() as int,
                                    i,
                                ),
                            ) as i16,
                    ));
                }
            }
            j = j + 1;
        }
        proof {
            assert forall|k: int| 0 <= k < 88 implies playing_link(
                self@.voices,
                #[trigger] self@.keys[k],
                k,
            ) by {
                assert(playing_link(old(self)@.voices, old(self)@.keys[k], k));
            }
        }
    }
}

/// Starting a note on a full pool steals the cursor's voice: the new
/// key plays that very voice, the robbed key (when it is a different
/// key) reads `VoiceStolen` — not `Off` — and the cursor moves past
/// the stolen voice.
pub proof fn lemma_full_pool_steals_cursor_voice(
    pre: SynthView,
    post: SynthView,
    key: u8,
    pressure: u8,
)
    requires
        pre.wf(),
        play_key_rel(pre, post, key, pressure),
        key < 88,
        !(pre.keys[key as int] is Playing),
        forall|i: int| 0 <= i < 8 ==> (#[trigger] pre.voices[i]).active,
    ensures
        spec_pick_voice(pre.voices, pre.next_voice) == pre.next_voice,
        post.keys[key as int] == SynthKeyState::Playing(
            SynthVoiceIndex(pre.next_voice as usize),
        ),
        pre.voices[pre.next_voice].key != key ==> post.keys[pre.voices[pre.next_voice].key as int]
            == SynthKeyState::VoiceStolen,
        post.next_voice == (pre.next_voice + 1) % 8,
{
    lemma_pick_all_active(pre.voices, pre.next_voice, 0);
}

/// Re-pressing a key that is already playing restarts its own voice
/// in place: no new allocation, no other voice touched, no key state
/// or cursor movement.
pub proof fn lemma_replay_reuses_voice(pre: SynthView, post: SynthView, key: u8, pressure: u8)
    requires
        pre.wf(),
        play_key_rel(pre, post, key, pressure),
        key < 88,
        pre.keys[key as int] is Playing,
    ensures
        post.keys == pre.keys,
        post.next_voice == pre.next_voice,
        SynthVoice::spec_started(
            pre.voices[pre.keys[key as int]->Playing_0.0 as int],
            post.voices[pre.keys[key as int]->Playing_0.0 as int],
            key,
            pressure,
        ),
        forall|i: int|
            0 <= i < 8 && i != pre.keys[key as int]->Playing_0.0 as int ==> post.voices[i]
                == pre.voices[i],
{
    let idx = pre.keys[key as int]->Playing_0.0 as int;
    assert(playing_link(pre.voices, pre.keys[key as int], key as int));
    assert forall|i: int| 0 <= i < 8 && i != idx implies post.voices[i] == pre.voices[i] by {
        assert(post.voices == pre.voices.update(idx, post.voices[idx]));
    }
}

/// Stopping a playing key turns it `Off` at once while its voice
/// stays active and merely enters its release ramp: key state and
/// voice activity are decoupled from the moment the stop is issued.
pub proof fn lemma_stop_key_decouples(pre: SynthView, post: SynthView, key: u8)
    requires
        pre.wf(),
        stop_key_rel(pre, post, key),
        key < 88,
        pre.keys[key as int] is Playing,
    ensures
        post.keys[key as int] == SynthKeyState::Off,
        post.voices[pre.keys[key as int]->Playing_0.0 as int].active,
        post.voices[pre.keys[key as int]->Playing_0.0 as int].stopping,
{
    assert(playing_link(pre.voices, pre.keys[key as int], key as int));
}

/// Setting the same instrument on the whole pool twice changes
/// nothing the second time: every voice's derived overtones (and all
/// its other fields) come out identical.
pub proof fn lemma_pool_set_instrument_idempotent(
    s0: SynthView,
    s1: SynthView,
    s2: SynthView,
    instrument: SynthInstrument,
)
    requires
        s0.voices.len() == 8,
        s1.voices.len() == 8,
        s2.voices.len() == 8,
        forall|i: int|
            0 <= i < 8 ==> SynthVoice::spec_instrument_set(
                s0.voices[i],
                #[trigger] s1.voices[i],
                instrument,
            ),
        forall|i: int|
            0 <= i < 8 ==> SynthVoice::spec_instrument_set(
                s1.voices[i],
                #[trigger] s2.voices[i],
                instrument,
            ),
    ensures
        s2.voices =~= s1.voices,
{
    assert forall|i: int| 0 <= i < 8 implies s2.voices[i] == s1.voices[i] by {
        crate::synth_voice::lemma_set_instrument_idempotent(
            s0.voices[i],
            s1.voices[i],
            s2.voices[i],
            instrument,
        );
    }
}

} // verus!
