//! sndio: parameter negotiation for the default device, buffer sizing, the configurations
//! the device offers, and the decisions of the thread that moves audio to and from it.
use vstd::prelude::*;
use crate::format::{
    BufferSize, FrameCount, SampleFormat, SampleRate, StreamConfig, SupportedBufferSize,
    SupportedStreamConfig, SupportedStreamConfigRange,
};
use crate::time::{Duration, StreamInstant, MAX_NANOS, NANOS_PER_SEC};

verus! {

/// Default buffer size, in multiples of the device's rounding unit.
pub const DEFAULT_ROUND_MULTIPLE: u32 = 2;
/// The rate offered by default.
pub const DEFAULT_SAMPLE_RATE: SampleRate = 48000;

/// The sample rates the device is probed for, in order.
pub open spec fn spec_supported_sample_rates() -> Seq<SampleRate> {
    seq![8000, 44100, 48000]
}

pub fn supported_sample_rates() -> (v: Vec<SampleRate>)
    ensures
        v@ == spec_supported_sample_rates(),
{
    let v = vec![8000, 44100, 48000];
    assert(v@ =~= spec_supported_sample_rates());
    v
}

/// Errors of the sndio backend.
#[derive(Clone, Debug)]
pub enum SndioError {
    /// The device is no longer available, for example because it was unplugged.
    DeviceNotAvailable,
    /// Any other failure, with its description.
    BackendSpecific(String),
}

/// What the device does when the application does not keep up.
#[derive(Clone, Copy, Debug, PartialEq, Eq, Structural)]
pub enum BufferXrunBehavior {
    Ignore,
    Sync,
    Error,
}

/// The `xrun` code sndio uses for a behaviour (`SIO_IGNORE`, `SIO_SYNC`, `SIO_ERROR`).
pub open spec fn spec_xrun_code(b: BufferXrunBehavior) -> u32 {
    match b {
        BufferXrunBehavior::Ignore => 0u32,
        BufferXrunBehavior::Sync => 1u32,
        BufferXrunBehavior::Error => 2u32,
    }
}

pub fn xrun_code(b: BufferXrunBehavior) -> (c: u32)
    ensures
        c == spec_xrun_code(b),
{
    match b {
        BufferXrunBehavior::Ignore => 0,
        BufferXrunBehavior::Sync => 1,
        BufferXrunBehavior::Error => 2,
    }
}

/// The fields of an `sio_par` the backend reads and writes.
#[derive(Clone, Copy, Debug, PartialEq, Eq, Structural)]
pub struct SioPar {
    pub bits: u32,
    pub bps: u32,
    pub sig: u32,
    pub le: u32,
    pub msb: u32,
    pub rchan: u32,
    pub pchan: u32,
    pub rate: u32,
    pub appbufsz: u32,
    pub bufsz: u32,
    pub round: u32,
    pub xrun: u32,
}

/// The parameters requested when probing `rate`: signed 16-bit samples in the machine's byte
/// order, one record and one playback channel, and the given xrun behaviour; the other fields
/// keep their initial values from `base`.
pub fn probe_params(base: SioPar, rate: SampleRate, behavior: BufferXrunBehavior, little_endian: bool) -> (p: SioPar)
    ensures
        p == (SioPar {
            bits: 16,
            sig: 1,
            le: if little_endian { 1 } else { 0 },
            rchan: 1,
            pchan: 1,
            rate,
            xrun: spec_xrun_code(behavior),
            ..base
        }),
{
    SioPar {
        bits: 16,
        sig: 1,
        le: if little_endian { 1 } else { 0 },
        rchan: 1,
        pchan: 1,
        rate,
        xrun: xrun_code(behavior),
        ..base
    }
}

/// Checks the parameters the device settled on: 16 bits in 2 bytes per sample, signed.
pub fn check_negotiated(par: &SioPar) -> (r: Result<(), SndioError>)
    ensures
        r is Ok <==> (par.bits == 16 && par.bps == 2 && par.sig == 1),
        r matches Err(e) ==> e is BackendSpecific,
{
    if par.bits != 16 || par.bps != 2 {
        return Err(SndioError::BackendSpecific("unexpected sample size (not 16bit)".to_owned()));
    }
    if par.sig != 1 {
        return Err(SndioError::BackendSpecific("sndio device does not support I16 but we need it to".to_owned()));
    }
    Ok(())
}

/// Checks a probe's result: mono in both directions at exactly the probed rate.
pub fn check_probe(par: &SioPar, rate: SampleRate) -> (r: Result<(), SndioError>)
    ensures
        r is Ok <==> (par.rchan == 1 && par.pchan == 1 && par.rate == rate),
        r matches Err(e) ==> e is BackendSpecific,
{
    if par.rchan != 1 {
        return Err(SndioError::BackendSpecific("unexpected number of record channels".to_owned()));
    }
    if par.pchan != 1 {
        return Err(SndioError::BackendSpecific("unexpected number of playback channels".to_owned()));
    }
    if par.rate != rate {
        return Err(SndioError::BackendSpecific("unexpected sample rate (frames per second)".to_owned()));
    }
    Ok(())
}

/// The fields `sio_setpar` receives, copied from `par` onto freshly initialised parameters
/// `fresh` (whose private fields must be kept).
pub fn params_to_set(fresh: SioPar, par: &SioPar) -> (p: SioPar)
    ensures
        p == *par,
{
    SioPar {
        bits: par.bits,
        bps: par.bps,
        sig: par.sig,
        le: par.le,
        msb: par.msb,
        rchan: par.rchan,
        pchan: par.pchan,
        rate: par.rate,
        appbufsz: par.appbufsz,
        bufsz: par.bufsz,
        round: par.round,
        xrun: par.xrun,
    }
}

/// `requested` rounded up to a multiple of `round` (zero rounds to `round`).
pub open spec fn round_up(requested: nat, round: nat) -> nat {
    if requested > 0 {
        (requested + round - ((requested - 1) as nat % round) - 1) as nat
    } else {
        round
    }
}

/// The buffer size for a stream: a fixed request rounded up to a multiple of `round`, or for
/// the default the size already configured, else twice `round`. When a size is already
/// configured the result must equal it.
pub fn determine_buffer_size(requested: &BufferSize, round: FrameCount, configured_size: Option<FrameCount>) -> (r: Result<FrameCount, SndioError>)
    requires
        round > 0,
        requested matches BufferSize::Fixed(n) ==> n + round <= u32::MAX,
        requested is Default && configured_size is None ==> 2 * round <= u32::MAX,
    ensures
        ({
            let desired = match *requested {
                BufferSize::Fixed(n) => round_up(n as nat, round as nat),
                BufferSize::Default => match configured_size {
                    Some(b) => b as nat,
                    None => 2 * round as nat,
                },
            };
            &&& (configured_size matches Some(b) && b != desired) ==> (r matches Err(e) && e is BackendSpecific)
            &&& !(configured_size matches Some(b) && b != desired) ==> (r matches Ok(x) && x == desired)
        }),
{
    let desired = match requested {
        BufferSize::Fixed(req) => {
            let req = *req;
            if req > 0 {
                req + round - ((req - 1) % round) - 1
            } else {
                round
            }
        },
        BufferSize::Default => match configured_size {
            Some(bufsize) => bufsize,
            None => DEFAULT_ROUND_MULTIPLE * round,
        },
    };
    match configured_size {
        Some(b) if b != desired => Err(SndioError::BackendSpecific("buffer sizes don't match".to_owned())),
        _ => Ok(desired),
    }
}

/// A positive request is rounded up to the nearest multiple of `round` that is not smaller.
pub proof fn lemma_round_up_is_next_multiple(requested: nat, round: nat)
    requires
        round > 0,
        requested > 0,
    ensures
        round_up(requested, round) % round == 0,
        requested <= round_up(requested, round) < requested + round,
{
    let m = ((requested - 1) as nat) % round;
    let q = ((requested - 1) as nat) / round;
    assert((requested - 1) as nat == q * round + m && m < round) by (nonlinear_arith)
        requires
            round > 0,
            m == ((requested - 1) as nat) % round,
            q == ((requested - 1) as nat) / round,
    ;
    let r: nat = (requested + round - m - 1) as nat;
    assert(r == (q + 1) * round) by (nonlinear_arith)
        requires
            r == requested + round - m - 1,
            (requested - 1) == q * round + m,
    ;
    assert(r % round == 0) by (nonlinear_arith)
        requires
            r == (q + 1) * round,
            round > 0,
            q >= 0,
    ;
}

/// The configuration a probed rate offers with `channels` channels: signed 16-bit samples
/// at the probed rate, with buffers from one to ten rounding units.
pub open spec fn spec_config_from_par(par: SioPar, channels: u32) -> SupportedStreamConfig {
    SupportedStreamConfig {
        channels: channels as u16,
        sample_rate: par.rate,
        buffer_size: SupportedBufferSize::Range { min: par.round, max: (10 * par.round) as u32 },
        sample_format: SampleFormat::I16,
    }
}

pub fn supported_config_from_par(par: &SioPar, num_channels: u32) -> (c: SupportedStreamConfig)
    requires
        10 * par.round <= u32::MAX,
    ensures
        c == spec_config_from_par(*par, num_channels),
{
    SupportedStreamConfig {
        channels: num_channels as u16,
        sample_rate: par.rate,
        buffer_size: SupportedBufferSize::Range { min: par.round, max: 10 * par.round },
        sample_format: SampleFormat::I16,
    }
}

/// The parameters the device settled on for each probed rate.
pub struct SampleRateMap {
    pub entries: Vec<(SampleRate, SioPar)>,
}

impl SampleRateMap {
    /// Rates appear at most once.
    pub open spec fn wf(&self) -> bool {
        forall|i: int, j: int| 0 <= i < j < self.entries@.len() ==> self.entries@[i].0 != self.entries@[j].0
    }

    /// Every recorded rounding unit leaves room for ten of them in 32 bits, as the offered
    /// buffer range needs.
    pub open spec fn rounds_fit(&self) -> bool {
        forall|i: int| 0 <= i < self.entries@.len() ==> 10 * (#[trigger] self.entries@[i]).1.round <= u32::MAX
    }

    /// In a map without repeated rates, the entry at `i` is what its rate finds.
    proof fn lemma_get_at(&self, i: int)
        requires
            self.wf(),
            0 <= i < self.entries@.len(),
        ensures
            self.spec_get(self.entries@[i].0) == Some(self.entries@[i].1),
    {
        let r = self.entries@[i].0;
        let k = choose|k: int| 0 <= k < self.entries@.len() && self.entries@[k].0 == r;
        if k < i {
            assert(self.entries@[k].0 != self.entries@[i].0);
        } else if k > i {
            assert(self.entries@[i].0 != self.entries@[k].0);
        }
    }

    /// The parameters recorded for `rate`.
    pub open spec fn spec_get(&self, rate: SampleRate) -> Option<SioPar> {
        if exists|i: int| 0 <= i < self.entries@.len() && self.entries@[i].0 == rate {
            let i = choose|i: int| 0 <= i < self.entries@.len() && self.entries@[i].0 == rate;
            Some(self.entries@[i].1)
        } else {
            None
        }
    }

    pub fn new() -> (m: SampleRateMap)
        ensures
            m.entries@.len() == 0,
            m.wf(),
    {
        SampleRateMap { entries: Vec::new() }
    }

    /// The parameters recorded for `rate`.
    pub fn get(&self, rate: SampleRate) -> (r: Option<SioPar>)
        requires
            self.wf(),
        ensures
            r == self.spec_get(rate),
    {
        let mut i: usize = 0;
        while i < self.entries.len()
            invariant
                self.wf(),
                i <= self.entries@.len(),
                forall|j: int| 0 <= j < i ==> self.entries@[j].0 != rate,
            decreases self.entries@.len() - i,
        {
            if self.entries[i].0 == rate {
                proof {
                    let k = choose|k: int| 0 <= k < self.entries@.len() && self.entries@[k].0 == rate;
                    if k < i as int {
                        assert(self.entries@[k].0 != self.entries@[i as int].0);
                    } else if k > i as int {
                        assert(self.entries@[i as int].0 != self.entries@[k].0);
                    }
                }
                return Some(self.entries[i].1);
            }
            i = i + 1;
        }
        None
    }

    /// Records `par` for `rate`, replacing and returning what was recorded for it: a new rate
    /// joins at the end, a known one keeps its place.
    pub fn insert(&mut self, rate: SampleRate, par: SioPar) -> (previous: Option<SioPar>)
        requires
            old(self).wf(),
        ensures
            final(self).wf(),
            previous == old(self).spec_get(rate),
            forall|r: SampleRate| #[trigger] final(self).spec_get(r) == if r == rate {
                Some(par)
            } else {
                old(self).spec_get(r)
            },
            old(self).spec_get(rate) is None ==> final(self).entries@ == old(self).entries@.push((rate, par)),
            old(self).spec_get(rate) is Some ==> exists|i: int| 0 <= i < old(self).entries@.len()
                && old(self).entries@[i].0 == rate
                && final(self).entries@ == old(self).entries@.update(i, (rate, par)),
    {
        let mut i: usize = 0;
        while i < self.entries.len()
            invariant
                self.entries@ == old(self).entries@,
                self.wf(),
                i <= self.entries@.len(),
                forall|j: int| 0 <= j < i ==> self.entries@[j].0 != rate,
            decreases self.entries@.len() - i,
        {
            if self.entries[i].0 == rate {
                let previous = self.entries[i].1;
                proof {
                    self.lemma_get_at(i as int);
                }
                self.entries.set(i, (rate, par));
                proof {
                    assert(self.wf()) by {
                        assert forall|a: int, b: int| 0 <= a < b < self.entries@.len()
                            implies self.entries@[a].0 != self.entries@[b].0 by {
                            assert(old(self).entries@[a].0 != old(self).entries@[b].0);
                        }
                    }
                    assert forall|r: SampleRate| #[trigger] self.spec_get(r) == if r == rate {
                        Some(par)
                    } else {
                        old(self).spec_get(r)
                    } by {
                        if r == rate {
                            self.lemma_get_at(i as int);
                        } else if exists|k: int| 0 <= k < old(self).entries@.len() && old(self).entries@[k].0 == r {
                            let k = choose|k: int| 0 <= k < old(self).entries@.len() && old(self).entries@[k].0 == r;
                            old(self).lemma_get_at(k);
                            self.lemma_get_at(k);
                        } else {
                            assert(!exists|k: int| 0 <= k < self.entries@.len() && self.entries@[k].0 == r);
                        }
                    }
                }
                return Some(previous);
            }
            i = i + 1;
        }
        self.entries.push((rate, par));
        proof {
            assert forall|r: SampleRate| #[trigger] self.spec_get(r) == if r == rate {
                Some(par)
            } else {
                old(self).spec_get(r)
            } by {
                if r == rate {
                    self.lemma_get_at(old(self).entries@.len() as int);
                } else if exists|k: int| 0 <= k < old(self).entries@.len() && old(self).entries@[k].0 == r {
                    let k = choose|k: int| 0 <= k < old(self).entries@.len() && old(self).entries@[k].0 == r;
                    old(self).lemma_get_at(k);
                    self.lemma_get_at(k);
                } else {
                    assert(!exists|k: int| 0 <= k < self.entries@.len() && self.entries@[k].0 == r);
                }
            }
        }
        None
    }

    /// The configurations offered, one per recorded rate, with the record (`input`) or
    /// playback channel count.
    pub fn configs(&self, input: bool) -> (v: Vec<SupportedStreamConfigRange>)
        requires
            self.wf(),
            self.rounds_fit(),
        ensures
            v@.len() == self.entries@.len(),
            forall|i: int| 0 <= i < v@.len() ==> {
                let par = self.entries@[i].1;
                let c = spec_config_from_par(par, if input { par.rchan } else { par.pchan });
                &&& (#[trigger] v@[i]).channels == c.channels
                &&& v@[i].min_sample_rate == c.sample_rate
                &&& v@[i].max_sample_rate == c.sample_rate
                &&& v@[i].buffer_size == c.buffer_size
                &&& v@[i].sample_format == c.sample_format
            },
    {
        let mut v: Vec<SupportedStreamConfigRange> = Vec::new();
        let mut i: usize = 0;
        while i < self.entries.len()
            invariant
                self.wf(),
                self.rounds_fit(),
                i <= self.entries@.len(),
                v@.len() == i,
                forall|k: int| 0 <= k < i ==> {
                    let par = self.entries@[k].1;
                    let c = spec_config_from_par(par, if input { par.rchan } else { par.pchan });
                    &&& (#[trigger] v@[k]).channels == c.channels
                    &&& v@[k].min_sample_rate == c.sample_rate
                    &&& v@[k].max_sample_rate == c.sample_rate
                    &&& v@[k].buffer_size == c.buffer_size
                    &&& v@[k].sample_format == c.sample_format
                },
            decreases self.entries@.len() - i,
        {
            let par = self.entries[i].1;
            let ch = if input { par.rchan } else { par.pchan };
            let c = supported_config_from_par(&par, ch);
            v.push(SupportedStreamConfigRange {
                channels: c.channels,
                min_sample_rate: c.sample_rate,
                max_sample_rate: c.sample_rate,
                buffer_size: c.buffer_size,
                sample_format: c.sample_format,
            });
            i = i + 1;
        }
        v
    }

    /// The default configuration: the one at the default rate, or an error when that rate was
    /// not recorded.
    pub fn default_config(&self, input: bool) -> (r: Result<SupportedStreamConfig, SndioError>)
        requires
            self.wf(),
            self.rounds_fit(),
        ensures
            self.spec_get(DEFAULT_SAMPLE_RATE) matches Some(par) ==> (r matches Ok(c) && c
                == spec_config_from_par(par, if input { par.rchan } else { par.pchan })),
            self.spec_get(DEFAULT_SAMPLE_RATE) is None ==> (r matches Err(e) && e is BackendSpecific),
    {
        match self.get(DEFAULT_SAMPLE_RATE) {
            Some(par) => {
                proof {
                    let k = choose|k: int| 0 <= k < self.entries@.len() && self.entries@[k].0 == DEFAULT_SAMPLE_RATE;
                    assert(10 * self.entries@[k].1.round <= u32::MAX);
                }
                let ch = if input { par.rchan } else { par.pchan };
                Ok(supported_config_from_par(&par, ch))
            },
            None => Err(SndioError::BackendSpecific("missing map of sample rates to sio_par structs!".to_owned())),
        }
    }
}

/// Where the shared device state stands.
#[derive(Clone, Copy, Debug, PartialEq, Eq, Structural)]
pub enum DeviceStage {
    /// Not opened yet; the xrun behaviour can still be chosen.
    Init,
    /// Opened and probed; no stream yet.
    Opened,
    /// At least one stream was set up with the given parameters and buffer size.
    Running { par: SioPar, buffer_size: FrameCount },
}

/// The xrun behaviour can only be chosen before the device is opened.
pub fn set_xrun_behavior(stage: DeviceStage, current: BufferXrunBehavior, requested: BufferXrunBehavior) -> (r: Result<BufferXrunBehavior, SndioError>)
    ensures
        stage is Init ==> (r matches Ok(b) && b == requested),
        !(stage is Init) ==> (r matches Err(e) && e is BackendSpecific),
{
    match stage {
        DeviceStage::Init => Ok(requested),
        _ => Err(SndioError::BackendSpecific("the xrun behavior can only be specified at initialization time".to_owned())),
    }
}

/// Plans the set-up of a new stream with `config`. The first stream (device opened) takes
/// the parameters probed for its rate with the buffer size it asks for, rounded to the
/// device's unit; later streams (device running) must match the running rate and buffer size.
/// Returns the parameters to set and the buffer size.
pub fn plan_stream(stage: DeviceStage, map: &SampleRateMap, config: &StreamConfig) -> (r: Result<(SioPar, FrameCount), SndioError>)
    requires
        map.wf(),
        map.rounds_fit(),
        forall|i: int| 0 <= i < map.entries@.len() ==> (#[trigger] map.entries@[i]).1.round > 0,
        forall|i: int| 0 <= i < map.entries@.len() ==> (config.buffer_size matches BufferSize::Fixed(n) ==> n + (#[trigger] map.entries@[i]).1.round <= u32::MAX),
        stage matches DeviceStage::Running { par, buffer_size } ==> par.round > 0 && (config.buffer_size matches BufferSize::Fixed(n) ==> n + par.round <= u32::MAX),
    ensures
        stage is Init ==> (r matches Err(e) && e is BackendSpecific),
        stage is Opened ==> (match map.spec_get(config.sample_rate) {
            None => r matches Err(e) && e is BackendSpecific,
            Some(par) => {
                let size = match config.buffer_size {
                    BufferSize::Fixed(n) => round_up(n as nat, par.round as nat),
                    BufferSize::Default => 2 * par.round as nat,
                };
                r matches Ok((p, b)) && b == size && p == SioPar { appbufsz: b, ..par }
            },
        }),
        stage matches DeviceStage::Running { par, buffer_size } ==> ({
            let desired = match config.buffer_size {
                BufferSize::Fixed(n) => round_up(n as nat, par.round as nat),
                BufferSize::Default => buffer_size as nat,
            };
            if par.rate != config.sample_rate || desired != buffer_size {
                r matches Err(e) && e is BackendSpecific
            } else {
                r matches Ok((p, b)) && p == par && b == buffer_size
            }
        }),
{
    match stage {
        DeviceStage::Init => Err(SndioError::BackendSpecific("device was expected to be opened".to_owned())),
        DeviceStage::Opened => {
            let par = match map.get(config.sample_rate) {
                Some(p) => p,
                None => return Err(SndioError::BackendSpecific("no configuration for sample rate".to_owned())),
            };
            proof {
                let k = choose|k: int| 0 <= k < map.entries@.len() && map.entries@[k].0 == config.sample_rate;
                assert(map.entries@[k].1.round > 0);
                assert(10 * map.entries@[k].1.round <= u32::MAX);
            }
            let size = match determine_buffer_size(&config.buffer_size, par.round, None) {
                Ok(s) => s,
                Err(e) => return Err(e),
            };
            Ok((SioPar { appbufsz: size, ..par }, size))
        },
        DeviceStage::Running { par, buffer_size } => {
            if par.rate != config.sample_rate {
                return Err(SndioError::BackendSpecific("sample rates don't match".to_owned()));
            }
            match determine_buffer_size(&config.buffer_size, par.round, Some(buffer_size)) {
                Ok(_) => Ok((par, buffer_size)),
                Err(e) => Err(e),
            }
        },
    }
}

/// Pausing is not supported by this backend.
pub fn pause_stream() -> (r: Result<(), SndioError>)
    ensures
        r matches Err(e) && e is BackendSpecific,
{
    Err(SndioError::BackendSpecific("pausing is not implemented".to_owned()))
}

/// What the runner does when no stream has callbacks left: park until one is added, first
/// stopping the device unless it is already paused. `None` when there is work to do.
pub fn idle_action(has_callbacks: bool, paused: bool) -> (r: Option<bool>)
    ensures
        has_callbacks ==> r is None,
        !has_callbacks ==> r == Some(!paused),
{
    if has_callbacks {
        None
    } else {
        Some(!paused)
    }
}

/// What the runner does after waking.
#[derive(Clone, Copy, Debug, PartialEq, Eq, Structural)]
pub enum ResumeAction {
    /// Woken with nothing to do: go back to waiting.
    Spurious,
    /// A stream was added while paused: start the device again.
    Start,
    /// Keep running.
    Run,
}

/// The runner's step after waking: a paused device is started again once a stream has
/// callbacks; a wake-up without any is spurious.
pub fn resume_action(has_callbacks: bool, paused: bool) -> (a: ResumeAction)
    ensures
        !paused ==> a == ResumeAction::Run,
        paused && !has_callbacks ==> a == ResumeAction::Spurious,
        paused && has_callbacks ==> a == ResumeAction::Start,
{
    if !paused {
        ResumeAction::Run
    } else if !has_callbacks {
        ResumeAction::Spurious
    } else {
        ResumeAction::Start
    }
}

/// How the output buffer is prepared before a write at the start of it.
#[derive(Clone, Copy, Debug, PartialEq, Eq, Structural)]
pub enum OutputFill {
    /// Let every output stream's callback fill it.
    CallCallbacks,
    /// Zero it: the last stream's audio must not be played again.
    Clear,
    /// Write what it holds.
    Keep,
}

/// How the output buffer is prepared before writing `offset` bytes into it, and whether it
/// will need clearing once no stream fills it: only a buffer written out completely
/// (`offset` zero) is refilled; with no output stream it is zeroed once after streams filled
/// it.
pub fn output_fill(offset: u64, has_output_callbacks: bool, clear_needed: bool) -> (r: (OutputFill, bool))
    ensures
        offset != 0 ==> r == (OutputFill::Keep, clear_needed),
        offset == 0 && has_output_callbacks ==> r == (OutputFill::CallCallbacks, true),
        offset == 0 && !has_output_callbacks && clear_needed ==> r == (OutputFill::Clear, false),
        offset == 0 && !has_output_callbacks && !clear_needed ==> r == (OutputFill::Keep, false),
{
    if offset != 0 {
        (OutputFill::Keep, clear_needed)
    } else if has_output_callbacks {
        (OutputFill::CallCallbacks, true)
    } else if clear_needed {
        (OutputFill::Clear, false)
    } else {
        (OutputFill::Keep, false)
    }
}

/// The outcome of one transfer into or out of a buffer of `total` bytes.
#[derive(Clone, Copy, Debug, PartialEq, Eq, Structural)]
pub enum Transfer {
    /// Part of the buffer is done; the next transfer starts at this offset.
    Partial(u64),
    /// The whole buffer is done: start over at its beginning (for capture, hand it to the
    /// callbacks).
    Complete,
    /// Nothing was transferred: the device is at its end.
    Eof,
    /// More than the buffer was transferred.
    Overrun,
}

/// Advances a transfer that was at `offset` bytes by `transferred` bytes of a `total`-byte
/// buffer.
pub fn advance_transfer(offset: u64, transferred: u64, total: u64) -> (t: Transfer)
    requires
        offset + transferred <= u64::MAX,
    ensures
        transferred == 0 ==> t == Transfer::Eof,
        transferred > 0 && offset + transferred > total ==> t == Transfer::Overrun,
        transferred > 0 && offset + transferred == total ==> t == Transfer::Complete,
        transferred > 0 && offset + transferred < total ==> t == Transfer::Partial(
            (offset + transferred) as u64,
        ),
{
    if transferred == 0 {
        return Transfer::Eof;
    }
    let next = offset + transferred;
    if next > total {
        Transfer::Overrun
    } else if next == total {
        Transfer::Complete
    } else {
        Transfer::Partial(next)
    }
}

/// The latency of a buffer of `buffer_size` frames at `rate`: one second times the frame
/// count (cut to 32 bits) over the rate, rounded down to the nanosecond.
pub open spec fn spec_runner_latency_nanos(buffer_size: usize, rate: u32) -> nat {
    ((buffer_size as u32) as nat * 1_000_000_000) / (rate as nat)
}

/// The latency the runner adds to playback and subtracts from capture.
pub fn runner_latency(buffer_size: usize, rate: u32) -> (d: Duration)
    requires
        rate > 0,
    ensures
        d@ == spec_runner_latency_nanos(buffer_size, rate),
{
    let frames = buffer_size as u32;
    let nanos = frames as u64 * 1_000_000_000 / rate as u64;
    assert(nanos <= frames as u64 * 1_000_000_000) by (nonlinear_arith)
        requires
            nanos as int == (frames as int * 1_000_000_000) / (rate as int),
            rate >= 1,
    ;
    Duration::from_nanos(nanos)
}

/// The instant the runner stamps a callback with, `elapsed` after it started: whole
/// seconds, plus the elapsed nanoseconds cut to 32 bits.
pub open spec fn spec_runner_callback_nanos(elapsed: nat) -> nat {
    (elapsed / 1_000_000_000) * 1_000_000_000 + (elapsed as u32) as nat
}

/// The callback, playback and capture instants of a runner cycle `elapsed` after the runner
/// started: playback is `latency` after the callback, capture `latency` before it, or at
/// the callback when that would precede the epoch.
pub fn runner_timestamps(elapsed: Duration, latency: Duration) -> (r: (StreamInstant, StreamInstant, StreamInstant))
    requires
        spec_runner_callback_nanos(elapsed@) + latency@ <= MAX_NANOS,
    ensures
        r.0@ == spec_runner_callback_nanos(elapsed@),
        r.1@ == r.0@ + latency@,
        r.2@ == (if latency@ <= r.0@ { (r.0@ - latency@) as nat } else { r.0@ }),
{
    let secs = elapsed.as_secs();
    let nanos = elapsed.as_nanos() as u32;
    assert(secs * NANOS_PER_SEC <= elapsed@) by (nonlinear_arith)
        requires
            secs == elapsed@ / (NANOS_PER_SEC as nat),
    ;
    let callback = StreamInstant::new(secs, nanos);
    let playback = callback.add(latency);
    let capture = match callback.checked_sub(latency) {
        Some(c) => c,
        None => callback,
    };
    (callback, playback, capture)
}

} // verus!
