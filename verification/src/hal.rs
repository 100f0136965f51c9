//! Audio hardware abstraction: the operations routing needs, an in-memory
//! implementation, and the verified volume write/read-back loop.
use crate::error::RustyJackError;
use crate::output_device::{opt_view, OutputDevice};
use crate::system_default::DeviceList;
use crate::text::str_eq;
use vstd::prelude::*;

verus! {

/// Outcome of setting an output volume and reading it back.
#[derive(Debug, Clone, Copy, PartialEq, Eq, Structural)]
pub struct VolumeEnsureResult {
    pub target: u8,
    pub actual: Option<u8>,
    pub verified: bool,
    pub attempts: u32,
}

pub open spec fn spec_within_tolerance(actual: u8, target: u8, tolerance: u8) -> bool {
    if actual >= target {
        actual - target <= tolerance
    } else {
        target - actual <= tolerance
    }
}

/// Whether a volume reading lies within `tolerance` percentage points of `target`.
pub fn volume_within_tolerance(actual: u8, target: u8, tolerance: u8) -> (r: bool)
    ensures
        r == spec_within_tolerance(actual, target, tolerance),
{
    if actual >= target {
        actual - target <= tolerance
    } else {
        target - actual <= tolerance
    }
}

/// One write made through an [`AudioHal`], with what it returned.
pub enum HalWrite {
    SetDefault { uid: Ghost<Seq<char>>, also_system: bool, result: Result<(), RustyJackError> },
    SetVolume {
        uid: Ghost<Seq<char>>,
        percent: u8,
        result: Result<VolumeEnsureResult, RustyJackError>,
    },
}

/// Hardware abstraction for listing and selecting output devices.
///
/// The ghost model records the current default output, which calls fail, and
/// every default-output and volume write, so callers can state exactly what a
/// routing step changed. The contracts bind an implementation that declares it
/// keeps the model (`obeys_model`); one that does not (the default, which an
/// unverified platform implementation gets) is promised nothing and promises
/// nothing, and the model functions' defaults then carry no meaning.
pub trait AudioHal {
    /// Whether this implementation keeps the model below.
    open spec fn obeys_model(&self) -> bool {
        false
    }

    /// UID of the current default output.
    open spec fn model_default(&self) -> Option<Seq<char>> {
        None
    }

    /// Every `set_default_output` call so far: UID and the system-output flag.
    open spec fn default_log(&self) -> Seq<(Seq<char>, bool)> {
        Seq::empty()
    }

    /// Every `set_output_volume` call so far: UID and percent.
    open spec fn volume_log(&self) -> Seq<(Seq<char>, u8)> {
        Seq::empty()
    }

    /// Every write so far, default-output and volume writes in the order made,
    /// each with its result.
    open spec fn write_log(&self) -> Seq<HalWrite> {
        Seq::empty()
    }

    /// The devices a listing reports in this state.
    open spec fn model_devices(&self) -> Seq<OutputDevice> {
        Seq::empty()
    }

    /// The virtual system default a listing reports in this state.
    open spec fn model_system_default(&self) -> Option<crate::system_default::SystemDefaultInfo> {
        None
    }

    /// Whether listing the outputs fails in this state.
    open spec fn list_fails(&self) -> bool {
        false
    }

    /// Whether reading the default output fails in this state.
    open spec fn read_fails(&self) -> bool {
        false
    }

    /// Whether setting `uid` as the default output fails in this state.
    open spec fn set_default_fails(&self, uid: Seq<char>, also_system: bool) -> bool {
        false
    }

    /// Whether writing `percent` to `uid` fails in this state.
    open spec fn set_volume_fails(&self, uid: Seq<char>, percent: u8) -> bool {
        false
    }

    /// The volume (0–100) that a read of `uid` reports in this state, when readable.
    open spec fn reported_volume(&self, uid: Seq<char>) -> Option<u8> {
        None
    }

    /// List the output devices: the modelled devices, unless listing fails.
    fn list_outputs(&self) -> (r: Result<DeviceList, RustyJackError>)
        ensures
            self.obeys_model() ==> (r is Err == self.list_fails()),
            self.obeys_model() ==> (r matches Ok(l) ==> l.devices@ == self.model_devices()
                && l.system_default == self.model_system_default()),
    ;

    /// Set the system default output to `uid`; with `also_system`, the alert output too.
    fn set_default_output(&mut self, uid: &str, also_system: bool) -> (r: Result<
        (),
        RustyJackError,
    >)
        ensures
            final(self).obeys_model() == old(self).obeys_model(),
            old(self).obeys_model() ==> ({
                &&& final(self).default_log() == old(self).default_log().push((uid@, also_system))
                &&& final(self).volume_log() == old(self).volume_log()
                &&& final(self).write_log() == old(self).write_log().push(
                    HalWrite::SetDefault { uid: Ghost(uid@), also_system, result: r },
                )
                &&& (r is Ok ==> final(self).model_default() == Some(uid@))
                &&& (r is Err ==> final(self).model_default() == old(self).model_default())
                &&& (r is Err == old(self).set_default_fails(uid@, also_system))
                &&& final(self).model_devices() == old(self).model_devices()
                &&& final(self).list_fails() == old(self).list_fails()
                &&& final(self).read_fails() == old(self).read_fails()
                &&& forall|u: Seq<char>, s: bool|
                    #[trigger] final(self).set_default_fails(u, s) == old(self).set_default_fails(u, s)
                &&& forall|u: Seq<char>, p: u8|
                    #[trigger] final(self).set_volume_fails(u, p) == old(self).set_volume_fails(u, p)
            }),
    ;

    /// Set output volume (0–100) on `uid`, retrying until read-back matches when possible.
    fn set_output_volume(&mut self, uid: &str, percent: u8) -> (r: Result<
        VolumeEnsureResult,
        RustyJackError,
    >)
        ensures
            final(self).obeys_model() == old(self).obeys_model(),
            old(self).obeys_model() ==> ({
                &&& final(self).volume_log() == old(self).volume_log().push((uid@, percent))
                &&& final(self).default_log() == old(self).default_log()
                &&& final(self).write_log() == old(self).write_log().push(
                    HalWrite::SetVolume { uid: Ghost(uid@), percent, result: r },
                )
                &&& final(self).model_default() == old(self).model_default()
                &&& (r is Err == old(self).set_volume_fails(uid@, percent))
                &&& final(self).model_devices() == old(self).model_devices()
                &&& final(self).list_fails() == old(self).list_fails()
                &&& final(self).read_fails() == old(self).read_fails()
                &&& forall|u: Seq<char>, s: bool|
                    #[trigger] final(self).set_default_fails(u, s) == old(self).set_default_fails(u, s)
                &&& forall|u: Seq<char>, p: u8|
                    #[trigger] final(self).set_volume_fails(u, p) == old(self).set_volume_fails(u, p)
            }),
    ;

    /// UID of the current default output device.
    fn default_output_uid(&self) -> (r: Result<Option<String>, RustyJackError>)
        ensures
            self.obeys_model() ==> (r is Err == self.read_fails()),
            self.obeys_model() ==> (r matches Ok(o) ==> match o {
                Some(s) => self.model_default() == Some(s@),
                None => self.model_default() is None,
            }),
    ;

    /// Current output volume (0–100) for `uid`, when readable.
    fn output_volume_percent(&self, uid: &str) -> (r: Option<u8>)
        ensures
            self.obeys_model() ==> r == self.reported_volume(uid@),
    ;
}

/// Which operations fail is the same in both states.
pub open spec fn failures_kept<H: AudioHal>(before: H, after: H) -> bool {
    &&& after.list_fails() == before.list_fails()
    &&& after.read_fails() == before.read_fails()
    &&& forall|u: Seq<char>, s: bool|
        #[trigger] after.set_default_fails(u, s) == before.set_default_fails(u, s)
    &&& forall|u: Seq<char>, p: u8|
        #[trigger] after.set_volume_fails(u, p) == before.set_volume_fails(u, p)
}

/// A recorded volume write.
#[derive(Debug, PartialEq, Eq)]
pub struct SetVolumeCall {
    pub uid: String,
    pub percent: u8,
}

/// In-memory [`AudioHal`] returning a fixed device list and recording writes.
#[derive(Debug)]
pub struct MockHal {
    pub devices: Vec<OutputDevice>,
    pub default_uid: Option<String>,
    pub set_calls: Vec<(String, bool)>,
    pub volume_calls: Vec<SetVolumeCall>,
    pub output_volume: Option<u8>,
    /// Every write, in order.
    pub writes: Vec<MockWrite>,
}

/// A write recorded by [`MockHal`].
#[derive(Debug)]
pub enum MockWrite {
    Default(String, bool),
    Volume(String, u8),
}

/// What [`MockHal`] reports for a volume write: the target, read back exactly.
pub open spec fn mock_volume_result(percent: u8) -> VolumeEnsureResult {
    VolumeEnsureResult { target: percent, actual: Some(percent), verified: true, attempts: 1 }
}

/// A recorded mock write as a HAL write; the mock's writes always succeed.
pub open spec fn mock_write(w: MockWrite) -> HalWrite {
    match w {
        MockWrite::Default(u, s) => HalWrite::SetDefault {
            uid: Ghost(u@),
            also_system: s,
            result: Ok(()),
        },
        MockWrite::Volume(u, p) => HalWrite::SetVolume {
            uid: Ghost(u@),
            percent: p,
            result: Ok(mock_volume_result(p)),
        },
    }
}

pub fn clone_devices(devices: &Vec<OutputDevice>) -> (r: Vec<OutputDevice>)
    ensures
        r@ == devices@,
{
    let mut out: Vec<OutputDevice> = Vec::new();
    let mut i: usize = 0;
    while i < devices.len()
        invariant
            i <= devices@.len(),
            out@ == devices@.take(i as int),
        decreases devices@.len() - i,
    {
        out.push(devices[i].duplicate());
        assert(devices@.take(i + 1) =~= devices@.take(i as int).push(devices@[i as int]));
        i = i + 1;
    }
    assert(devices@.take(devices@.len() as int) =~= devices@);
    out
}

impl MockHal {
    pub open spec fn spec_devices(&self) -> Seq<OutputDevice> {
        self.devices@
    }

    pub open spec fn spec_output_volume(&self) -> Option<u8> {
        self.output_volume
    }

    pub fn new(devices: Vec<OutputDevice>) -> (r: MockHal)
        ensures
            r.spec_devices() == devices@,
            r.model_default() is None,
            r.default_log().len() == 0,
            r.volume_log().len() == 0,
            r.write_log().len() == 0,
            r.spec_output_volume() is None,
    {
        let r = MockHal {
            devices,
            default_uid: None,
            set_calls: Vec::new(),
            volume_calls: Vec::new(),
            output_volume: None,
            writes: Vec::new(),
        };
        assert(r.default_log() =~= Seq::<(Seq<char>, bool)>::empty());
        assert(r.volume_log() =~= Seq::<(Seq<char>, u8)>::empty());
        r
    }

    /// The same mock with `uid` as the current default output.
    pub fn with_default(self, uid: &str) -> (r: MockHal)
        ensures
            r.spec_devices() == self.spec_devices(),
            r.model_default() == Some(uid@),
            r.default_log() == self.default_log(),
            r.volume_log() == self.volume_log(),
            r.write_log() == self.write_log(),
            r.spec_output_volume() == self.spec_output_volume(),
    {
        MockHal { default_uid: Some(crate::text::owned(uid)), ..self }
    }

    /// The same mock reporting `percent` as every device's current volume.
    pub fn with_output_volume(self, percent: u8) -> (r: MockHal)
        ensures
            r.spec_devices() == self.spec_devices(),
            r.model_default() == self.model_default(),
            r.default_log() == self.default_log(),
            r.volume_log() == self.volume_log(),
            r.write_log() == self.write_log(),
            r.spec_output_volume() == Some(percent),
    {
        MockHal { output_volume: Some(percent), ..self }
    }

    /// UIDs passed to `set_default_output`, in order.
    pub fn set_calls(&self) -> (r: Vec<String>)
        ensures
            r@.len() == self.default_log().len(),
            forall|i: int| 0 <= i < r@.len() ==> r@[i]@ == self.default_log()[i].0,
    {
        let mut out: Vec<String> = Vec::new();
        let mut i: usize = 0;
        while i < self.set_calls.len()
            invariant
                i <= self.set_calls@.len(),
                out@.len() == i,
                forall|j: int| 0 <= j < i ==> out@[j]@ == self.set_calls@[j].0@,
            decreases self.set_calls@.len() - i,
        {
            out.push(self.set_calls[i].0.clone());
            i = i + 1;
        }
        out
    }

    /// Volume writes, in order.
    pub fn volume_calls(&self) -> (r: Vec<SetVolumeCall>)
        ensures
            r@.len() == self.volume_log().len(),
            forall|i: int|
                0 <= i < r@.len() ==> (#[trigger] r@[i]).uid@ == self.volume_log()[i].0
                    && r@[i].percent == self.volume_log()[i].1,
    {
        let mut out: Vec<SetVolumeCall> = Vec::new();
        let mut i: usize = 0;
        while i < self.volume_calls.len()
            invariant
                i <= self.volume_calls@.len(),
                out@.len() == i,
                forall|j: int|
                    0 <= j < i ==> (#[trigger] out@[j]).uid@ == self.volume_calls@[j].uid@
                        && out@[j].percent == self.volume_calls@[j].percent,
            decreases self.volume_calls@.len() - i,
        {
            out.push(
                SetVolumeCall {
                    uid: self.volume_calls[i].uid.clone(),
                    percent: self.volume_calls[i].percent,
                },
            );
            i = i + 1;
        }
        out
    }
}

impl AudioHal for MockHal {
    open spec fn obeys_model(&self) -> bool {
        true
    }

    open spec fn model_default(&self) -> Option<Seq<char>> {
        match self.default_uid {
            Some(s) => Some(s@),
            None => None,
        }
    }

    open spec fn default_log(&self) -> Seq<(Seq<char>, bool)> {
        self.set_calls@.map_values(|c: (String, bool)| (c.0@, c.1))
    }

    open spec fn volume_log(&self) -> Seq<(Seq<char>, u8)> {
        self.volume_calls@.map_values(|c: SetVolumeCall| (c.uid@, c.percent))
    }

    open spec fn write_log(&self) -> Seq<HalWrite> {
        self.writes@.map_values(|w: MockWrite| mock_write(w))
    }

    open spec fn model_devices(&self) -> Seq<OutputDevice> {
        self.devices@
    }

    open spec fn model_system_default(&self) -> Option<crate::system_default::SystemDefaultInfo> {
        None
    }

    open spec fn list_fails(&self) -> bool {
        false
    }

    open spec fn read_fails(&self) -> bool {
        false
    }

    open spec fn set_default_fails(&self, uid: Seq<char>, also_system: bool) -> bool {
        false
    }

    open spec fn set_volume_fails(&self, uid: Seq<char>, percent: u8) -> bool {
        false
    }

    fn list_outputs(&self) -> (r: Result<DeviceList, RustyJackError>)
        ensures
            r matches Ok(l) && l.devices@ == self.devices@ && l.system_default is None,
    {
        Ok(DeviceList { devices: clone_devices(&self.devices), system_default: None })
    }

    fn set_default_output(&mut self, uid: &str, also_system: bool) -> (r: Result<
        (),
        RustyJackError,
    >) {
        self.set_calls.push((crate::text::owned(uid), also_system));
        self.writes.push(MockWrite::Default(crate::text::owned(uid), also_system));
        self.default_uid = Some(crate::text::owned(uid));
        assert(self.default_log() =~= old(self).default_log().push((uid@, also_system)));
        assert(self.write_log() =~= old(self).write_log().push(
            HalWrite::SetDefault { uid: Ghost(uid@), also_system, result: Ok(()) },
        ));
        Ok(())
    }

    fn set_output_volume(&mut self, uid: &str, percent: u8) -> (r: Result<
        VolumeEnsureResult,
        RustyJackError,
    >) {
        self.volume_calls.push(SetVolumeCall { uid: crate::text::owned(uid), percent });
        self.writes.push(MockWrite::Volume(crate::text::owned(uid), percent));
        assert(self.volume_log() =~= old(self).volume_log().push((uid@, percent)));
        let r = VolumeEnsureResult { target: percent, actual: Some(percent), verified: true, attempts: 1 };
        assert(self.write_log() =~= old(self).write_log().push(
            HalWrite::SetVolume { uid: Ghost(uid@), percent, result: Ok(r) },
        ));
        Ok(r)
    }

    fn default_output_uid(&self) -> (r: Result<Option<String>, RustyJackError>)
        ensures
            r matches Ok(o) && opt_view(o) == opt_view(self.default_uid),
    {
        match &self.default_uid {
            Some(s) => Ok(Some(s.clone())),
            None => Ok(None),
        }
    }

    open spec fn reported_volume(&self, uid: Seq<char>) -> Option<u8> {
        self.output_volume
    }

    fn output_volume_percent(&self, uid: &str) -> (r: Option<u8>)
    {
        self.output_volume
    }
}

/// One step of the volume write/read-back loop.
pub enum VolumeStep {
    Write { uid: Ghost<Seq<char>>, percent: u8 },
    Read { uid: Ghost<Seq<char>>, value: Option<u8> },
    Pause { ms: u64 },
}

/// Hardware side of the volume write/read-back loop.
pub trait VolumeBackend {
    /// Write `percent` to the output `uid` (and to the system output when applicable).
    fn write(&mut self, uid: &str, percent: u8);

    /// Read back the effective volume of `uid`, when readable.
    fn read(&mut self, uid: &str) -> Option<u8>;

    /// Wait `ms` milliseconds before the next step.
    fn pause(&mut self, ms: u64);
}

/// A [`VolumeBackend`] with a ghost record of every write, read (with its
/// value) and pause made through it, in order.
pub struct VolumeLog<B> {
    pub backend: B,
    pub log: Ghost<Seq<VolumeStep>>,
}

impl<B: VolumeBackend> VolumeLog<B> {
    /// Every step so far.
    pub open spec fn steps(&self) -> Seq<VolumeStep> {
        self.log@
    }

    /// Start recording the steps of `backend`.
    pub fn new(backend: B) -> (r: VolumeLog<B>)
        ensures
            r.backend == backend,
            r.steps() == Seq::<VolumeStep>::empty(),
    {
        VolumeLog { backend, log: Ghost(Seq::empty()) }
    }

    /// Write `percent` to the output `uid`.
    pub fn write(&mut self, uid: &str, percent: u8)
        ensures
            final(self).steps() == old(self).steps().push(
                VolumeStep::Write { uid: Ghost(uid@), percent },
            ),
    {
        self.backend.write(uid, percent);
        proof {
            self.log@ = self.log@.push(VolumeStep::Write { uid: Ghost(uid@), percent });
        }
    }

    /// Read back the effective volume of `uid`, when readable.
    pub fn read(&mut self, uid: &str) -> (r: Option<u8>)
        ensures
            final(self).steps() == old(self).steps().push(VolumeStep::Read { uid: Ghost(uid@), value: r }),
    {
        let r = self.backend.read(uid);
        proof {
            self.log@ = self.log@.push(VolumeStep::Read { uid: Ghost(uid@), value: r });
        }
        r
    }

    /// Wait `ms` milliseconds before the next step.
    pub fn pause(&mut self, ms: u64)
        ensures
            final(self).steps() == old(self).steps().push(VolumeStep::Pause { ms }),
    {
        self.backend.pause(ms);
        proof {
            self.log@ = self.log@.push(VolumeStep::Pause { ms });
        }
    }
}

/// A pause of `ms`, when it is not zero.
pub open spec fn pause_step(ms: u64) -> Seq<VolumeStep> {
    if ms > 0 {
        seq![VolumeStep::Pause { ms }]
    } else {
        Seq::empty()
    }
}

/// One attempt per reading: write `target`, pause `retry_ms`, read back.
pub open spec fn volume_attempts(
    uid: Seq<char>,
    target: u8,
    retry_ms: u64,
    readings: Seq<Option<u8>>,
) -> Seq<VolumeStep>
    decreases readings.len(),
{
    if readings.len() == 0 {
        Seq::empty()
    } else {
        volume_attempts(uid, target, retry_ms, readings.drop_last()) + seq![
            VolumeStep::Write { uid: Ghost(uid), percent: target },
        ] + pause_step(retry_ms) + seq![VolumeStep::Read { uid: Ghost(uid), value: readings.last() }]
    }
}

/// A reading that matches `target` within `tolerance`.
pub open spec fn reading_matches(reading: Option<u8>, target: u8, tolerance: u8) -> bool {
    reading matches Some(a) && spec_within_tolerance(a, target, tolerance)
}

/// Retry policy for [`ensure_output_volume_with_options`].
#[derive(Debug, Clone, Copy)]
pub struct VolumeEnsureOptions {
    pub initial_delay_ms: u64,
    pub retry_delay_ms: u64,
    pub max_attempts: u32,
    pub tolerance: u8,
}

impl Default for VolumeEnsureOptions {
    fn default() -> (r: Self)
        ensures
            r.initial_delay_ms == 150,
            r.retry_delay_ms == 100,
            r.max_attempts == 5,
            r.tolerance == 1,
    {
        VolumeEnsureOptions { initial_delay_ms: 150, retry_delay_ms: 100, max_attempts: 5, tolerance: 1 }
    }
}

/// Set a volume and poll until read-back matches within tolerance, up to
/// `max_attempts` writes.
pub fn ensure_output_volume_with_options<B: VolumeBackend>(
    backend: &mut VolumeLog<B>,
    uid: &str,
    percent: u8,
    options: &VolumeEnsureOptions,
) -> (r: VolumeEnsureResult)
    ensures
        r.target == if percent > 100 { 100 } else { percent },
        r.attempts <= options.max_attempts,
        !r.verified ==> r.attempts == options.max_attempts,
        exists|readings: Seq<Option<u8>>|
            {
                &&& readings.len() == r.attempts
                &&& #[trigger] final(backend).steps() == old(backend).steps() + pause_step(
                    options.initial_delay_ms,
                ) + volume_attempts(uid@, r.target, options.retry_delay_ms, readings)
                &&& forall|i: int|
                    0 <= i < readings.len() - 1 ==> !reading_matches(
                        readings[i],
                        r.target,
                        options.tolerance,
                    )
                &&& r.verified == (readings.len() > 0 && reading_matches(
                    readings.last(),
                    r.target,
                    options.tolerance,
                ))
                &&& r.actual == if readings.len() == 0 {
                    None
                } else {
                    readings.last()
                }
            },
{
    let target: u8 = if percent > 100 {
        100
    } else {
        percent
    };
    if options.initial_delay_ms > 0 {
        backend.pause(options.initial_delay_ms);
    }
    let ghost start = backend.steps();
    assert(start == old(backend).steps() + pause_step(options.initial_delay_ms));
    let ghost mut readings: Seq<Option<u8>> = Seq::empty();
    assert(start + volume_attempts(uid@, target, options.retry_delay_ms, readings) =~= start);
    let mut last_reading: Option<u8> = None;
    let mut done: u32 = 0;
    while done < options.max_attempts
        invariant
            done <= options.max_attempts,
            target == if percent > 100 { 100 } else { percent },
            readings.len() == done,
            start == old(backend).steps() + pause_step(options.initial_delay_ms),
            backend.steps() == start + volume_attempts(uid@, target, options.retry_delay_ms, readings),
            forall|i: int|
                0 <= i < readings.len() ==> !reading_matches(readings[i], target, options.tolerance),
            last_reading == if readings.len() == 0 {
                None
            } else {
                readings.last()
            },
        decreases options.max_attempts - done,
    {
        let ghost before = backend.steps();
        done = done + 1;
        backend.write(uid, target);
        if options.retry_delay_ms > 0 {
            backend.pause(options.retry_delay_ms);
        }
        last_reading = backend.read(uid);
        proof {
            let old_readings = readings;
            readings = readings.push(last_reading);
            assert(readings.drop_last() =~= old_readings);
            assert(backend.steps() =~= start + volume_attempts(
                uid@,
                target,
                options.retry_delay_ms,
                readings,
            ));
        }
        if let Some(actual) = last_reading {
            if volume_within_tolerance(actual, target, options.tolerance) {
                assert(reading_matches(readings.last(), target, options.tolerance));
                return VolumeEnsureResult {
                    target,
                    actual: last_reading,
                    verified: true,
                    attempts: done,
                };
            }
        }
        assert(!reading_matches(readings.last(), target, options.tolerance));
    }
    VolumeEnsureResult {
        target,
        actual: last_reading,
        verified: false,
        attempts: options.max_attempts,
    }
}

/// [`ensure_output_volume_with_options`] with the default retry policy.
pub fn ensure_output_volume<B: VolumeBackend>(backend: &mut VolumeLog<B>, uid: &str, percent: u8) -> (r:
    VolumeEnsureResult)
    ensures
        r.target == if percent > 100 { 100 } else { percent },
        r.attempts <= 5,
        !r.verified ==> r.attempts == 5,
        exists|readings: Seq<Option<u8>>|
            {
                &&& readings.len() == r.attempts
                &&& #[trigger] final(backend).steps() == old(backend).steps() + pause_step(150)
                    + volume_attempts(uid@, r.target, 100, readings)
                &&& forall|i: int|
                    0 <= i < readings.len() - 1 ==> !reading_matches(readings[i], r.target, 1)
                &&& r.verified == (readings.len() > 0 && reading_matches(readings.last(), r.target, 1))
                &&& r.actual == if readings.len() == 0 {
                    None
                } else {
                    readings.last()
                }
            },
{
    let options = VolumeEnsureOptions::default();
    ensure_output_volume_with_options(backend, uid, percent, &options)
}

/// The default output UID names a virtual router such as eqMac.
pub open spec fn spec_virtual_router_uid(uid: Seq<char>) -> bool {
    crate::text::seq_contains(uid, "EQM"@) || crate::text::seq_contains(
        crate::text::lower(uid),
        "eqmac"@,
    )
}

/// True when the HAL default output (when known) is a virtual router.
pub fn default_output_is_virtual_router(default_uid: Option<&str>) -> (r: bool)
    ensures
        r == (default_uid matches Some(u) && spec_virtual_router_uid(u@)),
{
    match default_uid {
        Some(u) => {
            let lowered = crate::text::to_lower(u);
            crate::text::contains(u, "EQM") || crate::text::contains(lowered.as_str(), "eqmac")
        },
        None => false,
    }
}

/// Best-effort read of the audible volume: the system level when a virtual
/// router is the default, else the device's own scalar (`device_volume`),
/// falling back to the system level (`system_volume`).
pub fn read_effective_output_volume<D, S>(
    virtual_router_default: bool,
    device_volume: D,
    system_volume: S,
) -> (r: Option<u8>) where
    D: FnOnce() -> Result<Option<u8>, RustyJackError>,
    S: FnOnce() -> Option<u8>,

    requires
        call_requires(device_volume, ()),
        call_requires(system_volume, ()),
    ensures
        virtual_router_default ==> call_ensures(system_volume, (), r),
        !virtual_router_default ==> exists|d: Result<Option<u8>, RustyJackError>|
            #![trigger call_ensures(device_volume, (), d)]
            call_ensures(device_volume, (), d) && match d {
                Ok(Some(v)) => r == Some(v),
                _ => call_ensures(system_volume, (), r),
            },
{
    if virtual_router_default {
        return system_volume();
    }
    let ghost fd = device_volume;
    let d = device_volume();
    assert(call_ensures(fd, (), d));
    match d {
        Ok(Some(v)) => Some(v),
        _ => system_volume(),
    }
}

/// The AppleScript that sets the system output volume (capped at 100).
pub fn system_volume_script(percent: u8) -> (r: String)
    ensures
        r@ == "set volume output volume "@ + crate::text::decimal(
            (if percent > 100 { 100 } else { percent }) as nat,
        ),
{
    let p: u8 = if percent > 100 {
        100
    } else {
        percent
    };
    crate::text::concat2("set volume output volume ", crate::text::u64_to_text(p as u64).as_str())
}

/// The system output volume from what `osascript` printed.
pub fn parse_system_volume_output(success: bool, stdout: &str) -> (r: Option<u8>)
    ensures
        r == (if success {
            match crate::text::parse_u64(crate::text::trim(stdout@)) {
                Some(v) => if v <= 255 {
                    Some(v as u8)
                } else {
                    None::<u8>
                },
                None => None::<u8>,
            }
        } else {
            None::<u8>
        }),
{
    if !success {
        return None;
    }
    match crate::text::parse_u64_str(crate::text::trim_str(stdout)) {
        Some(v) => if v <= 255 {
            Some(v as u8)
        } else {
            None
        },
        None => None,
    }
}

} // verus!
