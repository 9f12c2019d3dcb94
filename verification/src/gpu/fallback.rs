//! The fallback manager: which device computations run on, and the
//! supervised degradation from GPU to CPU when a GPU attempt fails.

use crate::text::chars::{clone_text, push_chars};
use crate::text::number::{signed_decimal, signed_decimal_spec};
use crate::time::{current_time, Timestamp};
use std::fmt::Display;
use vstd::prelude::*;
use vstd::std_specs::cmp::PartialEqSpecImpl;
use vstd::string::to_string_from_display_ensures;

verus! {

/// A compute device, with its name as a character sequence.
pub enum ComputeDeviceView {
    Gpu { device_id: i32, name: Seq<char> },
    Cpu,
}

impl ComputeDeviceView {
    /// How a device is written in reports.
    pub open spec fn text(self) -> Seq<char> {
        match self {
            ComputeDeviceView::Gpu { device_id, name } => "GPU:"@ + signed_decimal_spec(
                device_id as int,
            ) + " ("@ + name + ")"@,
            ComputeDeviceView::Cpu => "CPU"@,
        }
    }
}

/// The device computations run on.
#[derive(Debug)]
pub enum ComputeDevice {
    /// One GPU, by its position in the enumeration and its name.
    Gpu { device_id: i32, name: String },
    /// The processor.
    Cpu,
}

impl View for ComputeDevice {
    type V = ComputeDeviceView;

    open spec fn view(&self) -> ComputeDeviceView {
        match self {
            ComputeDevice::Gpu { device_id, name } => ComputeDeviceView::Gpu {
                device_id: *device_id,
                name: name@,
            },
            ComputeDevice::Cpu => ComputeDeviceView::Cpu,
        }
    }
}

impl Clone for ComputeDevice {
    fn clone(&self) -> (copy: Self)
        ensures
            copy == *self,
    {
        match self {
            ComputeDevice::Gpu { device_id, name } => ComputeDevice::Gpu {
                device_id: *device_id,
                name: name.clone(),
            },
            ComputeDevice::Cpu => ComputeDevice::Cpu,
        }
    }
}

impl Default for ComputeDevice {
    fn default() -> (device: Self)
        ensures
            device == ComputeDevice::Cpu,
    {
        ComputeDevice::Cpu
    }
}

impl PartialEq for ComputeDevice {
    fn eq(&self, other: &Self) -> (same: bool) {
        match self {
            ComputeDevice::Gpu { device_id: id1, name: name1 } => match other {
                ComputeDevice::Gpu { device_id: id2, name: name2 } => {
                    let same_name: bool = *name1 == *name2;
                    *id1 == *id2 && same_name
                },
                ComputeDevice::Cpu => false,
            },
            ComputeDevice::Cpu => match other {
                ComputeDevice::Gpu { .. } => false,
                ComputeDevice::Cpu => true,
            },
        }
    }
}

impl PartialEqSpecImpl for ComputeDevice {
    open spec fn obeys_eq_spec() -> bool {
        true
    }

    open spec fn eq_spec(&self, other: &Self) -> bool {
        self@ == other@
    }
}

impl Eq for ComputeDevice {

}

impl ComputeDevice {
    /// Writes the device as `GPU:<id> (<name>)` or `CPU`.
    pub fn to_string(&self) -> (text: String)
        ensures
            text@ == self@.text(),
    {
        match self {
            ComputeDevice::Gpu { device_id, name } => {
                let mut text = String::from_str("GPU:");
                let id = signed_decimal(*device_id as i64);
                push_chars(&mut text, &id);
                text.append(" (");
                text.append(name.as_str());
                text.append(")");
                text
            },
            ComputeDevice::Cpu => String::from_str("CPU"),
        }
    }
}

/// A recorded fallback, with its texts as character sequences.
pub struct FallbackEventView {
    pub timestamp: Timestamp,
    pub from_device: ComputeDeviceView,
    pub to_device: ComputeDeviceView,
    pub reason: Seq<char>,
    pub error_details: Option<Seq<char>>,
}

/// One recorded transition from GPU to CPU execution.
#[derive(Debug)]
pub struct FallbackEvent {
    pub timestamp: Timestamp,
    pub from_device: ComputeDevice,
    pub to_device: ComputeDevice,
    pub reason: String,
    pub error_details: Option<String>,
}

impl View for FallbackEvent {
    type V = FallbackEventView;

    open spec fn view(&self) -> FallbackEventView {
        FallbackEventView {
            timestamp: self.timestamp,
            from_device: self.from_device@,
            to_device: self.to_device@,
            reason: self.reason@,
            error_details: self.error_details.deep_view(),
        }
    }
}

impl Clone for FallbackEvent {
    fn clone(&self) -> (copy: Self)
        ensures
            copy == *self,
    {
        FallbackEvent {
            timestamp: self.timestamp,
            from_device: self.from_device.clone(),
            to_device: self.to_device.clone(),
            reason: self.reason.clone(),
            error_details: clone_text(&self.error_details),
        }
    }
}

/// The views of a sequence of events.
pub open spec fn event_views(events: Seq<FallbackEvent>) -> Seq<FallbackEventView> {
    events.map_values(|event: FallbackEvent| event@)
}

/// The state of a fallback manager.
pub struct FallbackManagerView {
    pub current_device: ComputeDeviceView,
    /// The recorded fallbacks, oldest first.
    pub history: Seq<FallbackEventView>,
    pub fallback_count: u32,
    pub auto_fallback: bool,
}

/// The reason recorded when a GPU attempt fails.
pub open spec fn execution_failed_reason() -> Seq<char> {
    "GPU execution failed"@
}

impl FallbackManagerView {
    /// The state of a new manager: on the CPU, nothing recorded, automatic
    /// fallback enabled.
    pub open spec fn initial() -> FallbackManagerView {
        FallbackManagerView {
            current_device: ComputeDeviceView::Cpu,
            history: Seq::empty(),
            fallback_count: 0,
            auto_fallback: true,
        }
    }

    pub open spec fn is_using_gpu(self) -> bool {
        self.current_device is Gpu
    }

    /// The state with another current device and nothing else changed.
    pub open spec fn with_device(self, device: ComputeDeviceView) -> FallbackManagerView {
        FallbackManagerView { current_device: device, ..self }
    }

    /// The counter after one more fallback. It stops at the largest value
    /// it can hold.
    pub open spec fn next_count(self) -> u32 {
        if self.fallback_count < u32::MAX {
            (self.fallback_count + 1) as u32
        } else {
            self.fallback_count
        }
    }

    /// The event that a fallback from the current device records.
    pub open spec fn fallback_event(
        self,
        timestamp: Timestamp,
        reason: Seq<char>,
        error_details: Option<Seq<char>>,
    ) -> FallbackEventView {
        FallbackEventView {
            timestamp,
            from_device: self.current_device,
            to_device: ComputeDeviceView::Cpu,
            reason,
            error_details,
        }
    }

    /// The state after a fallback is triggered: unchanged on the CPU;
    /// from a GPU, the CPU becomes current, one event is appended and the
    /// counter advances.
    pub open spec fn after_fallback(
        self,
        timestamp: Timestamp,
        reason: Seq<char>,
        error_details: Option<Seq<char>>,
    ) -> FallbackManagerView {
        if self.current_device is Cpu {
            self
        } else {
            FallbackManagerView {
                current_device: ComputeDeviceView::Cpu,
                history: self.history.push(self.fallback_event(timestamp, reason, error_details)),
                fallback_count: self.next_count(),
                auto_fallback: self.auto_fallback,
            }
        }
    }

    /// Every recorded event leads from a GPU to the CPU.
    pub open spec fn records_fallbacks_only(self) -> bool {
        forall|i: int|
            0 <= i < self.history.len() ==> (#[trigger] self.history[i]).from_device is Gpu
                && self.history[i].to_device is Cpu
    }

    /// `after` is the state that a failed GPU attempt with the given error
    /// leaves behind when it falls back: the event carries the error's
    /// text, at some point in time.
    pub open spec fn fell_back_on<E: Display>(
        self,
        after: FallbackManagerView,
        error: E,
    ) -> bool {
        exists|timestamp: Timestamp, text: String|
            #![trigger to_string_from_display_ensures::<E>(&error, text), self.after_fallback(timestamp, execution_failed_reason(), Some(text@))]
            to_string_from_display_ensures::<E>(&error, text) && after == self.after_fallback(
                timestamp,
                execution_failed_reason(),
                Some(text@),
            )
    }
}

/// What one supervised execution may return and leave behind.
///
/// On the CPU the result is the CPU operation's and the state is
/// unchanged. On a GPU a success is the GPU operation's, marked as such,
/// and the state is unchanged; a failure with automatic fallback disabled
/// is returned as it is, the state unchanged; a failure with automatic
/// fallback enabled is recorded, the CPU becomes current, and the result
/// is the CPU operation's.
pub open spec fn execution_outcome<T, E: Display, GpuFn: FnOnce() -> Result<T, E>, CpuFn: FnOnce() -> Result<T, E>>(
    before: FallbackManagerView,
    after: FallbackManagerView,
    gpu_fn: GpuFn,
    cpu_fn: CpuFn,
    result: Result<(T, bool), E>,
) -> bool {
    if !before.is_using_gpu() {
        &&& after == before
        &&& match result {
            Ok((value, used_gpu)) => !used_gpu && call_ensures(cpu_fn, (), Ok::<T, E>(value)),
            Err(error) => call_ensures(cpu_fn, (), Err::<T, E>(error)),
        }
    } else {
        match result {
            Ok((value, used_gpu)) => if used_gpu {
                after == before && call_ensures(gpu_fn, (), Ok::<T, E>(value))
            } else {
                &&& before.auto_fallback
                &&& call_ensures(cpu_fn, (), Ok::<T, E>(value))
                &&& exists|gpu_error: E| #[trigger]
                    call_ensures(gpu_fn, (), Err::<T, E>(gpu_error)) && before.fell_back_on(
                        after,
                        gpu_error,
                    )
            },
            Err(error) => if before.auto_fallback {
                &&& call_ensures(cpu_fn, (), Err::<T, E>(error))
                &&& exists|gpu_error: E| #[trigger]
                    call_ensures(gpu_fn, (), Err::<T, E>(gpu_error)) && before.fell_back_on(
                        after,
                        gpu_error,
                    )
            } else {
                after == before && call_ensures(gpu_fn, (), Err::<T, E>(error))
            },
        }
    }
}

/// Where the GPU operation can only succeed, an execution on a GPU
/// reports that it used the GPU and leaves the state, the counter
/// included, as it was.
pub proof fn law_gpu_success_keeps_state<T, E: Display, GpuFn: FnOnce() -> Result<T, E>, CpuFn: FnOnce() -> Result<T, E>>(
    before: FallbackManagerView,
    after: FallbackManagerView,
    gpu_fn: GpuFn,
    cpu_fn: CpuFn,
    result: Result<(T, bool), E>,
)
    requires
        execution_outcome(before, after, gpu_fn, cpu_fn, result),
        before.is_using_gpu(),
        forall|attempt: Result<T, E>| #[trigger] call_ensures(gpu_fn, (), attempt) ==> attempt is Ok,
    ensures
        result matches Ok((_, used_gpu)) && used_gpu,
        after == before,
        after.fallback_count == before.fallback_count,
{
}

/// Where the GPU operation can only fail and automatic fallback is
/// enabled, an execution on a GPU does not report the GPU as used, makes
/// the CPU current, advances the counter by one and appends one event
/// that leads from the GPU that was current to the CPU.
pub proof fn law_gpu_failure_falls_back<T, E: Display, GpuFn: FnOnce() -> Result<T, E>, CpuFn: FnOnce() -> Result<T, E>>(
    before: FallbackManagerView,
    after: FallbackManagerView,
    gpu_fn: GpuFn,
    cpu_fn: CpuFn,
    result: Result<(T, bool), E>,
)
    requires
        execution_outcome(before, after, gpu_fn, cpu_fn, result),
        before.is_using_gpu(),
        before.auto_fallback,
        before.fallback_count < u32::MAX,
        forall|attempt: Result<T, E>| #[trigger] call_ensures(gpu_fn, (), attempt) ==> attempt is Err,
    ensures
        result matches Ok((_, used_gpu)) ==> !used_gpu,
        after.current_device is Cpu,
        after.fallback_count == before.fallback_count + 1,
        after.history.len() == before.history.len() + 1,
        after.history.drop_last() == before.history,
        after.history.last().from_device == before.current_device,
        after.history.last().to_device is Cpu,
        after.history.last().reason == execution_failed_reason(),
        after.auto_fallback,
{
    let gpu_error = choose|gpu_error: E| #[trigger]
        call_ensures(gpu_fn, (), Err::<T, E>(gpu_error)) && before.fell_back_on(after, gpu_error);
    match result {
        Ok((value, used_gpu)) => {
            if used_gpu {
                assert(call_ensures(gpu_fn, (), Ok::<T, E>(value)));
            }
        },
        Err(_) => {},
    }
    assert(before.fell_back_on(after, gpu_error));
    let (timestamp, text) = choose|timestamp: Timestamp, text: String|
        #![trigger to_string_from_display_ensures::<E>(&gpu_error, text), before.after_fallback(timestamp, execution_failed_reason(), Some(text@))]
        to_string_from_display_ensures::<E>(&gpu_error, text) && after == before.after_fallback(
            timestamp,
            execution_failed_reason(),
            Some(text@),
        );
    assert(after.history.drop_last() =~= before.history);
}

/// Where the GPU operation can only fail and automatic fallback is
/// disabled, an execution on a GPU returns the GPU operation's error and
/// leaves the state as it was: the GPU stays current and nothing is
/// recorded.
pub proof fn law_gpu_failure_without_fallback<T, E: Display, GpuFn: FnOnce() -> Result<T, E>, CpuFn: FnOnce() -> Result<T, E>>(
    before: FallbackManagerView,
    after: FallbackManagerView,
    gpu_fn: GpuFn,
    cpu_fn: CpuFn,
    result: Result<(T, bool), E>,
)
    requires
        execution_outcome(before, after, gpu_fn, cpu_fn, result),
        before.is_using_gpu(),
        !before.auto_fallback,
        forall|attempt: Result<T, E>| #[trigger] call_ensures(gpu_fn, (), attempt) ==> attempt is Err,
    ensures
        result matches Err(error) && call_ensures(gpu_fn, (), Err::<T, E>(error)),
        after == before,
        after.is_using_gpu(),
{
    match result {
        Ok((value, used_gpu)) => {
            if used_gpu {
                assert(call_ensures(gpu_fn, (), Ok::<T, E>(value)));
            }
        },
        Err(_) => {},
    }
}

/// On the CPU an execution returns what the CPU operation returns, never
/// reports the GPU as used, and leaves the state as it was. The GPU
/// operation plays no part in it.
pub proof fn law_cpu_mode_ignores_gpu_operation<T, E: Display, GpuFn: FnOnce() -> Result<T, E>, CpuFn: FnOnce() -> Result<T, E>>(
    before: FallbackManagerView,
    after: FallbackManagerView,
    gpu_fn: GpuFn,
    cpu_fn: CpuFn,
    result: Result<(T, bool), E>,
)
    requires
        execution_outcome(before, after, gpu_fn, cpu_fn, result),
        before.current_device is Cpu,
    ensures
        after == before,
        result matches Ok((value, used_gpu)) ==> !used_gpu && call_ensures(
            cpu_fn,
            (),
            Ok::<T, E>(value),
        ),
        result matches Err(error) ==> call_ensures(cpu_fn, (), Err::<T, E>(error)),
{
}

/// A fallback never rewrites the history: what was recorded stays, in
/// order, and the counter never goes down.
pub proof fn law_history_append_only(
    before: FallbackManagerView,
    timestamp: Timestamp,
    reason: Seq<char>,
    error_details: Option<Seq<char>>,
)
    ensures
        before.history.is_prefix_of(before.after_fallback(timestamp, reason, error_details).history),
        before.fallback_count <= before.after_fallback(
            timestamp,
            reason,
            error_details,
        ).fallback_count,
        before.after_fallback(timestamp, reason, error_details).current_device is Cpu,
{
}

/// The history holds fallbacks and nothing else, in every state that a
/// manager can reach: it is so at the start, and switching the device,
/// setting the switch and triggering a fallback keep it so.
pub proof fn law_history_records_fallbacks_only(
    before: FallbackManagerView,
    device: ComputeDeviceView,
    allow: bool,
    timestamp: Timestamp,
    reason: Seq<char>,
    error_details: Option<Seq<char>>,
)
    requires
        before.records_fallbacks_only(),
    ensures
        FallbackManagerView::initial().records_fallbacks_only(),
        before.with_device(device).records_fallbacks_only(),
        (FallbackManagerView { auto_fallback: allow, ..before }).records_fallbacks_only(),
        before.after_fallback(timestamp, reason, error_details).records_fallbacks_only(),
{
    let after = before.after_fallback(timestamp, reason, error_details);
    assert forall|i: int| 0 <= i < after.history.len() implies (#[trigger] after.history[i]).from_device is Gpu
        && after.history[i].to_device is Cpu by {
        if i < before.history.len() {
            assert(after.history[i] == before.history[i]);
        }
    }
}

/// A summary of a manager's state.
#[derive(Debug)]
pub struct FallbackStatus {
    pub current_device: ComputeDevice,
    pub fallback_count: u32,
    /// The most recent fallback, if there was one.
    pub last_fallback: Option<FallbackEvent>,
    pub auto_fallback_enabled: bool,
}

/// A summary of a manager's state, with its texts as character sequences.
pub struct FallbackStatusView {
    pub current_device: ComputeDeviceView,
    pub fallback_count: u32,
    pub last_fallback: Option<FallbackEventView>,
    pub auto_fallback_enabled: bool,
}

impl View for FallbackStatus {
    type V = FallbackStatusView;

    open spec fn view(&self) -> FallbackStatusView {
        FallbackStatusView {
            current_device: self.current_device@,
            fallback_count: self.fallback_count,
            last_fallback: match self.last_fallback {
                Some(event) => Some(event@),
                None => None,
            },
            auto_fallback_enabled: self.auto_fallback_enabled,
        }
    }
}

impl Clone for FallbackStatus {
    fn clone(&self) -> (copy: Self)
        ensures
            copy == *self,
    {
        FallbackStatus {
            current_device: self.current_device.clone(),
            fallback_count: self.fallback_count,
            last_fallback: match &self.last_fallback {
                Some(event) => Some(event.clone()),
                None => None,
            },
            auto_fallback_enabled: self.auto_fallback_enabled,
        }
    }
}

/// The summary of a state.
pub open spec fn status_spec(state: FallbackManagerView) -> FallbackStatusView {
    FallbackStatusView {
        current_device: state.current_device,
        fallback_count: state.fallback_count,
        last_fallback: if state.history.len() > 0 {
            Some(state.history.last())
        } else {
            None
        },
        auto_fallback_enabled: state.auto_fallback,
    }
}

/// Owns the current compute device and the record of fallbacks. Its state
/// changes through its operations only.
pub struct FallbackManager {
    current_device: ComputeDevice,
    fallback_history: Vec<FallbackEvent>,
    fallback_count: u32,
    allow_auto_fallback: bool,
}

impl View for FallbackManager {
    type V = FallbackManagerView;

    closed spec fn view(&self) -> FallbackManagerView {
        FallbackManagerView {
            current_device: self.current_device@,
            history: event_views(self.fallback_history@),
            fallback_count: self.fallback_count,
            auto_fallback: self.allow_auto_fallback,
        }
    }
}

impl Default for FallbackManager {
    fn default() -> (manager: Self)
        ensures
            manager@ == FallbackManagerView::initial(),
    {
        FallbackManager::new()
    }
}

impl FallbackManager {
    /// A manager on the CPU with nothing recorded and automatic fallback
    /// enabled.
    pub fn new() -> (manager: Self)
        ensures
            manager@ == FallbackManagerView::initial(),
    {
        let manager = FallbackManager {
            current_device: ComputeDevice::Cpu,
            fallback_history: Vec::new(),
            fallback_count: 0,
            allow_auto_fallback: true,
        };
        assert(manager@.history =~= Seq::empty());
        manager
    }

    /// A new manager that starts on the given GPU.
    pub fn with_gpu(device_id: i32, name: String) -> (manager: Self)
        ensures
            manager@ == FallbackManagerView::initial().with_device(
                ComputeDeviceView::Gpu { device_id, name: name@ },
            ),
    {
        let manager = FallbackManager {
            current_device: ComputeDevice::Gpu { device_id, name },
            fallback_history: Vec::new(),
            fallback_count: 0,
            allow_auto_fallback: true,
        };
        assert(manager@.history =~= Seq::empty());
        manager
    }

    /// A copy of the current device.
    pub fn current_device(&self) -> (device: ComputeDevice)
        ensures
            device@ == self@.current_device,
    {
        self.current_device.clone()
    }

    /// Makes `device` current. History and counter are not touched.
    pub fn set_device(&mut self, device: ComputeDevice)
        ensures
            final(self)@ == old(self)@.with_device(device@),
    {
        self.current_device = device;
    }

    /// Makes the given GPU current. History and counter are not touched.
    pub fn switch_to_gpu(&mut self, device_id: i32, name: String)
        ensures
            final(self)@ == old(self)@.with_device(
                ComputeDeviceView::Gpu { device_id, name: name@ },
            ),
    {
        self.current_device = ComputeDevice::Gpu { device_id, name };
    }

    /// Makes the CPU current. History and counter are not touched.
    pub fn switch_to_cpu(&mut self)
        ensures
            final(self)@ == old(self)@.with_device(ComputeDeviceView::Cpu),
    {
        self.current_device = ComputeDevice::Cpu;
    }

    pub fn is_using_gpu(&self) -> (using_gpu: bool)
        ensures
            using_gpu == self@.is_using_gpu(),
    {
        match self.current_device {
            ComputeDevice::Gpu { .. } => true,
            ComputeDevice::Cpu => false,
        }
    }

    pub fn fallback_count(&self) -> (count: u32)
        ensures
            count == self@.fallback_count,
    {
        self.fallback_count
    }

    /// A copy of the recorded fallbacks, oldest first.
    pub fn fallback_history(&self) -> (history: Vec<FallbackEvent>)
        ensures
            event_views(history@) == self@.history,
    {
        let mut history: Vec<FallbackEvent> = Vec::new();
        let mut i: usize = 0;
        while i < self.fallback_history.len()
            invariant
                i <= self.fallback_history.len(),
                history.len() == i,
                forall|k: int| 0 <= k < i ==> (#[trigger] history@[k])@ == self.fallback_history@[k]@,
            decreases self.fallback_history.len() - i,
        {
            history.push(self.fallback_history[i].clone());
            i += 1;
        }
        assert(event_views(history@) =~= event_views(self.fallback_history@));
        history
    }

    pub fn is_auto_fallback_allowed(&self) -> (allowed: bool)
        ensures
            allowed == self@.auto_fallback,
    {
        self.allow_auto_fallback
    }

    /// Enables or disables automatic fallback. Nothing else changes.
    pub fn set_auto_fallback(&mut self, allow: bool)
        ensures
            final(self)@ == (FallbackManagerView { auto_fallback: allow, ..old(self)@ }),
    {
        self.allow_auto_fallback = allow;
    }

    /// Commits to the CPU at the given point in time: nothing happens on
    /// the CPU; from a GPU, the CPU becomes current, the event is appended
    /// to the history and the counter advances.
    pub fn trigger_fallback_at(
        &mut self,
        timestamp: Timestamp,
        reason: &str,
        error_details: Option<String>,
    )
        ensures
            final(self)@ == old(self)@.after_fallback(
                timestamp,
                reason@,
                error_details.deep_view(),
            ),
    {
        let from_device = self.current_device();
        if let ComputeDevice::Cpu = from_device {
            return ;
        }
        let event = FallbackEvent {
            timestamp,
            from_device,
            to_device: ComputeDevice::Cpu,
            reason: String::from_str(reason),
            error_details,
        };
        let ghost before = self@;
        let ghost recorded = event@;
        self.current_device = ComputeDevice::Cpu;
        self.fallback_history.push(event);
        if self.fallback_count < u32::MAX {
            self.fallback_count = self.fallback_count + 1;
        }
        assert(self@.history =~= before.history.push(recorded));
    }

    /// Commits to the CPU now. The event's time is read from the clock;
    /// everything else is as `trigger_fallback_at` says.
    pub fn trigger_fallback(&mut self, reason: &str, error_details: Option<String>)
        ensures
            exists|timestamp: Timestamp| final(self)@ == #[trigger] old(self)@.after_fallback(
                timestamp,
                reason@,
                error_details.deep_view(),
            ),
    {
        let timestamp = current_time();
        self.trigger_fallback_at(timestamp, reason, error_details);
    }

    /// Runs an operation on the current device, degrading to the CPU when
    /// the GPU attempt fails and automatic fallback is enabled. Each
    /// operation is attempted at most once, on the calling thread, the GPU
    /// one first.
    ///
    /// On the CPU the GPU operation is not needed: nothing is asked of
    /// it, and it is not called. The CPU operation is not needed on a GPU
    /// with automatic fallback disabled.
    pub fn execute_with_fallback<T, E, GpuFn, CpuFn>(
        &mut self,
        gpu_fn: GpuFn,
        cpu_fn: CpuFn,
    ) -> (result: Result<(T, bool), E>) where
        GpuFn: FnOnce() -> Result<T, E>,
        CpuFn: FnOnce() -> Result<T, E>,
        E: Display,

        requires
            old(self)@.is_using_gpu() ==> call_requires(gpu_fn, ()),
            !old(self)@.is_using_gpu() || old(self)@.auto_fallback ==> call_requires(cpu_fn, ()),
        ensures
            execution_outcome(old(self)@, final(self)@, gpu_fn, cpu_fn, result),
    {
        if self.is_using_gpu() {
            match gpu_fn() {
                Ok(value) => Ok((value, true)),
                Err(gpu_error) => {
                    if self.is_auto_fallback_allowed() {
                        let message = gpu_error.to_string();
                        let ghost text = message;
                        self.trigger_fallback("GPU execution failed", Some(message));
                        assert(old(self)@.fell_back_on(self@, gpu_error)) by {
                            let timestamp = choose|timestamp: Timestamp|
                                self@ == #[trigger] old(self)@.after_fallback(
                                    timestamp,
                                    execution_failed_reason(),
                                    Some(text@),
                                );
                            assert(to_string_from_display_ensures::<E>(&gpu_error, text));
                            assert(self@ == old(self)@.after_fallback(
                                timestamp,
                                execution_failed_reason(),
                                Some(text@),
                            ));
                        }
                        assert(call_ensures(gpu_fn, (), Err::<T, E>(gpu_error)));
                        match cpu_fn() {
                            Ok(value) => Ok((value, false)),
                            Err(cpu_error) => Err(cpu_error),
                        }
                    } else {
                        Err(gpu_error)
                    }
                },
            }
        } else {
            match cpu_fn() {
                Ok(value) => Ok((value, false)),
                Err(error) => Err(error),
            }
        }
    }

    /// The current device, the counter, the most recent fallback and the
    /// automatic-fallback switch.
    pub fn get_status_summary(&self) -> (status: FallbackStatus)
        ensures
            status@ == status_spec(self@),
    {
        let count: usize = self.fallback_history.len();
        let last_fallback = if count > 0 {
            Some(self.fallback_history[count - 1].clone())
        } else {
            None
        };
        FallbackStatus {
            current_device: self.current_device(),
            fallback_count: self.fallback_count,
            last_fallback,
            auto_fallback_enabled: self.allow_auto_fallback,
        }
    }
}

} // verus!
