//! The decisions around one call of the native compiler.

use crate::amd_isa_devices::Asic;
use crate::interop::unsigned_bits;
use crate::interop::spec_unsigned_bits;
use crate::interop::AmdDxGsaCompileOption;
use crate::interop::AmdDxGsaCompileShaderInput;
use crate::interop::AmdDxGsaCompileShaderOutput;
use crate::interop::COMPILE_OUTPUT_SIZE;
use crate::interop::HRESULT;
use crate::interop::MIN_SHADER_BINARY_SIZE;
use crate::AmdDxGsaShaderSource;
use crate::ShaderCompileError;
use vstd::pervasive::unreached;
use vstd::prelude::*;

verus! {

/// `input` is the record that the native compiler is to get for `gpu`,
/// `shader` and `options`: the device's chip family and revision, the
/// shader's bytes with their length and kind, the options with their number,
/// and a reserved block of zeros.
pub open spec fn input_matches(
    input: AmdDxGsaCompileShaderInput,
    gpu: Asic,
    shader: AmdDxGsaShaderSource,
    options: &[AmdDxGsaCompileOption],
) -> bool {
    &&& input.chip_family == spec_unsigned_bits(gpu.chipFamily)
    &&& input.chip_revision == spec_unsigned_bits(gpu.chipRevision)
    &&& input.shader_byte_code == shader.bytes()
    &&& input.byte_code_length == shader.bytes()@.len()
    &&& input.input_type == shader.input_type()
    &&& input.compile_options == options
    &&& input.num_compile_options == options@.len()
    &&& input.reserved@ == seq![0u32, 0u32, 0u32, 0u32, 0u32, 0u32]
}

/// Fills in the input record of the native compiler. The number of options
/// must fit the record's 32-bit count.
pub fn build_compile_input<'a>(
    gpu: Asic,
    shader: &AmdDxGsaShaderSource<'a>,
    options: &'a [AmdDxGsaCompileOption],
) -> (input: AmdDxGsaCompileShaderInput<'a>)
    requires
        options@.len() <= u32::MAX,
    ensures
        input_matches(input, gpu, *shader, options),
{
    let (input_type, shader_bytecode) = shader.to_interop();
    let reserved: [u32; 6] = [0, 0, 0, 0, 0, 0];
    assert(reserved@ =~= seq![0u32, 0u32, 0u32, 0u32, 0u32, 0u32]);
    AmdDxGsaCompileShaderInput {
        chip_family: unsigned_bits(gpu.chipFamily),
        chip_revision: unsigned_bits(gpu.chipRevision),
        shader_byte_code: shader_bytecode,
        byte_code_length: shader_bytecode.len() as u64,
        input_type,
        compile_options: options,
        num_compile_options: options.len() as u32,
        reserved,
    }
}

/// The output record as it is handed to the native compiler: its own size
/// filled in, no buffer, no bytes.
pub fn blank_compile_output() -> (output: AmdDxGsaCompileShaderOutput)
    ensures
        output == spec_blank_compile_output(),
{
    AmdDxGsaCompileShaderOutput {
        size: COMPILE_OUTPUT_SIZE,
        shader_binary: 0,
        shader_binary_size: 0,
    }
}

/// The output record before the call.
pub open spec fn spec_blank_compile_output() -> AmdDxGsaCompileShaderOutput {
    AmdDxGsaCompileShaderOutput {
        size: COMPILE_OUTPUT_SIZE,
        shader_binary: 0,
        shader_binary_size: 0,
    }
}

/// A buffer that the native compiler has filled and still owns.
#[derive(Debug, Clone, Copy, PartialEq, Eq, Structural)]
pub struct CompiledBuffer {
    /// Where the buffer starts.
    pub address: usize,
    /// How many bytes it holds.
    pub size: u64,
}

impl CompiledBuffer {
    /// A buffer that can be read: it has an address, and holds at least the
    /// smallest plausible binary.
    pub open spec fn is_valid(&self) -> bool {
        self.address != 0 && self.size >= MIN_SHADER_BINARY_SIZE
    }
}

/// The native call delivered a shader: the status is zero, there is a
/// buffer, and it holds at least the smallest plausible binary.
pub open spec fn compile_succeeded(result: HRESULT, output: AmdDxGsaCompileShaderOutput) -> bool {
    &&& result == 0
    &&& output.shader_binary != 0
    &&& output.shader_binary_size >= MIN_SHADER_BINARY_SIZE
}

/// The buffer that `output` reports.
pub open spec fn delivered_buffer(output: AmdDxGsaCompileShaderOutput) -> CompiledBuffer {
    CompiledBuffer { address: output.shader_binary, size: output.shader_binary_size }
}

/// The buffer that a native call delivered, or the error that its status
/// stands for.
pub open spec fn spec_check_compile_result(
    result: HRESULT,
    output: AmdDxGsaCompileShaderOutput,
) -> Result<CompiledBuffer, ShaderCompileError> {
    if compile_succeeded(result, output) {
        Ok(delivered_buffer(output))
    } else {
        Err(ShaderCompileError::spec_from_status(result))
    }
}

/// Judges what the native compiler returned. On failure the buffer address
/// in `output` is not looked at any further.
pub fn check_compile_result(result: HRESULT, output: AmdDxGsaCompileShaderOutput) -> (r: Result<
    CompiledBuffer,
    ShaderCompileError,
>)
    ensures
        r == spec_check_compile_result(result, output),
        r matches Ok(buffer) ==> buffer.is_valid(),
{
    if result != 0 || output.shader_binary == 0 || output.shader_binary_size
        < MIN_SHADER_BINARY_SIZE {
        Err(ShaderCompileError::from_status(result))
    } else {
        Ok(CompiledBuffer { address: output.shader_binary, size: output.shader_binary_size })
    }
}

/// Where one compilation stands. Every compilation starts at `Idle` with a
/// state of its own; `Failed` and `Done` are its two ends.
#[derive(Debug, Clone, Copy, PartialEq, Eq, Structural)]
pub enum GatewayState {
    /// Nothing has happened yet.
    Idle,
    /// The input record is being filled in.
    InputBuilt,
    /// The native compiler is running.
    NativeCallInFlight,
    /// The native compiler delivered nothing; `status` is what it returned.
    Failed { status: HRESULT },
    /// The native compiler delivered `buffer`, which is being borrowed.
    BufferValidated { buffer: CompiledBuffer },
    /// The caller's operation is reading `buffer`.
    OperationRunning { buffer: CompiledBuffer },
    /// The buffer is being handed back to the native library.
    BufferFreed,
    /// The operation's result goes to the caller.
    Done,
}

/// What has just happened outside the gateway.
#[derive(Debug, Clone, Copy, PartialEq, Eq, Structural)]
pub enum GatewayEvent {
    /// A compilation was asked for.
    Requested,
    /// The input record is complete.
    InputMarshalled,
    /// The native compiler returned `status` and left `output` behind.
    CompileReturned { status: HRESULT, output: AmdDxGsaCompileShaderOutput },
    /// A read-only view of the buffer exists.
    BufferBorrowed,
    /// The caller's operation has returned, with whatever result.
    OperationReturned,
    /// The native free routine has returned.
    BufferReleased,
}

/// What is to be done next outside the gateway.
#[derive(Debug, Clone, Copy, PartialEq, Eq, Structural)]
pub enum GatewayAction {
    /// Fill in the input record.
    MarshalInput,
    /// Call the native compiler with the input record and with `output`.
    CallCompile { output: AmdDxGsaCompileShaderOutput },
    /// Make a read-only view of exactly the bytes of `buffer`.
    BorrowBuffer { buffer: CompiledBuffer },
    /// Run the caller's operation on that view and keep its result.
    RunOperation,
    /// Drop the view and call the native free routine on `address`.
    FreeBuffer { address: usize },
    /// Return the operation's result.
    Succeed,
    /// Return the error.
    Fail { error: ShaderCompileError },
    /// The event does not belong to the state: do nothing.
    Refuse,
}

/// The transition of the gateway: the state that follows `state` on `event`,
/// and what is to be done then. An event that the state does not wait for
/// changes nothing.
pub open spec fn spec_step(state: GatewayState, event: GatewayEvent) -> (
    GatewayState,
    GatewayAction,
) {
    match (state, event) {
        (GatewayState::Idle, GatewayEvent::Requested) => (
            GatewayState::InputBuilt,
            GatewayAction::MarshalInput,
        ),
        (GatewayState::InputBuilt, GatewayEvent::InputMarshalled) => (
            GatewayState::NativeCallInFlight,
            GatewayAction::CallCompile { output: spec_blank_compile_output() },
        ),
        (GatewayState::NativeCallInFlight, GatewayEvent::CompileReturned { status, output }) => {
            match spec_check_compile_result(status, output) {
                Ok(buffer) => (
                    GatewayState::BufferValidated { buffer },
                    GatewayAction::BorrowBuffer { buffer },
                ),
                Err(error) => (GatewayState::Failed { status }, GatewayAction::Fail { error }),
            }
        },
        (GatewayState::BufferValidated { buffer }, GatewayEvent::BufferBorrowed) => (
            GatewayState::OperationRunning { buffer },
            GatewayAction::RunOperation,
        ),
        (GatewayState::OperationRunning { buffer }, GatewayEvent::OperationReturned) => (
            GatewayState::BufferFreed,
            GatewayAction::FreeBuffer { address: buffer.address },
        ),
        (GatewayState::BufferFreed, GatewayEvent::BufferReleased) => (
            GatewayState::Done,
            GatewayAction::Succeed,
        ),
        _ => (state, GatewayAction::Refuse),
    }
}

/// Takes one step of a compilation: from the state and what has just
/// happened to the next state and what is to be done.
pub fn step(state: GatewayState, event: GatewayEvent) -> (r: (GatewayState, GatewayAction))
    ensures
        r == spec_step(state, event),
{
    match (state, event) {
        (GatewayState::Idle, GatewayEvent::Requested) => (
            GatewayState::InputBuilt,
            GatewayAction::MarshalInput,
        ),
        (GatewayState::InputBuilt, GatewayEvent::InputMarshalled) => (
            GatewayState::NativeCallInFlight,
            GatewayAction::CallCompile { output: blank_compile_output() },
        ),
        (GatewayState::NativeCallInFlight, GatewayEvent::CompileReturned { status, output }) => {
            match check_compile_result(status, output) {
                Ok(buffer) => (
                    GatewayState::BufferValidated { buffer },
                    GatewayAction::BorrowBuffer { buffer },
                ),
                Err(error) => (GatewayState::Failed { status }, GatewayAction::Fail { error }),
            }
        },
        (GatewayState::BufferValidated { buffer }, GatewayEvent::BufferBorrowed) => (
            GatewayState::OperationRunning { buffer },
            GatewayAction::RunOperation,
        ),
        (GatewayState::OperationRunning { buffer }, GatewayEvent::OperationReturned) => (
            GatewayState::BufferFreed,
            GatewayAction::FreeBuffer { address: buffer.address },
        ),
        (GatewayState::BufferFreed, GatewayEvent::BufferReleased) => (
            GatewayState::Done,
            GatewayAction::Succeed,
        ),
        _ => (state, GatewayAction::Refuse),
    }
}

/// The state of a compilation that started at `Idle` and saw `events`.
pub open spec fn state_after(events: Seq<GatewayEvent>) -> GatewayState
    decreases events.len(),
{
    if events.len() == 0 {
        GatewayState::Idle
    } else {
        spec_step(state_after(events.drop_last()), events.last()).0
    }
}

/// What a compilation that started at `Idle` asked for, one action for each
/// of `events`.
pub open spec fn actions_of(events: Seq<GatewayEvent>) -> Seq<GatewayAction>
    decreases events.len(),
{
    if events.len() == 0 {
        Seq::empty()
    } else {
        actions_of(events.drop_last()).push(
            spec_step(state_after(events.drop_last()), events.last()).1,
        )
    }
}

/// How often `actions` asks for the native free routine.
pub open spec fn count_frees(actions: Seq<GatewayAction>) -> nat
    decreases actions.len(),
{
    if actions.len() == 0 {
        0
    } else {
        count_frees(actions.drop_last()) + if actions.last() is FreeBuffer {
            1nat
        } else {
            0nat
        }
    }
}

/// How often `actions` asks for the caller's operation.
pub open spec fn count_operations(actions: Seq<GatewayAction>) -> nat
    decreases actions.len(),
{
    if actions.len() == 0 {
        0
    } else {
        count_operations(actions.drop_last()) + if actions.last() is RunOperation {
            1nat
        } else {
            0nat
        }
    }
}

/// How often the operation has been asked for once a compilation is in `state`.
pub open spec fn operations_behind(state: GatewayState) -> nat {
    match state {
        GatewayState::OperationRunning { .. } => 1,
        GatewayState::BufferFreed => 1,
        GatewayState::Done => 1,
        _ => 0,
    }
}

/// How often the free routine has been asked for once a compilation is in `state`.
pub open spec fn frees_behind(state: GatewayState) -> nat {
    match state {
        GatewayState::BufferFreed => 1,
        GatewayState::Done => 1,
        _ => 0,
    }
}

/// Whatever happens outside, the state of a compilation tells how often it
/// has asked for the operation and for the free routine.
pub proof fn lemma_state_counts(events: Seq<GatewayEvent>)
    ensures
        count_operations(actions_of(events)) == operations_behind(state_after(events)),
        count_frees(actions_of(events)) == frees_behind(state_after(events)),
    decreases events.len(),
{
    if events.len() > 0 {
        let before = events.drop_last();
        lemma_state_counts(before);
        let s = spec_step(state_after(before), events.last());
        assert(actions_of(events).drop_last() =~= actions_of(before));
        assert(actions_of(events).last() == s.1);
    }
}

/// One compilation asks for the free routine at most once, and never before
/// it has asked for the operation, whatever events it is fed.
pub proof fn law_free_at_most_once(events: Seq<GatewayEvent>)
    ensures
        count_frees(actions_of(events)) <= count_operations(actions_of(events)) <= 1,
{
    lemma_state_counts(events);
}

/// A compilation that has come to `Done` has asked for the operation exactly
/// once and for the free routine exactly once.
pub proof fn law_done_freed_once(events: Seq<GatewayEvent>)
    requires
        state_after(events) is Done,
    ensures
        count_operations(actions_of(events)) == 1,
        count_frees(actions_of(events)) == 1,
{
    lemma_state_counts(events);
}

/// A compilation that has come to `Failed` has asked neither for the
/// operation nor for the free routine, and no later event makes it do so.
pub proof fn law_failed_never_touches_buffer(events: Seq<GatewayEvent>, later: GatewayEvent)
    requires
        state_after(events) is Failed,
    ensures
        count_operations(actions_of(events)) == 0,
        count_frees(actions_of(events)) == 0,
        spec_step(state_after(events), later) == (state_after(events), GatewayAction::Refuse),
{
    lemma_state_counts(events);
}

/// The events of a compilation that is driven as the actions ask, when the
/// native compiler returns `status` and `output`.
pub open spec fn driven_events(status: HRESULT, output: AmdDxGsaCompileShaderOutput) -> Seq<
    GatewayEvent,
> {
    if compile_succeeded(status, output) {
        seq![
            GatewayEvent::Requested,
            GatewayEvent::InputMarshalled,
            GatewayEvent::CompileReturned { status, output },
            GatewayEvent::BufferBorrowed,
            GatewayEvent::OperationReturned,
            GatewayEvent::BufferReleased,
        ]
    } else {
        seq![
            GatewayEvent::Requested,
            GatewayEvent::InputMarshalled,
            GatewayEvent::CompileReturned { status, output },
        ]
    }
}

/// Unfolds the state and the actions of a compilation by one event.
pub proof fn lemma_one_more_event(events: Seq<GatewayEvent>, event: GatewayEvent)
    ensures
        state_after(events.push(event)) == spec_step(state_after(events), event).0,
        actions_of(events.push(event)) == actions_of(events).push(
            spec_step(state_after(events), event).1,
        ),
{
    assert(events.push(event).drop_last() =~= events);
}

/// When the native compiler delivers a buffer, the compilation borrows
/// exactly that buffer, runs the operation once, frees the address that the
/// compiler reported once and only after the operation has returned, and
/// ends in `Done`.
pub proof fn law_success_frees_after_operation(
    status: HRESULT,
    output: AmdDxGsaCompileShaderOutput,
)
    requires
        compile_succeeded(status, output),
    ensures
        state_after(driven_events(status, output)) == GatewayState::Done,
        actions_of(driven_events(status, output)) == seq![
            GatewayAction::MarshalInput,
            GatewayAction::CallCompile { output: spec_blank_compile_output() },
            GatewayAction::BorrowBuffer {
                buffer: CompiledBuffer {
                    address: output.shader_binary,
                    size: output.shader_binary_size,
                },
            },
            GatewayAction::RunOperation,
            GatewayAction::FreeBuffer { address: output.shader_binary },
            GatewayAction::Succeed,
        ],
{
    let e0 = Seq::<GatewayEvent>::empty();
    let e1 = e0.push(GatewayEvent::Requested);
    let e2 = e1.push(GatewayEvent::InputMarshalled);
    let e3 = e2.push(GatewayEvent::CompileReturned { status, output });
    let e4 = e3.push(GatewayEvent::BufferBorrowed);
    let e5 = e4.push(GatewayEvent::OperationReturned);
    let e6 = e5.push(GatewayEvent::BufferReleased);
    lemma_one_more_event(e0, GatewayEvent::Requested);
    lemma_one_more_event(e1, GatewayEvent::InputMarshalled);
    lemma_one_more_event(e2, GatewayEvent::CompileReturned { status, output });
    lemma_one_more_event(e3, GatewayEvent::BufferBorrowed);
    lemma_one_more_event(e4, GatewayEvent::OperationReturned);
    lemma_one_more_event(e5, GatewayEvent::BufferReleased);
    assert(e6 =~= driven_events(status, output));
    assert(actions_of(e6) =~= seq![
        GatewayAction::MarshalInput,
        GatewayAction::CallCompile { output: spec_blank_compile_output() },
        GatewayAction::BorrowBuffer {
            buffer: CompiledBuffer {
                address: output.shader_binary,
                size: output.shader_binary_size,
            },
        },
        GatewayAction::RunOperation,
        GatewayAction::FreeBuffer { address: output.shader_binary },
        GatewayAction::Succeed,
    ]);
}

/// When the native compiler does not deliver (a status other than zero, no
/// buffer, or a buffer that is too small), the compilation ends in `Failed`
/// with the error that the status stands for: the operation is not run and
/// nothing is freed.
pub proof fn law_failure_skips_operation_and_free(
    status: HRESULT,
    output: AmdDxGsaCompileShaderOutput,
)
    requires
        !compile_succeeded(status, output),
    ensures
        state_after(driven_events(status, output)) == (GatewayState::Failed { status }),
        actions_of(driven_events(status, output)) == seq![
            GatewayAction::MarshalInput,
            GatewayAction::CallCompile { output: spec_blank_compile_output() },
            GatewayAction::Fail { error: ShaderCompileError::spec_from_status(status) },
        ],
        count_operations(actions_of(driven_events(status, output))) == 0,
        count_frees(actions_of(driven_events(status, output))) == 0,
{
    let e0 = Seq::<GatewayEvent>::empty();
    let e1 = e0.push(GatewayEvent::Requested);
    let e2 = e1.push(GatewayEvent::InputMarshalled);
    let e3 = e2.push(GatewayEvent::CompileReturned { status, output });
    lemma_one_more_event(e0, GatewayEvent::Requested);
    lemma_one_more_event(e1, GatewayEvent::InputMarshalled);
    lemma_one_more_event(e2, GatewayEvent::CompileReturned { status, output });
    assert(e3 =~= driven_events(status, output));
    assert(actions_of(e3) =~= seq![
        GatewayAction::MarshalInput,
        GatewayAction::CallCompile { output: spec_blank_compile_output() },
        GatewayAction::Fail { error: ShaderCompileError::spec_from_status(status) },
    ]);
    lemma_state_counts(e3);
}

/// A buffer below the smallest size is no success, even with status zero
/// and an address: the call is judged as failed, with the error that status
/// zero stands for.
pub proof fn law_small_buffer_is_refused(output: AmdDxGsaCompileShaderOutput)
    requires
        output.shader_binary != 0,
        output.shader_binary_size < MIN_SHADER_BINARY_SIZE,
    ensures
        spec_check_compile_result(0, output) == Err::<CompiledBuffer, ShaderCompileError>(
            ShaderCompileError::Other { result: 0 },
        ),
{
}

/// The native compiler as two entry points: its compile routine and its free
/// routine. However they were found (in a loaded library, by static linking,
/// or written by hand), the gateway asks for nothing else.
///
/// `compile` gets the input record and the blank output record, and returns
/// its status with the output record as it left it. `free` gets the address
/// of a buffer that `compile` delivered.
pub struct Atidxx64<C, F> {
    pub compile: C,
    pub free: F,
}

/// The compile routine, called with the record for `gpu`, `shader` and
/// `options` and with a blank output record, may return `status` and `output`.
pub open spec fn compile_may_return<'a, C>(
    compile: C,
    gpu: Asic,
    shader: AmdDxGsaShaderSource<'a>,
    options: &'a [AmdDxGsaCompileOption],
    status: HRESULT,
    output: AmdDxGsaCompileShaderOutput,
) -> bool where
    C: Fn(AmdDxGsaCompileShaderInput<'a>, AmdDxGsaCompileShaderOutput) -> (
        HRESULT,
        AmdDxGsaCompileShaderOutput,
    ),
 {
    exists|input: AmdDxGsaCompileShaderInput<'a>|
        input_matches(input, gpu, shader, options) && #[trigger] call_ensures(
            compile,
            (input, spec_blank_compile_output()),
            (status, output),
        )
}

impl<C, F> Atidxx64<C, F> {
    /// Takes shader source, target GPU, and compile options, and lets the
    /// caller look at the compiled shader.
    ///
    /// `inspect` makes a read-only view of exactly the bytes of the buffer,
    /// runs the caller's operation on it and returns what that returned.
    ///
    /// Where the compile routine delivers a buffer, `inspect` runs on it,
    /// then the free routine gets the address that the compile routine
    /// reported, and the result of `inspect` is returned as it is. Otherwise
    /// neither is called, and the error is the one that the status stands
    /// for. Each step is the one that [`step`] asks for.
    ///
    /// The number of options must fit the input record's 32-bit count. Of
    /// the three routines no more is asked than this order needs: the
    /// compile routine must take the record made for this call; `inspect`
    /// must take a buffer that the compile routine delivered; the free
    /// routine must take the address of such a buffer once `inspect` has
    /// returned from it.
    pub fn inspect_compiled_shader<'a, T, V>(
        &self,
        gpu: Asic,
        shader: AmdDxGsaShaderSource<'a>,
        options: &'a [AmdDxGsaCompileOption],
        inspect: V,
    ) -> (r: Result<T, ShaderCompileError>) where
        C: Fn(AmdDxGsaCompileShaderInput<'a>, AmdDxGsaCompileShaderOutput) -> (
            HRESULT,
            AmdDxGsaCompileShaderOutput,
        ),
        F: Fn(usize),
        V: FnOnce(CompiledBuffer) -> T,

        requires
            options@.len() <= u32::MAX,
            forall|input: AmdDxGsaCompileShaderInput<'a>|
                input_matches(input, gpu, shader, options) ==> call_requires(
                    self.compile,
                    (input, spec_blank_compile_output()),
                ),
            forall|status: HRESULT, output: AmdDxGsaCompileShaderOutput|
                #[trigger] compile_may_return(self.compile, gpu, shader, options, status, output)
                    && compile_succeeded(status, output) ==> call_requires(
                    inspect,
                    (delivered_buffer(output),),
                ),
            forall|status: HRESULT, output: AmdDxGsaCompileShaderOutput, value: T|
                #[trigger] compile_may_return(self.compile, gpu, shader, options, status, output)
                    && compile_succeeded(status, output) && #[trigger] call_ensures(
                    inspect,
                    (delivered_buffer(output),),
                    value,
                ) ==> call_requires(self.free, (output.shader_binary,)),
        ensures
            match r {
                Ok(value) => exists|status: HRESULT, output: AmdDxGsaCompileShaderOutput|
                    {
                        &&& #[trigger] compile_may_return(
                            self.compile,
                            gpu,
                            shader,
                            options,
                            status,
                            output,
                        )
                        &&& compile_succeeded(status, output)
                        &&& call_ensures(inspect, (delivered_buffer(output),), value)
                        &&& call_ensures(self.free, (output.shader_binary,), ())
                    },
                Err(error) => exists|status: HRESULT, output: AmdDxGsaCompileShaderOutput|
                    {
                        &&& #[trigger] compile_may_return(
                            self.compile,
                            gpu,
                            shader,
                            options,
                            status,
                            output,
                        )
                        &&& !compile_succeeded(status, output)
                        &&& error == ShaderCompileError::spec_from_status(status)
                    },
            },
    {
        let (state, action) = step(GatewayState::Idle, GatewayEvent::Requested);
        let input = match action {
            GatewayAction::MarshalInput => build_compile_input(gpu, &shader, options),
            _ => unreached(),
        };
        let (state, action) = step(state, GatewayEvent::InputMarshalled);
        let (status, output) = match action {
            GatewayAction::CallCompile { output } => (self.compile)(input, output),
            _ => unreached(),
        };
        assert(compile_may_return(self.compile, gpu, shader, options, status, output));
        let (state, action) = step(state, GatewayEvent::CompileReturned { status, output });
        match action {
            GatewayAction::Fail { error } => Err(error),
            GatewayAction::BorrowBuffer { buffer } => {
                assert(buffer == delivered_buffer(output));
                let (state, action) = step(state, GatewayEvent::BufferBorrowed);
                let value = match action {
                    GatewayAction::RunOperation => inspect(buffer),
                    _ => unreached(),
                };
                let (state, action) = step(state, GatewayEvent::OperationReturned);
                match action {
                    GatewayAction::FreeBuffer { address } => (self.free)(address),
                    _ => unreached(),
                };
                let (_, action) = step(state, GatewayEvent::BufferReleased);
                match action {
                    GatewayAction::Succeed => Ok(value),
                    _ => unreached(),
                }
            },
            _ => unreached(),
        }
    }
}

} // verus!
