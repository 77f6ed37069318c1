//! The trusted boundary around the device API.
//!
//! Everything the dispatcher asks of the device goes through the items here:
//! opaque declarations of the device API's types, and thin wrappers, one per
//! call, whose bodies Verus does not read. Two token types make the only two
//! stateful protocols of the API explicit: an error scope must be pushed
//! before it is popped, and a buffer may be read only after its map request
//! has completed.
use vstd::prelude::*;

use wgpu::util::DeviceExt;

verus! {

#[verifier::external_type_specification]
#[verifier::external_body]
pub struct ExDevice(wgpu::Device);

#[verifier::external_type_specification]
#[verifier::external_body]
pub struct ExQueue(wgpu::Queue);

#[verifier::external_type_specification]
#[verifier::external_body]
pub struct ExComputePipeline(wgpu::ComputePipeline);

#[verifier::external_type_specification]
#[verifier::external_body]
pub struct ExBindGroup(wgpu::BindGroup);

#[verifier::external_type_specification]
#[verifier::external_body]
pub struct ExBindGroupLayout(wgpu::BindGroupLayout);

#[verifier::external_type_specification]
#[verifier::external_body]
pub struct ExBindGroupLayoutEntry(wgpu::BindGroupLayoutEntry);

#[verifier::external_type_specification]
#[verifier::external_body]
pub struct ExPipelineLayout(wgpu::PipelineLayout);

#[verifier::external_type_specification]
#[verifier::external_body]
pub struct ExBuffer(wgpu::Buffer);

#[verifier::external_type_specification]
#[verifier::external_body]
pub struct ExBufferUsages(wgpu::BufferUsages);

#[verifier::external_type_specification]
#[verifier::external_body]
pub struct ExCommandEncoder(wgpu::CommandEncoder);

#[verifier::external_type_specification]
#[verifier::external_body]
pub struct ExCommandBuffer(wgpu::CommandBuffer);

#[verifier::external_type_specification]
#[verifier::external_body]
pub struct ExBufferAsyncError(wgpu::BufferAsyncError);

#[verifier::external_type_specification]
#[verifier::external_body]
#[verifier::reject_recursive_types(T)]
pub struct ExFlumeSender<T>(flume::Sender<T>);

#[verifier::external_type_specification]
#[verifier::external_body]
#[verifier::reject_recursive_types(T)]
pub struct ExFlumeReceiver<T>(flume::Receiver<T>);

/// Witness that a validation error scope is open on the device and has not
/// been popped. Only `push_validation_scope` creates one, and popping
/// consumes it, so holding a token means the device captures validation
/// errors instead of aborting through the uncaptured-error handler.
pub struct ScopeToken {
    guard: (),
}

/// Witness that the staging buffer's map request completed successfully.
/// Only `recv_map_outcome` creates one, and only from a received successful
/// completion, so holding a token means the mapped range may be read.
pub struct MapToken {
    guard: (),
}

/// Relies on wgpu::Device::push_error_scope: pushes a validation error scope
/// on the device's error sink; it never fails.
#[verifier::external_body]
pub(crate) fn push_validation_scope(device: &wgpu::Device) -> ScopeToken {
    device.push_error_scope(wgpu::ErrorFilter::Validation);
    ScopeToken { guard: () }
}

/// Relies on wgpu::Device::pop_error_scope: pops the innermost error scope
/// and says whether it captured an error. On the native backend the
/// returned future is already resolved, so blocking on it returns at once.
/// Popping panics when no scope is open; consuming the token rules that
/// out.
#[verifier::external_body]
pub(crate) fn pop_validation_scope(device: &wgpu::Device, token: ScopeToken) -> bool {
    let ScopeToken { guard: () } = token;
    smol::block_on(device.pop_error_scope()).is_some()
}

/// Relies on wgpu::Device::create_shader_module and
/// wgpu::Device::create_compute_pipeline: compiles the program text and
/// builds a pipeline bound to the entry point, with the bind group layout
/// inferred from the program. Invalid text or a missing entry point becomes
/// a validation error, which the open scope captures. The inferred layout
/// is never queried back: asking an auto-layout pipeline for a group it
/// does not declare would abort, so binding always goes through an
/// explicit layout instead.
#[verifier::external_body]
pub fn create_pipeline(device: &wgpu::Device, module: &str, entry_point: &str, scope: &ScopeToken) -> wgpu::ComputePipeline {
    device.create_compute_pipeline(&wgpu::ComputePipelineDescriptor {
        label: None,
        layout: None,
        module: &device.create_shader_module(wgpu::ShaderModuleDescriptor {
            label: None,
            source: wgpu::ShaderSource::Wgsl(std::borrow::Cow::Borrowed(module)),
        }),
        entry_point,
        compilation_options: Default::default(),
        cache: None,
    })
}

/// Relies on wgpu::util::DeviceExt::create_buffer_init: allocates a buffer
/// of exactly the given bytes with the given usage capability set; a
/// refused allocation becomes a validation error, which the open scope
/// captures. The contents must not exceed the device's maximum buffer
/// size: past it the creation fails and the helper's write through the
/// creation mapping aborts the process, scope or no scope, so the
/// dispatcher checks every input against `device_max_buffer_size` before
/// creating anything.
#[verifier::external_body]
pub fn create_storage_buffer(device: &wgpu::Device, contents: &Vec<u8>, usage: wgpu::BufferUsages, scope: &ScopeToken) -> wgpu::Buffer {
    device.create_buffer_init(&wgpu::util::BufferInitDescriptor {
        label: Some("Storage Buffer"),
        contents: contents.as_slice(),
        usage,
    })
}

/// Relies on wgpu::Device::create_buffer: allocates an unmapped buffer of
/// the given byte size whose only capabilities are receiving a copy and
/// being mapped for host reads. A refused allocation becomes a validation
/// error, which the open scope captures.
#[verifier::external_body]
pub fn create_staging_buffer(device: &wgpu::Device, size: u64, scope: &ScopeToken) -> wgpu::Buffer {
    device.create_buffer(&wgpu::BufferDescriptor {
        label: None,
        size,
        usage: wgpu::BufferUsages::MAP_READ | wgpu::BufferUsages::COPY_DST,
        mapped_at_creation: false,
    })
}

/// Relies on wgpu::BufferUsages::union: the capability set of the one
/// buffer the program writes and the host copies out: storage plus both
/// copy directions.
#[verifier::external_body]
pub(crate) fn usage_storage_read_write() -> wgpu::BufferUsages {
    wgpu::BufferUsages::STORAGE | wgpu::BufferUsages::COPY_DST | wgpu::BufferUsages::COPY_SRC
}

/// Relies on the wgpu::BufferUsages::STORAGE constant: a buffer the program
/// only reads.
#[verifier::external_body]
pub(crate) fn usage_storage_read() -> wgpu::BufferUsages {
    wgpu::BufferUsages::STORAGE
}

/// Relies on the wgpu::BufferUsages::UNIFORM constant: a fixed-layout
/// constant block.
#[verifier::external_body]
pub(crate) fn usage_uniform() -> wgpu::BufferUsages {
    wgpu::BufferUsages::UNIFORM
}

/// Relies on wgpu::Device::limits: the largest buffer allocation, in
/// bytes, this device accepts.
#[verifier::external_body]
pub(crate) fn device_max_buffer_size(device: &wgpu::Device) -> u64 {
    device.limits().max_buffer_size
}

/// Relies on the wgpu::BindGroupLayoutEntry constructor: the layout slot
/// of a compute-visible storage buffer the program reads and writes.
#[verifier::external_body]
pub(crate) fn layout_entry_storage_read_write(slot: u32) -> wgpu::BindGroupLayoutEntry {
    wgpu::BindGroupLayoutEntry {
        binding: slot,
        visibility: wgpu::ShaderStages::COMPUTE,
        ty: wgpu::BindingType::Buffer {
            ty: wgpu::BufferBindingType::Storage { read_only: false },
            has_dynamic_offset: false,
            min_binding_size: None,
        },
        count: None,
    }
}

/// Relies on the wgpu::BindGroupLayoutEntry constructor: the layout slot
/// of a compute-visible storage buffer the program only reads.
#[verifier::external_body]
pub(crate) fn layout_entry_storage_read(slot: u32) -> wgpu::BindGroupLayoutEntry {
    wgpu::BindGroupLayoutEntry {
        binding: slot,
        visibility: wgpu::ShaderStages::COMPUTE,
        ty: wgpu::BindingType::Buffer {
            ty: wgpu::BufferBindingType::Storage { read_only: true },
            has_dynamic_offset: false,
            min_binding_size: None,
        },
        count: None,
    }
}

/// Relies on the wgpu::BindGroupLayoutEntry constructor: the layout slot
/// of a compute-visible uniform block.
#[verifier::external_body]
pub(crate) fn layout_entry_uniform(slot: u32) -> wgpu::BindGroupLayoutEntry {
    wgpu::BindGroupLayoutEntry {
        binding: slot,
        visibility: wgpu::ShaderStages::COMPUTE,
        ty: wgpu::BindingType::Buffer {
            ty: wgpu::BufferBindingType::Uniform,
            has_dynamic_offset: false,
            min_binding_size: None,
        },
        count: None,
    }
}

/// Relies on wgpu::Device::create_bind_group_layout: declares group 0's
/// slots and resource kinds explicitly. Colliding or unsupported entries
/// become a validation error, which the open scope captures.
#[verifier::external_body]
pub(crate) fn create_bind_group_layout(
    device: &wgpu::Device,
    entries: &Vec<wgpu::BindGroupLayoutEntry>,
    scope: &ScopeToken,
) -> wgpu::BindGroupLayout {
    device.create_bind_group_layout(&wgpu::BindGroupLayoutDescriptor {
        label: None,
        entries: entries.as_slice(),
    })
}

/// Relies on wgpu::Device::create_pipeline_layout: a pipeline layout whose
/// single group is the given one, with no push constants. Failures become
/// a validation error, which the open scope captures.
#[verifier::external_body]
pub(crate) fn create_pipeline_layout(
    device: &wgpu::Device,
    layout: &wgpu::BindGroupLayout,
    scope: &ScopeToken,
) -> wgpu::PipelineLayout {
    device.create_pipeline_layout(&wgpu::PipelineLayoutDescriptor {
        label: None,
        bind_group_layouts: &[layout],
        push_constant_ranges: &[],
    })
}

/// Relies on wgpu::Device::create_shader_module and
/// wgpu::Device::create_compute_pipeline: builds the pipeline that is
/// dispatched, against the explicit layout. Any mismatch between the
/// layout and the bindings the program declares becomes a validation
/// error, which the open scope captures.
#[verifier::external_body]
pub(crate) fn create_pipeline_with_layout(
    device: &wgpu::Device,
    module: &str,
    entry_point: &str,
    layout: &wgpu::PipelineLayout,
    scope: &ScopeToken,
) -> wgpu::ComputePipeline {
    device.create_compute_pipeline(&wgpu::ComputePipelineDescriptor {
        label: None,
        layout: Some(layout),
        module: &device.create_shader_module(wgpu::ShaderModuleDescriptor {
            label: None,
            source: wgpu::ShaderSource::Wgsl(std::borrow::Cow::Borrowed(module)),
        }),
        entry_point,
        compilation_options: Default::default(),
        cache: None,
    })
}

/// Relies on wgpu::Device::create_bind_group: associates the given
/// buffers, in order, with the given slot numbers of the explicit group-0
/// layout. A mismatch with that layout becomes a validation error, which
/// the open scope captures.
#[verifier::external_body]
pub fn create_bind_group(
    device: &wgpu::Device,
    layout: &wgpu::BindGroupLayout,
    slots: &Vec<u32>,
    buffers: &Vec<wgpu::Buffer>,
    scope: &ScopeToken,
) -> wgpu::BindGroup
    requires
        slots@.len() == buffers@.len(),
{
    let entries: Vec<wgpu::BindGroupEntry> = slots
        .iter()
        .zip(buffers.iter())
        .map(|(slot, buffer)| wgpu::BindGroupEntry {
            binding: *slot,
            resource: buffer.as_entire_binding(),
        })
        .collect();
    device.create_bind_group(&wgpu::BindGroupDescriptor {
        label: None,
        layout,
        entries: &entries,
    })
}

/// Relies on wgpu::Device::create_command_encoder: begins an empty command
/// sequence.
#[verifier::external_body]
pub(crate) fn create_command_encoder(device: &wgpu::Device) -> wgpu::CommandEncoder {
    device.create_command_encoder(&wgpu::CommandEncoderDescriptor { label: None })
}

/// Relies on wgpu::CommandEncoder::begin_compute_pass and the pass's
/// set_pipeline, set_bind_group and dispatch_workgroups: records one
/// compute dispatch of the given grid into the encoder. The pass borrows
/// the encoder and must end before the encoder is used again, which is why
/// these four calls stand together: the pass cannot escape.
#[verifier::external_body]
pub(crate) fn record_compute_pass(
    encoder: &mut wgpu::CommandEncoder,
    pipeline: &wgpu::ComputePipeline,
    bind_group: &wgpu::BindGroup,
    x: u32,
    y: u32,
    z: u32,
) {
    let mut cpass = encoder.begin_compute_pass(&wgpu::ComputePassDescriptor {
        label: None,
        timestamp_writes: None,
    });
    cpass.set_pipeline(pipeline);
    cpass.set_bind_group(0, bind_group, &[]);
    cpass.dispatch_workgroups(x, y, z);
}

/// Relies on wgpu::CommandEncoder::copy_buffer_to_buffer: records, after
/// everything already in the encoder, a device-to-device copy of `size`
/// bytes from the start of `source` to the start of `destination`.
#[verifier::external_body]
pub(crate) fn record_copy_to_staging(
    encoder: &mut wgpu::CommandEncoder,
    source: &wgpu::Buffer,
    destination: &wgpu::Buffer,
    size: u64,
) {
    encoder.copy_buffer_to_buffer(source, 0, destination, 0, size);
}

/// Relies on wgpu::CommandEncoder::finish: closes the recorded sequence
/// into a submittable command buffer.
#[verifier::external_body]
pub(crate) fn finish_commands(encoder: wgpu::CommandEncoder) -> wgpu::CommandBuffer {
    encoder.finish()
}

/// Relies on wgpu::Queue::submit: hands the command sequence to the device,
/// which executes it asynchronously, in submission order on this queue.
#[verifier::external_body]
pub(crate) fn submit_commands(queue: &wgpu::Queue, commands: wgpu::CommandBuffer) {
    queue.submit([commands]);
}

/// Relies on flume::bounded: a fresh single-slot channel for the one
/// map-completion value the device's callback will send.
#[verifier::external_body]
pub(crate) fn map_outcome_channel() -> (
    flume::Sender<Result<(), wgpu::BufferAsyncError>>,
    flume::Receiver<Result<(), wgpu::BufferAsyncError>>,
) {
    flume::bounded(1)
}

/// Relies on flume::Sender::send: places the map outcome in the channel.
/// A send after the receiver is gone is ignored; nothing then waits for the
/// outcome.
#[verifier::external_body]
pub(crate) fn send_map_outcome(
    sender: flume::Sender<Result<(), wgpu::BufferAsyncError>>,
    outcome: Result<(), wgpu::BufferAsyncError>,
) {
    let _ = sender.send(outcome);
}

/// The device-driven completion callback: it only forwards the outcome it
/// was called with into the channel.
pub(crate) fn deliver_map_outcome(
    sender: flume::Sender<Result<(), wgpu::BufferAsyncError>>,
    outcome: Result<(), wgpu::BufferAsyncError>,
) {
    send_map_outcome(sender, outcome);
}

/// Relies on wgpu::Buffer::slice and wgpu::BufferSlice::map_async: requests
/// read access to the whole buffer; once the submitted work is done and the
/// device signals readiness, the callback sends the outcome into the
/// channel. The buffer must not already have a map request, which holds of
/// a staging buffer used for one read-back.
#[verifier::external_body]
pub(crate) fn request_map_read(
    buffer: &wgpu::Buffer,
    sender: flume::Sender<Result<(), wgpu::BufferAsyncError>>,
) {
    buffer.slice(..).map_async(
        wgpu::MapMode::Read,
        move |outcome| crate::gpu::deliver_map_outcome(sender, outcome),
    );
}

/// Relies on wgpu::Device::poll with Maintain::Wait: blocks until the
/// device has finished the submitted work, running completion callbacks on
/// this thread, and says whether the submission queue emptied. On a backend
/// that cannot wait it may return false without the callback having run.
#[verifier::external_body]
pub(crate) fn poll_device_wait(device: &wgpu::Device) -> bool {
    device.poll(wgpu::Maintain::wait()).is_queue_empty()
}

/// Relies on flume::Receiver::recv: takes the outcome the callback sent.
/// Successful completion yields the witness that the buffer is mapped; a
/// reported mapping error, or a channel whose sender vanished, yields none.
#[verifier::external_body]
pub(crate) fn recv_map_outcome(
    receiver: &flume::Receiver<Result<(), wgpu::BufferAsyncError>>,
) -> Option<MapToken> {
    match receiver.recv() {
        Ok(Ok(())) => Some(MapToken { guard: () }),
        Ok(Err(_)) => None,
        Err(_) => None,
    }
}

/// Relies on wgpu::BufferSlice::get_mapped_range, the view's slice access
/// and wgpu::Buffer::unmap: copies the mapped bytes into a host-owned
/// vector, then releases the borrowed view and the mapping. The view must
/// be dropped before the unmap, which is why the three calls stand
/// together: the borrowed view cannot escape. Reading requires a completed
/// map request; consuming the token rules out reading without one.
#[verifier::external_body]
pub(crate) fn read_mapped_and_unmap(buffer: &wgpu::Buffer, token: MapToken) -> Vec<u8> {
    let MapToken { guard: () } = token;
    let view = buffer.slice(..).get_mapped_range();
    let bytes = view.to_vec();
    drop(view);
    buffer.unmap();
    bytes
}

} // verus!
