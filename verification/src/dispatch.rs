//! One compute invocation from host arrays to host bytes.
//!
//! `ComputeDispatcher` owns a device and its queue and runs the whole
//! sequence for a single dispatch: compile, allocate, bind, encode, submit,
//! and read back through a staging buffer once the device signals that the
//! mapping is ready. Each step that the device can refuse runs inside a
//! validation error scope, and the scope's outcome decides which error the
//! dispatch surfaces; nothing is ever retried.
use vstd::prelude::*;
use vstd::string::StringSliceAdditionalSpecFns;

use crate::codec;
use crate::error::Error;
use crate::gpu;
use crate::matrix::Matrix;
use crate::matrix::matrix_to_bytes;
use crate::program::BindingKind;
use crate::program::GridDims;
use crate::program::InputBinding;
use crate::program::contains_bytes;
use crate::program::has_duplicate_slot;
use crate::program::request_wf;
use crate::program::validate_request;

verus! {

/// A device and the queue paired with it, held for the duration of any
/// number of sequential dispatches. A dispatch never mutates this state,
/// which is what lets one pair serve several invocations in a row.
pub struct ComputeDispatcher {
    device: wgpu::Device,
    queue: wgpu::Queue,
}

impl ComputeDispatcher {
    /// Takes ownership of an acquired device and queue.
    pub fn new(device: wgpu::Device, queue: wgpu::Queue) -> ComputeDispatcher {
        ComputeDispatcher { device, queue }
    }

    /// Executes exactly one compute invocation end-to-end.
    ///
    /// The inputs must be shaped for read-back (`request_wf`): the output
    /// index names the one writable binding, and the staging buffer's size
    /// equals that binding's byte size. A text that cannot declare the
    /// entry point is rejected as `CompileError` before anything is
    /// allocated; colliding slots are rejected as `BindingError`. Past the
    /// host-side checks the device decides: compilation is probed first,
    /// so its failures surface as `CompileError`; everything about
    /// layouts, allocation sizes and bindings surfaces as `BindingError`;
    /// what fails later surfaces as `ExecutionError`; and a successful
    /// read-back returns exactly `output_size` bytes.
    pub fn dispatch(
        &self,
        program_source: &str,
        entry_point: &str,
        inputs: &Vec<InputBinding>,
        output_index: usize,
        output_size: u64,
        grid: GridDims,
    ) -> (r: Result<Vec<u8>, Error>)
        requires
            request_wf(inputs@, output_index as int, output_size),
        ensures
            !contains_bytes(program_source.spec_bytes(), entry_point.spec_bytes()) ==> r == Err::<
                Vec<u8>,
                Error,
            >(Error::CompileError),
            contains_bytes(program_source.spec_bytes(), entry_point.spec_bytes())
                && has_duplicate_slot(inputs@) ==> r == Err::<Vec<u8>, Error>(Error::BindingError),
            r is Ok ==> r->Ok_0@.len() == output_size,
            r is Ok ==> contains_bytes(program_source.spec_bytes(), entry_point.spec_bytes())
                && !has_duplicate_slot(inputs@),
            r is Err ==> (r->Err_0 == Error::CompileError || r->Err_0 == Error::BindingError
                || r->Err_0 == Error::ExecutionError),
    {
        // The host-side share of compiling and binding: reject what the
        // device could never accept, before any device work.
        match validate_request(program_source, entry_point, inputs) {
            Err(e) => {
                return Err(e);
            },
            Ok(()) => {},
        }
        // Step 1: probe the compilation. The probe pipeline is built with
        // the layout inferred from the program and then discarded: it only
        // attributes invalid text and a missing entry point to this stage.
        let scope = gpu::push_validation_scope(&self.device);
        let _ = gpu::create_pipeline(&self.device, program_source, entry_point, &scope);
        if gpu::pop_validation_scope(&self.device, scope) {
            return Err(Error::CompileError);
        }
        // An input past the device's largest buffer cannot be allocated,
        // and the pre-populating helper would abort on it rather than
        // report it; refuse such a request here, before anything device
        // side exists.
        let max_size = gpu::device_max_buffer_size(&self.device);
        let mut i: usize = 0;
        while i < inputs.len()
            invariant
                i <= inputs@.len(),
                contains_bytes(program_source.spec_bytes(), entry_point.spec_bytes()),
                !has_duplicate_slot(inputs@),
            decreases inputs@.len() - i,
        {
            if inputs[i].data.len() as u64 > max_size {
                return Err(Error::BindingError);
            }
            i = i + 1;
        }
        if output_size > max_size {
            return Err(Error::BindingError);
        }
        // Step 4's layout, declared explicitly from the request's slots
        // and kinds, then steps 2 and 3: one storage buffer per input,
        // pre-populated, with the least usage its kind needs, and one
        // staging buffer paired with the writable one, of identical byte
        // size. The pipeline that is dispatched is built against the
        // explicit layout, so every mismatch between the request and the
        // bindings the program declares is a captured error of this stage.
        let scope = gpu::push_validation_scope(&self.device);
        let mut layout_entries: Vec<wgpu::BindGroupLayoutEntry> = Vec::new();
        let mut i: usize = 0;
        while i < inputs.len()
            invariant
                i <= inputs@.len(),
            decreases inputs@.len() - i,
        {
            let entry = match inputs[i].kind {
                BindingKind::StorageReadWrite => gpu::layout_entry_storage_read_write(
                    inputs[i].slot,
                ),
                BindingKind::Storage => gpu::layout_entry_storage_read(inputs[i].slot),
                BindingKind::Uniform => gpu::layout_entry_uniform(inputs[i].slot),
            };
            layout_entries.push(entry);
            i = i + 1;
        }
        let bind_group_layout = gpu::create_bind_group_layout(&self.device, &layout_entries, &scope);
        let pipeline_layout = gpu::create_pipeline_layout(&self.device, &bind_group_layout, &scope);
        let pipeline = gpu::create_pipeline_with_layout(
            &self.device,
            program_source,
            entry_point,
            &pipeline_layout,
            &scope,
        );
        let mut buffers: Vec<wgpu::Buffer> = Vec::new();
        let mut slots: Vec<u32> = Vec::new();
        let mut i: usize = 0;
        while i < inputs.len()
            invariant
                i <= inputs@.len(),
                buffers@.len() == i,
                slots@.len() == i,
            decreases inputs@.len() - i,
        {
            let usage = match inputs[i].kind {
                BindingKind::StorageReadWrite => gpu::usage_storage_read_write(),
                BindingKind::Storage => gpu::usage_storage_read(),
                BindingKind::Uniform => gpu::usage_uniform(),
            };
            buffers.push(gpu::create_storage_buffer(&self.device, &inputs[i].data, usage, &scope));
            slots.push(inputs[i].slot);
            i = i + 1;
        }
        let staging = gpu::create_staging_buffer(&self.device, output_size, &scope);
        // The bind group pairs the buffers with the same explicit layout.
        let bind_group = gpu::create_bind_group(
            &self.device,
            &bind_group_layout,
            &slots,
            &buffers,
            &scope,
        );
        if gpu::pop_validation_scope(&self.device, scope) {
            return Err(Error::BindingError);
        }
        // Steps 5 and 6: encode the dispatch, then the copy into staging,
        // in that order within one sequence, and submit. The device
        // serializes operations within a sequence, so the copy observes
        // every write of the dispatch.
        let scope = gpu::push_validation_scope(&self.device);
        let mut encoder = gpu::create_command_encoder(&self.device);
        gpu::record_compute_pass(&mut encoder, &pipeline, &bind_group, grid.x, grid.y, grid.z);
        gpu::record_copy_to_staging(&mut encoder, &buffers[output_index], &staging, output_size);
        let commands = gpu::finish_commands(encoder);
        gpu::submit_commands(&self.queue, commands);
        if gpu::pop_validation_scope(&self.device, scope) {
            return Err(Error::ExecutionError);
        }
        // Step 7: ask for read access to the staging buffer; the device's
        // callback will send the outcome into a single-slot channel.
        let (sender, receiver) = gpu::map_outcome_channel();
        gpu::request_map_read(&staging, sender);
        // Step 8: pump the device until the submitted work is done. A
        // device that cannot finish surfaces as a failed dispatch, never a
        // hang.
        if !gpu::poll_device_wait(&self.device) {
            return Err(Error::ExecutionError);
        }
        // Step 9: only a received successful completion yields the token
        // that permits reading; the wrapper releases the view and the
        // mapping before returning.
        match gpu::recv_map_outcome(&receiver) {
            Some(token) => {
                let bytes = gpu::read_mapped_and_unmap(&staging, token);
                if bytes.len() as u64 == output_size {
                    Ok(bytes)
                } else {
                    Err(Error::ExecutionError)
                }
            },
            None => Err(Error::ExecutionError),
        }
    }
}

/// Runs the saxpy program on the sample arrays: slot 0 holds `x`, written
/// in place and read back, slot 1 holds `y`, slot 2 the scalar, over a
/// 1-dimensional grid of one work unit per element. A device that runs the
/// program faithfully returns `reference::saxpy_expected` of the samples.
pub fn execute_saxpy(dispatcher: &ComputeDispatcher, program: &str) -> (r: Result<Vec<i32>, Error>)
    ensures
        !contains_bytes(program.spec_bytes(), "main".spec_bytes()) ==> r == Err::<
            Vec<i32>,
            Error,
        >(Error::CompileError),
        r is Ok ==> r->Ok_0@.len() == 4,
        r is Ok ==> contains_bytes(program.spec_bytes(), "main".spec_bytes()),
        r is Err ==> (r->Err_0 == Error::CompileError || r->Err_0 == Error::BindingError
            || r->Err_0 == Error::ExecutionError),
{
    let x: Vec<i32> = vec![1, 2, 3, 4];
    let y: Vec<i32> = vec![4, 3, 2, 1];
    let a: Vec<i32> = vec![10];
    let mut inputs: Vec<InputBinding> = Vec::new();
    inputs.push(
        InputBinding { slot: 0, kind: BindingKind::StorageReadWrite, data: codec::encode_i32s(&x) },
    );
    inputs.push(InputBinding { slot: 1, kind: BindingKind::Storage, data: codec::encode_i32s(&y) });
    inputs.push(InputBinding { slot: 2, kind: BindingKind::Storage, data: codec::encode_i32s(&a) });
    let grid = GridDims { x: 4, y: 1, z: 1 };
    let bytes = match dispatcher.dispatch(program, "main", &inputs, 0, 16, grid) {
        Ok(b) => b,
        Err(e) => {
            return Err(e);
        },
    };
    Ok(codec::decode_i32s(&bytes))
}

/// Runs the dot-product program on the sample arrays: slots 0 and 1 hold
/// `x` and `y`, slot 2 an all-zero cell per grid point, written by the
/// program and read back, over one work unit per cell. A device that runs
/// the program faithfully returns `reference::outer_product_expected` of
/// the samples.
pub fn execute_dot_product(dispatcher: &ComputeDispatcher, program: &str) -> (r: Result<
    Vec<i32>,
    Error,
>)
    ensures
        !contains_bytes(program.spec_bytes(), "main".spec_bytes()) ==> r == Err::<
            Vec<i32>,
            Error,
        >(Error::CompileError),
        r is Ok ==> r->Ok_0@.len() == 16,
        r is Ok ==> contains_bytes(program.spec_bytes(), "main".spec_bytes()),
        r is Err ==> (r->Err_0 == Error::CompileError || r->Err_0 == Error::BindingError
            || r->Err_0 == Error::ExecutionError),
{
    let x: Vec<i32> = vec![1, 2, 3, 4];
    let y: Vec<i32> = vec![1, 2, 3, 4];
    let mut out: Vec<i32> = Vec::new();
    let mut k: usize = 0;
    while k < 16
        invariant
            out@.len() == k,
            k <= 16,
        decreases 16 - k,
    {
        out.push(0);
        k = k + 1;
    }
    let mut inputs: Vec<InputBinding> = Vec::new();
    inputs.push(InputBinding { slot: 0, kind: BindingKind::Storage, data: codec::encode_i32s(&x) });
    inputs.push(InputBinding { slot: 1, kind: BindingKind::Storage, data: codec::encode_i32s(&y) });
    inputs.push(
        InputBinding {
            slot: 2,
            kind: BindingKind::StorageReadWrite,
            data: codec::encode_i32s(&out),
        },
    );
    let grid = GridDims { x: 4, y: 4, z: 1 };
    let bytes = match dispatcher.dispatch(program, "main", &inputs, 2, 64, grid) {
        Ok(b) => b,
        Err(e) => {
            return Err(e);
        },
    };
    Ok(codec::decode_i32s(&bytes))
}

/// Runs the transpose program on the sample 4-by-4 matrix: slot 0 holds the
/// input, slot 1 a buffer of the same contents that the program overwrites
/// and the host reads back, over a 4-by-4 grid. A device that runs the
/// program faithfully returns `reference::transpose_expected` of the
/// sample.
pub fn execute_transpose(dispatcher: &ComputeDispatcher, program: &str) -> (r: Result<
    Vec<i32>,
    Error,
>)
    ensures
        !contains_bytes(program.spec_bytes(), "main".spec_bytes()) ==> r == Err::<
            Vec<i32>,
            Error,
        >(Error::CompileError),
        r is Ok ==> r->Ok_0@.len() == 16,
        r is Ok ==> contains_bytes(program.spec_bytes(), "main".spec_bytes()),
        r is Err ==> (r->Err_0 == Error::CompileError || r->Err_0 == Error::BindingError
            || r->Err_0 == Error::ExecutionError),
{
    let x: Vec<i32> = vec![1, 2, 3, 4, 5, 6, 7, 8, 9, 10, 11, 12, 13, 14, 15, 16];
    let mut inputs: Vec<InputBinding> = Vec::new();
    inputs.push(InputBinding { slot: 0, kind: BindingKind::Storage, data: codec::encode_i32s(&x) });
    inputs.push(
        InputBinding { slot: 1, kind: BindingKind::StorageReadWrite, data: codec::encode_i32s(&x) },
    );
    let grid = GridDims { x: 4, y: 4, z: 1 };
    let bytes = match dispatcher.dispatch(program, "main", &inputs, 1, 64, grid) {
        Ok(b) => b,
        Err(e) => {
            return Err(e);
        },
    };
    Ok(codec::decode_i32s(&bytes))
}

/// The cells of the first sample matrix, row-major.
pub open spec fn sample_x_cells() -> Seq<i32> {
    seq![
        6, 1, 2, 3, 1, 4, 3, 8, 2, 3, 9, 3, 4, 0, 3, 5, 3, 2, 3, 5, 2, 8, 7, 0, 9, 3, 2, 7, 1, 9,
        7, 0, 7, 1, 4, 5, 5, 0, 0, 7, 1, 9, 7, 0, 9, 6, 3, 3, 5, 2, 2, 3, 2, 9, 9, 0, 6, 4, 7, 5,
        4, 9, 1, 2, 5, 7, 5, 1, 9, 4, 9, 9, 6, 2, 8, 3, 7, 6, 4, 5, 6, 6, 6, 1, 5, 4, 4, 1, 3, 4,
        8, 2, 1, 2, 5, 9, 0, 9, 2, 4, 1, 0, 3, 9, 6, 4, 5, 2, 7, 2, 2, 9, 7, 8, 0, 8, 6, 7, 3, 0,
        4, 1, 6, 9, 2, 3, 8, 4, 8, 2, 2, 0, 1, 0, 6, 7, 3, 3, 8, 5, 3, 3, 7, 6, 4, 9, 0, 7, 8, 0,
        9, 9, 3, 0, 6, 3, 0, 7, 0, 0, 0, 3, 1, 4, 6, 2, 9, 9, 1, 0, 4, 0, 2, 9, 1, 6, 1, 2, 8, 1,
        3, 0, 2, 5, 8, 5, 0, 7, 0, 2, 7, 4, 6, 2, 9, 7, 3, 9, 5, 3, 0, 0, 8, 2, 6, 4, 5, 9, 0, 7,
        3, 2, 9, 9, 6, 6, 4, 0, 1, 9, 8, 9, 3, 0, 0, 7, 9, 3, 6, 4, 3, 4, 6, 7, 8, 2, 3, 5, 6, 3,
        0, 2, 6, 0, 5, 3, 5, 9, 4, 4, 6, 0, 8, 8, 8, 0,
    ]
}

/// The cells of the second sample matrix, row-major.
pub open spec fn sample_y_cells() -> Seq<i32> {
    seq![
        5, 9, 6, 9, 4, 0, 1, 4, 5, 2, 8, 0, 3, 9, 8, 0, 1, 8, 7, 2, 4, 3, 4, 1, 7, 9, 2, 3, 5, 4,
        1, 4, 7, 4, 8, 6, 0, 4, 2, 5, 4, 6, 4, 1, 2, 8, 9, 6, 0, 1, 9, 5, 6, 1, 8, 6, 2, 4, 7, 7,
        7, 4, 3, 4, 4, 6, 5, 6, 2, 5, 3, 9, 9, 0, 1, 7, 9, 0, 2, 4, 5, 8, 3, 6, 8, 6, 4, 5, 1, 7,
        1, 3, 7, 1, 8, 8, 7, 9, 6, 3, 0, 3, 8, 4, 0, 3, 7, 6, 3, 7, 1, 8, 5, 2, 5, 6, 5, 7, 5, 0,
        1, 0, 1, 2, 8, 2, 8, 0, 5, 4, 1, 8, 9, 7, 5, 4, 4, 2, 4, 8, 2, 0, 2, 0, 1, 9, 6, 3, 9, 7,
        4, 4, 0, 5, 8, 9, 3, 9, 6, 8, 6, 1, 3, 5, 7, 0, 7, 5, 8, 7, 6, 6, 0, 1, 0, 7, 5, 1, 4, 2,
        3, 8, 9, 3, 1, 2, 5, 2, 8, 7, 4, 4, 4, 5, 1, 8, 8, 8, 5, 2, 5, 6, 1, 0, 4, 8, 3, 0, 1, 1,
        8, 1, 6, 9, 1, 3, 9, 2, 8, 4, 1, 2, 5, 1, 5, 8, 5, 5, 0, 8, 4, 3, 5, 5, 6, 6, 1, 0, 9, 6,
        2, 4, 5, 6, 7, 7, 0, 3, 3, 1, 3, 6, 6, 2, 9, 1,
    ]
}

/// The sample 16-by-16 matrices the matrix-multiply example uploads, their
/// cells fixed by `sample_x_cells` and `sample_y_cells`.
pub fn sample_matrices() -> (m: (Matrix, Matrix))
    ensures
        m.0.wf(),
        m.1.wf(),
        m.0.x == 16 && m.0.y == 16,
        m.1.x == 16 && m.1.y == 16,
        m.0.data@ == sample_x_cells(),
        m.1.data@ == sample_y_cells(),
{
    let x: Vec<i32> = vec![
        6, 1, 2, 3, 1, 4, 3, 8, 2, 3, 9, 3, 4, 0, 3, 5, 3, 2, 3, 5, 2, 8, 7, 0, 9, 3, 2, 7, 1, 9,
        7, 0, 7, 1, 4, 5, 5, 0, 0, 7, 1, 9, 7, 0, 9, 6, 3, 3, 5, 2, 2, 3, 2, 9, 9, 0, 6, 4, 7, 5,
        4, 9, 1, 2, 5, 7, 5, 1, 9, 4, 9, 9, 6, 2, 8, 3, 7, 6, 4, 5, 6, 6, 6, 1, 5, 4, 4, 1, 3, 4,
        8, 2, 1, 2, 5, 9, 0, 9, 2, 4, 1, 0, 3, 9, 6, 4, 5, 2, 7, 2, 2, 9, 7, 8, 0, 8, 6, 7, 3, 0,
        4, 1, 6, 9, 2, 3, 8, 4, 8, 2, 2, 0, 1, 0, 6, 7, 3, 3, 8, 5, 3, 3, 7, 6, 4, 9, 0, 7, 8, 0,
        9, 9, 3, 0, 6, 3, 0, 7, 0, 0, 0, 3, 1, 4, 6, 2, 9, 9, 1, 0, 4, 0, 2, 9, 1, 6, 1, 2, 8, 1,
        3, 0, 2, 5, 8, 5, 0, 7, 0, 2, 7, 4, 6, 2, 9, 7, 3, 9, 5, 3, 0, 0, 8, 2, 6, 4, 5, 9, 0, 7,
        3, 2, 9, 9, 6, 6, 4, 0, 1, 9, 8, 9, 3, 0, 0, 7, 9, 3, 6, 4, 3, 4, 6, 7, 8, 2, 3, 5, 6, 3,
        0, 2, 6, 0, 5, 3, 5, 9, 4, 4, 6, 0, 8, 8, 8, 0,
    ];
    let y: Vec<i32> = vec![
        5, 9, 6, 9, 4, 0, 1, 4, 5, 2, 8, 0, 3, 9, 8, 0, 1, 8, 7, 2, 4, 3, 4, 1, 7, 9, 2, 3, 5, 4,
        1, 4, 7, 4, 8, 6, 0, 4, 2, 5, 4, 6, 4, 1, 2, 8, 9, 6, 0, 1, 9, 5, 6, 1, 8, 6, 2, 4, 7, 7,
        7, 4, 3, 4, 4, 6, 5, 6, 2, 5, 3, 9, 9, 0, 1, 7, 9, 0, 2, 4, 5, 8, 3, 6, 8, 6, 4, 5, 1, 7,
        1, 3, 7, 1, 8, 8, 7, 9, 6, 3, 0, 3, 8, 4, 0, 3, 7, 6, 3, 7, 1, 8, 5, 2, 5, 6, 5, 7, 5, 0,
        1, 0, 1, 2, 8, 2, 8, 0, 5, 4, 1, 8, 9, 7, 5, 4, 4, 2, 4, 8, 2, 0, 2, 0, 1, 9, 6, 3, 9, 7,
        4, 4, 0, 5, 8, 9, 3, 9, 6, 8, 6, 1, 3, 5, 7, 0, 7, 5, 8, 7, 6, 6, 0, 1, 0, 7, 5, 1, 4, 2,
        3, 8, 9, 3, 1, 2, 5, 2, 8, 7, 4, 4, 4, 5, 1, 8, 8, 8, 5, 2, 5, 6, 1, 0, 4, 8, 3, 0, 1, 1,
        8, 1, 6, 9, 1, 3, 9, 2, 8, 4, 1, 2, 5, 1, 5, 8, 5, 5, 0, 8, 4, 3, 5, 5, 6, 6, 1, 0, 9, 6,
        2, 4, 5, 6, 7, 7, 0, 3, 3, 1, 3, 6, 6, 2, 9, 1,
    ];
    let matrix_x = Matrix::new(&x, 16, 16);
    let matrix_y = Matrix::new(&y, 16, 16);
    proof {
        assert(x@ =~= sample_x_cells());
        assert(y@ =~= sample_y_cells());
        assert(matrix_x.data@ =~= x@);
        assert(matrix_y.data@ =~= y@);
    }
    (matrix_x, matrix_y)
}

/// Runs the matrix-multiply program on the sample matrices: slots 0 and 1
/// hold the two fixed-capacity uniform blocks, slot 2 an all-zero product
/// cell per grid point, written by the program and read back, over one work
/// unit per product cell. A device that runs the program faithfully returns
/// `reference::matmul_expected` of the used cells.
pub fn execute_matrix_dot_product(dispatcher: &ComputeDispatcher, program: &str) -> (r: Result<
    Vec<i32>,
    Error,
>)
    ensures
        !contains_bytes(program.spec_bytes(), "main".spec_bytes()) ==> r == Err::<
            Vec<i32>,
            Error,
        >(Error::CompileError),
        r is Ok ==> r->Ok_0@.len() == 256,
        r is Ok ==> contains_bytes(program.spec_bytes(), "main".spec_bytes()),
        r is Err ==> (r->Err_0 == Error::CompileError || r->Err_0 == Error::BindingError
            || r->Err_0 == Error::ExecutionError),
{
    let (matrix_x, matrix_y) = sample_matrices();
    let mut out: Vec<i32> = Vec::new();
    let mut k: usize = 0;
    while k < 256
        invariant
            out@.len() == k,
            k <= 256,
        decreases 256 - k,
    {
        out.push(0);
        k = k + 1;
    }
    let grid = GridDims { x: matrix_x.y, y: matrix_y.x, z: 1 };
    let mut inputs: Vec<InputBinding> = Vec::new();
    inputs.push(
        InputBinding { slot: 0, kind: BindingKind::Uniform, data: matrix_to_bytes(&matrix_x) },
    );
    inputs.push(
        InputBinding { slot: 1, kind: BindingKind::Uniform, data: matrix_to_bytes(&matrix_y) },
    );
    inputs.push(
        InputBinding {
            slot: 2,
            kind: BindingKind::StorageReadWrite,
            data: codec::encode_i32s(&out),
        },
    );
    let bytes = match dispatcher.dispatch(program, "main", &inputs, 2, 1024, grid) {
        Ok(b) => b,
        Err(e) => {
            return Err(e);
        },
    };
    Ok(codec::decode_i32s(&bytes))
}

} // verus!
