//! Pipeline-stage and access-flag bitsets.
//!
//! Dense enumerations of the points in the GPU command pipeline and of the
//! read/write classes used to scope barriers.  Both support bitwise union and
//! conversion to the native bit pattern; a resource-access record pairs one
//! value of each to describe the latest use of a resource along a chain.

use vstd::prelude::*;

verus! {

/// A set of pipeline stages, one flag per stage.
#[derive(Clone, Copy, PartialEq, Eq, Structural, Debug)]
pub struct PipelineStages {
    pub top_of_pipe: bool,
    pub draw_indirect: bool,
    pub vertex_input: bool,
    pub vertex_shader: bool,
    pub tessellation_control_shader: bool,
    pub tessellation_evaluation_shader: bool,
    pub geometry_shader: bool,
    pub fragment_shader: bool,
    pub early_fragment_tests: bool,
    pub late_fragment_tests: bool,
    pub color_attachment_output: bool,
    pub compute_shader: bool,
    pub transfer: bool,
    pub bottom_of_pipe: bool,
    pub host: bool,
    pub all_graphics: bool,
    pub all_commands: bool,
}

impl PipelineStages {
    /// The value with none of the bits set.
    pub open spec fn none_spec() -> PipelineStages {
        PipelineStages {
            top_of_pipe: false,
            draw_indirect: false,
            vertex_input: false,
            vertex_shader: false,
            tessellation_control_shader: false,
            tessellation_evaluation_shader: false,
            geometry_shader: false,
            fragment_shader: false,
            early_fragment_tests: false,
            late_fragment_tests: false,
            color_attachment_output: false,
            compute_shader: false,
            transfer: false,
            bottom_of_pipe: false,
            host: false,
            all_graphics: false,
            all_commands: false,
        }
    }

    /// Bitwise union, one flag at a time.
    pub open spec fn or_spec(self, rhs: PipelineStages) -> PipelineStages {
        PipelineStages {
            top_of_pipe: self.top_of_pipe || rhs.top_of_pipe,
            draw_indirect: self.draw_indirect || rhs.draw_indirect,
            vertex_input: self.vertex_input || rhs.vertex_input,
            vertex_shader: self.vertex_shader || rhs.vertex_shader,
            tessellation_control_shader: self.tessellation_control_shader || rhs.tessellation_control_shader,
            tessellation_evaluation_shader: self.tessellation_evaluation_shader || rhs.tessellation_evaluation_shader,
            geometry_shader: self.geometry_shader || rhs.geometry_shader,
            fragment_shader: self.fragment_shader || rhs.fragment_shader,
            early_fragment_tests: self.early_fragment_tests || rhs.early_fragment_tests,
            late_fragment_tests: self.late_fragment_tests || rhs.late_fragment_tests,
            color_attachment_output: self.color_attachment_output || rhs.color_attachment_output,
            compute_shader: self.compute_shader || rhs.compute_shader,
            transfer: self.transfer || rhs.transfer,
            bottom_of_pipe: self.bottom_of_pipe || rhs.bottom_of_pipe,
            host: self.host || rhs.host,
            all_graphics: self.all_graphics || rhs.all_graphics,
            all_commands: self.all_commands || rhs.all_commands,
        }
    }

    /// The native bit pattern of the flags.
    pub open spec fn bits_spec(self) -> u32 {
        (if self.top_of_pipe { 0x1u32 } else { 0u32 })
            | (if self.draw_indirect { 0x2u32 } else { 0u32 })
            | (if self.vertex_input { 0x4u32 } else { 0u32 })
            | (if self.vertex_shader { 0x8u32 } else { 0u32 })
            | (if self.tessellation_control_shader { 0x10u32 } else { 0u32 })
            | (if self.tessellation_evaluation_shader { 0x20u32 } else { 0u32 })
            | (if self.geometry_shader { 0x40u32 } else { 0u32 })
            | (if self.fragment_shader { 0x80u32 } else { 0u32 })
            | (if self.early_fragment_tests { 0x100u32 } else { 0u32 })
            | (if self.late_fragment_tests { 0x200u32 } else { 0u32 })
            | (if self.color_attachment_output { 0x400u32 } else { 0u32 })
            | (if self.compute_shader { 0x800u32 } else { 0u32 })
            | (if self.transfer { 0x1000u32 } else { 0u32 })
            | (if self.bottom_of_pipe { 0x2000u32 } else { 0u32 })
            | (if self.host { 0x4000u32 } else { 0u32 })
            | (if self.all_graphics { 0x8000u32 } else { 0u32 })
            | (if self.all_commands { 0x10000u32 } else { 0u32 })
    }

    /// Builds a `PipelineStages` value with none of the bits set.
    pub fn none() -> (r: PipelineStages)
        ensures
            r == PipelineStages::none_spec(),
    {
        PipelineStages {
            top_of_pipe: false,
            draw_indirect: false,
            vertex_input: false,
            vertex_shader: false,
            tessellation_control_shader: false,
            tessellation_evaluation_shader: false,
            geometry_shader: false,
            fragment_shader: false,
            early_fragment_tests: false,
            late_fragment_tests: false,
            color_attachment_output: false,
            compute_shader: false,
            transfer: false,
            bottom_of_pipe: false,
            host: false,
            all_graphics: false,
            all_commands: false,
        }
    }

    /// Bitwise union of two flag sets.
    pub fn or(self, rhs: PipelineStages) -> (r: PipelineStages)
        ensures
            r == self.or_spec(rhs),
    {
        PipelineStages {
            top_of_pipe: self.top_of_pipe || rhs.top_of_pipe,
            draw_indirect: self.draw_indirect || rhs.draw_indirect,
            vertex_input: self.vertex_input || rhs.vertex_input,
            vertex_shader: self.vertex_shader || rhs.vertex_shader,
            tessellation_control_shader: self.tessellation_control_shader || rhs.tessellation_control_shader,
            tessellation_evaluation_shader: self.tessellation_evaluation_shader || rhs.tessellation_evaluation_shader,
            geometry_shader: self.geometry_shader || rhs.geometry_shader,
            fragment_shader: self.fragment_shader || rhs.fragment_shader,
            early_fragment_tests: self.early_fragment_tests || rhs.early_fragment_tests,
            late_fragment_tests: self.late_fragment_tests || rhs.late_fragment_tests,
            color_attachment_output: self.color_attachment_output || rhs.color_attachment_output,
            compute_shader: self.compute_shader || rhs.compute_shader,
            transfer: self.transfer || rhs.transfer,
            bottom_of_pipe: self.bottom_of_pipe || rhs.bottom_of_pipe,
            host: self.host || rhs.host,
            all_graphics: self.all_graphics || rhs.all_graphics,
            all_commands: self.all_commands || rhs.all_commands,
        }
    }

    /// Converts the flags to the native bit pattern.
    pub fn bits(self) -> (r: u32)
        ensures
            r == self.bits_spec(),
    {
        (if self.top_of_pipe { 0x1u32 } else { 0u32 })
            | (if self.draw_indirect { 0x2u32 } else { 0u32 })
            | (if self.vertex_input { 0x4u32 } else { 0u32 })
            | (if self.vertex_shader { 0x8u32 } else { 0u32 })
            | (if self.tessellation_control_shader { 0x10u32 } else { 0u32 })
            | (if self.tessellation_evaluation_shader { 0x20u32 } else { 0u32 })
            | (if self.geometry_shader { 0x40u32 } else { 0u32 })
            | (if self.fragment_shader { 0x80u32 } else { 0u32 })
            | (if self.early_fragment_tests { 0x100u32 } else { 0u32 })
            | (if self.late_fragment_tests { 0x200u32 } else { 0u32 })
            | (if self.color_attachment_output { 0x400u32 } else { 0u32 })
            | (if self.compute_shader { 0x800u32 } else { 0u32 })
            | (if self.transfer { 0x1000u32 } else { 0u32 })
            | (if self.bottom_of_pipe { 0x2000u32 } else { 0u32 })
            | (if self.host { 0x4000u32 } else { 0u32 })
            | (if self.all_graphics { 0x8000u32 } else { 0u32 })
            | (if self.all_commands { 0x10000u32 } else { 0u32 })
    }
}

/// Union of pipelinestages flags is commutative.
pub proof fn lemma_stages_or_commutes(a: PipelineStages, b: PipelineStages)
    ensures
        a.or_spec(b) == b.or_spec(a),
{
}

/// Union of flags is associative.
#[verifier::rlimit(50)]
pub proof fn lemma_stages_or_associates(a: PipelineStages, b: PipelineStages, c: PipelineStages)
    ensures
        a.or_spec(b).or_spec(c) == a.or_spec(b.or_spec(c)),
{
}

/// Union of flags is idempotent.
pub proof fn lemma_stages_or_idempotent(a: PipelineStages)
    ensures
        a.or_spec(a) == a,
{
}

/// The empty flag set is the identity of union.
pub proof fn lemma_stages_or_none(a: PipelineStages)
    ensures
        a.or_spec(PipelineStages::none_spec()) == a,
        PipelineStages::none_spec().or_spec(a) == a,
{
}

/// A set of memory-access classes, one flag per class.
#[derive(Clone, Copy, PartialEq, Eq, Structural, Debug)]
pub struct AccessFlagBits {
    pub indirect_command_read: bool,
    pub index_read: bool,
    pub vertex_attribute_read: bool,
    pub uniform_read: bool,
    pub input_attachment_read: bool,
    pub shader_read: bool,
    pub shader_write: bool,
    pub color_attachment_read: bool,
    pub color_attachment_write: bool,
    pub depth_stencil_attachment_read: bool,
    pub depth_stencil_attachment_write: bool,
    pub transfer_read: bool,
    pub transfer_write: bool,
    pub host_read: bool,
    pub host_write: bool,
    pub memory_read: bool,
    pub memory_write: bool,
}

impl AccessFlagBits {
    /// The value with none of the bits set.
    pub open spec fn none_spec() -> AccessFlagBits {
        AccessFlagBits {
            indirect_command_read: false,
            index_read: false,
            vertex_attribute_read: false,
            uniform_read: false,
            input_attachment_read: false,
            shader_read: false,
            shader_write: false,
            color_attachment_read: false,
            color_attachment_write: false,
            depth_stencil_attachment_read: false,
            depth_stencil_attachment_write: false,
            transfer_read: false,
            transfer_write: false,
            host_read: false,
            host_write: false,
            memory_read: false,
            memory_write: false,
        }
    }

    /// The value with all of the bits set.
    pub open spec fn all_spec() -> AccessFlagBits {
        AccessFlagBits {
            indirect_command_read: true,
            index_read: true,
            vertex_attribute_read: true,
            uniform_read: true,
            input_attachment_read: true,
            shader_read: true,
            shader_write: true,
            color_attachment_read: true,
            color_attachment_write: true,
            depth_stencil_attachment_read: true,
            depth_stencil_attachment_write: true,
            transfer_read: true,
            transfer_write: true,
            host_read: true,
            host_write: true,
            memory_read: true,
            memory_write: true,
        }
    }

    /// Bitwise union, one flag at a time.
    pub open spec fn or_spec(self, rhs: AccessFlagBits) -> AccessFlagBits {
        AccessFlagBits {
            indirect_command_read: self.indirect_command_read || rhs.indirect_command_read,
            index_read: self.index_read || rhs.index_read,
            vertex_attribute_read: self.vertex_attribute_read || rhs.vertex_attribute_read,
            uniform_read: self.uniform_read || rhs.uniform_read,
            input_attachment_read: self.input_attachment_read || rhs.input_attachment_read,
            shader_read: self.shader_read || rhs.shader_read,
            shader_write: self.shader_write || rhs.shader_write,
            color_attachment_read: self.color_attachment_read || rhs.color_attachment_read,
            color_attachment_write: self.color_attachment_write || rhs.color_attachment_write,
            depth_stencil_attachment_read: self.depth_stencil_attachment_read || rhs.depth_stencil_attachment_read,
            depth_stencil_attachment_write: self.depth_stencil_attachment_write || rhs.depth_stencil_attachment_write,
            transfer_read: self.transfer_read || rhs.transfer_read,
            transfer_write: self.transfer_write || rhs.transfer_write,
            host_read: self.host_read || rhs.host_read,
            host_write: self.host_write || rhs.host_write,
            memory_read: self.memory_read || rhs.memory_read,
            memory_write: self.memory_write || rhs.memory_write,
        }
    }

    /// The native bit pattern of the flags.
    pub open spec fn bits_spec(self) -> u32 {
        (if self.indirect_command_read { 0x1u32 } else { 0u32 })
            | (if self.index_read { 0x2u32 } else { 0u32 })
            | (if self.vertex_attribute_read { 0x4u32 } else { 0u32 })
            | (if self.uniform_read { 0x8u32 } else { 0u32 })
            | (if self.input_attachment_read { 0x10u32 } else { 0u32 })
            | (if self.shader_read { 0x20u32 } else { 0u32 })
            | (if self.shader_write { 0x40u32 } else { 0u32 })
            | (if self.color_attachment_read { 0x80u32 } else { 0u32 })
            | (if self.color_attachment_write { 0x100u32 } else { 0u32 })
            | (if self.depth_stencil_attachment_read { 0x200u32 } else { 0u32 })
            | (if self.depth_stencil_attachment_write { 0x400u32 } else { 0u32 })
            | (if self.transfer_read { 0x800u32 } else { 0u32 })
            | (if self.transfer_write { 0x1000u32 } else { 0u32 })
            | (if self.host_read { 0x2000u32 } else { 0u32 })
            | (if self.host_write { 0x4000u32 } else { 0u32 })
            | (if self.memory_read { 0x8000u32 } else { 0u32 })
            | (if self.memory_write { 0x10000u32 } else { 0u32 })
    }

    /// Builds a `AccessFlagBits` value with none of the bits set.
    pub fn none() -> (r: AccessFlagBits)
        ensures
            r == AccessFlagBits::none_spec(),
    {
        AccessFlagBits {
            indirect_command_read: false,
            index_read: false,
            vertex_attribute_read: false,
            uniform_read: false,
            input_attachment_read: false,
            shader_read: false,
            shader_write: false,
            color_attachment_read: false,
            color_attachment_write: false,
            depth_stencil_attachment_read: false,
            depth_stencil_attachment_write: false,
            transfer_read: false,
            transfer_write: false,
            host_read: false,
            host_write: false,
            memory_read: false,
            memory_write: false,
        }
    }

    /// Builds a `AccessFlagBits` value with all of the bits set.
    pub fn all() -> (r: AccessFlagBits)
        ensures
            r == AccessFlagBits::all_spec(),
    {
        AccessFlagBits {
            indirect_command_read: true,
            index_read: true,
            vertex_attribute_read: true,
            uniform_read: true,
            input_attachment_read: true,
            shader_read: true,
            shader_write: true,
            color_attachment_read: true,
            color_attachment_write: true,
            depth_stencil_attachment_read: true,
            depth_stencil_attachment_write: true,
            transfer_read: true,
            transfer_write: true,
            host_read: true,
            host_write: true,
            memory_read: true,
            memory_write: true,
        }
    }

    /// Bitwise union of two flag sets.
    pub fn or(self, rhs: AccessFlagBits) -> (r: AccessFlagBits)
        ensures
            r == self.or_spec(rhs),
    {
        AccessFlagBits {
            indirect_command_read: self.indirect_command_read || rhs.indirect_command_read,
            index_read: self.index_read || rhs.index_read,
            vertex_attribute_read: self.vertex_attribute_read || rhs.vertex_attribute_read,
            uniform_read: self.uniform_read || rhs.uniform_read,
            input_attachment_read: self.input_attachment_read || rhs.input_attachment_read,
            shader_read: self.shader_read || rhs.shader_read,
            shader_write: self.shader_write || rhs.shader_write,
            color_attachment_read: self.color_attachment_read || rhs.color_attachment_read,
            color_attachment_write: self.color_attachment_write || rhs.color_attachment_write,
            depth_stencil_attachment_read: self.depth_stencil_attachment_read || rhs.depth_stencil_attachment_read,
            depth_stencil_attachment_write: self.depth_stencil_attachment_write || rhs.depth_stencil_attachment_write,
            transfer_read: self.transfer_read || rhs.transfer_read,
            transfer_write: self.transfer_write || rhs.transfer_write,
            host_read: self.host_read || rhs.host_read,
            host_write: self.host_write || rhs.host_write,
            memory_read: self.memory_read || rhs.memory_read,
            memory_write: self.memory_write || rhs.memory_write,
        }
    }

    /// Converts the flags to the native bit pattern.
    pub fn bits(self) -> (r: u32)
        ensures
            r == self.bits_spec(),
    {
        (if self.indirect_command_read { 0x1u32 } else { 0u32 })
            | (if self.index_read { 0x2u32 } else { 0u32 })
            | (if self.vertex_attribute_read { 0x4u32 } else { 0u32 })
            | (if self.uniform_read { 0x8u32 } else { 0u32 })
            | (if self.input_attachment_read { 0x10u32 } else { 0u32 })
            | (if self.shader_read { 0x20u32 } else { 0u32 })
            | (if self.shader_write { 0x40u32 } else { 0u32 })
            | (if self.color_attachment_read { 0x80u32 } else { 0u32 })
            | (if self.color_attachment_write { 0x100u32 } else { 0u32 })
            | (if self.depth_stencil_attachment_read { 0x200u32 } else { 0u32 })
            | (if self.depth_stencil_attachment_write { 0x400u32 } else { 0u32 })
            | (if self.transfer_read { 0x800u32 } else { 0u32 })
            | (if self.transfer_write { 0x1000u32 } else { 0u32 })
            | (if self.host_read { 0x2000u32 } else { 0u32 })
            | (if self.host_write { 0x4000u32 } else { 0u32 })
            | (if self.memory_read { 0x8000u32 } else { 0u32 })
            | (if self.memory_write { 0x10000u32 } else { 0u32 })
    }
}

/// Union of accessflagbits flags is commutative.
pub proof fn lemma_access_or_commutes(a: AccessFlagBits, b: AccessFlagBits)
    ensures
        a.or_spec(b) == b.or_spec(a),
{
}

/// Union of flags is associative.
#[verifier::rlimit(50)]
pub proof fn lemma_access_or_associates(a: AccessFlagBits, b: AccessFlagBits, c: AccessFlagBits)
    ensures
        a.or_spec(b).or_spec(c) == a.or_spec(b.or_spec(c)),
{
}

/// Union of flags is idempotent.
pub proof fn lemma_access_or_idempotent(a: AccessFlagBits)
    ensures
        a.or_spec(a) == a,
{
}

/// The empty flag set is the identity of union.
pub proof fn lemma_access_or_none(a: AccessFlagBits)
    ensures
        a.or_spec(AccessFlagBits::none_spec()) == a,
        AccessFlagBits::none_spec().or_spec(a) == a,
{
}

} // verus!
