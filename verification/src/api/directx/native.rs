//! The numbers of DXGI and Direct3D 12 that the descriptions are written in.

use vstd::prelude::*;

verus! {

// Factories and devices.
pub const DXGI_CREATE_FACTORY_DEBUG: u32 = 1;
pub const D3D_FEATURE_LEVEL_12_0: i32 = 49152;

// Command queues, allocators and lists.
pub const D3D12_COMMAND_LIST_TYPE_DIRECT: i32 = 0;
pub const D3D12_COMMAND_QUEUE_PRIORITY_NORMAL: i32 = 0;
pub const D3D12_COMMAND_QUEUE_FLAG_NONE: i32 = 0;

// Fences.
pub const D3D12_FENCE_FLAG_NONE: i32 = 0;

// Swapchains.
pub const DXGI_MAX_SWAP_CHAIN_BUFFERS: u32 = 16;
pub const DXGI_USAGE_RENDER_TARGET_OUTPUT: u32 = 32;
pub const DXGI_SCALING_STRETCH: i32 = 0;
pub const DXGI_SWAP_EFFECT_FLIP_SEQUENTIAL: i32 = 3;

// Pipelines.
pub const D3D12_PRIMITIVE_TOPOLOGY_TYPE_POINT: i32 = 1;
pub const D3D12_PRIMITIVE_TOPOLOGY_TYPE_LINE: i32 = 2;
pub const D3D12_PRIMITIVE_TOPOLOGY_TYPE_TRIANGLE: i32 = 3;
pub const D3D12_PRIMITIVE_TOPOLOGY_TYPE_PATCH: i32 = 4;
pub const D3D12_DEFAULT_DEPTH_BIAS: i32 = 0;
pub const D3D12_CONSERVATIVE_RASTERIZATION_MODE_OFF: i32 = 0;
pub const D3D12_DEPTH_WRITE_MASK_ZERO: i32 = 0;
pub const D3D12_COMPARISON_FUNC_NEVER: i32 = 1;
pub const D3D12_STENCIL_OP_KEEP: i32 = 1;
pub const D3D12_LOGIC_OP_NOOP: i32 = 4;
pub const D3D12_INDEX_BUFFER_STRIP_CUT_VALUE_DISABLED: i32 = 0;
pub const D3D12_PIPELINE_STATE_FLAG_NONE: i32 = 0;

} // verus!
