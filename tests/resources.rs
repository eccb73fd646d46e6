use rikka_gpu::allocator::MemoryAllocator;
use rikka_gpu::buffer::{
    host_visible, Buffer, BufferDesc, BufferLocation, MemoryRequirements, ResourceUsageType,
    BUFFER_USAGE_UNIFORM_BUFFER, BUFFER_USAGE_VERTEX_BUFFER,
};
use rikka_gpu::error::GpuError;

/// Bytes of {model, view, projection: 4x4 f32; eye, light: 4 x f32}.
const UNIFORM_BYTES: u32 = 3 * 64 + 2 * 16;

fn req(size: u64, alignment: u64) -> MemoryRequirements {
    MemoryRequirements { size, alignment }
}

#[test]
fn buffer_desc_defaults_and_setters() {
    let d = BufferDesc::new();
    assert_eq!(d.usage_flags, 0);
    assert_eq!(d.resource_usage, ResourceUsageType::Immutable);
    assert_eq!(d.size, 0);
    assert!(d.device_only);
    let d = d
        .set_size(64)
        .set_usage_flags(BUFFER_USAGE_UNIFORM_BUFFER)
        .set_resource_usage(ResourceUsageType::Dynamic)
        .set_device_only(false);
    assert_eq!(d.size, 64);
    assert_eq!(d.usage_flags, 0x10);
    assert_eq!(d.resource_usage, ResourceUsageType::Dynamic);
    assert!(!d.device_only);
}

#[test]
fn buffer_location_follows_device_only() {
    assert_eq!(BufferDesc::new().location(), BufferLocation::GpuOnly);
    assert_eq!(BufferDesc::new().set_device_only(false).location(), BufferLocation::CpuToGpu);
    assert!(!host_visible(BufferLocation::GpuOnly));
    assert!(host_visible(BufferLocation::CpuToGpu));
    assert!(host_visible(BufferLocation::PersistentMapped));
}

#[test]
fn create_usage_adds_both_transfer_bits() {
    let d = BufferDesc::new().set_usage_flags(BUFFER_USAGE_UNIFORM_BUFFER);
    assert_eq!(d.create_usage_flags(), 0x13);
    let d = BufferDesc::new().set_usage_flags(BUFFER_USAGE_VERTEX_BUFFER | 0x3);
    assert_eq!(d.create_usage_flags(), 0x83);
    assert_eq!(BufferDesc::new().create_usage_flags(), 0x3);
}

#[test]
fn allocate_rounds_up_to_alignment() {
    let mut a = MemoryAllocator::new(1024);
    let x = a.allocate(10, 8, BufferLocation::CpuToGpu).unwrap();
    assert_eq!(x.size, 16);
    assert_eq!(x.location, BufferLocation::CpuToGpu);
    assert!(x.is_mapped());
    let y = a.allocate(32, 16, BufferLocation::GpuOnly).unwrap();
    assert_eq!(y.size, 32);
    assert!(!y.is_mapped());
    assert_ne!(x.id, y.id);
    assert_eq!(a.total_allocated(), 48);
    assert_eq!(a.allocation_count(), 2);
}

#[test]
fn allocate_out_of_memory_leaves_allocator_unchanged() {
    let mut a = MemoryAllocator::new(100);
    a.allocate(60, 4, BufferLocation::GpuOnly).unwrap();
    assert_eq!(a.allocate(41, 1, BufferLocation::GpuOnly), Err(GpuError::OutOfMemory));
    // 38 rounds up to 40, which still fits exactly.
    assert_eq!(a.allocate(38, 8, BufferLocation::GpuOnly).unwrap().size, 40);
    assert_eq!(a.total_allocated(), 100);
    assert_eq!(a.allocate(1, 1, BufferLocation::GpuOnly), Err(GpuError::OutOfMemory));
    assert_eq!(a.allocation_count(), 2);
}

#[test]
fn free_of_unknown_allocation_is_rejected() {
    let mut a = MemoryAllocator::new(100);
    let x = a.allocate(8, 8, BufferLocation::GpuOnly).unwrap();
    assert_eq!(a.free(x), Ok(()));
    assert_eq!(a.free(x), Err(GpuError::UnknownAllocation));
    assert_eq!(a.total_allocated(), 0);
}

#[test]
fn create_then_destroy_restores_allocated_bytes() {
    let mut a = MemoryAllocator::new(4096);
    let keep = a.allocate(100, 4, BufferLocation::GpuOnly).unwrap();
    let before = a.total_allocated();
    for size in [1u32, 7, 64, 208, 224, 1000] {
        let desc = BufferDesc::new().set_size(size).set_device_only(size % 2 == 0);
        let b = Buffer::create(&mut a, 9, desc, req(size as u64, 256)).unwrap();
        assert!(a.total_allocated() > before);
        assert_eq!(b.destroy(&mut a), Ok(()));
        assert_eq!(a.total_allocated(), before);
    }
    assert_eq!(a.free(keep), Ok(()));
    assert_eq!(a.total_allocated(), 0);
}

#[test]
fn create_failure_leaves_nothing_behind() {
    let mut a = MemoryAllocator::new(64);
    let desc = BufferDesc::new().set_size(128);
    assert!(matches!(
        Buffer::create(&mut a, 1, desc, req(128, 4)),
        Err(GpuError::OutOfMemory)
    ));
    assert_eq!(a.total_allocated(), 0);
    assert_eq!(a.allocation_count(), 0);
}

#[test]
fn buffer_getters() {
    let mut a = MemoryAllocator::new(4096);
    let desc = BufferDesc::new()
        .set_size(48)
        .set_resource_usage(ResourceUsageType::Stream)
        .set_device_only(false);
    let b = Buffer::create(&mut a, 77, desc, req(64, 64)).unwrap();
    assert_eq!(b.raw(), 77);
    assert_eq!(b.size(), 48);
    assert_eq!(b.resource_usage_type(), ResourceUsageType::Stream);
    assert_eq!(b.allocation().size, 64);
    assert_eq!(b.allocation().location, BufferLocation::CpuToGpu);
    assert_eq!(b.contents_bytes(), &[0u8; 48][..]);
}

#[test]
fn copy_to_device_only_buffer_is_rejected() {
    let mut a = MemoryAllocator::new(4096);
    let desc = BufferDesc::new().set_size(16);
    let mut b = Buffer::create(&mut a, 1, desc, req(16, 16)).unwrap();
    assert_eq!(b.copy_data_to_buffer(&[1, 2, 3]), Err(GpuError::NotHostVisible));
    assert!(b.contents_bytes().is_empty());
}

#[test]
fn copy_larger_than_buffer_is_rejected() {
    let mut a = MemoryAllocator::new(4096);
    let desc = BufferDesc::new().set_size(4).set_device_only(false);
    let mut b = Buffer::create(&mut a, 1, desc, req(4, 4)).unwrap();
    assert_eq!(b.copy_data_to_buffer(&[1, 2, 3, 4, 5]), Err(GpuError::DataTooLarge));
    assert_eq!(b.contents_bytes(), &[0, 0, 0, 0]);
    assert_eq!(b.copy_data_to_buffer(&[9, 8]), Ok(()));
    assert_eq!(b.contents_bytes(), &[9, 8, 0, 0]);
}

fn uniform_bytes(model_scale: f32, view: f32, eye: [f32; 4]) -> Vec<u8> {
    let mut out = Vec::new();
    let diag = |d: f32| {
        let mut m = [0f32; 16];
        m[0] = d;
        m[5] = d;
        m[10] = d;
        m[15] = 1.0;
        m
    };
    for m in [diag(model_scale), diag(view), diag(1.0)] {
        for v in m {
            out.extend_from_slice(&v.to_ne_bytes());
        }
    }
    for v in eye.iter().chain([-1.5f32, 2.5, -0.5, 1.0].iter()) {
        out.extend_from_slice(&v.to_ne_bytes());
    }
    out
}

#[test]
fn uniform_buffer_sees_latest_write() {
    let mut a = MemoryAllocator::new(1 << 20);
    let desc = BufferDesc::new()
        .set_size(UNIFORM_BYTES)
        .set_usage_flags(BUFFER_USAGE_UNIFORM_BUFFER)
        .set_device_only(false);
    let mut b = Buffer::create(&mut a, 3, desc, req(UNIFORM_BYTES as u64, 256)).unwrap();
    let first = uniform_bytes(0.004, 1.0, [1.0, 1.0, 1.0, 1.0]);
    let second = uniform_bytes(0.004, 2.0, [0.0, 2.5, 2.0, 1.0]);
    assert_eq!(first.len(), UNIFORM_BYTES as usize);
    assert_eq!(b.copy_data_to_buffer(&first), Ok(()));
    assert_eq!(b.contents_bytes(), &first[..]);
    assert_eq!(b.copy_data_to_buffer(&second), Ok(()));
    assert_eq!(b.contents_bytes(), &second[..]);
    assert_ne!(b.contents_bytes(), &first[..]);
}
