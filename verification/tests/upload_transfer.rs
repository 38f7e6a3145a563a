use framesync::memory::{find_memory_type_index, MemTypeProps};
use framesync::staging::{upload, BufferUsage, Heap, TransferFlags};
use framesync::EngineError;

fn host_type() -> MemTypeProps {
    MemTypeProps { device_local: false, host_visible: true, host_coherent: true }
}

fn device_type() -> MemTypeProps {
    MemTypeProps { device_local: true, host_visible: false, host_coherent: false }
}

/// A typical small memory-type table: one host-visible type, one
/// device-local type, every bit admissible.
fn table() -> (Vec<MemTypeProps>, u32) {
    (vec![host_type(), device_type()], 0b11)
}

fn quad_vertex_bytes() -> Vec<u8> {
    let quad: [(f32, f32); 4] = [(-0.5, -0.5), (0.5, -0.5), (0.5, 0.5), (-0.5, 0.5)];
    let mut bytes = Vec::new();
    for &(x, y) in quad.iter() {
        bytes.extend_from_slice(&x.to_le_bytes());
        bytes.extend_from_slice(&y.to_le_bytes());
    }
    bytes
}

fn quad_index_bytes() -> Vec<u8> {
    let indices: [u32; 6] = [0, 1, 2, 2, 3, 0];
    let mut bytes = Vec::new();
    for &i in indices.iter() {
        bytes.extend_from_slice(&i.to_le_bytes());
    }
    bytes
}

fn live_allocations(heap: &Heap) -> usize {
    heap.allocs.iter().filter(|a| a.is_some()).count()
}

#[test]
fn upload_round_trip_returns_identical_bytes() {
    let (types, filter) = table();
    let mut heap = Heap::new();
    let data = quad_vertex_bytes();
    let buf = upload(&mut heap, &types, filter, &data, BufferUsage::Vertex).unwrap();
    assert_eq!(buf.usage, BufferUsage::Vertex);
    assert_eq!(buf.size, data.len());
    let read = heap.read_back(buf.alloc_id).unwrap();
    assert_eq!(read, data);
}

#[test]
fn scenario_quad_and_index_upload() {
    let (types, filter) = table();
    let mut heap = Heap::new();
    let vertices = quad_vertex_bytes();
    let indices = quad_index_bytes();

    let vertex_buf = upload(&mut heap, &types, filter, &vertices, BufferUsage::Vertex).unwrap();
    let index_buf = upload(&mut heap, &types, filter, &indices, BufferUsage::Index).unwrap();

    assert_eq!(heap.read_back(vertex_buf.alloc_id).unwrap(), vertices);
    assert_eq!(heap.read_back(index_buf.alloc_id).unwrap(), indices);

    // The staging buffers no longer exist: only the two device-local
    // destinations are live.
    assert_eq!(live_allocations(&heap), 2);
    assert!(heap.allocs[vertex_buf.alloc_id - 1].is_none());
    assert!(heap.allocs[index_buf.alloc_id - 1].is_none());
}

#[test]
fn upload_without_device_local_type_is_refused() {
    let types = vec![host_type()];
    let mut heap = Heap::new();
    let data = vec![1u8, 2, 3];
    let r = upload(&mut heap, &types, 0b1, &data, BufferUsage::Vertex);
    assert_eq!(r, Err(EngineError::MissingCapability));
    assert_eq!(heap.allocs.len(), 0);
}

#[test]
fn upload_without_host_visible_type_is_refused() {
    let types = vec![device_type()];
    let mut heap = Heap::new();
    let data = vec![1u8, 2, 3];
    let r = upload(&mut heap, &types, 0b1, &data, BufferUsage::Index);
    assert_eq!(r, Err(EngineError::MissingCapability));
    assert_eq!(heap.allocs.len(), 0);
}

#[test]
fn memory_type_selection_takes_first_qualifying_index() {
    let types = vec![host_type(), device_type(), device_type()];
    // All bits admissible: the first device-local entry wins.
    assert_eq!(
        find_memory_type_index(&types, 0b111, device_type()),
        Some(1)
    );
    // The requirement mask rules index 1 out: the scan moves on.
    assert_eq!(
        find_memory_type_index(&types, 0b101, device_type()),
        Some(2)
    );
    // Nothing qualifies.
    assert_eq!(find_memory_type_index(&types, 0b001, device_type()), None);
}

#[test]
fn mapped_write_is_bounds_checked() {
    let mut heap = Heap::new();
    let id = heap.allocate(
        4,
        0,
        host_type(),
        TransferFlags { transfer_src: true, transfer_dst: false },
    );
    // In range.
    assert_eq!(heap.write(id, 1, &vec![7u8, 8]), Ok(()));
    assert_eq!(heap.read_back(id).unwrap(), vec![0u8, 7, 8, 0]);
    // Out of range: refused, nothing changed.
    assert_eq!(
        heap.write(id, 3, &vec![1u8, 2]),
        Err(EngineError::AllocationFailed)
    );
    assert_eq!(heap.read_back(id).unwrap(), vec![0u8, 7, 8, 0]);
}

#[test]
fn mapping_non_host_visible_memory_fails() {
    let mut heap = Heap::new();
    let id = heap.allocate(
        4,
        1,
        device_type(),
        TransferFlags { transfer_src: false, transfer_dst: true },
    );
    assert_eq!(
        heap.write(id, 0, &vec![1u8]),
        Err(EngineError::AllocationFailed)
    );
}

#[test]
fn freed_allocations_stay_dead() {
    let mut heap = Heap::new();
    let id = heap.allocate(
        2,
        0,
        host_type(),
        TransferFlags { transfer_src: true, transfer_dst: false },
    );
    assert_eq!(heap.free(id), Ok(()));
    assert!(heap.read_back(id).is_none());
    assert_eq!(heap.free(id), Err(EngineError::AllocationFailed));
    assert_eq!(
        heap.write(id, 0, &vec![1u8]),
        Err(EngineError::AllocationFailed)
    );
}

#[test]
fn transfer_checks_sizes_and_flags() {
    let mut heap = Heap::new();
    let src = heap.allocate(
        4,
        0,
        host_type(),
        TransferFlags { transfer_src: true, transfer_dst: false },
    );
    let small = heap.allocate(
        2,
        1,
        device_type(),
        TransferFlags { transfer_src: false, transfer_dst: true },
    );
    // The source does not fit into the destination.
    assert_eq!(
        heap.transfer(src, small),
        Err(EngineError::AllocationFailed)
    );
    // The destination is not marked as a transfer destination.
    let not_dst = heap.allocate(
        4,
        1,
        device_type(),
        TransferFlags { transfer_src: false, transfer_dst: false },
    );
    assert_eq!(
        heap.transfer(src, not_dst),
        Err(EngineError::AllocationFailed)
    );
    // A well-formed transfer copies the full source range.
    let dst = heap.allocate(
        4,
        1,
        device_type(),
        TransferFlags { transfer_src: false, transfer_dst: true },
    );
    assert_eq!(heap.write(src, 0, &vec![9u8, 8, 7, 6]), Ok(()));
    assert_eq!(heap.transfer(src, dst), Ok(()));
    assert_eq!(heap.read_back(dst).unwrap(), vec![9u8, 8, 7, 6]);
}
