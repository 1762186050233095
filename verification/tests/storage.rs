use cubecl::runtime::storage::{
    Binding, BindingResource, ComputeStorage, StorageHandle, StorageId, StorageUtilization,
};

fn handle(offset: usize, size: usize) -> StorageHandle {
    StorageHandle::new(StorageId { value: 7 }, StorageUtilization { offset, size })
}

#[test]
fn handle_reports_its_part() {
    let handle = handle(32, 96);
    assert_eq!(handle.size(), 96);
    assert_eq!(handle.offset(), 32);
    assert_eq!(handle.id, StorageId { value: 7 });
}

#[test]
fn offset_start_moves_the_beginning() {
    let moved = handle(32, 96).offset_start(16);
    assert_eq!(moved, handle(48, 80));
    assert_eq!(moved.offset() + moved.size(), 128);
    assert_eq!(handle(32, 96).offset_start(0), handle(32, 96));
    assert_eq!(handle(32, 96).offset_start(96), handle(128, 0));
}

#[test]
fn offset_end_moves_the_end() {
    assert_eq!(handle(32, 96).offset_end(16), handle(32, 80));
    assert_eq!(handle(32, 96).offset_end(0), handle(32, 96));
    assert_eq!(handle(32, 96).offset_end(96), handle(32, 0));
    assert_eq!(handle(8, 64).offset_start(8).offset_end(8), handle(16, 48));
}

struct Bytes {
    chunks: Vec<Vec<u8>>,
}

impl ComputeStorage for Bytes {
    type Resource = Vec<u8>;

    fn alignment(&self) -> usize {
        4
    }

    fn get(&mut self, handle: &StorageHandle) -> Vec<u8> {
        let chunk = &self.chunks[handle.id.value as usize];
        chunk[handle.offset()..handle.offset() + handle.size()].to_vec()
    }

    fn allocate(&mut self, size: usize) -> StorageHandle {
        self.chunks.push((0..size).map(|i| i as u8).collect());
        StorageHandle::new(
            StorageId { value: self.chunks.len() as u64 - 1 },
            StorageUtilization { offset: 0, size },
        )
    }

    fn dealloc(&mut self, id: StorageId) {
        self.chunks[id.value as usize].clear();
    }
}

#[test]
fn binding_resource_hands_out_its_resource() {
    let mut storage = Bytes { chunks: Vec::new() };
    assert_eq!(storage.alignment(), 4);
    let handle = storage.allocate(16).offset_start(4).offset_end(8);
    let resource = storage.get(&handle);
    let bound: BindingResource<Bytes> = BindingResource::new(Binding { handle }, resource);
    assert_eq!(bound.resource(), &vec![4u8, 5, 6, 7]);
    storage.dealloc(handle.id);
    assert_eq!(bound.resource().len(), 4);
}
